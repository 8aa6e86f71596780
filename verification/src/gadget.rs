//! The circuit gadgets: word decomposition and the XOR lookup table.

pub mod decompose;
pub mod xor;
