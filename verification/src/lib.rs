//! Arithmetic-circuit gadgets for proving knowledge of two 32-bit words whose
//! bitwise XOR equals a computed word, over a PLONKish constraint system.
//!
//! The crate is organised leaf to root:
//! - [`word`] holds the pure value model: 32-bit words, 8-bit chunks, and the
//!   little-endian decomposition and recomposition between them.
//! - [`gadget::decompose`] binds a word cell to four byte cells over two rows
//!   and registers the algebraic gate tying them together.
//! - [`gadget::xor`] materialises the 65536-row XOR lookup table and binds
//!   advice rows into it.
//! - [`circuit`] composes the two gadgets into the top-level circuit layout.
//! - [`backend`] is the trusted boundary to the proving framework: every call
//!   into it is declared there with the contract the framework's sources show.

pub mod backend;
pub mod circuit;
pub mod error;
pub mod gadget;
pub mod word;
