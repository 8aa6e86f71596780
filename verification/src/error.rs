//! The error taxonomy of the gadget library.

use vstd::prelude::*;

verus! {

/// An error surfaced while binding witness values into circuit cells.
///
/// `Synthesis` is returned exactly when a concrete value is demanded (to write
/// a cell or to compute a derived value) while the underlying witness is
/// absent. `Backend` carries an error that the proving framework returned from
/// a cell-assignment primitive; the library never retries or substitutes a
/// default, it propagates the error upward unchanged.
#[derive(Debug)]
pub enum GadgetError {
    /// A concrete value was demanded while the witness was unknown.
    Synthesis,
    /// The proving framework rejected a cell assignment.
    Backend(halo2_proofs::plonk::Error),
}

} // verus!
