//! The top-level circuit: composes the decompose gadget and the XOR table
//! gadget to prove that the prover knows two 32-bit words whose bytewise XOR
//! equals the computed result word.
//!
//! Phases are strictly ordered: configuration (once, allocates columns and
//! registers the decompose gate and the lookup), table load (once, the
//! 65536 XOR rows), then one synthesis pass per proof (witness the two
//! words, decompose each into four chunks, and bind each byte position's
//! `(x, y, x XOR y)` triple into a lookup row). The caller drives the
//! region plumbing and hands each region to the verified routines here.
//!
//! A synthesis pass that demands an absent witness aborts with a
//! `Synthesis` error and corrupts nothing: each routine's contract says the
//! region is left untouched on that path, and the table, loaded in its own
//! phase from no witness at all, is never handed to a witness-demanding
//! routine.

use vstd::prelude::*;

use crate::backend::{
    advice_count, advice_index, cs_advice_column, cs_enable_equality, equality_cols, fixed_count,
    gate_constraints, lookup_args, region_cells, region_enabled, region_selector_count,
    selector_count, selector_index, table_col_index, AdviceColumn, GateExpr, Meta, RegionCtx,
};
use crate::error::GadgetError;
use crate::gadget::decompose::{decompose_poly_model, DecomposeChip, DecomposeConfig};
use crate::gadget::xor::{TableChip, TableConfig};
use crate::word::{AssignedChunk, Chunk, Word};
use halo2_proofs::plonk::Selector;

verus! {

/// The full circuit configuration: six advice columns, the XOR table
/// gadget over columns 3..5 and the decompose gadget over columns 0..2.
#[derive(Clone, Copy, Debug)]
pub struct Config {
    pub advice: [AdviceColumn; 6],
    pub table_config: TableConfig,
    pub decompose_config: DecomposeConfig,
}

impl Config {
    /// Both gadget configurations are well formed.
    pub open spec fn wf(&self) -> bool {
        &&& self.table_config.wf()
        &&& self.decompose_config.wf()
    }
}

/// The witness pair supplied to a circuit instance: `None` during
/// shape-only analysis, `Some` during proof generation.
#[derive(Clone, Copy, Debug)]
pub struct Circuit {
    pub x: Option<Word>,
    pub y: Option<Word>,
}

impl Circuit {
    /// A circuit instance over the given witnesses.
    pub fn new(x: Option<Word>, y: Option<Word>) -> (r: Self)
        ensures
            r.x == x,
            r.y == y,
    {
        Circuit { x, y }
    }

    /// The same circuit shape with both witnesses absent, as used during
    /// key generation.
    pub fn without_witnesses(&self) -> (r: Self)
        ensures
            r.x is None,
            r.y is None,
    {
        Circuit { x: None, y: None }
    }

    /// Allocates the six advice columns, enables equality on each, and
    /// configures the two gadgets: the XOR table over columns 3..5 and the
    /// decompose layout over columns 0..2.
    pub fn configure(meta: &mut Meta<'_>) -> (r: Config)
        ensures
            r.wf(),
            r.decompose_config.advice[0] == r.advice[0],
            r.decompose_config.advice[1] == r.advice[1],
            r.decompose_config.advice[2] == r.advice[2],
            r.table_config.input.x == r.advice[3],
            r.table_config.input.y == r.advice[4],
            r.table_config.input.z == r.advice[5],
            advice_count(*final(meta)) == advice_count(*old(meta)) + 6,
            forall|k: int|
                0 <= k < 6 ==> advice_index(#[trigger] r.advice[k]) == advice_count(*old(meta))
                    + k,
            fixed_count(*final(meta)) == fixed_count(*old(meta)) + 3,
            selector_count(*final(meta)) == selector_count(*old(meta)) + 1,
            gate_constraints(*final(meta)) == gate_constraints(*old(meta)).push(
                seq![
                    decompose_poly_model(
                        selector_index(r.decompose_config.q_decompose),
                        advice_index(r.advice[0]),
                        advice_index(r.advice[1]),
                        advice_index(r.advice[2]),
                    )
                ],
            ),
            lookup_args(*final(meta)) == lookup_args(*old(meta)).push(
                seq![
                    (
                        GateExpr::Advice(advice_index(r.advice[3]), 0),
                        table_col_index(r.table_config.table.x),
                    ),
                    (
                        GateExpr::Advice(advice_index(r.advice[4]), 0),
                        table_col_index(r.table_config.table.y),
                    ),
                    (
                        GateExpr::Advice(advice_index(r.advice[5]), 0),
                        table_col_index(r.table_config.table.z),
                    ),
                ],
            ),
            equality_cols(*final(meta)) == equality_cols(*old(meta)).insert(r.advice[0]).insert(
                r.advice[1],
            ).insert(r.advice[2]).insert(r.advice[3]).insert(r.advice[4]).insert(r.advice[5]),
    {
        let a0 = cs_advice_column(meta);
        let a1 = cs_advice_column(meta);
        let a2 = cs_advice_column(meta);
        let a3 = cs_advice_column(meta);
        let a4 = cs_advice_column(meta);
        let a5 = cs_advice_column(meta);
        cs_enable_equality(meta, a0);
        cs_enable_equality(meta, a1);
        cs_enable_equality(meta, a2);
        cs_enable_equality(meta, a3);
        cs_enable_equality(meta, a4);
        cs_enable_equality(meta, a5);
        let table_config = TableChip::configure(meta, a3, a4, a5);
        let decompose_config = DecomposeChip::configure(meta, [a0, a1, a2]);
        proof {
            // Re-enabling equality on columns 0..2 inside the decompose
            // configuration adds nothing: the set already holds them.
            assert(equality_cols(*meta) =~= equality_cols(*old(meta)).insert(a0).insert(
                a1,
            ).insert(a2).insert(a3).insert(a4).insert(a5));
        }
        Config { advice: [a0, a1, a2, a3, a4, a5], table_config, decompose_config }
    }
}

impl Default for Circuit {
    /// The circuit with both witnesses absent.
    fn default() -> (r: Self)
        ensures
            r.x is None,
            r.y is None,
    {
        Circuit { x: None, y: None }
    }
}

/// Binds the four byte positions of two decomposed words into four rows of
/// the XOR table gadget: row `i` holds `(x_i, y_i, x_i XOR y_i)`. Fails
/// with a `Synthesis` error exactly when one of the eight chunk values is
/// absent, writing nothing on that path.
pub fn assign_xor_rows(
    chip: &TableChip,
    region: &mut RegionCtx<'_>,
    xs: &(AssignedChunk, AssignedChunk, AssignedChunk, AssignedChunk),
    ys: &(AssignedChunk, AssignedChunk, AssignedChunk, AssignedChunk),
) -> (r: Result<(), GadgetError>)
    requires
        chip.spec_config().wf(),
    ensures
        (xs.0@ is None || xs.1@ is None || xs.2@ is None || xs.3@ is None || ys.0@ is None
            || ys.1@ is None || ys.2@ is None || ys.3@ is None) <==> r matches Err(
            GadgetError::Synthesis,
        ),
        (xs.0@ is None || xs.1@ is None || xs.2@ is None || xs.3@ is None || ys.0@ is None
            || ys.1@ is None || ys.2@ is None || ys.3@ is None) ==> *final(region) == *old(
            region,
        ),
        r is Ok ==> region_cells(*final(region), chip.spec_config().input.x) == region_cells(
            *old(region),
            chip.spec_config().input.x,
        ).insert(0, xs.0@.unwrap() as int).insert(1, xs.1@.unwrap() as int).insert(
            2,
            xs.2@.unwrap() as int,
        ).insert(3, xs.3@.unwrap() as int),
        r is Ok ==> region_cells(*final(region), chip.spec_config().input.y) == region_cells(
            *old(region),
            chip.spec_config().input.y,
        ).insert(0, ys.0@.unwrap() as int).insert(1, ys.1@.unwrap() as int).insert(
            2,
            ys.2@.unwrap() as int,
        ).insert(3, ys.3@.unwrap() as int),
        r is Ok ==> region_cells(*final(region), chip.spec_config().input.z) == region_cells(
            *old(region),
            chip.spec_config().input.z,
        ).insert(0, (xs.0@.unwrap() ^ ys.0@.unwrap()) as int).insert(
            1,
            (xs.1@.unwrap() ^ ys.1@.unwrap()) as int,
        ).insert(2, (xs.2@.unwrap() ^ ys.2@.unwrap()) as int).insert(
            3,
            (xs.3@.unwrap() ^ ys.3@.unwrap()) as int,
        ),
        r is Ok ==> forall|c: AdviceColumn|
            c != chip.spec_config().input.x && c != chip.spec_config().input.y && c
                != chip.spec_config().input.z ==> #[trigger] region_cells(*final(region), c)
                == region_cells(*old(region), c),
        r is Ok ==> forall|s: Selector| #[trigger] region_enabled(*final(region), s)
            == region_enabled(*old(region), s),
        region_selector_count(*final(region)) == region_selector_count(*old(region)),
{
    let xv0 = match xs.0.value_word() {
        Some(v) => v,
        None => {
            return Err(GadgetError::Synthesis);
        },
    };
    let xv1 = match xs.1.value_word() {
        Some(v) => v,
        None => {
            return Err(GadgetError::Synthesis);
        },
    };
    let xv2 = match xs.2.value_word() {
        Some(v) => v,
        None => {
            return Err(GadgetError::Synthesis);
        },
    };
    let xv3 = match xs.3.value_word() {
        Some(v) => v,
        None => {
            return Err(GadgetError::Synthesis);
        },
    };
    let yv0 = match ys.0.value_word() {
        Some(v) => v,
        None => {
            return Err(GadgetError::Synthesis);
        },
    };
    let yv1 = match ys.1.value_word() {
        Some(v) => v,
        None => {
            return Err(GadgetError::Synthesis);
        },
    };
    let yv2 = match ys.2.value_word() {
        Some(v) => v,
        None => {
            return Err(GadgetError::Synthesis);
        },
    };
    let yv3 = match ys.3.value_word() {
        Some(v) => v,
        None => {
            return Err(GadgetError::Synthesis);
        },
    };
    match chip.add_row(
        region,
        0,
        Some(Chunk::new(xv0)),
        Some(Chunk::new(yv0)),
        Some(Chunk::new(xv0 ^ yv0)),
    ) {
        Ok(u) => u,
        Err(e) => {
            return Err(e);
        },
    };
    match chip.add_row(
        region,
        1,
        Some(Chunk::new(xv1)),
        Some(Chunk::new(yv1)),
        Some(Chunk::new(xv1 ^ yv1)),
    ) {
        Ok(u) => u,
        Err(e) => {
            return Err(e);
        },
    };
    match chip.add_row(
        region,
        2,
        Some(Chunk::new(xv2)),
        Some(Chunk::new(yv2)),
        Some(Chunk::new(xv2 ^ yv2)),
    ) {
        Ok(u) => u,
        Err(e) => {
            return Err(e);
        },
    };
    match chip.add_row(
        region,
        3,
        Some(Chunk::new(xv3)),
        Some(Chunk::new(yv3)),
        Some(Chunk::new(xv3 ^ yv3)),
    ) {
        Ok(u) => u,
        Err(e) => {
            return Err(e);
        },
    };
    Ok(())
}

} // verus!

