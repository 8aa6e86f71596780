//! The decompose gadget: a custom gate plus the region-assignment routine
//! that binds a word cell to four byte cells.
//!
//! Layout protocol (two rows, three advice columns): row 0 holds the word in
//! column 0 and bytes 0 and 1 in columns 1 and 2; row 1 holds bytes 2 and 3
//! in columns 0 and 1. The selector is enabled at row 0 only, activating the
//! gate `word - (c0 + c1*2^8 + c2*2^16 + c3*2^24) = 0` over those cells.
//!
//! The decompose gate alone does not range-check the chunks: a "byte" of
//! 256 or more satisfies it just as well. That bound is only obtained downstream, by
//! feeding each chunk into the XOR table lookup, which accepts 8-bit values
//! only; decompose composed with the lookup (or with an explicit range gate)
//! is what proves the chunks are bytes.

use vstd::prelude::*;

use crate::backend::{
    advice_count, advice_index, cells_advice_count, cs_create_gate_decompose, cs_enable_equality,
    cs_selector, equality_cols, expr_add, expr_const, expr_model, expr_mul, expr_sub, fixed_count,
    gate_constraints, lookup_args, region_assign_advice, region_cells, region_enabled,
    region_selector_count, selector_count, selector_enable, selector_index, vc_query_advice_cur,
    vc_query_advice_next, vc_query_selector, AdviceColumn, GateCells, GateExpr, Meta, RegionCtx,
};
use crate::error::GadgetError;
use crate::word::{
    word_byte0, word_byte1, word_byte2, word_byte3, AssignedChunk, AssignedWord, Chunk, Word,
};
use halo2_proofs::plonk::{Expression, Selector};
use pasta_curves::pallas;

verus! {

/// The decomposition instruction: binds a word cell to four byte cells whose
/// little-endian recomposition the decompose gate constrains to equal the
/// word.
pub trait DecomposeInstruction {
    /// The gadget's configuration is well formed.
    spec fn wf(&self) -> bool;

    /// The selector driving the gadget's gate; it must belong to the system
    /// behind the region it is enabled in.
    spec fn gate_selector(&self) -> Selector;

    /// Decomposes a bound word into four bound chunks. Fails with a
    /// `Synthesis` error exactly when a concrete value is demanded while the
    /// word's value is absent, and on that path leaves the region untouched.
    fn decompose(
        &self,
        region: &mut RegionCtx<'_>,
        value: &AssignedWord,
    ) -> (r: Result<(AssignedChunk, AssignedChunk, AssignedChunk, AssignedChunk), GadgetError>)
        requires
            self.wf(),
            selector_index(self.gate_selector()) < region_selector_count(*old(region)),
        ensures
            value@ is None <==> r matches Err(GadgetError::Synthesis),
            value@ is None ==> *final(region) == *old(region),
            region_selector_count(*final(region)) == region_selector_count(*old(region)),
            r matches Ok(c) ==> value@ is Some && c.0@ == Some(word_byte0(value@.unwrap()))
                && c.1@ == Some(word_byte1(value@.unwrap())) && c.2@ == Some(
                word_byte2(value@.unwrap()),
            ) && c.3@ == Some(word_byte3(value@.unwrap())),
    ;
}

/// The configuration of the decompose gadget: one selector and the three
/// advice columns of the two-row layout.
#[derive(Clone, Copy, Debug)]
pub struct DecomposeConfig {
    pub q_decompose: Selector,
    pub advice: [AdviceColumn; 3],
}

impl DecomposeConfig {
    /// The three advice columns are pairwise distinct.
    pub open spec fn wf(&self) -> bool {
        &&& advice_index(self.advice[0]) != advice_index(self.advice[1])
        &&& advice_index(self.advice[0]) != advice_index(self.advice[2])
        &&& advice_index(self.advice[1]) != advice_index(self.advice[2])
    }
}

/// The decompose chip.
#[derive(Clone, Copy, Debug)]
pub struct DecomposeChip {
    config: DecomposeConfig,
}

impl DecomposeChip {
    /// The configuration the chip was constructed over.
    pub closed spec fn spec_config(&self) -> DecomposeConfig {
        self.config
    }
}

/// The decompose constraint as an expression tree over a selector index
/// `q` and the three advice column indices `i0`, `i1`, `i2`:
/// `q * (word - (c0 + c1*2^8 + c2*2^16 + c3*2^24))`, with the word and
/// bytes 0 and 1 queried on the current row (rotation 0) of columns 0, 1
/// and 2, and bytes 2 and 3 on the next row (rotation 1) of columns 0 and
/// 1. The subtraction is a sum with a negated right side, as the backend
/// stores it.
pub open spec fn decompose_poly_model(q: int, i0: int, i1: int, i2: int) -> GateExpr {
    GateExpr::Mul(
        Box::new(GateExpr::Sel(q)),
        Box::new(
            GateExpr::Add(
                Box::new(GateExpr::Advice(i0, 0)),
                Box::new(
                    GateExpr::Neg(
                        Box::new(
                            GateExpr::Add(
                                Box::new(
                                    GateExpr::Add(
                                        Box::new(
                                            GateExpr::Add(
                                                Box::new(GateExpr::Advice(i1, 0)),
                                                Box::new(
                                                    GateExpr::Mul(
                                                        Box::new(GateExpr::Const(0x100)),
                                                        Box::new(GateExpr::Advice(i2, 0)),
                                                    ),
                                                ),
                                            ),
                                        ),
                                        Box::new(
                                            GateExpr::Mul(
                                                Box::new(GateExpr::Const(0x10000)),
                                                Box::new(GateExpr::Advice(i0, 1)),
                                            ),
                                        ),
                                    ),
                                ),
                                Box::new(
                                    GateExpr::Mul(
                                        Box::new(GateExpr::Const(0x1000000)),
                                        Box::new(GateExpr::Advice(i1, 1)),
                                    ),
                                ),
                            ),
                        ),
                    ),
                ),
            ),
        ),
    )
}

/// Builds the decompose polynomial handed to the backend:
/// `q * (word - (c0 + c1*2^8 + c2*2^16 + c3*2^24))`, with the word and
/// bytes 0 and 1 queried on the current row and bytes 2 and 3 on the next
/// row, per the layout protocol.
pub(crate) fn decompose_gate_poly(
    vc: &mut GateCells<'_, '_>,
    q: Selector,
    a0: AdviceColumn,
    a1: AdviceColumn,
    a2: AdviceColumn,
) -> (r: Vec<Expression<pallas::Base>>)
    requires
        advice_index(a0) < cells_advice_count(*old(vc)),
        advice_index(a1) < cells_advice_count(*old(vc)),
        advice_index(a2) < cells_advice_count(*old(vc)),
    ensures
        r@.len() == 1,
        expr_model(r@[0]) == decompose_poly_model(
            selector_index(q),
            advice_index(a0),
            advice_index(a1),
            advice_index(a2),
        ),
{
    let qe = vc_query_selector(vc, q);
    let w = vc_query_advice_cur(vc, a0);
    let c0 = vc_query_advice_cur(vc, a1);
    let c1 = vc_query_advice_cur(vc, a2);
    let c2 = vc_query_advice_next(vc, a0);
    let c3 = vc_query_advice_next(vc, a1);
    let s1 = expr_add(c0, expr_mul(expr_const(0x100), c1));
    let s2 = expr_add(s1, expr_mul(expr_const(0x10000), c2));
    let sum = expr_add(s2, expr_mul(expr_const(0x1000000), c3));
    let poly = expr_mul(qe, expr_sub(w, sum));
    let mut constraints: Vec<Expression<pallas::Base>> = Vec::new();
    constraints.push(poly);
    constraints
}

impl DecomposeChip {
    /// Enables equality on the three advice columns, allocates the selector
    /// and registers the decompose gate, whose one constraint is
    /// [`decompose_poly_model`] over that selector and those columns.
    /// Called once per circuit configuration.
    pub fn configure(
        meta: &mut Meta<'_>,
        advice: [AdviceColumn; 3],
    ) -> (r: DecomposeConfig)
        requires
            advice_index(advice[0]) != advice_index(advice[1]),
            advice_index(advice[0]) != advice_index(advice[2]),
            advice_index(advice[1]) != advice_index(advice[2]),
            advice_index(advice[0]) < advice_count(*old(meta)),
            advice_index(advice[1]) < advice_count(*old(meta)),
            advice_index(advice[2]) < advice_count(*old(meta)),
        ensures
            r.wf(),
            r.advice[0] == advice[0],
            r.advice[1] == advice[1],
            r.advice[2] == advice[2],
            gate_constraints(*final(meta)) == gate_constraints(*old(meta)).push(
                seq![
                    decompose_poly_model(
                        selector_index(r.q_decompose),
                        advice_index(advice[0]),
                        advice_index(advice[1]),
                        advice_index(advice[2]),
                    )
                ],
            ),
            selector_index(r.q_decompose) == selector_count(*old(meta)),
            selector_count(*final(meta)) == selector_count(*old(meta)) + 1,
            equality_cols(*final(meta)) == equality_cols(*old(meta)).insert(advice[0]).insert(
                advice[1],
            ).insert(advice[2]),
            advice_count(*final(meta)) == advice_count(*old(meta)),
            fixed_count(*final(meta)) == fixed_count(*old(meta)),
            lookup_args(*final(meta)) == lookup_args(*old(meta)),
    {
        cs_enable_equality(meta, advice[0]);
        cs_enable_equality(meta, advice[1]);
        cs_enable_equality(meta, advice[2]);
        let q_decompose = cs_selector(meta);
        cs_create_gate_decompose(meta, q_decompose, advice[0], advice[1], advice[2]);
        DecomposeConfig { q_decompose, advice }
    }

    /// Wraps a configuration; total.
    pub fn construct(config: DecomposeConfig) -> (r: Self)
        ensures
            r.spec_config() == config,
    {
        DecomposeChip { config }
    }

    /// The gadget's configuration.
    pub fn config(&self) -> (r: &DecomposeConfig)
        ensures
            *r == self.spec_config(),
    {
        &self.config
    }
}

impl DecomposeInstruction for DecomposeChip {
    open spec fn wf(&self) -> bool {
        self.spec_config().wf()
    }

    open spec fn gate_selector(&self) -> Selector {
        self.spec_config().q_decompose
    }

    fn decompose(
        &self,
        region: &mut RegionCtx<'_>,
        value: &AssignedWord,
    ) -> (r: Result<(AssignedChunk, AssignedChunk, AssignedChunk, AssignedChunk), GadgetError>)
        ensures
            r is Ok ==> region_enabled(*final(region), self.spec_config().q_decompose) == region_enabled(
                *old(region),
                self.spec_config().q_decompose,
            ).insert(0),
            r is Ok ==> forall|s: Selector|
                s != self.spec_config().q_decompose ==> #[trigger] region_enabled(*final(region), s)
                    == region_enabled(*old(region), s),
            r is Ok ==> region_cells(*final(region), self.spec_config().advice[0]) == region_cells(
                *old(region),
                self.spec_config().advice[0],
            ).insert(0, value@.unwrap() as int).insert(1, word_byte2(value@.unwrap()) as int),
            r is Ok ==> region_cells(*final(region), self.spec_config().advice[1]) == region_cells(
                *old(region),
                self.spec_config().advice[1],
            ).insert(0, word_byte0(value@.unwrap()) as int).insert(
                1,
                word_byte3(value@.unwrap()) as int,
            ),
            r is Ok ==> region_cells(*final(region), self.spec_config().advice[2]) == region_cells(
                *old(region),
                self.spec_config().advice[2],
            ).insert(0, word_byte1(value@.unwrap()) as int),
            r is Ok ==> forall|c: AdviceColumn|
                c != self.spec_config().advice[0] && c != self.spec_config().advice[1] && c
                    != self.spec_config().advice[2] ==> #[trigger] region_cells(*final(region), c)
                    == region_cells(*old(region), c),
    {
        let w32 = match value.value_word() {
            Some(v) => v,
            None => {
                return Err(GadgetError::Synthesis);
            },
        };
        let w = Word::new(w32);
        match selector_enable(&self.config.q_decompose, region, 0) {
            Ok(u) => u,
            Err(e) => {
                return Err(GadgetError::Backend(e));
            },
        };
        match region_assign_advice(region, self.config.advice[0], 0, w.value() as u64) {
            Ok(c) => c,
            Err(e) => {
                return Err(GadgetError::Backend(e));
            },
        };
        let bytes = w.decompose_4();
        let cell0 = match region_assign_advice(region, self.config.advice[1], 0, bytes[0] as u64) {
            Ok(c) => c,
            Err(e) => {
                return Err(GadgetError::Backend(e));
            },
        };
        let cell1 = match region_assign_advice(region, self.config.advice[2], 0, bytes[1] as u64) {
            Ok(c) => c,
            Err(e) => {
                return Err(GadgetError::Backend(e));
            },
        };
        let cell2 = match region_assign_advice(region, self.config.advice[0], 1, bytes[2] as u64) {
            Ok(c) => c,
            Err(e) => {
                return Err(GadgetError::Backend(e));
            },
        };
        let cell3 = match region_assign_advice(region, self.config.advice[1], 1, bytes[3] as u64) {
            Ok(c) => c,
            Err(e) => {
                return Err(GadgetError::Backend(e));
            },
        };
        Ok(
            (
                AssignedChunk::new(cell0, Some(Chunk::new(bytes[0]))),
                AssignedChunk::new(cell1, Some(Chunk::new(bytes[1]))),
                AssignedChunk::new(cell2, Some(Chunk::new(bytes[2]))),
                AssignedChunk::new(cell3, Some(Chunk::new(bytes[3]))),
            ),
        )
    }
}

} // verus!
