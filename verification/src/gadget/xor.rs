//! The XOR table gadget: a fixed lookup table over all pairs of bytes, plus
//! the region-assignment routine that ties three advice columns to it.
//!
//! XOR is not a low-degree polynomial over the field, so the relation
//! `z == x XOR y` is proven by table membership instead of by an algebraic
//! identity: the table holds one row `(x, y, x XOR y)` for every pair of
//! bytes, and the registered lookup argument forces every bound advice row
//! into that set. Assignment itself never rejects values: a row that is not
//! a table entry is only caught by the external verifier's lookup check.

use vstd::prelude::*;

use crate::backend::{
    advice_count, advice_index, cells_advice_count, cs_lookup_table_column, cs_lookup_xor,
    equality_cols, expr_model, fixed_count, gate_constraints, has_simple_selector, lookup_args,
    region_assign_advice, region_cells, region_enabled, region_selector_count, selector_count,
    table_assign_cell, table_cells, table_col_index, vc_query_advice_cur, AdviceColumn, GateCells,
    GateExpr, Meta, RegionCtx, TableCtx,
};
use crate::error::GadgetError;
use crate::word::Chunk;
use halo2_proofs::plonk::{Expression, Selector, TableColumn};
use pasta_curves::pallas;
use vstd::arithmetic::div_mod::{lemma_fundamental_div_mod, lemma_fundamental_div_mod_converse};

verus! {

/// The table row at index `i`: `x` enumerated in the outer loop, `y` in the
/// inner loop, `z` their XOR.
pub open spec fn xor_row_spec(i: int) -> ChunkWord {
    ChunkWord {
        x: (i / 256) as u8,
        y: (i % 256) as u8,
        z: ((i / 256) as u8) ^ ((i % 256) as u8),
    }
}

/// The full XOR table: the Cartesian product of all byte pairs, 65536 rows.
pub open spec fn xor_table_spec() -> Seq<ChunkWord> {
    Seq::new(65536, |i: int| xor_row_spec(i))
}

/// One row of the XOR table: the precomputed fact `z == x XOR y`.
#[derive(Clone, Copy, Debug, PartialEq, Eq, Structural)]
pub struct ChunkWord {
    pub x: u8,
    pub y: u8,
    pub z: u8,
}

impl ChunkWord {
    /// Bundles a table row; total.
    pub fn new(x: u8, y: u8, z: u8) -> (r: Self)
        ensures
            r.x == x,
            r.y == y,
            r.z == z,
    {
        ChunkWord { x, y, z }
    }
}

/// A row of optional chunk values destined for the three lookup input
/// columns; `None` marks a value that is absent during shape analysis.
#[derive(Clone, Copy, Debug)]
pub struct ChunkVar {
    pub x: Option<Chunk>,
    pub y: Option<Chunk>,
    pub z: Option<Chunk>,
}

/// The three advice columns bound by the lookup argument.
#[derive(Clone, Copy, Debug)]
pub struct Inputs {
    pub x: AdviceColumn,
    pub y: AdviceColumn,
    pub z: AdviceColumn,
}

/// The three fixed table columns holding the materialised XOR table.
#[derive(Clone, Copy, Debug)]
pub struct TableColumns {
    pub x: TableColumn,
    pub y: TableColumn,
    pub z: TableColumn,
}

/// The configuration of the XOR table gadget.
#[derive(Clone, Copy, Debug)]
pub struct TableConfig {
    pub input: Inputs,
    pub table: TableColumns,
}

impl TableConfig {
    /// The three input columns are pairwise distinct, and so are the three
    /// table columns.
    pub open spec fn wf(&self) -> bool {
        &&& advice_index(self.input.x) != advice_index(self.input.y)
        &&& advice_index(self.input.x) != advice_index(self.input.z)
        &&& advice_index(self.input.y) != advice_index(self.input.z)
        &&& table_col_index(self.table.x) != table_col_index(self.table.y)
        &&& table_col_index(self.table.x) != table_col_index(self.table.z)
        &&& table_col_index(self.table.y) != table_col_index(self.table.z)
    }
}

/// The XOR table chip.
#[derive(Clone, Copy, Debug)]
pub struct TableChip {
    config: TableConfig,
}

impl TableChip {
    /// The configuration the chip was constructed over.
    pub closed spec fn spec_config(&self) -> TableConfig {
        self.config
    }
}

/// Builds the lookup mapping handed to the backend: the three input advice
/// columns, each queried at the current row and free of simple selectors,
/// tied in order to the three table columns.
pub(crate) fn xor_lookup_map(
    vc: &mut GateCells<'_, '_>,
    x: AdviceColumn,
    y: AdviceColumn,
    z: AdviceColumn,
    tx: TableColumn,
    ty: TableColumn,
    tz: TableColumn,
) -> (r: Vec<(Expression<pallas::Base>, TableColumn)>)
    requires
        advice_index(x) < cells_advice_count(*old(vc)),
        advice_index(y) < cells_advice_count(*old(vc)),
        advice_index(z) < cells_advice_count(*old(vc)),
    ensures
        r@.len() == 3,
        expr_model(r@[0].0) == GateExpr::Advice(advice_index(x), 0),
        expr_model(r@[1].0) == GateExpr::Advice(advice_index(y), 0),
        expr_model(r@[2].0) == GateExpr::Advice(advice_index(z), 0),
        r@[0].1 == tx,
        r@[1].1 == ty,
        r@[2].1 == tz,
        !has_simple_selector(r@[0].0),
        !has_simple_selector(r@[1].0),
        !has_simple_selector(r@[2].0),
{
    let xe = vc_query_advice_cur(vc, x);
    let ye = vc_query_advice_cur(vc, y);
    let ze = vc_query_advice_cur(vc, z);
    let mut m: Vec<(Expression<pallas::Base>, TableColumn)> = Vec::new();
    m.push((xe, tx));
    m.push((ye, ty));
    m.push((ze, tz));
    m
}

/// The table row materialised at index `i`.
pub fn xor_table_row(i: usize) -> (r: ChunkWord)
    requires
        i < 65536,
    ensures
        r == xor_row_spec(i as int),
{
    proof {
        assert(i / 256 < 256) by (nonlinear_arith)
            requires
                i < 65536,
        ;
    }
    let x = (i / 256) as u8;
    let y = (i % 256) as u8;
    ChunkWord { x, y, z: x ^ y }
}

/// The whole XOR table as a vector of rows, in enumeration order.
pub fn table_rows() -> (r: Vec<ChunkWord>)
    ensures
        r@ == xor_table_spec(),
{
    let mut rows: Vec<ChunkWord> = Vec::new();
    let mut i: usize = 0;
    while i < 65536
        invariant
            i <= 65536,
            rows@.len() == i,
            forall|j: int| 0 <= j < i ==> rows@[j] == xor_row_spec(j),
        decreases 65536 - i,
    {
        let row = xor_table_row(i);
        rows.push(row);
        i += 1;
    }
    proof {
        assert(rows@ =~= xor_table_spec());
    }
    rows
}

/// Table completeness: the table has exactly 65536 rows; the row for the
/// pair `(x, y)` sits at index `x * 256 + y` and holds `(x, y, x XOR y)`;
/// and no other row holds the same `(x, y)` pair.
pub proof fn lemma_table_complete(x: u8, y: u8)
    ensures
        xor_table_spec().len() == 65536,
        0 <= x * 256 + y < 65536,
        xor_table_spec()[x * 256 + y] == (ChunkWord { x, y, z: x ^ y }),
        forall|i: int|
            0 <= i < 65536 && (#[trigger] xor_table_spec()[i]).x == x && xor_table_spec()[i].y == y
                ==> i == x * 256 + y,
{
    lemma_fundamental_div_mod_converse(x * 256 + y, 256, x as int, y as int);
    assert forall|i: int|
        0 <= i < 65536 && (#[trigger] xor_table_spec()[i]).x == x && xor_table_spec()[i].y == y
        implies i == x * 256 + y by {
        assert(i / 256 < 256) by (nonlinear_arith)
            requires
                0 <= i < 65536,
        ;
        lemma_fundamental_div_mod(i, 256);
    }
}

/// Lookup soundness at the table level: a triple `(x, y, z)` occurs in the
/// table if and only if `z == x XOR y`. Together with the registered lookup
/// argument this is what makes an ill-formed row fail at verification.
pub proof fn lemma_table_membership(x: u8, y: u8, z: u8)
    ensures
        (exists|i: int| 0 <= i < 65536 && xor_table_spec()[i] == (ChunkWord { x, y, z })) <==> z
            == (x ^ y),
{
    lemma_table_complete(x, y);
    if z == (x ^ y) {
        assert(0 <= x * 256 + y < 65536 && xor_table_spec()[x * 256 + y] == (ChunkWord {
            x,
            y,
            z,
        }));
    }
    if exists|i: int| 0 <= i < 65536 && xor_table_spec()[i] == (ChunkWord { x, y, z }) {
        let i = choose|i: int| 0 <= i < 65536 && xor_table_spec()[i] == (ChunkWord { x, y, z });
        assert(xor_row_spec(i).z == xor_row_spec(i).x ^ xor_row_spec(i).y);
    }
}

impl TableChip {
    /// Registers the lookup argument tying the three advice columns, each
    /// queried at the current row, in order to three freshly allocated
    /// table columns. Called once per circuit configuration.
    pub fn configure(
        meta: &mut Meta<'_>,
        input_x: AdviceColumn,
        input_y: AdviceColumn,
        input_z: AdviceColumn,
    ) -> (r: TableConfig)
        requires
            advice_index(input_x) != advice_index(input_y),
            advice_index(input_x) != advice_index(input_z),
            advice_index(input_y) != advice_index(input_z),
            advice_index(input_x) < advice_count(*old(meta)),
            advice_index(input_y) < advice_count(*old(meta)),
            advice_index(input_z) < advice_count(*old(meta)),
        ensures
            r.wf(),
            r.input.x == input_x,
            r.input.y == input_y,
            r.input.z == input_z,
            table_col_index(r.table.x) == fixed_count(*old(meta)),
            table_col_index(r.table.y) == fixed_count(*old(meta)) + 1,
            table_col_index(r.table.z) == fixed_count(*old(meta)) + 2,
            fixed_count(*final(meta)) == fixed_count(*old(meta)) + 3,
            lookup_args(*final(meta)) == lookup_args(*old(meta)).push(
                seq![
                    (GateExpr::Advice(advice_index(input_x), 0), table_col_index(r.table.x)),
                    (GateExpr::Advice(advice_index(input_y), 0), table_col_index(r.table.y)),
                    (GateExpr::Advice(advice_index(input_z), 0), table_col_index(r.table.z)),
                ],
            ),
            advice_count(*final(meta)) == advice_count(*old(meta)),
            selector_count(*final(meta)) == selector_count(*old(meta)),
            gate_constraints(*final(meta)) == gate_constraints(*old(meta)),
            equality_cols(*final(meta)) == equality_cols(*old(meta)),
    {
        let table_x = cs_lookup_table_column(meta);
        let table_y = cs_lookup_table_column(meta);
        let table_z = cs_lookup_table_column(meta);
        let _lookup_index: usize = cs_lookup_xor(
            meta,
            input_x,
            input_y,
            input_z,
            table_x,
            table_y,
            table_z,
        );
        TableConfig {
            input: Inputs { x: input_x, y: input_y, z: input_z },
            table: TableColumns { x: table_x, y: table_y, z: table_z },
        }
    }

    /// Wraps a configuration; total.
    pub fn construct(config: TableConfig) -> (r: Self)
        ensures
            r.spec_config() == config,
    {
        TableChip { config }
    }

    /// The gadget's configuration.
    pub fn config(&self) -> (r: &TableConfig)
        ensures
            *r == self.spec_config(),
    {
        &self.config
    }

    /// Materialises the table contents: exactly the 65536 rows of the XOR
    /// table and nothing else, `x` enumerated in the outer loop and `y` in
    /// the inner loop, each row holding `(x, y, x XOR y)`. Must run once,
    /// before any row using the lookup is assigned. It demands no witness,
    /// so any failure is the backend's own.
    pub fn load(
        config: &TableConfig,
        table: &mut TableCtx<'_>,
    ) -> (r: Result<(), GadgetError>)
        requires
            table_col_index(config.table.x) != table_col_index(config.table.y),
            table_col_index(config.table.x) != table_col_index(config.table.z),
            table_col_index(config.table.y) != table_col_index(config.table.z),
        ensures
            r is Err ==> r matches Err(GadgetError::Backend(_)),
            r is Ok ==> forall|i: int|
                0 <= i < 65536 ==> #[trigger] table_cells(*final(table), config.table.x).contains_key(i)
                    && table_cells(*final(table), config.table.x)[i] == xor_row_spec(i).x as int
                    && table_cells(*final(table), config.table.y).contains_key(i)
                    && table_cells(*final(table), config.table.y)[i] == xor_row_spec(i).y as int
                    && table_cells(*final(table), config.table.z).contains_key(i)
                    && table_cells(*final(table), config.table.z)[i] == xor_row_spec(i).z as int,
            r is Ok ==> forall|k: int, c: TableColumn|
                !(0 <= k < 65536) ==> #[trigger] table_cells(*final(table), c).contains_key(k)
                    == table_cells(*old(table), c).contains_key(k),
            r is Ok ==> forall|c: TableColumn|
                c != config.table.x && c != config.table.y && c != config.table.z
                    ==> #[trigger] table_cells(*final(table), c) == table_cells(*old(table), c),
    {
        let mut i: usize = 0;
        while i < 65536
            invariant
                i <= 65536,
                table_col_index(config.table.x) != table_col_index(config.table.y),
                table_col_index(config.table.x) != table_col_index(config.table.z),
                table_col_index(config.table.y) != table_col_index(config.table.z),
                forall|j: int|
                    0 <= j < i ==> #[trigger] table_cells(*table, config.table.x).contains_key(j)
                        && table_cells(*table, config.table.x)[j] == xor_row_spec(j).x as int
                        && table_cells(*table, config.table.y).contains_key(j)
                        && table_cells(*table, config.table.y)[j] == xor_row_spec(j).y as int
                        && table_cells(*table, config.table.z).contains_key(j)
                        && table_cells(*table, config.table.z)[j] == xor_row_spec(j).z as int,
                forall|k: int, c: TableColumn|
                    !(0 <= k < i) ==> #[trigger] table_cells(*table, c).contains_key(k)
                        == table_cells(*old(table), c).contains_key(k),
                forall|c: TableColumn|
                    c != config.table.x && c != config.table.y && c != config.table.z
                        ==> #[trigger] table_cells(*table, c) == table_cells(*old(table), c),
            decreases 65536 - i,
        {
            let row = xor_table_row(i);
            match table_assign_cell(table, config.table.x, i, row.x as u64) {
                Ok(u) => u,
                Err(e) => {
                    return Err(GadgetError::Backend(e));
                },
            };
            match table_assign_cell(table, config.table.y, i, row.y as u64) {
                Ok(u) => u,
                Err(e) => {
                    return Err(GadgetError::Backend(e));
                },
            };
            match table_assign_cell(table, config.table.z, i, row.z as u64) {
                Ok(u) => u,
                Err(e) => {
                    return Err(GadgetError::Backend(e));
                },
            };
            i += 1;
        }
        Ok(())
    }

    /// Binds three advice cells at `row` to the given optional values. Fails
    /// with a `Synthesis` error exactly when one of the three values is
    /// absent. The values themselves are not checked against the table:
    /// a row with `z != x XOR y` is accepted here and rejected only by the
    /// external verifier's lookup check.
    pub fn add_row(
        &self,
        region: &mut RegionCtx<'_>,
        row: usize,
        x: Option<Chunk>,
        y: Option<Chunk>,
        z: Option<Chunk>,
    ) -> (r: Result<(), GadgetError>)
        requires
            self.spec_config().wf(),
        ensures
            (x is None || y is None || z is None) <==> r matches Err(GadgetError::Synthesis),
            (x is None || y is None || z is None) ==> *final(region) == *old(region),
            r is Ok ==> region_cells(*final(region), self.spec_config().input.x) == region_cells(
                *old(region),
                self.spec_config().input.x,
            ).insert(row as int, x.unwrap()@ as int),
            r is Ok ==> region_cells(*final(region), self.spec_config().input.y) == region_cells(
                *old(region),
                self.spec_config().input.y,
            ).insert(row as int, y.unwrap()@ as int),
            r is Ok ==> region_cells(*final(region), self.spec_config().input.z) == region_cells(
                *old(region),
                self.spec_config().input.z,
            ).insert(row as int, z.unwrap()@ as int),
            r is Ok ==> forall|c: AdviceColumn|
                c != self.spec_config().input.x && c != self.spec_config().input.y && c != self.spec_config().input.z
                    ==> #[trigger] region_cells(*final(region), c) == region_cells(*old(region), c),
            r is Ok ==> forall|s: Selector| #[trigger] region_enabled(*final(region), s)
                == region_enabled(*old(region), s),
            region_selector_count(*final(region)) == region_selector_count(*old(region)),
    {
        let (xv, yv, zv) = match (x, y, z) {
            (Some(a), Some(b), Some(c)) => (a, b, c),
            _ => {
                return Err(GadgetError::Synthesis);
            },
        };
        match region_assign_advice(region, self.config.input.x, row, xv.value() as u64) {
            Ok(c) => c,
            Err(e) => {
                return Err(GadgetError::Backend(e));
            },
        };
        match region_assign_advice(region, self.config.input.y, row, yv.value() as u64) {
            Ok(c) => c,
            Err(e) => {
                return Err(GadgetError::Backend(e));
            },
        };
        match region_assign_advice(region, self.config.input.z, row, zv.value() as u64) {
            Ok(c) => c,
            Err(e) => {
                return Err(GadgetError::Backend(e));
            },
        };
        Ok(())
    }
}

} // verus!
