//! The trusted boundary to the proving framework.
//!
//! Everything the library asks of the constraint-system backend goes through
//! this module: the backend's types are declared or wrapped here, and each
//! call is wrapped in one small function whose contract states no more than
//! the backend's own sources show. The rest of the crate is verified against
//! these contracts.
//!
//! The backend's generic types carry trait bounds that cannot be declared
//! here, so each is held in a handle struct whose inside is hidden from the
//! proofs: [`Meta`] for the constraint system, [`RegionCtx`] for a region,
//! [`TableCtx`] for a table under assignment, [`GateCells`] for the virtual
//! cells of a gate under construction, and [`AdviceColumn`] for an advice
//! column. Unverified callers build a handle by filling its public field.
//!
//! The backend state is modelled by uninterpreted functions. Registration
//! state of a constraint system: `advice_count` / `fixed_count` /
//! `selector_count` count the allocated columns and selectors (and
//! `advice_index` / `table_col_index` / `selector_index` give each one its
//! place, which makes freshly allocated ones provably distinct and lets a
//! contract demand that a column or selector belongs to the system it is
//! used with — the backend indexes by that number and panics on a foreign
//! one); `gate_constraints` / `lookup_args` hold the registered gates'
//! constraint polynomials and the registered lookup arguments, each
//! expression given by `expr_model` as the tree of constructors it was
//! built from; `equality_cols` is the set of columns enabled for equality.
//! Assignment state: `region_cells` maps each advice column of a region to
//! the (row -> value) assignments made so far, `region_enabled` gives the
//! rows at which a selector has been turned on, and `table_cells` does the
//! same for the fixed columns of a lookup table. In the backend's
//! shape-measuring and key-generation passes the advice *values* are
//! discarded and never read back, so the value component of `region_cells`
//! is a ghost log of what was handed over; the mock prover's pass stores
//! and checks exactly those values.

use vstd::prelude::*;

use halo2_proofs::circuit::{Cell, Region, Value};
use halo2_proofs::plonk::{
    Advice, Column, ConstraintSystem, Error, Expression, Selector, TableColumn, VirtualCells,
};
use halo2_proofs::poly::Rotation;
use pasta_curves::pallas;

verus! {

// ------------------------------------------------------------------
// Declarations of the backend's unparameterised types. They are opaque
// to the proofs: everything known about a value of one of them is said
// by the contracts below.
// ------------------------------------------------------------------

#[verifier::external_type_specification]
#[verifier::external_body]
pub struct ExBase(pallas::Base);

#[verifier::external_type_specification]
#[verifier::external_body]
pub struct ExSelector(Selector);

#[verifier::external_type_specification]
#[verifier::external_body]
pub struct ExTableColumn(TableColumn);

#[verifier::external_type_specification]
#[verifier::external_body]
pub struct ExCell(Cell);

#[verifier::external_type_specification]
#[verifier::external_body]
pub struct ExError(Error);

#[verifier::external_type_specification]
#[verifier::external_body]
#[verifier::reject_recursive_types(F)]
pub struct ExExpression<F>(Expression<F>);

// ------------------------------------------------------------------
// Handles for the backend's bounded generic types.
// ------------------------------------------------------------------

/// An advice column of the constraint matrix; wraps
/// `plonk::Column<Advice>`, whose declaration carries a bound the proofs
/// cannot see.
#[verifier::external_body]
#[derive(Debug)]
pub struct AdviceColumn {
    pub inner: Column<Advice>,
}

impl Clone for AdviceColumn {
    /// Relies on `Column` being `Copy`: the clone is the same column.
    #[verifier::external_body]
    fn clone(&self) -> (r: Self)
        ensures
            r == *self,
    {
        AdviceColumn { inner: self.inner }
    }
}

impl Copy for AdviceColumn {

}

/// The constraint system under configuration; wraps a borrow of
/// `plonk::ConstraintSystem`.
#[verifier::external_body]
pub struct Meta<'m> {
    pub inner: &'m mut ConstraintSystem<pallas::Base>,
}

/// A region under assignment; wraps `circuit::Region`.
#[verifier::external_body]
pub struct RegionCtx<'f> {
    pub inner: Region<'f, pallas::Base>,
}

/// A lookup table under assignment; wraps `circuit::Table`.
#[verifier::external_body]
pub struct TableCtx<'f> {
    pub inner: halo2_proofs::circuit::Table<'f, pallas::Base>,
}

/// The virtual cells of a gate or lookup under construction; wraps a borrow
/// of `plonk::VirtualCells`.
#[verifier::external_body]
pub struct GateCells<'v, 'm> {
    pub inner: &'v mut VirtualCells<'m, pallas::Base>,
}

// ------------------------------------------------------------------
// Names for the backend state that the contracts speak about.
// ------------------------------------------------------------------

/// The index the constraint system gave this advice column.
pub uninterp spec fn advice_index(c: AdviceColumn) -> int;

/// How many advice columns the constraint system has allocated.
pub uninterp spec fn advice_count(m: Meta<'_>) -> int;

/// The index of the fixed column backing this lookup-table column.
pub uninterp spec fn table_col_index(c: TableColumn) -> int;

/// How many fixed columns the constraint system has allocated.
pub uninterp spec fn fixed_count(m: Meta<'_>) -> int;

/// A model of a backend gate expression, one variant per constructor the
/// backend stores: a constant (as its canonical integer), a selector query
/// (by selector index), an advice query (column index and rotation, 0 for
/// the current row and 1 for the next), negation, sum and product. The
/// backend builds subtraction as a sum with a negated right side, and so
/// does this model.
pub enum GateExpr {
    Const(int),
    Sel(int),
    Advice(int, int),
    Neg(Box<GateExpr>),
    Add(Box<GateExpr>, Box<GateExpr>),
    Mul(Box<GateExpr>, Box<GateExpr>),
}

/// The constructor tree of a backend expression, per the reading above.
pub uninterp spec fn expr_model(e: Expression<pallas::Base>) -> GateExpr;

/// The index the constraint system gave this selector.
pub uninterp spec fn selector_index(s: Selector) -> int;

/// How many selectors the constraint system has allocated.
pub uninterp spec fn selector_count(m: Meta<'_>) -> int;

/// The gates the constraint system has registered, in order: each gate is
/// its list of constraint polynomials.
pub uninterp spec fn gate_constraints(m: Meta<'_>) -> Seq<Seq<GateExpr>>;

/// The lookup arguments the constraint system has registered, in order:
/// each argument is its list of pairs of an input expression and the index
/// of the fixed column whose current-row query the input is tied to.
pub uninterp spec fn lookup_args(m: Meta<'_>) -> Seq<Seq<(GateExpr, int)>>;

/// The set of advice columns enabled for equality (registered with the
/// permutation argument, which keeps each column once).
pub uninterp spec fn equality_cols(m: Meta<'_>) -> Set<AdviceColumn>;

/// How many advice columns the constraint system behind these virtual cells
/// has allocated.
pub uninterp spec fn cells_advice_count(vc: GateCells<'_, '_>) -> int;

/// How many selectors the constraint system behind this region has
/// allocated.
pub uninterp spec fn region_selector_count(r: RegionCtx<'_>) -> int;

/// The advice cells assigned so far within a region: for each column, a map
/// from row offset to the (small, injectively embedded) field-element value.
pub uninterp spec fn region_cells(r: RegionCtx<'_>, c: AdviceColumn) -> Map<int, int>;

/// The row offsets at which a selector has been enabled within a region.
pub uninterp spec fn region_enabled(r: RegionCtx<'_>, s: Selector) -> Set<int>;

/// The cells assigned so far in a lookup table: for each table column, a map
/// from row offset to the assigned value.
pub uninterp spec fn table_cells(t: TableCtx<'_>, c: TableColumn) -> Map<int, int>;

/// Whether a gate expression contains a simple selector; names the result of
/// `Expression::contains_simple_selector`, which depends on the expression
/// alone.
pub uninterp spec fn has_simple_selector(e: Expression<pallas::Base>) -> bool;

// ------------------------------------------------------------------
// Configuration-time calls.
// ------------------------------------------------------------------

/// Relies on `ConstraintSystem::advice_column`: it hands out the next advice
/// column index and increments the count, registering nothing else.
#[verifier::external_body]
pub fn cs_advice_column(meta: &mut Meta<'_>) -> (r: AdviceColumn)
    ensures
        advice_index(r) == advice_count(*old(meta)),
        advice_count(*final(meta)) == advice_count(*old(meta)) + 1,
        fixed_count(*final(meta)) == fixed_count(*old(meta)),
        selector_count(*final(meta)) == selector_count(*old(meta)),
        gate_constraints(*final(meta)) == gate_constraints(*old(meta)),
        lookup_args(*final(meta)) == lookup_args(*old(meta)),
        equality_cols(*final(meta)) == equality_cols(*old(meta)),
{
    AdviceColumn { inner: meta.inner.advice_column() }
}

/// Relies on `ConstraintSystem::enable_equality`: it registers the column
/// with the permutation argument (which keeps each column once) and
/// registers nothing else. The backend indexes its per-column query tally by
/// the column's number, so the column must belong to this system.
#[verifier::external_body]
pub fn cs_enable_equality(meta: &mut Meta<'_>, column: AdviceColumn)
    requires
        advice_index(column) < advice_count(*old(meta)),
    ensures
        equality_cols(*final(meta)) == equality_cols(*old(meta)).insert(column),
        advice_count(*final(meta)) == advice_count(*old(meta)),
        fixed_count(*final(meta)) == fixed_count(*old(meta)),
        selector_count(*final(meta)) == selector_count(*old(meta)),
        gate_constraints(*final(meta)) == gate_constraints(*old(meta)),
        lookup_args(*final(meta)) == lookup_args(*old(meta)),
{
    meta.inner.enable_equality(column.inner)
}

/// Relies on `ConstraintSystem::selector`: it hands out the next selector
/// index and increments the count, registering nothing else.
#[verifier::external_body]
pub fn cs_selector(meta: &mut Meta<'_>) -> (r: Selector)
    ensures
        selector_index(r) == selector_count(*old(meta)),
        selector_count(*final(meta)) == selector_count(*old(meta)) + 1,
        advice_count(*final(meta)) == advice_count(*old(meta)),
        fixed_count(*final(meta)) == fixed_count(*old(meta)),
        gate_constraints(*final(meta)) == gate_constraints(*old(meta)),
        lookup_args(*final(meta)) == lookup_args(*old(meta)),
        equality_cols(*final(meta)) == equality_cols(*old(meta)),
{
    meta.inner.selector()
}

/// Relies on `ConstraintSystem::lookup_table_column`: it allocates the next
/// fixed column and wraps it as a lookup-table column, registering nothing
/// else.
#[verifier::external_body]
pub fn cs_lookup_table_column(meta: &mut Meta<'_>) -> (r: TableColumn)
    ensures
        table_col_index(r) == fixed_count(*old(meta)),
        fixed_count(*final(meta)) == fixed_count(*old(meta)) + 1,
        advice_count(*final(meta)) == advice_count(*old(meta)),
        selector_count(*final(meta)) == selector_count(*old(meta)),
        gate_constraints(*final(meta)) == gate_constraints(*old(meta)),
        lookup_args(*final(meta)) == lookup_args(*old(meta)),
        equality_cols(*final(meta)) == equality_cols(*old(meta)),
{
    meta.inner.lookup_table_column()
}

/// Relies on `ConstraintSystem::create_gate`: it evaluates the constraint
/// closure once over this system's virtual cells and registers exactly the
/// returned polynomials as one new gate, allocating nothing. The closure
/// hands the virtual cells straight to the verified builder
/// `crate::gadget::decompose::decompose_gate_poly`, whose checked contract
/// says it returns the one decompose constraint (so an empty list never
/// reaches the backend, and the registered gate below is that constraint);
/// the builder queries exactly the three columns passed here, which the
/// backend tallies by column number, so they must belong to this system.
#[verifier::external_body]
pub fn cs_create_gate_decompose(
    meta: &mut Meta<'_>,
    q: Selector,
    a0: AdviceColumn,
    a1: AdviceColumn,
    a2: AdviceColumn,
)
    requires
        advice_index(a0) < advice_count(*old(meta)),
        advice_index(a1) < advice_count(*old(meta)),
        advice_index(a2) < advice_count(*old(meta)),
    ensures
        gate_constraints(*final(meta)) == gate_constraints(*old(meta)).push(
            seq![
                crate::gadget::decompose::decompose_poly_model(
                    selector_index(q),
                    advice_index(a0),
                    advice_index(a1),
                    advice_index(a2),
                )
            ],
        ),
        advice_count(*final(meta)) == advice_count(*old(meta)),
        fixed_count(*final(meta)) == fixed_count(*old(meta)),
        selector_count(*final(meta)) == selector_count(*old(meta)),
        lookup_args(*final(meta)) == lookup_args(*old(meta)),
        equality_cols(*final(meta)) == equality_cols(*old(meta)),
{
    meta.inner.create_gate("decompose word into 4 chunks", |vc| {
        let mut cells = GateCells { inner: vc };
        crate::gadget::decompose::decompose_gate_poly(&mut cells, q, a0, a1, a2)
    });
}

/// Relies on `ConstraintSystem::lookup`: it evaluates the mapping closure
/// once over this system's virtual cells and registers exactly the
/// returned pairs as one new lookup argument (each table column stored as
/// its current-row fixed query), returning the argument's position and
/// allocating nothing. The closure hands the virtual cells straight to the
/// verified builder `crate::gadget::xor::xor_lookup_map`, whose checked
/// contract says the pairs are the three current-row advice queries tied
/// to the three table columns in order, and that no input holds a simple
/// selector, which the backend would refuse; the builder queries exactly
/// the three advice columns passed here, which the backend tallies by
/// column number, so they must belong to this system.
#[verifier::external_body]
pub fn cs_lookup_xor(
    meta: &mut Meta<'_>,
    x: AdviceColumn,
    y: AdviceColumn,
    z: AdviceColumn,
    tx: TableColumn,
    ty: TableColumn,
    tz: TableColumn,
) -> (r: usize)
    requires
        advice_index(x) < advice_count(*old(meta)),
        advice_index(y) < advice_count(*old(meta)),
        advice_index(z) < advice_count(*old(meta)),
    ensures
        r as int == lookup_args(*old(meta)).len() as int,
        lookup_args(*final(meta)) == lookup_args(*old(meta)).push(
            seq![
                (GateExpr::Advice(advice_index(x), 0), table_col_index(tx)),
                (GateExpr::Advice(advice_index(y), 0), table_col_index(ty)),
                (GateExpr::Advice(advice_index(z), 0), table_col_index(tz)),
            ],
        ),
        advice_count(*final(meta)) == advice_count(*old(meta)),
        fixed_count(*final(meta)) == fixed_count(*old(meta)),
        selector_count(*final(meta)) == selector_count(*old(meta)),
        gate_constraints(*final(meta)) == gate_constraints(*old(meta)),
        equality_cols(*final(meta)) == equality_cols(*old(meta)),
{
    meta.inner.lookup(|vc| {
        let mut cells = GateCells { inner: vc };
        crate::gadget::xor::xor_lookup_map(&mut cells, x, y, z, tx, ty, tz)
    })
}

/// Relies on `VirtualCells::query_selector`: it returns the selector as a
/// selector-query expression, recording the query and touching no column
/// tally.
#[verifier::external_body]
pub(crate) fn vc_query_selector(vc: &mut GateCells<'_, '_>, q: Selector) -> (r: Expression<
    pallas::Base,
>)
    ensures
        expr_model(r) == GateExpr::Sel(selector_index(q)),
        cells_advice_count(*final(vc)) == cells_advice_count(*old(vc)),
{
    vc.inner.query_selector(q)
}

/// Relies on `VirtualCells::query_advice` at the current row: the resulting
/// expression is an advice query and contains no simple selector. The
/// backend tallies the query by the column's number, so the column must
/// belong to the system behind these cells.
#[verifier::external_body]
pub(crate) fn vc_query_advice_cur(
    vc: &mut GateCells<'_, '_>,
    c: AdviceColumn,
) -> (r: Expression<pallas::Base>)
    requires
        advice_index(c) < cells_advice_count(*old(vc)),
    ensures
        expr_model(r) == GateExpr::Advice(advice_index(c), 0),
        !has_simple_selector(r),
        cells_advice_count(*final(vc)) == cells_advice_count(*old(vc)),
{
    vc.inner.query_advice(c.inner, Rotation::cur())
}

/// Relies on `VirtualCells::query_advice` at the next row: the resulting
/// expression is an advice query and contains no simple selector. The
/// backend tallies the query by the column's number, so the column must
/// belong to the system behind these cells.
#[verifier::external_body]
pub(crate) fn vc_query_advice_next(
    vc: &mut GateCells<'_, '_>,
    c: AdviceColumn,
) -> (r: Expression<pallas::Base>)
    requires
        advice_index(c) < cells_advice_count(*old(vc)),
    ensures
        expr_model(r) == GateExpr::Advice(advice_index(c), 1),
        !has_simple_selector(r),
        cells_advice_count(*final(vc)) == cells_advice_count(*old(vc)),
{
    vc.inner.query_advice(c.inner, Rotation::next())
}

/// Relies on `Expression::Constant` and on the field embedding of a `u64`
/// being injective (the modulus is far larger): the result is the constant
/// expression for `k` and contains no selector.
#[verifier::external_body]
pub(crate) fn expr_const(k: u64) -> (r: Expression<pallas::Base>)
    ensures
        expr_model(r) == GateExpr::Const(k as int),
        !has_simple_selector(r),
{
    Expression::Constant(pallas::Base::from(k))
}

/// Relies on `Add for Expression`, which panics when either side contains a
/// simple selector and otherwise returns their sum.
#[verifier::external_body]
pub(crate) fn expr_add(
    a: Expression<pallas::Base>,
    b: Expression<pallas::Base>,
) -> (r: Expression<pallas::Base>)
    requires
        !has_simple_selector(a),
        !has_simple_selector(b),
    ensures
        expr_model(r) == GateExpr::Add(Box::new(expr_model(a)), Box::new(expr_model(b))),
        !has_simple_selector(r),
{
    a + b
}

/// Relies on `Sub for Expression`, which panics when either side contains a
/// simple selector and otherwise returns their difference, built as the sum
/// of the left side and the negated right side.
#[verifier::external_body]
pub(crate) fn expr_sub(
    a: Expression<pallas::Base>,
    b: Expression<pallas::Base>,
) -> (r: Expression<pallas::Base>)
    requires
        !has_simple_selector(a),
        !has_simple_selector(b),
    ensures
        expr_model(r) == GateExpr::Add(
            Box::new(expr_model(a)),
            Box::new(GateExpr::Neg(Box::new(expr_model(b)))),
        ),
        !has_simple_selector(r),
{
    a - b
}

/// Relies on `Mul for Expression`, which panics only when both sides contain
/// a simple selector and otherwise returns their product.
#[verifier::external_body]
pub(crate) fn expr_mul(
    a: Expression<pallas::Base>,
    b: Expression<pallas::Base>,
) -> (r: Expression<pallas::Base>)
    requires
        !(has_simple_selector(a) && has_simple_selector(b)),
    ensures
        expr_model(r) == GateExpr::Mul(Box::new(expr_model(a)), Box::new(expr_model(b))),
        has_simple_selector(r) == (has_simple_selector(a) || has_simple_selector(b)),
{
    a * b
}

// ------------------------------------------------------------------
// Synthesis-time calls.
// ------------------------------------------------------------------

/// Relies on `Region::assign_advice`: it writes the given field element at
/// (column, offset) within the region and returns the cell coordinate. The
/// value closure is total, so the only failures are the backend's own. On
/// success the one cell is written and nothing else in the region changes.
#[verifier::external_body]
pub(crate) fn region_assign_advice(
    region: &mut RegionCtx<'_>,
    column: AdviceColumn,
    offset: usize,
    v: u64,
) -> (r: Result<Cell, Error>)
    ensures
        r is Ok ==> region_cells(*final(region), column) == region_cells(
            *old(region),
            column,
        ).insert(offset as int, v as int),
        r is Ok ==> forall|c: AdviceColumn|
            c != column ==> #[trigger] region_cells(*final(region), c) == region_cells(
                *old(region),
                c,
            ),
        r is Ok ==> forall|s: Selector| #[trigger] region_enabled(*final(region), s)
            == region_enabled(*old(region), s),
        region_selector_count(*final(region)) == region_selector_count(*old(region)),
{
    region
        .inner
        .assign_advice(|| "cell", column.inner, offset, || Value::known(pallas::Base::from(v)))
        .map(|ac| ac.cell())
}

/// Relies on `Selector::enable`: on success the selector is turned on at the
/// given offset of the region and nothing else in the region changes. Rows
/// out of range are reported as errors, but the backend indexes its
/// selector state by the selector's number, so the selector must belong to
/// the system behind this region.
#[verifier::external_body]
pub(crate) fn selector_enable(
    q: &Selector,
    region: &mut RegionCtx<'_>,
    offset: usize,
) -> (r: Result<(), Error>)
    requires
        selector_index(*q) < region_selector_count(*old(region)),
    ensures
        r is Ok ==> region_enabled(*final(region), *q) == region_enabled(
            *old(region),
            *q,
        ).insert(offset as int),
        r is Ok ==> forall|s: Selector|
            s != *q ==> #[trigger] region_enabled(*final(region), s) == region_enabled(
                *old(region),
                s,
            ),
        r is Ok ==> forall|c: AdviceColumn| #[trigger] region_cells(*final(region), c)
            == region_cells(*old(region), c),
        region_selector_count(*final(region)) == region_selector_count(*old(region)),
{
    q.enable(&mut region.inner, offset)
}

/// Relies on `Table::assign_cell`: on success the given value is written at
/// (column, offset) of the lookup table and the other table columns are left
/// as they were.
#[verifier::external_body]
pub(crate) fn table_assign_cell(
    table: &mut TableCtx<'_>,
    column: TableColumn,
    offset: usize,
    v: u64,
) -> (r: Result<(), Error>)
    ensures
        r is Ok ==> table_cells(*final(table), column) == table_cells(
            *old(table),
            column,
        ).insert(offset as int, v as int),
        r is Ok ==> forall|c: TableColumn|
            c != column ==> #[trigger] table_cells(*final(table), c) == table_cells(
                *old(table),
                c,
            ),
{
    table
        .inner
        .assign_cell(|| "table cell", column, offset, || Value::known(pallas::Base::from(v)))
}

} // verus!
