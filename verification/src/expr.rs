//! The operator catalog and the type-directed recursive expression
//! generator.
//!
//! An expression is built for a target output type: leaves are column
//! references of that type or random literals; inner nodes are binary
//! operators whose catalog entry can return the target type, with both
//! children generated for the same type (every catalog signature is
//! `SameAsOutput` pairs).  Invalid combinations the engine may reject
//! (such as boolean arithmetic on a Null literal) are deliberate test
//! input.

use vstd::prelude::*;

use crate::context::GlobalContext;
use crate::rng::{rng_word, word_index, FuzzerRng};
use crate::types::{
    spec_numeric_data_types, spec_time_data_types, FuzzerDataType, LogicalTable, TableModel,
};
use crate::value::{
    generate_value, spec_generate_value, spec_value_sql, spec_value_type, GeneratedValue,
    ValueGenerationConfig, ValueModel,
};

verus! {

/// The base operators the generator can emit.
#[derive(Debug, Clone, Copy, PartialEq, Eq, Structural)]
pub enum BaseExpr {
    Add,
    Sub,
    Mul,
    Div,
    Mod,
    And,
    Or,
}

/// One slot of a child-type signature.
#[derive(Debug, Clone)]
pub enum TypeGroup {
    /// The child type must equal the expression's chosen output type.
    SameAsOutput,
    /// A fixed data type that must be used.
    Fixed(FuzzerDataType),
    /// A set of possible data types to choose from.
    OneOf(Vec<FuzzerDataType>),
}

/// A catalog entry: an operator, its possible return types, and its
/// possible child-type signatures.
#[derive(Debug)]
pub struct ExprWrapper {
    pub expr: BaseExpr,
    pub return_type: Vec<FuzzerDataType>,
    pub inferred_child_signature: Vec<Vec<TypeGroup>>,
}

/// The return types of an operator: arithmetic that also covers the
/// time types for `+`/`-`, arithmetic alone for `*`/`/`/`%`, and
/// Boolean for the logical operators.
pub open spec fn spec_op_return_types(op: BaseExpr) -> Seq<FuzzerDataType> {
    match op {
        BaseExpr::Add => spec_numeric_data_types() + spec_time_data_types(),
        BaseExpr::Sub => spec_numeric_data_types() + spec_time_data_types(),
        BaseExpr::Mul => spec_numeric_data_types(),
        BaseExpr::Div => spec_numeric_data_types(),
        BaseExpr::Mod => spec_numeric_data_types(),
        BaseExpr::And => seq![FuzzerDataType::Boolean],
        BaseExpr::Or => seq![FuzzerDataType::Boolean],
    }
}

/// Whether an operator can produce the given output type.
pub open spec fn spec_op_returns(op: BaseExpr, ty: FuzzerDataType) -> bool {
    match op {
        BaseExpr::Add => ty.spec_is_numeric() || ty.spec_is_time(),
        BaseExpr::Sub => ty.spec_is_numeric() || ty.spec_is_time(),
        BaseExpr::Mul => ty.spec_is_numeric(),
        BaseExpr::Div => ty.spec_is_numeric(),
        BaseExpr::Mod => ty.spec_is_numeric(),
        BaseExpr::And => ty == FuzzerDataType::Boolean,
        BaseExpr::Or => ty == FuzzerDataType::Boolean,
    }
}

/// All operators, in catalog order.
pub open spec fn spec_all_ops() -> Seq<BaseExpr> {
    seq![
        BaseExpr::Add,
        BaseExpr::Sub,
        BaseExpr::Mul,
        BaseExpr::Div,
        BaseExpr::Mod,
        BaseExpr::And,
        BaseExpr::Or,
    ]
}

/// The operators whose return types include `ty`, in catalog order.
pub open spec fn spec_ops_returning(ty: FuzzerDataType) -> Seq<BaseExpr> {
    spec_all_ops().filter(|op: BaseExpr| spec_op_returns(op, ty))
}

/// The catalog and the generator agree: an operator's return-type list
/// holds exactly the types the generator's eligibility predicate
/// accepts for it.
pub proof fn lemma_catalog_matches_eligibility(op: BaseExpr, ty: FuzzerDataType)
    ensures
        spec_op_return_types(op).contains(ty) <==> spec_op_returns(op, ty),
{
    let rts = spec_op_return_types(op);
    if spec_op_returns(op, ty) {
        match op {
            BaseExpr::Add | BaseExpr::Sub => {
                match ty {
                    FuzzerDataType::Int32 => assert(rts[0] == ty),
                    FuzzerDataType::Int64 => assert(rts[1] == ty),
                    FuzzerDataType::UInt32 => assert(rts[2] == ty),
                    FuzzerDataType::UInt64 => assert(rts[3] == ty),
                    FuzzerDataType::Float32 => assert(rts[4] == ty),
                    FuzzerDataType::Float64 => assert(rts[5] == ty),
                    FuzzerDataType::Decimal => assert(rts[6] == ty),
                    FuzzerDataType::Date32 => assert(rts[7] == ty),
                    FuzzerDataType::Time64Nanosecond => assert(rts[8] == ty),
                    FuzzerDataType::Timestamp => assert(rts[9] == ty),
                    FuzzerDataType::IntervalMonthDayNano => assert(rts[10] == ty),
                    FuzzerDataType::Boolean => assert(false),
                }
            },
            BaseExpr::Mul | BaseExpr::Div | BaseExpr::Mod => {
                match ty {
                    FuzzerDataType::Int32 => assert(rts[0] == ty),
                    FuzzerDataType::Int64 => assert(rts[1] == ty),
                    FuzzerDataType::UInt32 => assert(rts[2] == ty),
                    FuzzerDataType::UInt64 => assert(rts[3] == ty),
                    FuzzerDataType::Float32 => assert(rts[4] == ty),
                    FuzzerDataType::Float64 => assert(rts[5] == ty),
                    FuzzerDataType::Decimal => assert(rts[6] == ty),
                    _ => assert(false),
                }
            },
            BaseExpr::And | BaseExpr::Or => {
                assert(rts[0] == ty);
            },
        }
    }
    if rts.contains(ty) {
        let i = choose|i: int| 0 <= i < rts.len() && rts[i] == ty;
        assert(spec_op_returns(op, rts[i]));
    }
}

/// A catalog entry is standard when it has the one two-child
/// `SameAsOutput` signature.
pub open spec fn spec_standard_signature(w: &ExprWrapper) -> bool {
    &&& w.inferred_child_signature@.len() == 1
    &&& w.inferred_child_signature@[0]@.len() == 2
    &&& w.inferred_child_signature@[0]@[0] is SameAsOutput
    &&& w.inferred_child_signature@[0]@[1] is SameAsOutput
}

fn standard_signature() -> (r: Vec<Vec<TypeGroup>>)
    ensures
        r@.len() == 1,
        r@[0]@.len() == 2,
        r@[0]@[0] is SameAsOutput,
        r@[0]@[1] is SameAsOutput,
{
    let mut sig: Vec<TypeGroup> = Vec::new();
    sig.push(TypeGroup::SameAsOutput);
    sig.push(TypeGroup::SameAsOutput);
    let mut sigs: Vec<Vec<TypeGroup>> = Vec::new();
    sigs.push(sig);
    sigs
}

fn numeric_and_time_types() -> (r: Vec<FuzzerDataType>)
    ensures
        r@ == spec_numeric_data_types() + spec_time_data_types(),
{
    let mut v = crate::types::get_numeric_data_types();
    let mut t = crate::types::get_time_data_types();
    v.append(&mut t);
    v
}

/// An operator's catalog entry.
pub open spec fn spec_describe(op: BaseExpr, w: &ExprWrapper) -> bool {
    &&& w.expr == op
    &&& w.return_type@ == spec_op_return_types(op)
    &&& spec_standard_signature(w)
}

/// Addition: numeric and time outputs.
#[derive(Debug)]
pub struct AddExpr;

impl AddExpr {
    pub fn describe(&self) -> (r: ExprWrapper)
        ensures
            spec_describe(BaseExpr::Add, &r),
    {
        ExprWrapper {
            expr: BaseExpr::Add,
            return_type: numeric_and_time_types(),
            inferred_child_signature: standard_signature(),
        }
    }
}

/// Subtraction: numeric and time outputs.
#[derive(Debug)]
pub struct SubExpr;

impl SubExpr {
    pub fn describe(&self) -> (r: ExprWrapper)
        ensures
            spec_describe(BaseExpr::Sub, &r),
    {
        ExprWrapper {
            expr: BaseExpr::Sub,
            return_type: numeric_and_time_types(),
            inferred_child_signature: standard_signature(),
        }
    }
}

/// Multiplication: numeric outputs.
#[derive(Debug)]
pub struct MulExpr;

impl MulExpr {
    pub fn describe(&self) -> (r: ExprWrapper)
        ensures
            spec_describe(BaseExpr::Mul, &r),
    {
        ExprWrapper {
            expr: BaseExpr::Mul,
            return_type: crate::types::get_numeric_data_types(),
            inferred_child_signature: standard_signature(),
        }
    }
}

/// Division: numeric outputs.
#[derive(Debug)]
pub struct DivExpr;

impl DivExpr {
    pub fn describe(&self) -> (r: ExprWrapper)
        ensures
            spec_describe(BaseExpr::Div, &r),
    {
        ExprWrapper {
            expr: BaseExpr::Div,
            return_type: crate::types::get_numeric_data_types(),
            inferred_child_signature: standard_signature(),
        }
    }
}

/// Modulo: numeric outputs.
#[derive(Debug)]
pub struct ModExpr;

impl ModExpr {
    pub fn describe(&self) -> (r: ExprWrapper)
        ensures
            spec_describe(BaseExpr::Mod, &r),
    {
        ExprWrapper {
            expr: BaseExpr::Mod,
            return_type: crate::types::get_numeric_data_types(),
            inferred_child_signature: standard_signature(),
        }
    }
}

/// Logical AND: Boolean output.
#[derive(Debug)]
pub struct AndExpr;

impl AndExpr {
    pub fn describe(&self) -> (r: ExprWrapper)
        ensures
            spec_describe(BaseExpr::And, &r),
    {
        let mut return_type: Vec<FuzzerDataType> = Vec::new();
        return_type.push(FuzzerDataType::Boolean);
        assert(return_type@ =~= spec_op_return_types(BaseExpr::And));
        ExprWrapper {
            expr: BaseExpr::And,
            return_type,
            inferred_child_signature: standard_signature(),
        }
    }
}

/// Logical OR: Boolean output.
#[derive(Debug)]
pub struct OrExpr;

impl OrExpr {
    pub fn describe(&self) -> (r: ExprWrapper)
        ensures
            spec_describe(BaseExpr::Or, &r),
    {
        let mut return_type: Vec<FuzzerDataType> = Vec::new();
        return_type.push(FuzzerDataType::Boolean);
        assert(return_type@ =~= spec_op_return_types(BaseExpr::Or));
        ExprWrapper {
            expr: BaseExpr::Or,
            return_type,
            inferred_child_signature: standard_signature(),
        }
    }
}

/// Returns all available expressions that can be used in query
/// generation, in catalog order.
pub fn all_available_exprs() -> (r: Vec<ExprWrapper>)
    ensures
        r@.len() == spec_all_ops().len(),
        forall|i: int| 0 <= i < r@.len() ==> spec_describe(spec_all_ops()[i], &r@[i]),
{
    let mut v: Vec<ExprWrapper> = Vec::new();
    v.push(AddExpr.describe());
    v.push(SubExpr.describe());
    v.push(MulExpr.describe());
    v.push(DivExpr.describe());
    v.push(ModExpr.describe());
    v.push(AndExpr.describe());
    v.push(OrExpr.describe());
    v
}

impl TypeGroup {
    /// Resolve one slot against a chosen output type.
    pub open spec fn spec_resolved(&self, output: FuzzerDataType) -> FuzzerDataType
        recommends
            !(self is OneOf),
    {
        match self {
            TypeGroup::SameAsOutput => output,
            TypeGroup::Fixed(ty) => *ty,
            TypeGroup::OneOf(_) => output,
        }
    }

    /// Pick a concrete type from a slot that does not depend on the
    /// output type.  A `OneOf` slot spends one draw; a `Fixed` slot
    /// spends none.
    pub fn pick_random_type(&self, rng: &mut FuzzerRng) -> (r: FuzzerDataType)
        requires
            !(self is SameAsOutput),
            self is OneOf ==> self.arrow_OneOf_0()@.len() > 0,
        ensures
            final(rng).seed() == old(rng).seed(),
            match self {
                TypeGroup::SameAsOutput => true,
                TypeGroup::Fixed(ty) => r == ty && final(rng).drawn() == old(rng).drawn(),
                TypeGroup::OneOf(tys) => {
                    &&& final(rng).drawn() == old(rng).drawn() + 1
                    &&& r == tys@[word_index(
                        rng_word(old(rng).seed(), old(rng).drawn()),
                        tys@.len() as int,
                    )]
                },
            },
    {
        match self {
            TypeGroup::SameAsOutput => FuzzerDataType::Boolean,
            TypeGroup::Fixed(ty) => *ty,
            TypeGroup::OneOf(tys) => {
                let idx = rng.next_index(tys.len());
                tys[idx]
            },
        }
    }
}

impl ExprWrapper {
    /// Pick one child-type signature and resolve every slot against the
    /// chosen output type.  With the standard catalog this spends one
    /// draw (the signature pick) and yields the output type twice.
    pub fn pick_child_signature(&self, output_type: FuzzerDataType, rng: &mut FuzzerRng) -> (r:
        Vec<FuzzerDataType>)
        requires
            spec_standard_signature(self),
        ensures
            final(rng).seed() == old(rng).seed(),
            final(rng).drawn() == old(rng).drawn() + 1,
            r@ == seq![output_type, output_type],
    {
        let sig_idx = rng.next_index(self.inferred_child_signature.len());
        let signature = &self.inferred_child_signature[sig_idx];
        let mut picked: Vec<FuzzerDataType> = Vec::new();
        picked.push(output_type);
        picked.push(output_type);
        assert(picked@ =~= seq![output_type, output_type]);
        picked
    }
}

/// A table-qualified column reference carrying its logical type.
#[derive(Debug)]
pub struct ColumnRef {
    pub table: String,
    pub name: String,
    pub data_type: FuzzerDataType,
}

/// The mathematical model of a column reference.
pub ghost struct ColumnRefModel {
    pub table: Seq<char>,
    pub name: Seq<char>,
    pub data_type: FuzzerDataType,
}

impl View for ColumnRef {
    type V = ColumnRefModel;

    open spec fn view(&self) -> ColumnRefModel {
        ColumnRefModel { table: self.table@, name: self.name@, data_type: self.data_type }
    }
}

/// The models of a column reference list, in order.
pub open spec fn spec_col_ref_models(cs: Seq<ColumnRef>) -> Seq<ColumnRefModel> {
    cs.map_values(|c: ColumnRef| c@)
}

/// A generated scalar expression tree.
#[derive(Debug)]
pub enum Expr {
    Column(ColumnRef),
    Literal(GeneratedValue),
    Binary(BaseExpr, Box<Expr>, Box<Expr>),
}

/// The mathematical model of an expression tree.
pub ghost enum ExprModel {
    Column(ColumnRefModel),
    Literal(ValueModel),
    Binary(BaseExpr, Box<ExprModel>, Box<ExprModel>),
}

impl View for Expr {
    type V = ExprModel;

    open spec fn view(&self) -> ExprModel
        decreases self,
    {
        match self {
            Expr::Column(c) => ExprModel::Column(c@),
            Expr::Literal(v) => ExprModel::Literal(v@),
            Expr::Binary(op, l, r) => ExprModel::Binary(*op, Box::new((**l)@), Box::new((**r)@)),
        }
    }
}

/// An expression is well typed for a target type when every column
/// leaf has that type, every literal leaf is Null or has that type,
/// and every operator can return it (children share the output type,
/// as the catalog's `SameAsOutput` signatures demand).
pub open spec fn spec_expr_well_typed(m: ExprModel, target: FuzzerDataType) -> bool
    decreases m,
{
    match m {
        ExprModel::Column(c) => c.data_type == target,
        ExprModel::Literal(v) => spec_value_type(v) == Some(target) || spec_value_type(v)
            == Option::<FuzzerDataType>::None,
        ExprModel::Binary(op, l, r) => {
            &&& spec_op_returns(op, target)
            &&& spec_expr_well_typed(*l, target)
            &&& spec_expr_well_typed(*r, target)
        },
    }
}

/// Every value inside an expression lies in the generator's ranges.
pub open spec fn spec_expr_wf(m: ExprModel) -> bool
    decreases m,
{
    match m {
        ExprModel::Column(_) => true,
        ExprModel::Literal(v) => crate::value::value_wf(v),
        ExprModel::Binary(_, l, r) => spec_expr_wf(*l) && spec_expr_wf(*r),
    }
}

/// The columns of `columns` whose type is `ty`, in order.
pub open spec fn spec_matching_columns(
    columns: Seq<ColumnRefModel>,
    ty: FuzzerDataType,
) -> Seq<ColumnRefModel> {
    columns.filter(|c: ColumnRefModel| c.data_type == ty)
}

/// The expression (and stream position after it) that leaf generation
/// produces: a matching column when one exists and a coin allows, else
/// a random literal of the target type.
pub open spec fn spec_gen_leaf(
    seed: u64,
    k: int,
    target: FuzzerDataType,
    columns: Seq<ColumnRefModel>,
    vcfg: ValueGenerationConfig,
) -> (ExprModel, int) {
    let matching = spec_matching_columns(columns, target);
    if matching.len() > 0 && rng_word(seed, k) % 100 < 50 {
        let idx = word_index(rng_word(seed, k + 1), matching.len() as int);
        (ExprModel::Column(matching[idx]), k + 2)
    } else if matching.len() > 0 {
        let v = spec_generate_value(target, vcfg, seed, k + 1);
        (ExprModel::Literal(v.0), v.1)
    } else {
        let v = spec_generate_value(target, vcfg, seed, k);
        (ExprModel::Literal(v.0), v.1)
    }
}

/// The expression (and stream position after it) that type-directed
/// recursive generation produces from stream position `k`.
pub open spec fn spec_gen_expr(
    seed: u64,
    k: int,
    target: FuzzerDataType,
    cur_level: u32,
    max_level: u32,
    columns: Seq<ColumnRefModel>,
    vcfg: ValueGenerationConfig,
) -> (ExprModel, int)
    decreases max_level - cur_level,
{
    let coin = rng_word(seed, k) % 100 < 50;
    if cur_level >= max_level || coin {
        spec_gen_leaf(seed, k + 1, target, columns, vcfg)
    } else {
        let ops = spec_ops_returning(target);
        if ops.len() == 0 {
            spec_gen_leaf(seed, k + 1, target, columns, vcfg)
        } else {
            let op = ops[word_index(rng_word(seed, k + 1), ops.len() as int)];
            let left = spec_gen_expr(seed, k + 3, target, (cur_level + 1) as u32, max_level, columns, vcfg);
            let right = spec_gen_expr(
                seed,
                left.1,
                target,
                (cur_level + 1) as u32,
                max_level,
                columns,
                vcfg,
            );
            (ExprModel::Binary(op, Box::new(left.0), Box::new(right.0)), right.1)
        }
    }
}

/// Generates random typed expressions over a fixed column pool.
pub struct ExprGenerator {
    pub rng: FuzzerRng,
    pub max_level: u32,
    pub src_columns: Vec<ColumnRef>,
}

impl ExprGenerator {
    /// A generator with its own stream, taking the recursion bound from
    /// the configuration.
    pub fn new(seed: u64, ctx: &GlobalContext) -> (r: Self)
        ensures
            r.rng.seed() == seed,
            r.rng.drawn() == 0,
            r.max_level == ctx.runner_config.max_expr_level,
            r.src_columns@.len() == 0,
    {
        ExprGenerator {
            rng: crate::rng::rng_from_seed(seed),
            max_level: ctx.runner_config.max_expr_level,
            src_columns: Vec::new(),
        }
    }

    /// Replace the column pool the generated expressions may reference.
    pub fn with_src_columns(self, src_columns: Vec<ColumnRef>) -> (r: Self)
        ensures
            r.rng == self.rng,
            r.max_level == self.max_level,
            r.src_columns == src_columns,
    {
        ExprGenerator { src_columns, ..self }
    }

    /// The table-qualified columns of the given tables, in order.
    pub fn tables_to_columns(tables: &Vec<LogicalTable>) -> (r: Vec<ColumnRef>)
        ensures
            spec_col_ref_models(r@) == spec_tables_to_columns(
                crate::context::spec_table_models(tables@),
            ),
    {
        let ghost tms = crate::context::spec_table_models(tables@);
        let mut out: Vec<ColumnRef> = Vec::new();
        let mut i: usize = 0;
        while i < tables.len()
            invariant
                i <= tables.len(),
                tms == crate::context::spec_table_models(tables@),
                spec_col_ref_models(out@) == spec_tables_to_columns(tms.take(i as int)),
            decreases tables.len() - i,
        {
            let table = &tables[i];
            let mut j: usize = 0;
            while j < table.columns.len()
                invariant
                    i < tables.len(),
                    j <= table.columns.len(),
                    tms == crate::context::spec_table_models(tables@),
                    table == tables@[i as int],
                    spec_col_ref_models(out@) == spec_tables_to_columns(tms.take(i as int))
                        + spec_table_column_refs(tms[i as int]).take(j as int),
                decreases table.columns.len() - j,
            {
                let c = ColumnRef {
                    table: table.name.clone(),
                    name: table.columns[j].name.clone(),
                    data_type: table.columns[j].data_type,
                };
            let ghost cm = c@;
                out.push(c);
                proof {
                    assert(tms[i as int] == tables@[i as int]@);
                    assert(spec_table_column_refs(tms[i as int])[j as int] == (ColumnRefModel {
                        table: tms[i as int].name,
                        name: tms[i as int].columns[j as int].name,
                        data_type: tms[i as int].columns[j as int].data_type,
                    }));
                    assert(tms[i as int].columns[j as int] == table.columns@[j as int]@);
                    assert(cm == spec_table_column_refs(tms[i as int])[j as int]);
                    let lhs = spec_col_ref_models(out@);
                    let rhs = spec_tables_to_columns(tms.take(i as int)) + spec_table_column_refs(
                        tms[i as int],
                    ).take(j + 1);
                    assert(spec_table_column_refs(tms[i as int]).len() == table.columns@.len());
                    assert(j + 1 <= spec_table_column_refs(tms[i as int]).len());
                    assert(spec_col_ref_models(out@.drop_last()) == spec_tables_to_columns(
                        tms.take(i as int),
                    ) + spec_table_column_refs(tms[i as int]).take(j as int));
                    assert(out@.drop_last().len() == spec_tables_to_columns(
                        tms.take(i as int),
                    ).len() + j);
                    assert(lhs.len() == out@.len());
                    assert(out@.len() == out@.drop_last().len() + 1);
                    assert(lhs.len() == rhs.len());
                    assert forall|q: int| 0 <= q < lhs.len() implies lhs[q] == rhs[q] by {
                        if q < lhs.len() - 1 {
                            assert(lhs[q] == spec_col_ref_models(out@.drop_last())[q]);
                            assert(rhs[q] == (spec_tables_to_columns(tms.take(i as int))
                                + spec_table_column_refs(tms[i as int]).take(j as int))[q]);
                        } else {
                            assert(lhs[q] == cm);
                            assert(rhs[q] == spec_table_column_refs(tms[i as int]).take(j + 1)[
                                j as int]);
                        }
                    }
                    assert(lhs =~= rhs);
                }
                j += 1;
            }
            proof {
                broadcast use vstd::seq_lib::group_seq_properties;

                assert(spec_table_column_refs(tms[i as int]).take(
                    spec_table_column_refs(tms[i as int]).len() as int,
                ) =~= spec_table_column_refs(tms[i as int]));
                assert(tms.take(i + 1).map_values(|t: TableModel| spec_table_column_refs(t))
                    =~= tms.take(i as int).map_values(
                    |t: TableModel| spec_table_column_refs(t),
                ).push(spec_table_column_refs(tms[i as int])));
                Seq::lemma_flatten_push(
                    tms.take(i as int).map_values(|t: TableModel| spec_table_column_refs(t)),
                    spec_table_column_refs(tms[i as int]),
                );
                assert(spec_col_ref_models(out@) =~~= spec_tables_to_columns(tms.take(i + 1)));
            }
            i += 1;
        }
        proof {
            assert(tms.take(tms.len() as int) =~= tms);
        }
        out
    }

    /// The columns of the pool whose type is `target`, in order.
    fn get_all_columns_of_type(&self, target: &FuzzerDataType) -> (r: Vec<ColumnRef>)
        ensures
            spec_col_ref_models(r@) == spec_matching_columns(
                spec_col_ref_models(self.src_columns@),
                *target,
            ),
    {
        let ghost all = spec_col_ref_models(self.src_columns@);
        let mut matching: Vec<ColumnRef> = Vec::new();
        let mut i: usize = 0;
        while i < self.src_columns.len()
            invariant
                i <= self.src_columns.len(),
                all == spec_col_ref_models(self.src_columns@),
                spec_col_ref_models(matching@) == spec_matching_columns(
                    all.take(i as int),
                    *target,
                ),
            decreases self.src_columns.len() - i,
        {
            proof {
                reveal(Seq::filter);
                assert(all.take(i + 1).drop_last() =~= all.take(i as int));
                assert(all.take(i + 1).last() == all[i as int]);
            }
            if matches_type(&self.src_columns[i], target) {
                let c = ColumnRef {
                    table: self.src_columns[i].table.clone(),
                    name: self.src_columns[i].name.clone(),
                    data_type: self.src_columns[i].data_type,
                };
                matching.push(c);
            }
            proof {
                assert(spec_col_ref_models(matching@) =~~= spec_matching_columns(
                    all.take(i + 1),
                    *target,
                ));
            }
            i += 1;
        }
        proof {
            assert(all.take(all.len() as int) =~= all);
        }
        matching
    }

    /// Generate either a column reference of the target type or a
    /// random literal.
    fn generate_leaf_expr(&mut self, target: &FuzzerDataType, vcfg: &ValueGenerationConfig) -> (r:
        Expr)
        requires
            vcfg.wf(),
        ensures
            final(self).rng.seed() == old(self).rng.seed(),
            final(self).max_level == old(self).max_level,
            final(self).src_columns == old(self).src_columns,
            ({
                let g = spec_gen_leaf(
                    old(self).rng.seed(),
                    old(self).rng.drawn(),
                    *target,
                    spec_col_ref_models(old(self).src_columns@),
                    *vcfg,
                );
                &&& r@ == g.0
                &&& final(self).rng.drawn() == g.1
            }),
            spec_expr_well_typed(r@, *target),
            spec_expr_wf(r@),
    {
        let columns = self.get_all_columns_of_type(target);
        if columns.len() > 0 && self.rng.next_bool_percent(50) {
            let idx = self.rng.next_index(columns.len());
            let c = ColumnRef {
                table: columns[idx].table.clone(),
                name: columns[idx].name.clone(),
                data_type: columns[idx].data_type,
            };
            proof {
                Seq::lemma_filter_pred(
                    spec_col_ref_models(old(self).src_columns@),
                    |c2: ColumnRefModel| c2.data_type == *target,
                    idx as int,
                );
            }
            Expr::Column(c)
        } else {
            let v = generate_value(&mut self.rng, target, vcfg);
            proof {
                crate::value::lemma_generated_value_type(
                    *target,
                    *vcfg,
                    old(self).rng.seed(),
                    if columns@.len() > 0 {
                        old(self).rng.drawn() + 1
                    } else {
                        old(self).rng.drawn()
                    },
                );
            }
            Expr::Literal(v)
        }
    }

    /// Recursively build a random expression of the target type.  The
    /// hard depth cap guarantees termination even when the coin keeps
    /// choosing to recurse; the whole tree is a function of the stream
    /// state, the pool and the configuration.
    pub fn generate_random_expr(
        &mut self,
        target: &FuzzerDataType,
        cur_level: u32,
        vcfg: &ValueGenerationConfig,
    ) -> (r: Expr)
        requires
            vcfg.wf(),
            cur_level <= old(self).max_level,
        ensures
            final(self).rng.seed() == old(self).rng.seed(),
            final(self).max_level == old(self).max_level,
            final(self).src_columns == old(self).src_columns,
            ({
                let g = spec_gen_expr(
                    old(self).rng.seed(),
                    old(self).rng.drawn(),
                    *target,
                    cur_level,
                    old(self).max_level,
                    spec_col_ref_models(old(self).src_columns@),
                    *vcfg,
                );
                &&& r@ == g.0
                &&& final(self).rng.drawn() == g.1
            }),
            spec_expr_well_typed(r@, *target),
            spec_expr_wf(r@),
        decreases old(self).max_level - cur_level,
    {
        let half_chance = self.rng.next_bool_percent(50);
        if cur_level >= self.max_level || half_chance {
            return self.generate_leaf_expr(target, vcfg);
        }
        let ops = ops_returning(target);
        if ops.len() == 0 {
            self.generate_leaf_expr(target, vcfg)
        } else {
            let op_idx = self.rng.next_index(ops.len());
            let op = ops[op_idx];
            // Resolve the (single, two-child `SameAsOutput`) signature.
            let _sig_idx = self.rng.next_index(1);
            let left = self.generate_random_expr(target, cur_level + 1, vcfg);
            let right = self.generate_random_expr(target, cur_level + 1, vcfg);
            proof {
                Seq::lemma_filter_pred(
                    spec_all_ops(),
                    |o: BaseExpr| spec_op_returns(o, *target),
                    op_idx as int,
                );
            }
            Expr::Binary(op, Box::new(left), Box::new(right))
        }
    }
}

/// Whether a column reference has the given type.
fn matches_type(c: &ColumnRef, ty: &FuzzerDataType) -> (r: bool)
    ensures
        r == (c@.data_type == *ty),
{
    match (&c.data_type, ty) {
        (FuzzerDataType::Int32, FuzzerDataType::Int32) => true,
        (FuzzerDataType::Int64, FuzzerDataType::Int64) => true,
        (FuzzerDataType::UInt32, FuzzerDataType::UInt32) => true,
        (FuzzerDataType::UInt64, FuzzerDataType::UInt64) => true,
        (FuzzerDataType::Float32, FuzzerDataType::Float32) => true,
        (FuzzerDataType::Float64, FuzzerDataType::Float64) => true,
        (FuzzerDataType::Boolean, FuzzerDataType::Boolean) => true,
        (FuzzerDataType::Decimal, FuzzerDataType::Decimal) => true,
        (FuzzerDataType::Date32, FuzzerDataType::Date32) => true,
        (FuzzerDataType::Time64Nanosecond, FuzzerDataType::Time64Nanosecond) => true,
        (FuzzerDataType::Timestamp, FuzzerDataType::Timestamp) => true,
        (FuzzerDataType::IntervalMonthDayNano, FuzzerDataType::IntervalMonthDayNano) => true,
        _ => false,
    }
}

/// The operators able to produce `ty`, in catalog order.
fn ops_returning(ty: &FuzzerDataType) -> (r: Vec<BaseExpr>)
    ensures
        r@ == spec_ops_returning(*ty),
{
    let all = all_ops();
    let mut out: Vec<BaseExpr> = Vec::new();
    let mut i: usize = 0;
    while i < all.len()
        invariant
            i <= all.len(),
            all@ == spec_all_ops(),
            out@ == spec_all_ops().take(i as int).filter(|op: BaseExpr| spec_op_returns(op, *ty)),
        decreases all.len() - i,
    {
        proof {
            reveal(Seq::filter);
            assert(spec_all_ops().take(i + 1).drop_last() =~= spec_all_ops().take(i as int));
            assert(spec_all_ops().take(i + 1).last() == spec_all_ops()[i as int]);
        }
        if op_returns(&all[i], ty) {
            out.push(all[i]);
        }
        i += 1;
    }
    proof {
        assert(spec_all_ops().take(spec_all_ops().len() as int) =~= spec_all_ops());
    }
    out
}

fn all_ops() -> (r: Vec<BaseExpr>)
    ensures
        r@ == spec_all_ops(),
{
    let mut v: Vec<BaseExpr> = Vec::new();
    v.push(BaseExpr::Add);
    v.push(BaseExpr::Sub);
    v.push(BaseExpr::Mul);
    v.push(BaseExpr::Div);
    v.push(BaseExpr::Mod);
    v.push(BaseExpr::And);
    v.push(BaseExpr::Or);
    assert(v@ =~= spec_all_ops());
    v
}

fn op_returns(op: &BaseExpr, ty: &FuzzerDataType) -> (r: bool)
    ensures
        r == spec_op_returns(*op, *ty),
{
    match op {
        BaseExpr::Add | BaseExpr::Sub => ty.is_numeric() || ty.is_time(),
        BaseExpr::Mul | BaseExpr::Div | BaseExpr::Mod => ty.is_numeric(),
        BaseExpr::And | BaseExpr::Or => matches!(ty, FuzzerDataType::Boolean),
    }
}

/// The column references of one table, in column order.
pub open spec fn spec_table_column_refs(t: TableModel) -> Seq<ColumnRefModel> {
    t.columns.map_values(
        |c: crate::types::ColumnModel| ColumnRefModel {
            table: t.name,
            name: c.name,
            data_type: c.data_type,
        },
    )
}

/// The column references of a table list, in table order then column
/// order.
pub open spec fn spec_tables_to_columns(ts: Seq<TableModel>) -> Seq<ColumnRefModel> {
    ts.map_values(|t: TableModel| spec_table_column_refs(t)).flatten()
}

} // verus!

verus! {

/// The SQL token of an operator.
pub open spec fn spec_op_token(op: BaseExpr) -> Seq<char> {
    match op {
        BaseExpr::Add => "+"@,
        BaseExpr::Sub => "-"@,
        BaseExpr::Mul => "*"@,
        BaseExpr::Div => "/"@,
        BaseExpr::Mod => "%"@,
        BaseExpr::And => "AND"@,
        BaseExpr::Or => "OR"@,
    }
}

/// The SQL text of an expression: qualified column names, literal
/// values, and parenthesized binary applications.
pub open spec fn spec_expr_sql(m: ExprModel) -> Seq<char>
    decreases m,
{
    match m {
        ExprModel::Column(c) => c.table + "."@ + c.name,
        ExprModel::Literal(v) => spec_value_sql(v),
        ExprModel::Binary(op, l, r) => "("@ + spec_expr_sql(*l) + " "@ + spec_op_token(op) + " "@
            + spec_expr_sql(*r) + ")"@,
    }
}

fn op_token(op: &BaseExpr) -> (r: &'static str)
    ensures
        r@ == spec_op_token(*op),
{
    match op {
        BaseExpr::Add => "+",
        BaseExpr::Sub => "-",
        BaseExpr::Mul => "*",
        BaseExpr::Div => "/",
        BaseExpr::Mod => "%",
        BaseExpr::And => "AND",
        BaseExpr::Or => "OR",
    }
}

/// Render an expression as SQL text.
pub fn expr_to_sql(e: &Expr) -> (r: String)
    requires
        spec_expr_wf(e@),
    ensures
        r@ == spec_expr_sql(e@),
    decreases *e,
{
    match e {
        Expr::Column(c) => {
            proof {
                reveal_strlit(".");
            }
            let mut s = c.table.clone();
            s.append(".");
            s.append(c.name.as_str());
            assert(s@ =~= spec_expr_sql(e@));
            s
        },
        Expr::Literal(v) => v.to_sql_string(),
        Expr::Binary(op, l, r) => {
            proof {
                reveal_strlit("(");
                reveal_strlit(")");
                reveal_strlit(" ");
            }
            let mut s = "(".to_owned();
            s.append(expr_to_sql(l).as_str());
            s.append(" ");
            s.append(op_token(op));
            s.append(" ");
            s.append(expr_to_sql(r).as_str());
            s.append(")");
            assert(s@ =~= spec_expr_sql(e@));
            s
        },
    }
}

} // verus!

verus! {

/// Type safety of leaf generation: a leaf is a column of the target
/// type or a literal that is Null or of the target type.
proof fn lemma_gen_leaf_well_typed(
    seed: u64,
    k: int,
    target: FuzzerDataType,
    columns: Seq<ColumnRefModel>,
    vcfg: ValueGenerationConfig,
)
    ensures
        spec_expr_well_typed(spec_gen_leaf(seed, k, target, columns, vcfg).0, target),
{
    let matching = spec_matching_columns(columns, target);
    if matching.len() > 0 && rng_word(seed, k) % 100 < 50 {
        let idx = word_index(rng_word(seed, k + 1), matching.len() as int);
        Seq::lemma_filter_pred(columns, |c: ColumnRefModel| c.data_type == target, idx);
    } else if matching.len() > 0 {
        crate::value::lemma_generated_value_type(target, vcfg, seed, k + 1);
    } else {
        crate::value::lemma_generated_value_type(target, vcfg, seed, k);
    }
}

/// Type safety: for every target type and every stream state, the
/// generated expression is well typed for the target type — every
/// operator in it can return the target, every column leaf has the
/// target type, and every literal leaf is Null or of the target type.
pub proof fn lemma_gen_expr_well_typed(
    seed: u64,
    k: int,
    target: FuzzerDataType,
    cur_level: u32,
    max_level: u32,
    columns: Seq<ColumnRefModel>,
    vcfg: ValueGenerationConfig,
)
    ensures
        spec_expr_well_typed(
            spec_gen_expr(seed, k, target, cur_level, max_level, columns, vcfg).0,
            target,
        ),
    decreases max_level - cur_level,
{
    let coin = rng_word(seed, k) % 100 < 50;
    if cur_level >= max_level || coin {
        lemma_gen_leaf_well_typed(seed, k + 1, target, columns, vcfg);
    } else {
        let ops = spec_ops_returning(target);
        if ops.len() == 0 {
            lemma_gen_leaf_well_typed(seed, k + 1, target, columns, vcfg);
        } else {
            let op_idx = word_index(rng_word(seed, k + 1), ops.len() as int);
            Seq::lemma_filter_pred(spec_all_ops(), |o: BaseExpr| spec_op_returns(o, target), op_idx);
            let left = spec_gen_expr(seed, k + 3, target, (cur_level + 1) as u32, max_level, columns, vcfg);
            lemma_gen_expr_well_typed(
                seed,
                k + 3,
                target,
                (cur_level + 1) as u32,
                max_level,
                columns,
                vcfg,
            );
            lemma_gen_expr_well_typed(
                seed,
                left.1,
                target,
                (cur_level + 1) as u32,
                max_level,
                columns,
                vcfg,
            );
        }
    }
}

} // verus!
