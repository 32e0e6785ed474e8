//! The SELECT statement builder: pick source tables from the registry,
//! build a select list and an optional WHERE predicate with the
//! expression generator, and render the statement as SQL text.

use vstd::prelude::*;

use crate::context::{spec_table_models, GlobalContext};
use crate::expr::{
    expr_to_sql, spec_col_ref_models, spec_expr_sql, spec_expr_well_typed, spec_expr_wf,
    spec_gen_expr, spec_tables_to_columns, ColumnRefModel, Expr, ExprGenerator, ExprModel,
};
use crate::numfmt::{lemma_join_push, spec_join};
use crate::rng::{rng_word, word_in_range_u64, word_index, FuzzerRng};
use crate::types::{
    spec_available_data_types, FuzzerDataType, FuzzerError, LogicalTable, TableModel,
};
use crate::value::ValueGenerationConfig;

verus! {

/// The indices `0, 1, ..., n-1`.
pub open spec fn spec_index_range(n: int) -> Seq<int> {
    Seq::new(n as nat, |i: int| i)
}

/// The models of a list of candidate indices.
pub open spec fn spec_idx_models(s: Seq<usize>) -> Seq<int> {
    s.map_values(|u: usize| u as int)
}

/// Sampling without replacement: each draw picks one of the remaining
/// candidates and removes it, until `count` are taken or none remain.
pub open spec fn spec_sample_rec(seed: u64, k: int, remaining: Seq<int>, count: int) -> (
    Seq<int>,
    int,
)
    decreases count,
{
    if count <= 0 || remaining.len() == 0 {
        (Seq::<int>::empty(), k)
    } else {
        let j = word_index(rng_word(seed, k), remaining.len() as int);
        let pick = remaining[j];
        let rest = remaining.remove(j);
        let t = spec_sample_rec(seed, k + 1, rest, count - 1);
        (seq![pick] + t.0, t.1)
    }
}

/// Every sampled index comes from the candidate list.
pub proof fn lemma_sample_in_range(seed: u64, k: int, remaining: Seq<int>, count: int, n: int)
    requires
        forall|i: int| 0 <= i < remaining.len() ==> 0 <= #[trigger] remaining[i] < n,
    ensures
        forall|i: int|
            0 <= i < spec_sample_rec(seed, k, remaining, count).0.len() ==> 0
                <= #[trigger] spec_sample_rec(seed, k, remaining, count).0[i] < n,
    decreases count,
{
    if count > 0 && remaining.len() > 0 {
        let j = word_index(rng_word(seed, k), remaining.len() as int);
        let rest = remaining.remove(j);
        assert(forall|i: int| 0 <= i < rest.len() ==> 0 <= #[trigger] rest[i] < n);
        lemma_sample_in_range(seed, k + 1, rest, count - 1, n);
        let res = spec_sample_rec(seed, k, remaining, count).0;
        let tail = spec_sample_rec(seed, k + 1, rest, count - 1).0;
        assert forall|i: int| 0 <= i < res.len() implies 0 <= #[trigger] res[i] < n by {
            if i == 0 {
                assert(res[0] == remaining[j]);
            } else {
                assert(res[i] == tail[i - 1]);
            }
        }
    }
}

/// Sampling never repeats a candidate: the picks are distinct and all
/// come from the candidate list.
pub proof fn lemma_sample_distinct(seed: u64, k: int, remaining: Seq<int>, count: int)
    requires
        remaining.no_duplicates(),
    ensures
        spec_sample_rec(seed, k, remaining, count).0.no_duplicates(),
        forall|x: int|
            #[trigger] spec_sample_rec(seed, k, remaining, count).0.contains(x)
                ==> remaining.contains(x),
    decreases count,
{
    if count > 0 && remaining.len() > 0 {
        let j = word_index(rng_word(seed, k), remaining.len() as int);
        let pick = remaining[j];
        let rest = remaining.remove(j);
        assert forall|a: int, b: int|
            0 <= a < rest.len() && 0 <= b < rest.len() && a != b implies rest[a] != rest[b] by {
            let a0 = if a < j {
                a
            } else {
                a + 1
            };
            let b0 = if b < j {
                b
            } else {
                b + 1
            };
            assert(rest[a] == remaining[a0]);
            assert(rest[b] == remaining[b0]);
        }
        assert(rest.no_duplicates());
        assert forall|x: int| #[trigger] rest.contains(x) implies remaining.contains(x) by {
            let w = choose|w: int| 0 <= w < rest.len() && rest[w] == x;
            if w < j {
                assert(remaining[w] == x);
            } else {
                assert(remaining[w + 1] == x);
            }
        }
        lemma_sample_distinct(seed, k + 1, rest, count - 1);
        let tail = spec_sample_rec(seed, k + 1, rest, count - 1).0;
        let res = spec_sample_rec(seed, k, remaining, count).0;
        assert(res == seq![pick] + tail);
        assert(!rest.contains(pick)) by {
            if rest.contains(pick) {
                let w = choose|w: int| 0 <= w < rest.len() && rest[w] == pick;
                if w < j {
                    assert(remaining[w] == pick && remaining[j] == pick);
                } else {
                    assert(remaining[w + 1] == pick && remaining[j] == pick);
                }
            }
        }
        assert forall|a: int, b: int|
            0 <= a < res.len() && 0 <= b < res.len() && a != b implies res[a] != res[b] by {
            if a == 0 && b > 0 {
                assert(res[b] == tail[b - 1]);
                assert(tail.contains(tail[b - 1]));
            } else if b == 0 && a > 0 {
                assert(res[a] == tail[a - 1]);
                assert(tail.contains(tail[a - 1]));
            } else if a > 0 && b > 0 {
                assert(res[a] == tail[a - 1]);
                assert(res[b] == tail[b - 1]);
            }
        }
        assert(res.no_duplicates());
        assert forall|x: int| #[trigger] res.contains(x) implies remaining.contains(x) by {
            let w = choose|w: int| 0 <= w < res.len() && res[w] == x;
            if w == 0 {
                assert(remaining[j] == x);
            } else {
                assert(tail[w - 1] == x);
                assert(tail.contains(x));
            }
        }
    }
}

/// The tables of `tables` selected by the picked indices, in pick
/// order.
pub open spec fn spec_picked_tables(tables: Seq<TableModel>, picks: Seq<int>) -> Seq<TableModel> {
    picks.map_values(|i: int| tables[i])
}

/// What picking source tables decides: the chosen tables, whether the
/// registry had any, and the stream position afterwards.
pub ghost struct PickModel {
    pub tables: Seq<TableModel>,
    pub ok: bool,
    pub next_k: int,
}

/// Picking source tables: one draw for how many, then sampling without
/// replacement from the registry; an empty registry is an error.
pub open spec fn spec_pick_src_tables(
    seed: u64,
    k: int,
    cfg_max: u32,
    tables: Seq<TableModel>,
) -> PickModel {
    let num = word_in_range_u64(rng_word(seed, k), 1, cfg_max as u64);
    if tables.len() == 0 {
        PickModel { tables: Seq::<TableModel>::empty(), ok: false, next_k: k + 1 }
    } else {
        let count = if num as int <= tables.len() {
            num as int
        } else {
            tables.len() as int
        };
        let s = spec_sample_rec(seed, k + 1, spec_index_range(tables.len() as int), count);
        PickModel { tables: spec_picked_tables(tables, s.0), ok: true, next_k: s.1 }
    }
}

/// What select-list generation decides: the expressions, and the
/// positions reached on the builder's and the expression generator's
/// streams.
pub ghost struct SelectsModel {
    pub exprs: Seq<ExprModel>,
    pub bk: int,
    pub ek: int,
}

/// The select list: for each entry the builder's stream picks a target
/// type, then the expression generator's stream builds an expression of
/// that type.
pub open spec fn spec_select_exprs(
    bseed: u64,
    bk: int,
    eseed: u64,
    ek: int,
    n: int,
    columns: Seq<ColumnRefModel>,
    vcfg: ValueGenerationConfig,
    max_level: u32,
) -> SelectsModel
    decreases n,
{
    if n <= 0 {
        SelectsModel { exprs: Seq::<ExprModel>::empty(), bk, ek }
    } else {
        let prev = spec_select_exprs(bseed, bk, eseed, ek, n - 1, columns, vcfg, max_level);
        let ty = spec_available_data_types()[word_index(rng_word(bseed, prev.bk), 12)];
        let e = spec_gen_expr(eseed, prev.ek, ty, 0, max_level, columns, vcfg);
        SelectsModel { exprs: prev.exprs.push(e.0), bk: prev.bk + 1, ek: e.1 }
    }
}

/// Everything a generated SELECT statement holds, and the builder
/// stream position after generating it.
pub ghost struct StmtModel {
    pub tables: Seq<TableModel>,
    pub selects: Seq<ExprModel>,
    pub where_clause: Option<ExprModel>,
    pub ok: bool,
    pub next_k: int,
}

/// Statement generation end to end: pick tables, derive the expression
/// generator's seed from the builder's stream, build the select list,
/// and with a 90% coin a Boolean WHERE predicate.
pub open spec fn spec_generate_stmt(
    seed: u64,
    k: int,
    cfg_max_tables: u32,
    max_expr_level: u32,
    vcfg: ValueGenerationConfig,
    tables: Seq<TableModel>,
) -> StmtModel {
    let p = spec_pick_src_tables(seed, k, cfg_max_tables, tables);
    if !p.ok {
        StmtModel {
            tables: Seq::<TableModel>::empty(),
            selects: Seq::<ExprModel>::empty(),
            where_clause: None,
            ok: false,
            next_k: p.next_k,
        }
    } else {
        let eseed = rng_word(seed, p.next_k);
        let columns = spec_tables_to_columns(p.tables);
        let n = word_in_range_u64(rng_word(seed, p.next_k + 1), 1, max_expr_level as u64);
        let se = spec_select_exprs(
            seed,
            p.next_k + 2,
            eseed,
            0,
            n as int,
            columns,
            vcfg,
            max_expr_level,
        );
        let wants_where = rng_word(seed, se.bk) % 100 < 90;
        if wants_where {
            let w = spec_gen_expr(
                eseed,
                se.ek,
                FuzzerDataType::Boolean,
                0,
                max_expr_level,
                columns,
                vcfg,
            );
            StmtModel {
                tables: p.tables,
                selects: se.exprs,
                where_clause: Some(w.0),
                ok: true,
                next_k: se.bk + 1,
            }
        } else {
            StmtModel {
                tables: p.tables,
                selects: se.exprs,
                where_clause: None,
                ok: true,
                next_k: se.bk + 1,
            }
        }
    }
}

/// One FROM-clause entry: a table, optionally aliased.
#[derive(Debug)]
pub struct FromEntry {
    pub table: LogicalTable,
    pub alias: Option<String>,
}

/// The rendered name of one FROM entry.
pub open spec fn spec_from_entry_sql(e: &FromEntry) -> Seq<char> {
    match e.alias {
        Some(a) => e.table@.name + " AS "@ + a@,
        None => e.table@.name,
    }
}

/// The rendered names of the FROM list, in order.
pub open spec fn spec_from_entry_sqls(es: Seq<FromEntry>) -> Seq<Seq<char>> {
    Seq::new(es.len(), |i: int| spec_from_entry_sql(&es[i]))
}

/// The SQL texts of a list of expressions, in order.
pub open spec fn spec_expr_sqls(es: Seq<Expr>) -> Seq<Seq<char>> {
    es.map_values(|e: Expr| spec_expr_sql(e@))
}

/// A generated SELECT statement.
#[derive(Debug)]
pub struct SelectStatement {
    pub select_exprs: Vec<Expr>,
    pub from_list: Vec<FromEntry>,
    pub where_clause: Option<Expr>,
}

/// The SQL text of a SELECT statement: the select list (or `*`), the
/// FROM list, and the WHERE predicate when present.
pub open spec fn spec_select_stmt_sql(s: &SelectStatement) -> Seq<char> {
    "SELECT "@ + (if s.select_exprs@.len() == 0 {
        "*"@
    } else {
        spec_join(spec_expr_sqls(s.select_exprs@), ", "@)
    }) + "\nFROM "@ + spec_join(spec_from_entry_sqls(s.from_list@), ", "@) + (
    match s.where_clause {
        Some(w) => "\nWHERE "@ + spec_expr_sql(w@),
        None => Seq::<char>::empty(),
    })
}

impl SelectStatement {
    /// Every expression in the statement holds well-formed values.
    pub open spec fn wf(&self) -> bool {
        &&& forall|i: int|
            0 <= i < self.select_exprs@.len() ==> spec_expr_wf(#[trigger] self.select_exprs@[i]@)
        &&& match self.where_clause {
            Some(w) => spec_expr_wf(w@),
            None => true,
        }
    }

    /// Formats the SELECT statement as a SQL string.
    pub fn to_sql_string(&self) -> (r: String)
        requires
            self.wf(),
            self.from_list@.len() >= 1,
        ensures
            r@ == spec_select_stmt_sql(self),
    {
        proof {
            reveal_strlit("SELECT ");
            reveal_strlit("*");
            reveal_strlit(", ");
            reveal_strlit("\nFROM ");
            reveal_strlit(" AS ");
            reveal_strlit("\nWHERE ");
        }
        let mut s = "SELECT ".to_owned();
        if self.select_exprs.len() == 0 {
            s.append("*");
        } else {
            let ghost sqls = spec_expr_sqls(self.select_exprs@);
            let mut i: usize = 0;
            while i < self.select_exprs.len()
                invariant
                    i <= self.select_exprs@.len(),
                    sqls == spec_expr_sqls(self.select_exprs@),
                    self.wf(),
                    s@ == "SELECT "@ + spec_join(sqls.take(i as int), ", "@),
                decreases self.select_exprs@.len() - i,
            {
                proof {
                    reveal_strlit(", ");
                }
                if i > 0 {
                    s.append(", ");
                }
                s.append(expr_to_sql(&self.select_exprs[i]).as_str());
                proof {
                    if i > 0 {
                        lemma_join_push(sqls.take(i as int), ", "@, sqls[i as int]);
                    }
                    assert(sqls.take(i + 1) =~= sqls.take(i as int).push(sqls[i as int]));
                    assert(s@ =~= "SELECT "@ + spec_join(sqls.take(i + 1), ", "@));
                }
                i += 1;
            }
            proof {
                assert(sqls.take(sqls.len() as int) =~= sqls);
            }
        }
        s.append("\nFROM ");
        let ghost head = s@;
        let ghost names = spec_from_entry_sqls(self.from_list@);
        let mut i: usize = 0;
        while i < self.from_list.len()
            invariant
                i <= self.from_list@.len(),
                names == spec_from_entry_sqls(self.from_list@),
                s@ == head + spec_join(names.take(i as int), ", "@),
            decreases self.from_list@.len() - i,
        {
            proof {
                reveal_strlit(", ");
                reveal_strlit(" AS ");
            }
            if i > 0 {
                s.append(", ");
            }
            s.append(self.from_list[i].table.name.as_str());
            match &self.from_list[i].alias {
                Some(a) => {
                    s.append(" AS ");
                    s.append(a.as_str());
                },
                None => (),
            }
            proof {
                if i > 0 {
                    lemma_join_push(names.take(i as int), ", "@, names[i as int]);
                }
                assert(names.take(i + 1) =~= names.take(i as int).push(names[i as int]));
                assert(s@ =~= head + spec_join(names.take(i + 1), ", "@));
            }
            i += 1;
        }
        proof {
            assert(names.take(names.len() as int) =~= names);
        }
        match &self.where_clause {
            Some(w) => {
                s.append("\nWHERE ");
                s.append(expr_to_sql(w).as_str());
            },
            None => (),
        }
        assert(s@ =~= spec_select_stmt_sql(self));
        s
    }
}

/// Builds random SELECT statements over the registered tables.
pub struct SelectStatementBuilder {
    pub rng: FuzzerRng,
    pub max_table_count: Option<u32>,
    pub allow_derived_tables: bool,
    pub src_tables: Vec<LogicalTable>,
}

impl SelectStatementBuilder {
    /// A builder with its own stream seeded from `seed`.
    pub fn new(seed: u64) -> (r: Self)
        ensures
            r.rng.seed() == seed,
            r.rng.drawn() == 0,
            r.max_table_count is None,
            !r.allow_derived_tables,
            r.src_tables@.len() == 0,
    {
        SelectStatementBuilder {
            rng: crate::rng::rng_from_seed(seed),
            max_table_count: None,
            allow_derived_tables: false,
            src_tables: Vec::new(),
        }
    }

    /// Override the maximum number of tables to select from.
    pub fn with_max_table_count(self, max_table_count: u32) -> (r: Self)
        ensures
            r == (SelectStatementBuilder { max_table_count: Some(max_table_count), ..self }),
    {
        SelectStatementBuilder { max_table_count: Some(max_table_count), ..self }
    }

    /// Enable or disable derived tables (views and subqueries) in the
    /// FROM clause.
    pub fn with_allow_derived_tables(self, allow_derived_tables: bool) -> (r: Self)
        ensures
            r == (SelectStatementBuilder { allow_derived_tables, ..self }),
    {
        SelectStatementBuilder { allow_derived_tables, ..self }
    }

    /// The bound on how many tables to pick: the local override, or the
    /// configured maximum.
    pub open spec fn spec_cfg_max_tables(&self, ctx: &GlobalContext) -> u32 {
        match self.max_table_count {
            Some(m) => m,
            None => ctx.runner_config.max_table_count,
        }
    }

    /// Pick 1..=max source tables uniformly without replacement from
    /// the registry; an empty registry is an error.
    pub fn pick_src_tables(&mut self, ctx: &GlobalContext) -> (r: Result<(), FuzzerError>)
        requires
            old(self).spec_cfg_max_tables(ctx) >= 1,
            old(self).src_tables@.len() == 0,
        ensures
            final(self).rng.seed() == old(self).rng.seed(),
            final(self).max_table_count == old(self).max_table_count,
            final(self).allow_derived_tables == old(self).allow_derived_tables,
            ({
                let p = spec_pick_src_tables(
                    old(self).rng.seed(),
                    old(self).rng.drawn(),
                    old(self).spec_cfg_max_tables(ctx),
                    ctx.runtime_context.tables(),
                );
                &&& r is Ok <==> p.ok
                &&& r is Ok <==> ctx.runtime_context.tables().len() > 0
                &&& final(self).rng.drawn() == p.next_k
                &&& spec_table_models(final(self).src_tables@) == p.tables
                &&& r is Ok ==> final(self).src_tables@.len() >= 1
            }),
    {
        let ghost seed = self.rng.seed();
        let cfg_max_table_count: u32 = match self.max_table_count {
            Some(m) => m,
            None => ctx.runner_config.max_table_count,
        };
        let num_src_tables = self.rng.next_range_u64(1, cfg_max_table_count as u64);
        let ghost k1 = self.rng.drawn();

        let n = ctx.runtime_context.registered_tables.len();
        if n == 0 {
            return Err(crate::types::fuzzer_err(
                "No available tables registered inside fuzzer context.",
            ));
        }

        let count: usize = if (num_src_tables as usize) <= n {
            num_src_tables as usize
        } else {
            n
        };

        // The candidate indices, in order.
        let mut remaining: Vec<usize> = Vec::new();
        let mut i: usize = 0;
        while i < n
            invariant
                i <= n,
                remaining@.len() == i,
                forall|q: int| 0 <= q < i ==> #[trigger] remaining@[q] == q,
            decreases n - i,
        {
            remaining.push(i);
            i += 1;
        }
        proof {
            assert forall|q: int| 0 <= q < n implies #[trigger] spec_idx_models(remaining@)[q]
                == spec_index_range(n as int)[q] by {
                assert(remaining@[q] == q);
            }
            assert(spec_idx_models(remaining@) =~= spec_index_range(n as int));
        }

        let ghost tables_model = ctx.runtime_context.tables();
        let ghost total = spec_sample_rec(seed, k1, spec_index_range(n as int), count as int);
        let ghost mut picked: Seq<int> = Seq::empty();
        let mut taken: usize = 0;
        while taken < count && remaining.len() > 0
            invariant
                taken <= count,
                n == ctx.runtime_context.registered_tables@.len(),
                tables_model == ctx.runtime_context.tables(),
                self.rng.seed() == seed,
                self.max_table_count == old(self).max_table_count,
                self.allow_derived_tables == old(self).allow_derived_tables,
                forall|q: int| 0 <= q < remaining@.len() ==> #[trigger] remaining@[q] < n,
                picked.len() == taken,
                self.src_tables@.len() == taken,
                forall|q: int|
                    0 <= q < taken ==> #[trigger] self.src_tables@[q]@ == tables_model[picked[q]],
                forall|q: int| 0 <= q < picked.len() ==> 0 <= #[trigger] picked[q] < n,
                ({
                    let cont = spec_sample_rec(
                        seed,
                        self.rng.drawn(),
                        spec_idx_models(remaining@),
                        count - taken,
                    );
                    &&& total.0 == picked + cont.0
                    &&& total.1 == cont.1
                }),
            decreases count - taken,
        {
            let ghost rem_before = spec_idx_models(remaining@);
            let ghost k_before = self.rng.drawn();
            let j = self.rng.next_index(remaining.len());
            let pick = remaining[j];
            let t = ctx.runtime_context.registered_tables[pick].duplicate();
            self.src_tables.push(t);
            remaining.remove(j);
            proof {
                let cont = spec_sample_rec(seed, k_before, rem_before, count - taken);
                assert(rem_before[j as int] == pick as int);
                assert(cont.0 == seq![pick as int] + spec_sample_rec(
                    seed,
                    k_before + 1,
                    rem_before.remove(j as int),
                    count - taken - 1,
                ).0);
                assert forall|q: int| 0 <= q < remaining@.len() implies #[trigger] spec_idx_models(
                    remaining@,
                )[q] == rem_before.remove(j as int)[q] by {
                    if q < j {
                        assert(remaining@[q] == rem_before[q]);
                    } else {
                        assert(remaining@[q] == rem_before[q + 1]);
                    }
                }
                assert(spec_idx_models(remaining@) =~= rem_before.remove(j as int));
                picked = picked.push(pick as int);
                assert(total.0 =~= picked + spec_sample_rec(
                    seed,
                    self.rng.drawn(),
                    spec_idx_models(remaining@),
                    count - (taken + 1),
                ).0);
                assert(tables_model[pick as int] == t@);
            }
            taken += 1;
        }
        proof {
            let cont = spec_sample_rec(
                seed,
                self.rng.drawn(),
                spec_idx_models(remaining@),
                count - taken,
            );
            assert(cont.0 == Seq::<int>::empty());
            assert(total.0 =~= picked);
            lemma_sample_len(seed, k1, spec_index_range(n as int), count as int);
            assert forall|q: int| 0 <= q < picked.len() implies #[trigger] spec_table_models(
                self.src_tables@,
            )[q] == spec_picked_tables(tables_model, total.0)[q] by {
                assert(self.src_tables@[q]@ == tables_model[picked[q]]);
            }
            assert(spec_table_models(self.src_tables@) =~~= spec_picked_tables(
                tables_model,
                total.0,
            ));
        }
        Ok(())
    }
}

/// Sampling takes as many as asked for, up to the candidates there
/// are.
pub proof fn lemma_sample_len(seed: u64, k: int, remaining: Seq<int>, count: int)
    requires
        count >= 0,
    ensures
        spec_sample_rec(seed, k, remaining, count).0.len() == if count <= remaining.len() {
            count
        } else {
            remaining.len() as int
        },
    decreases count,
{
    if count > 0 && remaining.len() > 0 {
        let j = word_index(rng_word(seed, k), remaining.len() as int);
        lemma_sample_len(seed, k + 1, remaining.remove(j), count - 1);
    }
}

} // verus!

verus! {

/// The models of a list of expressions, in order.
pub open spec fn spec_expr_models(es: Seq<Expr>) -> Seq<ExprModel> {
    es.map_values(|e: Expr| e@)
}

impl SelectStatementBuilder {
    /// Generate a full SELECT statement: pick source tables, build a
    /// random select list over their columns, and usually a Boolean
    /// WHERE predicate.  Fails exactly when no table is registered.
    pub fn generate_stmt(&mut self, ctx: &GlobalContext) -> (r: Result<
        SelectStatement,
        FuzzerError,
    >)
        requires
            ctx.runner_config.wf(),
            ctx.runtime_context.value_generation_config.wf(),
            old(self).spec_cfg_max_tables(ctx) >= 1,
        ensures
            final(self).rng.seed() == old(self).rng.seed(),
            final(self).max_table_count == old(self).max_table_count,
            final(self).allow_derived_tables == old(self).allow_derived_tables,
            ({
                let m = spec_generate_stmt(
                    old(self).rng.seed(),
                    old(self).rng.drawn(),
                    old(self).spec_cfg_max_tables(ctx),
                    ctx.runner_config.max_expr_level,
                    ctx.runtime_context.value_generation_config,
                    ctx.runtime_context.tables(),
                );
                &&& r is Ok <==> m.ok
                &&& r is Ok <==> ctx.runtime_context.tables().len() > 0
                &&& final(self).rng.drawn() == m.next_k
                &&& r is Ok ==> {
                    let st = r->Ok_0;
                    &&& spec_expr_models(st.select_exprs@) == m.selects
                    &&& st.from_list@.len() == m.tables.len()
                    &&& st.from_list@.len() >= 1
                    &&& forall|i: int|
                        0 <= i < st.from_list@.len() ==> (#[trigger] st.from_list@[i].table@
                            == m.tables[i] && st.from_list@[i].alias is None)
                    &&& match (st.where_clause, m.where_clause) {
                        (Some(w), Some(wm)) => w@ == wm && spec_expr_well_typed(
                            w@,
                            FuzzerDataType::Boolean,
                        ),
                        (None, None) => true,
                        _ => false,
                    }
                    &&& st.wf()
                }
            }),
    {
        let ghost seed = self.rng.seed();
        let ghost k0 = self.rng.drawn();
        let ghost tables_model = ctx.runtime_context.tables();
        let ghost p = spec_pick_src_tables(
            seed,
            k0,
            self.spec_cfg_max_tables(ctx),
            tables_model,
        );

        // Each statement picks its sources afresh.
        self.src_tables = Vec::new();
        match self.pick_src_tables(ctx) {
            Err(e) => {
                return Err(e);
            },
            Ok(()) => (),
        }

        let expr_seed = crate::rng::next_word(&mut self.rng);
        let src_columns = ExprGenerator::tables_to_columns(&self.src_tables);
        let expr_gen0 = ExprGenerator::new(expr_seed, ctx);
        let mut expr_gen = expr_gen0.with_src_columns(src_columns);
        let ghost columns = spec_col_ref_models(expr_gen.src_columns@);
        proof {
            assert(columns == spec_tables_to_columns(p.tables));
        }

        let num_select = self.rng.next_range_u64(1, ctx.runner_config.max_expr_level as u64);
        let ghost bk0 = self.rng.drawn();
        let available = crate::types::get_available_data_types();
        let ghost vcfg = ctx.runtime_context.value_generation_config;
        let ghost max_level = ctx.runner_config.max_expr_level;

        let mut select_exprs: Vec<Expr> = Vec::new();
        let mut i: u64 = 0;
        while i < num_select
            invariant
                i <= num_select,
                ctx.runner_config.wf(),
                ctx.runtime_context.value_generation_config.wf(),
                vcfg == ctx.runtime_context.value_generation_config,
                max_level == ctx.runner_config.max_expr_level,
                available@ == spec_available_data_types(),
                self.rng.seed() == seed,
                self.max_table_count == old(self).max_table_count,
                self.allow_derived_tables == old(self).allow_derived_tables,
                spec_table_models(self.src_tables@) == p.tables,
                self.src_tables@.len() >= 1,
                expr_gen.rng.seed() == expr_seed,
                expr_gen.max_level == max_level,
                columns == spec_col_ref_models(expr_gen.src_columns@),
                forall|q: int|
                    0 <= q < select_exprs@.len() ==> spec_expr_wf(#[trigger] select_exprs@[q]@),
                ({
                    let se = spec_select_exprs(
                        seed,
                        bk0,
                        expr_seed,
                        0,
                        i as int,
                        columns,
                        vcfg,
                        max_level,
                    );
                    &&& self.rng.drawn() == se.bk
                    &&& expr_gen.rng.drawn() == se.ek
                    &&& spec_expr_models(select_exprs@) == se.exprs
                }),
            decreases num_select - i,
        {
            let ghost se_before = spec_select_exprs(
                seed,
                bk0,
                expr_seed,
                0,
                i as int,
                columns,
                vcfg,
                max_level,
            );
            let ty_idx = self.rng.next_index(12);
            let ty = available[ty_idx];
            let e = expr_gen.generate_random_expr(&ty, 0, &ctx.runtime_context.value_generation_config);
            select_exprs.push(e);
            proof {
                let se_after = spec_select_exprs(
                    seed,
                    bk0,
                    expr_seed,
                    0,
                    i + 1,
                    columns,
                    vcfg,
                    max_level,
                );
                assert(se_after.exprs == se_before.exprs.push(
                    spec_gen_expr(expr_seed, se_before.ek, ty, 0, max_level, columns, vcfg).0,
                ));
                assert forall|q: int| 0 <= q < select_exprs@.len() implies #[trigger]
                    spec_expr_models(select_exprs@)[q] == se_after.exprs[q] by {
                    if q < select_exprs@.len() - 1 {
                        assert(spec_expr_models(select_exprs@)[q] == spec_expr_models(
                            select_exprs@.drop_last(),
                        )[q]);
                    }
                }
                assert(spec_expr_models(select_exprs@) =~~= se_after.exprs);
            }
            i += 1;
        }

        let where_clause: Option<Expr> = if self.rng.next_bool_percent(90) {
            let w = expr_gen.generate_random_expr(
                &FuzzerDataType::Boolean,
                0,
                &ctx.runtime_context.value_generation_config,
            );
            Some(w)
        } else {
            None
        };

        let mut from_list: Vec<FromEntry> = Vec::new();
        let mut j: usize = 0;
        while j < self.src_tables.len()
            invariant
                j <= self.src_tables@.len(),
                from_list@.len() == j,
                forall|q: int|
                    0 <= q < j ==> (#[trigger] from_list@[q].table@ == self.src_tables@[q]@
                        && from_list@[q].alias is None),
                spec_table_models(self.src_tables@) == p.tables,
            decreases self.src_tables@.len() - j,
        {
            let entry = FromEntry { table: self.src_tables[j].duplicate(), alias: None };
            from_list.push(entry);
            j += 1;
        }

        Ok(SelectStatement { select_exprs, from_list, where_clause })
    }
}

} // verus!

verus! {

/// The SQL texts of a sequence of expression models, in order.
pub open spec fn spec_expr_sql_models(ms: Seq<ExprModel>) -> Seq<Seq<char>> {
    ms.map_values(|m: ExprModel| spec_expr_sql(m))
}

/// The names of a sequence of tables, in order.
pub open spec fn spec_table_names(ts: Seq<TableModel>) -> Seq<Seq<char>> {
    ts.map_values(|t: TableModel| t.name)
}

/// The SQL text a statement model renders to: the same shape as the
/// executable rendering, stated over the model alone.
pub open spec fn spec_stmt_sql_of(m: StmtModel) -> Seq<char> {
    "SELECT "@ + (if m.selects.len() == 0 {
        "*"@
    } else {
        spec_join(spec_expr_sql_models(m.selects), ", "@)
    }) + "\nFROM "@ + spec_join(spec_table_names(m.tables), ", "@) + (match m.where_clause {
        Some(w) => "\nWHERE "@ + spec_expr_sql(w),
        None => Seq::<char>::empty(),
    })
}

/// A statement that realizes a model renders to the model's SQL text:
/// together with the generator's contract this pins the query string
/// down as a function of the seed, the configuration and the registry.
pub proof fn lemma_stmt_sql_matches_model(st: &SelectStatement, m: StmtModel)
    requires
        spec_expr_models(st.select_exprs@) == m.selects,
        st.from_list@.len() == m.tables.len(),
        forall|i: int|
            0 <= i < st.from_list@.len() ==> (#[trigger] st.from_list@[i].table@ == m.tables[i]
                && st.from_list@[i].alias is None),
        match (st.where_clause, m.where_clause) {
            (Some(w), Some(wm)) => w@ == wm,
            (None, None) => true,
            _ => false,
        },
    ensures
        spec_select_stmt_sql(st) == spec_stmt_sql_of(m),
{
    assert forall|i: int| 0 <= i < st.select_exprs@.len() implies #[trigger] spec_expr_sqls(
        st.select_exprs@,
    )[i] == spec_expr_sql_models(m.selects)[i] by {
        assert(spec_expr_models(st.select_exprs@)[i] == st.select_exprs@[i]@);
    }
    assert(spec_expr_sqls(st.select_exprs@) =~= spec_expr_sql_models(m.selects));
    assert forall|i: int| 0 <= i < st.from_list@.len() implies #[trigger] spec_from_entry_sqls(
        st.from_list@,
    )[i] == spec_table_names(m.tables)[i] by {
        assert(spec_from_entry_sql(&st.from_list@[i]) == st.from_list@[i].table@.name);
    }
    assert(spec_from_entry_sqls(st.from_list@) =~= spec_table_names(m.tables));
    assert(spec_select_stmt_sql(st) =~= spec_stmt_sql_of(m));
}

} // verus!
