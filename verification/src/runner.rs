//! Run-loop decisions: deterministic per-round and per-query seed
//! derivation, dataset and view planning for a round, and outcome
//! classification.  The engine execution and the clock live outside the
//! library; the loop hands the library seeds and results, and gets back
//! plans and classifications.

use vstd::prelude::*;

use crate::context::{spec_table_name, GlobalContext};
use crate::dataset::{spec_generate_dataset, DatasetGenerator, DatasetPlan};
use crate::numfmt::{spec_dec_digits, u64_to_string};
use crate::rng::{rng_word, word_in_range_u64};
use crate::stmt::{
    lemma_stmt_sql_matches_model, spec_generate_stmt, spec_stmt_sql_of, SelectStatementBuilder,
};
use crate::whitelist::spec_is_whitelisted;

verus! {

/// Addition on the 64-bit wrap-around ring.
pub open spec fn spec_wrap_add64(a: int, b: int) -> u64 {
    ((a + b) % 0x1_0000_0000_0000_0000) as u64
}

/// The deterministic sub-seeds of one round: dataset generation, view
/// generation and the query base, derived from the base seed and the
/// round index.
pub fn round_seeds(base_seed: u64, round: u32) -> (r: (u64, u64, u64))
    ensures
        r.0 == spec_wrap_add64(base_seed as int, (round as int) * 1000),
        r.1 == spec_wrap_add64(base_seed as int, (round as int) * 1000 + 100),
        r.2 == spec_wrap_add64(base_seed as int, (round as int) * 1000 + 200),
{
    let offset: u64 = (round as u64) * 1000;
    let dataset_seed = base_seed.wrapping_add(offset);
    let view_seed = base_seed.wrapping_add(offset + 100);
    let query_base_seed = base_seed.wrapping_add(offset + 200);
    (dataset_seed, view_seed, query_base_seed)
}

/// The deterministic seed of one query within a round.
pub fn query_seed(query_base_seed: u64, i: u32) -> (r: u64)
    ensures
        r == spec_wrap_add64(query_base_seed as int, i as int),
{
    query_base_seed.wrapping_add(i as u64)
}

/// The deterministic seed of one table within a round.
pub fn table_seed(dataset_seed: u64, i: u64) -> (r: u64)
    requires
        i <= 1000,
    ensures
        r == spec_wrap_add64(dataset_seed as int, (i as int) * 100),
{
    dataset_seed.wrapping_add(i * 100)
}

/// How many tables a round generates: a draw in `[3, 10]` from the
/// round's dataset stream.
pub open spec fn spec_tables_per_round(seed: u64) -> u64 {
    word_in_range_u64(rng_word(seed, 0), 3, 10)
}

/// Generate the datasets of one round: a fresh stream decides how many
/// tables, and each table is generated from its own derived seed.  The
/// tables land in the registry in order; every plan is a function of
/// the round seed, the configuration and the name counter.
pub fn generate_datasets_for_round(seed: u64, ctx: &mut GlobalContext) -> (r: Vec<DatasetPlan>)
    requires
        old(ctx).runner_config.wf(),
        old(ctx).runtime_context.value_generation_config.wf(),
        old(ctx).runtime_context.table_idx() < 1_000_000,
    ensures
        r@.len() == spec_tables_per_round(seed),
        final(ctx).runner_config == old(ctx).runner_config,
        final(ctx).runtime_context.value_generation_config == old(ctx).runtime_context.value_generation_config,
        final(ctx).runtime_context.table_idx() == old(ctx).runtime_context.table_idx()
            + spec_tables_per_round(seed),
        final(ctx).runtime_context.tables().len() == old(ctx).runtime_context.tables().len()
            + spec_tables_per_round(seed),
        forall|q: int|
            0 <= q < old(ctx).runtime_context.tables().len() ==> #[trigger] final(ctx).runtime_context.tables()[q] == old(ctx).runtime_context.tables()[q],
        forall|i: int|
            0 <= i < r@.len() ==> {
                let dm = spec_generate_dataset(
                    spec_wrap_add64(seed as int, i * 100),
                    0,
                    old(ctx).runner_config.max_column_count,
                    old(ctx).runner_config.max_row_count,
                    old(ctx).runner_config.max_insert_per_table,
                    old(ctx).runtime_context.value_generation_config,
                    spec_table_name(old(ctx).runtime_context.table_idx() + i),
                );
                &&& (#[trigger] r@[i]).table@ == dm.table
                &&& r@[i].create_table_sql@ == dm.create_sql
                &&& crate::numfmt::spec_str_views(r@[i].insert_statements@) == dm.inserts
                &&& final(ctx).runtime_context.tables()[old(ctx).runtime_context.tables().len() + i] == dm.table
            },
{
    let mut rng = crate::rng::rng_from_seed(seed);
    let tables_per_round = rng.next_range_u64(3, 10);

    let ghost idx0 = ctx.runtime_context.table_idx();
    let ghost tables0 = ctx.runtime_context.tables();
    let mut plans: Vec<DatasetPlan> = Vec::new();
    let mut i: u64 = 0;
    while i < tables_per_round
        invariant
            i <= tables_per_round <= 10,
            ctx.runner_config == old(ctx).runner_config,
            ctx.runner_config.wf(),
            ctx.runtime_context.value_generation_config == old(ctx).runtime_context.value_generation_config,
            ctx.runtime_context.value_generation_config.wf(),
            idx0 == old(ctx).runtime_context.table_idx(),
            idx0 < 1_000_000,
            tables0 == old(ctx).runtime_context.tables(),
            ctx.runtime_context.table_idx() == idx0 + i,
            ctx.runtime_context.tables().len() == tables0.len() + i,
            forall|q: int|
                0 <= q < tables0.len() ==> #[trigger] ctx.runtime_context.tables()[q] == tables0[
                    q
                ],
            plans@.len() == i,
            forall|q: int|
                0 <= q < i ==> {
                    let dm = spec_generate_dataset(
                        spec_wrap_add64(seed as int, q * 100),
                        0,
                        old(ctx).runner_config.max_column_count,
                        old(ctx).runner_config.max_row_count,
                        old(ctx).runner_config.max_insert_per_table,
                        old(ctx).runtime_context.value_generation_config,
                        spec_table_name(idx0 + q),
                    );
                    &&& (#[trigger] plans@[q]).table@ == dm.table
                    &&& plans@[q].create_table_sql@ == dm.create_sql
                    &&& crate::numfmt::spec_str_views(plans@[q].insert_statements@) == dm.inserts
                    &&& ctx.runtime_context.tables()[tables0.len() + q] == dm.table
                },
        decreases tables_per_round - i,
    {
        let tseed = table_seed(seed, i);
        let mut generator = DatasetGenerator::new(tseed);
        let plan = generator.generate_dataset(ctx);
        plans.push(plan);
        i += 1;
    }
    plans
}

/// The name of the `i`-th view of a round: `v0`, `v1`, ...
pub open spec fn spec_view_name(i: int) -> Seq<char> {
    "v"@ + spec_dec_digits(i)
}

/// The CREATE VIEW statement wrapping a generated SELECT.
pub open spec fn spec_create_view_sql(name: Seq<char>, body: Seq<char>) -> Seq<char> {
    "CREATE VIEW "@ + name + " AS "@ + body
}

/// Render the CREATE VIEW statement for a view name and SELECT body.
pub fn create_view_sql(view_name: &str, view_body: &str) -> (r: String)
    ensures
        r@ == spec_create_view_sql(view_name@, view_body@),
{
    proof {
        reveal_strlit("CREATE VIEW ");
        reveal_strlit(" AS ");
    }
    let mut s = "CREATE VIEW ".to_owned();
    s.append(view_name);
    s.append(" AS ");
    s.append(view_body);
    assert(s@ =~= spec_create_view_sql(view_name@, view_body@));
    s
}

/// How many views a round generates: none over an empty registry,
/// else a draw in `[1, min(3, tables)]` from the view seed's stream.
pub open spec fn spec_views_per_round(seed: u64, table_count: int) -> int {
    if table_count <= 0 {
        0
    } else {
        let cap: u64 = if table_count < 3 {
            table_count as u64
        } else {
            3
        };
        word_in_range_u64(rng_word(seed, 0), 1, cap) as int
    }
}

/// A planned view: its name, the SELECT it wraps, and the CREATE VIEW
/// statement to execute.
#[derive(Debug)]
pub struct ViewPlan {
    pub name: String,
    pub select_sql: String,
    pub create_view_sql: String,
}

/// Plans the views of one round, one at a time.  The round stream
/// decides how many views and nominates a base table for each; a
/// shared statement builder generates every SELECT body over the live
/// registry, so a view registered with its schema contributes columns
/// to the views planned after it.  Executing CREATE VIEW, probing the
/// view's output schema and registering it (`register_view`) belong to
/// the embedding loop, which hands the introspected columns back as
/// plain values between two plans.
pub struct ViewRoundPlanner {
    pub rng: crate::rng::FuzzerRng,
    pub stmt_builder: SelectStatementBuilder,
    pub base_table_count: usize,
    pub num_views: u64,
    pub next_index: u64,
}

impl ViewRoundPlanner {
    /// Start a view round over the current registry: no views when it
    /// is empty, else a draw decides how many (at most three, at most
    /// one per registered table).
    pub fn new(seed: u64, ctx: &GlobalContext) -> (r: Self)
        ensures
            r.num_views == spec_views_per_round(seed, ctx.runtime_context.tables().len() as int),
            r.next_index == 0,
            r.base_table_count == ctx.runtime_context.tables().len(),
            r.rng.seed() == seed,
            r.rng.drawn() == if ctx.runtime_context.tables().len() > 0 {
                1int
            } else {
                0int
            },
            r.stmt_builder.rng.seed() == seed,
            r.stmt_builder.rng.drawn() == 0,
            r.stmt_builder.max_table_count == Some(3u32),
            ctx.runtime_context.tables().len() == 0 ==> r.num_views == 0,
            ctx.runtime_context.tables().len() > 0 ==> 1 <= r.num_views <= 3,
    {
        let mut rng = crate::rng::rng_from_seed(seed);
        let n = ctx.runtime_context.registered_tables.len();
        let num_views: u64 = if n == 0 {
            0
        } else {
            let cap: u64 = if n < 3 {
                n as u64
            } else {
                3
            };
            rng.next_range_u64(1, cap)
        };
        ViewRoundPlanner {
            rng,
            stmt_builder: SelectStatementBuilder::new(seed).with_max_table_count(3),
            base_table_count: n,
            num_views,
            next_index: 0,
        }
    }

    /// Plan the next view of the round, or `None` when every view is
    /// planned.  The plan's name is `v<index>`, its SELECT is pinned
    /// to the statement model over the registry as it stands now, and
    /// its CREATE VIEW statement wraps that SELECT verbatim.
    #[verifier::rlimit(30)]
    pub fn plan_next_view(&mut self, ctx: &GlobalContext) -> (r: Option<ViewPlan>)
        requires
            ctx.runner_config.wf(),
            ctx.runtime_context.value_generation_config.wf(),
            old(self).stmt_builder.max_table_count == Some(3u32),
            old(self).next_index < old(self).num_views ==> old(self).base_table_count > 0,
            old(self).next_index < old(self).num_views ==> ctx.runtime_context.tables().len() > 0,
        ensures
            final(self).num_views == old(self).num_views,
            final(self).base_table_count == old(self).base_table_count,
            final(self).rng.seed() == old(self).rng.seed(),
            final(self).stmt_builder.rng.seed() == old(self).stmt_builder.rng.seed(),
            final(self).stmt_builder.max_table_count == old(self).stmt_builder.max_table_count,
            r is Some <==> old(self).next_index < old(self).num_views,
            r is None ==> final(self).next_index == old(self).next_index && final(self).rng.drawn()
                == old(self).rng.drawn() && final(self).stmt_builder.rng.drawn() == old(
                self).stmt_builder.rng.drawn(),
            r is Some ==> ({
                let m = spec_generate_stmt(
                    old(self).stmt_builder.rng.seed(),
                    old(self).stmt_builder.rng.drawn(),
                    3,
                    ctx.runner_config.max_expr_level,
                    ctx.runtime_context.value_generation_config,
                    ctx.runtime_context.tables(),
                );
                &&& r.unwrap().name@ == spec_view_name(old(self).next_index as int)
                &&& r.unwrap().select_sql@ == spec_stmt_sql_of(m)
                &&& r.unwrap().create_view_sql@ == spec_create_view_sql(
                    spec_view_name(old(self).next_index as int),
                    r.unwrap().select_sql@,
                )
                &&& final(self).next_index == old(self).next_index + 1
                &&& final(self).rng.drawn() == old(self).rng.drawn() + 1
                &&& final(self).stmt_builder.rng.drawn() == m.next_k
            }),
    {
        if self.next_index >= self.num_views {
            return None;
        }
        // Nominate a base table the view is derived from (the SELECT
        // body picks its own sources from the live registry).
        let _table_pick = self.rng.next_index(self.base_table_count);

        let ghost m = spec_generate_stmt(
            self.stmt_builder.rng.seed(),
            self.stmt_builder.rng.drawn(),
            3,
            ctx.runner_config.max_expr_level,
            ctx.runtime_context.value_generation_config,
            ctx.runtime_context.tables(),
        );
        let stmt = match self.stmt_builder.generate_stmt(ctx) {
            Ok(stmt) => stmt,
            Err(_) => {
                // The registry is non-empty here, so generation cannot
                // fail.
                proof {
                    assert(false);
                }
                return None;
            },
        };
        proof {
            lemma_stmt_sql_matches_model(&stmt, m);
        }
        let select_sql = stmt.to_sql_string();

        proof {
            reveal_strlit("v");
        }
        let mut view_name = "v".to_owned();
        view_name.append(u64_to_string(self.next_index).as_str());
        assert(view_name@ =~= spec_view_name(self.next_index as int));
        let create_sql = create_view_sql(view_name.as_str(), select_sql.as_str());

        self.next_index = self.next_index + 1;
        Some(ViewPlan { name: view_name, select_sql, create_view_sql: create_sql })
    }
}

/// How a completed query execution is classified.
#[derive(Debug, PartialEq, Eq, Structural)]
pub enum QueryOutcomeClass {
    /// The query returned rows.
    Passed,
    /// The query failed with a whitelisted error message.
    WhitelistedError,
    /// The query failed with an error the whitelist does not cover.
    NonWhitelistedError,
    /// The query was abandoned at the timeout; never whitelisted.
    TimedOut,
}

/// Classify one execution outcome: timeouts are their own class and
/// are never absorbed by the whitelist; other failures are split by
/// the whitelist; successes pass.
pub fn classify_query_outcome(result: &Result<u64, String>, timed_out: bool) -> (r:
    QueryOutcomeClass)
    ensures
        timed_out ==> r == QueryOutcomeClass::TimedOut,
        !timed_out && result is Ok ==> r == QueryOutcomeClass::Passed,
        !timed_out && result is Err ==> r == (if spec_is_whitelisted(result->Err_0@) {
            QueryOutcomeClass::WhitelistedError
        } else {
            QueryOutcomeClass::NonWhitelistedError
        }),
{
    if timed_out {
        return QueryOutcomeClass::TimedOut;
    }
    match result {
        Ok(_) => QueryOutcomeClass::Passed,
        Err(msg) => {
            if crate::whitelist::is_error_whitelisted(msg.as_str()) {
                QueryOutcomeClass::WhitelistedError
            } else {
                QueryOutcomeClass::NonWhitelistedError
            }
        },
    }
}

/// Plan one oracle test: draw the oracle choice from the query seed's
/// stream (the no-crash oracle is the one shipped choice) and generate
/// its query group.  Fails exactly when no table is registered.
pub fn plan_oracle_test(seed: u64, ctx: &GlobalContext) -> (r: Result<
    Vec<crate::oracle::QueryContext>,
    crate::types::FuzzerError,
>)
    requires
        ctx.runner_config.wf(),
        ctx.runtime_context.value_generation_config.wf(),
    ensures
        r is Ok <==> ctx.runtime_context.tables().len() > 0,
        r is Ok ==> r->Ok_0@.len() == 1,
        r is Ok ==> r->Ok_0@[0]@.query == crate::stmt::spec_stmt_sql_of(
            crate::stmt::spec_generate_stmt(
                seed,
                0,
                ctx.runner_config.max_table_count,
                ctx.runner_config.max_expr_level,
                ctx.runtime_context.value_generation_config,
                ctx.runtime_context.tables(),
            ),
        ),
{
    let mut rng = crate::rng::rng_from_seed(seed);
    let _oracle_index = rng.next_index(1);
    let oracle = crate::oracle::NoCrashOracle::new(seed);
    oracle.generate_query_group(ctx)
}

} // verus!

verus! {

/// Determinism: everything a round generates is a function of the
/// seed, the configuration and the name counter alone.  Two runs that
/// agree on those agree on the number of tables, on every dataset
/// model (names, DDL, rows), and on every statement model — no clock,
/// host entropy or other hidden input takes part.
pub proof fn lemma_generation_deterministic(
    seed_a: u64,
    seed_b: u64,
    cfg_a: crate::config::RunnerConfig,
    cfg_b: crate::config::RunnerConfig,
    vcfg_a: crate::value::ValueGenerationConfig,
    vcfg_b: crate::value::ValueGenerationConfig,
    idx_a: u64,
    idx_b: u64,
    tables_a: Seq<crate::types::TableModel>,
    tables_b: Seq<crate::types::TableModel>,
    i: int,
    k: int,
)
    requires
        seed_a == seed_b,
        cfg_a == cfg_b,
        vcfg_a == vcfg_b,
        idx_a == idx_b,
        tables_a == tables_b,
    ensures
        spec_tables_per_round(seed_a) == spec_tables_per_round(seed_b),
        spec_views_per_round(seed_a, tables_a.len() as int) == spec_views_per_round(
            seed_b,
            tables_b.len() as int,
        ),
        spec_generate_dataset(
            spec_wrap_add64(seed_a as int, i * 100),
            k,
            cfg_a.max_column_count,
            cfg_a.max_row_count,
            cfg_a.max_insert_per_table,
            vcfg_a,
            spec_table_name(idx_a as int + i),
        ) == spec_generate_dataset(
            spec_wrap_add64(seed_b as int, i * 100),
            k,
            cfg_b.max_column_count,
            cfg_b.max_row_count,
            cfg_b.max_insert_per_table,
            vcfg_b,
            spec_table_name(idx_b as int + i),
        ),
        crate::stmt::spec_generate_stmt(
            seed_a,
            k,
            cfg_a.max_table_count,
            cfg_a.max_expr_level,
            vcfg_a,
            tables_a,
        ) == crate::stmt::spec_generate_stmt(
            seed_b,
            k,
            cfg_b.max_table_count,
            cfg_b.max_expr_level,
            vcfg_b,
            tables_b,
        ),
{
}

} // verus!
