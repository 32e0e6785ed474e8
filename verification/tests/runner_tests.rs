use datafusion_fuzzer::config::RunnerConfig;
use datafusion_fuzzer::context::{GlobalContext, RuntimeContext};
use datafusion_fuzzer::expr::ExprGenerator;
use datafusion_fuzzer::runner::{
    generate_datasets_for_round, plan_oracle_test, query_seed, round_seeds, ViewRoundPlanner,
};
use datafusion_fuzzer::types::{FuzzerDataType, LogicalColumn};

fn test_config(seed: u64) -> RunnerConfig {
    RunnerConfig::new()
        .with_seed(seed)
        .with_rounds(2)
        .with_queries_per_round(3)
        .with_timeout_seconds(2)
        .with_max_column_count(3)
        .with_max_row_count(10)
        .with_max_expr_level(2)
        .with_max_table_count(3)
        .with_max_insert_per_table(20)
}

/// Run the generation pipeline and capture the generated queries and
/// table names.
fn run_fuzzer_and_capture_results(ctx: &mut GlobalContext) -> (Vec<String>, Vec<String>) {
    let mut captured_queries = Vec::new();
    let mut captured_table_names = Vec::new();

    ctx.runtime_context.reset_table_counter();
    let base_seed = ctx.runner_config.seed;
    let rounds = ctx.runner_config.rounds;
    let queries_per_round = ctx.runner_config.queries_per_round;

    for round in 0..rounds {
        let (dataset_seed, _view_seed, query_base_seed) = round_seeds(base_seed, round);

        let plans = generate_datasets_for_round(dataset_seed, ctx);
        for plan in &plans {
            captured_table_names.push(plan.table.name.clone());
        }

        for i in 0..queries_per_round {
            let qseed = query_seed(query_base_seed, i);
            if let Ok(group) = plan_oracle_test(qseed, ctx) {
                if let Some(query_context) = group.first() {
                    captured_queries.push(query_context.query.clone());
                }
            }
        }

        if round < rounds - 1 {
            ctx.reset_datafusion_context();
        }
    }

    (captured_queries, captured_table_names)
}

/// The pipeline produces identical table names and queries when run
/// repeatedly with the same seed.
#[test]
fn test_fuzzer_determinism() {
    let seed = 42u64;

    let mut all_queries = Vec::new();
    let mut all_table_names = Vec::new();

    for _run_id in 0..3 {
        let mut ctx = GlobalContext::new(test_config(seed), RuntimeContext::new());
        let (queries, table_names) = run_fuzzer_and_capture_results(&mut ctx);
        all_queries.push(queries);
        all_table_names.push(table_names);
    }

    assert_eq!(all_queries.len(), 3, "Should have results from 3 runs");

    for i in 1..all_queries.len() {
        assert_eq!(
            all_queries[0], all_queries[i],
            "Run {} queries differ from run 1: \nRun 1: {:?}\nRun {}: {:?}",
            i + 1,
            all_queries[0],
            i + 1,
            all_queries[i]
        );
    }

    for i in 1..all_table_names.len() {
        assert_eq!(
            all_table_names[0], all_table_names[i],
            "Run {} table names differ from run 1: \nRun 1: {:?}\nRun {}: {:?}",
            i + 1,
            all_table_names[0],
            i + 1,
            all_table_names[i]
        );
    }
}

/// Different seeds produce different query sequences.
#[test]
fn test_fuzzer_different_seeds_produce_different_results() {
    let mut results_by_seed = Vec::new();

    for seed in [42u64, 123, 999] {
        let mut config = test_config(seed);
        config.rounds = 1;
        config.queries_per_round = 2;
        let mut ctx = GlobalContext::new(config, RuntimeContext::new());
        let (queries, _) = run_fuzzer_and_capture_results(&mut ctx);
        results_by_seed.push((seed, queries));
    }

    for i in 0..results_by_seed.len() {
        for j in (i + 1)..results_by_seed.len() {
            let (seed_i, queries_i) = &results_by_seed[i];
            let (seed_j, queries_j) = &results_by_seed[j];

            assert_ne!(
                queries_i, queries_j,
                "Seeds {} and {} produced identical queries: {:?}",
                seed_i, seed_j, queries_i
            );
        }
    }
}

/// The table counter restarts at t0 after a reset, whatever its prior
/// state.
#[test]
fn test_table_counter_reset() {
    let mut runtime_context = RuntimeContext::new();

    let name1 = runtime_context.next_table_name();
    let name2 = runtime_context.next_table_name();
    let name3 = runtime_context.next_table_name();

    assert_eq!(name1, "t0");
    assert_eq!(name2, "t1");
    assert_eq!(name3, "t2");

    runtime_context.reset_table_counter();

    let name_after_reset1 = runtime_context.next_table_name();
    let name_after_reset2 = runtime_context.next_table_name();

    assert_eq!(name_after_reset1, "t0");
    assert_eq!(name_after_reset2, "t1");
}

/// View planning names views v0, v1, ... wraps their SELECT bodies in
/// CREATE VIEW statements, and replays deterministically from the
/// seed; a view registered with its introspected schema carries those
/// columns and contributes them to the column pool.
#[test]
fn view_planning_registers_introspected_schema() {
    let mut produced = Vec::new();
    for _run in 0..2 {
        let mut ctx = GlobalContext::new(test_config(8), RuntimeContext::new());
        let (dataset_seed, view_seed, _query_base_seed) = round_seeds(8, 0);
        let plans = generate_datasets_for_round(dataset_seed, &mut ctx);
        let before = ctx.runtime_context.registered_tables.len();
        assert_eq!(before, plans.len());

        let mut planner = ViewRoundPlanner::new(view_seed, &ctx);
        assert!(planner.num_views >= 1 && planner.num_views <= 3);
        let mut views = Vec::new();
        while planner.next_index < planner.num_views {
            let view = planner.plan_next_view(&ctx).expect("views remain to plan");
            // Stand in for the embedding loop: after executing the
            // CREATE VIEW the engine would be probed for the view's
            // output schema; register the view under that schema.
            let introspected = vec![LogicalColumn {
                name: format!("{}_out", view.name),
                data_type: FuzzerDataType::Int64,
            }];
            ctx.runtime_context
                .register_view(view.name.clone(), introspected);
            views.push(view);
        }
        assert!(planner.plan_next_view(&ctx).is_none());
        assert_eq!(
            ctx.runtime_context.registered_tables.len(),
            before + views.len()
        );
        for (i, view) in views.iter().enumerate() {
            assert_eq!(view.name, format!("v{}", i));
            assert_eq!(
                view.create_view_sql,
                format!("CREATE VIEW {} AS {}", view.name, view.select_sql)
            );
            assert!(view.select_sql.starts_with("SELECT "));
            // The registered view carries the introspected schema.
            let entry = &ctx.runtime_context.registered_tables[before + i];
            assert_eq!(entry.name, view.name);
            assert_eq!(entry.columns.len(), 1);
            assert_eq!(entry.columns[0].name, format!("{}_out", view.name));
        }
        // The registered view columns join the pool that later
        // statement generation draws column references from.
        let pool = ExprGenerator::tables_to_columns(&ctx.runtime_context.registered_tables);
        for view in &views {
            assert!(pool
                .iter()
                .any(|c| c.table == view.name && c.name == format!("{}_out", view.name)));
        }
        produced.push(
            views
                .iter()
                .map(|v| v.create_view_sql.clone())
                .collect::<Vec<_>>(),
        );
    }
    assert_eq!(produced[0], produced[1]);
}
