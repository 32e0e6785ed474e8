use datafusion_fuzzer::config::{Cli, FuzzerRunnerConfig, RunnerConfig};
use datafusion_fuzzer::rng::rng_from_seed;
use datafusion_fuzzer::context::{GlobalContext, RuntimeContext};
use datafusion_fuzzer::datefmt::{days_to_date_string, nanoseconds_to_timestamp_string};
use datafusion_fuzzer::oracle::{NoCrashOracle, QueryContext, QueryExecutionResult};
use datafusion_fuzzer::runner::{
    classify_query_outcome, create_view_sql, generate_datasets_for_round, QueryOutcomeClass,
};
use datafusion_fuzzer::value::{pack_interval, safe_power_of_10, GeneratedValue};

/// The power-of-ten helper is defined over the whole legal scale range
/// and saturates instead of overflowing.
#[test]
fn safe_power_of_ten_whole_range() {
    let cap = safe_power_of_10(30);
    assert_eq!(cap, 10i128.pow(30));
    for scale in 0..=76i32 {
        let v = safe_power_of_10(scale as i8);
        if scale <= 30 {
            assert_eq!(v, 10i128.pow(scale as u32));
        } else {
            assert_eq!(v, cap);
        }
    }
}

/// Exact literal renderings of each value kind.
#[test]
fn sql_literal_exact_values() {
    assert_eq!(GeneratedValue::Int32(-42).to_sql_string(), "-42");
    assert_eq!(GeneratedValue::Int64(7).to_sql_string(), "7");
    assert_eq!(GeneratedValue::UInt32(0).to_sql_string(), "0");
    assert_eq!(GeneratedValue::UInt64(18_446_744_073_709_551_615).to_sql_string(),
        "18446744073709551615");
    assert_eq!(GeneratedValue::Boolean(true).to_sql_string(), "TRUE");
    assert_eq!(GeneratedValue::Boolean(false).to_sql_string(), "FALSE");
    assert_eq!(GeneratedValue::Null.to_sql_string(), "NULL");
    assert_eq!(
        GeneratedValue::Decimal { value: -12345, precision: 10, scale: 2 }.to_sql_string(),
        "-123.45"
    );
    assert_eq!(
        GeneratedValue::Decimal { value: 5, precision: 3, scale: 3 }.to_sql_string(),
        "0.005"
    );
    assert_eq!(
        GeneratedValue::Decimal { value: 1200, precision: 10, scale: 0 }.to_sql_string(),
        "1200"
    );
    assert_eq!(days_to_date_string(0), "'1970-01-01'");
    assert_eq!(days_to_date_string(59), "'1970-03-01'");
    assert_eq!(days_to_date_string(365), "'1971-01-01'");
    // 1972 is a leap year.
    assert_eq!(days_to_date_string(365 + 365 + 59), "'1972-02-29'");
    assert_eq!(
        GeneratedValue::Time64Nanosecond(3_661_000_000_005).to_sql_string(),
        "'01:01:01.000000005'"
    );
    assert_eq!(
        nanoseconds_to_timestamp_string(86_400_000_000_000 + 1),
        "'1970-01-02 00:00:00.000000001'"
    );
    assert_eq!(
        GeneratedValue::Timestamp(0, Some("UTC".to_string())).to_sql_string(),
        "'1970-01-01 00:00:00.000000000UTC'"
    );
}

/// Interval literals list only the non-zero components, with
/// pluralization, and the zero interval renders as INTERVAL '0'.
#[test]
fn interval_literal_exact_values() {
    let v = pack_interval(14, 3, 3_600_000_000_000 + 60_000_000_000 + 1_000_000_000);
    assert_eq!(
        GeneratedValue::IntervalMonthDayNano(v).to_sql_string(),
        "INTERVAL '1 year 2 months 3 days 1 hour 1 minute 1 second'"
    );
    let single = pack_interval(1, 1, 0);
    assert_eq!(
        GeneratedValue::IntervalMonthDayNano(single).to_sql_string(),
        "INTERVAL '1 month 1 day'"
    );
    let zero = pack_interval(0, 0, 0);
    assert_eq!(GeneratedValue::IntervalMonthDayNano(zero).to_sql_string(), "INTERVAL '0'");
}

/// Outcome classification: timeouts are their own class and never
/// whitelisted; other errors are split by the whitelist.
#[test]
fn classify_outcomes() {
    assert_eq!(classify_query_outcome(&Ok(3), false), QueryOutcomeClass::Passed);
    assert_eq!(
        classify_query_outcome(&Err("Arrow error: Divide by zero error".to_string()), false),
        QueryOutcomeClass::WhitelistedError
    );
    assert_eq!(
        classify_query_outcome(&Err("segfault".to_string()), false),
        QueryOutcomeClass::NonWhitelistedError
    );
    assert_eq!(
        classify_query_outcome(&Err("Query execution timed out".to_string()), true),
        QueryOutcomeClass::TimedOut
    );
    // A timed-out query is never absorbed by the whitelist, even with
    // a whitelisted-looking message.
    assert_eq!(
        classify_query_outcome(&Err("Arrow error: Divide by zero error".to_string()), true),
        QueryOutcomeClass::TimedOut
    );
}

/// End-to-end: seed 42 with small bounds generates a dataset with one
/// to three columns and at most nine inserted rows, and the no-crash
/// oracle yields a query whose text appears verbatim in its report.
#[test]
fn end_to_end_scenario() {
    let config = RunnerConfig::new()
        .with_seed(42)
        .with_max_column_count(3)
        .with_max_row_count(10);
    let mut ctx = GlobalContext::new(config, RuntimeContext::new());

    let mut generator = datafusion_fuzzer::dataset::DatasetGenerator::new(42);
    let plan = generator.generate_dataset(&mut ctx);

    assert!(plan.table.columns.len() >= 1 && plan.table.columns.len() <= 3);
    let available = datafusion_fuzzer::types::get_available_data_types();
    for col in &plan.table.columns {
        assert!(available.iter().any(|t| *t == col.data_type));
    }
    assert!(plan.insert_statements.len() <= 9);
    assert!(plan.create_table_sql.starts_with("CREATE TABLE t0 ("));
    for stmt in &plan.insert_statements {
        assert!(stmt.starts_with("INSERT INTO t0 VALUES ("));
        assert!(stmt.ends_with(");"));
    }

    let oracle = NoCrashOracle::new(42);
    let group = oracle.generate_query_group(&ctx).expect("a table is registered");
    assert_eq!(group.len(), 1);
    let sql = group[0].query.clone();
    assert!(sql.starts_with("SELECT "));
    assert!(sql.contains("\nFROM "));

    // Validation passes on a successful result...
    let ok_results = vec![QueryExecutionResult {
        query_context: QueryContext::with_description(sql.clone(), "Random Query No-Crash Test".to_string()),
        result: Ok(1),
    }];
    assert!(oracle.validate_consistency(&ok_results).is_ok());

    // ... and a failure's report carries the literal SQL text.
    let failed_results = vec![QueryExecutionResult {
        query_context: QueryContext::with_description(sql.clone(), "Random Query No-Crash Test".to_string()),
        result: Err("unexpected internal error".to_string()),
    }];
    let report = oracle.create_error_report(&failed_results);
    assert!(report.contains(&sql));
    assert!(report.contains("Error details: unexpected internal error"));
}

/// The oracle fails with an explicit error when no table is
/// registered.
#[test]
fn oracle_fails_on_empty_registry() {
    let ctx = GlobalContext::default();
    let oracle = NoCrashOracle::new(7);
    let r = oracle.generate_query_group(&ctx);
    assert!(r.is_err());
    assert_eq!(
        r.err().unwrap().message(),
        "No available tables registered inside fuzzer context."
    );
}

/// A round's datasets register between three and ten tables named by
/// the counter, and resetting the context clears them.
#[test]
fn round_generation_and_reset() {
    let config = RunnerConfig::new().with_seed(5);
    let mut ctx = GlobalContext::new(config, RuntimeContext::new());

    let plans = generate_datasets_for_round(5, &mut ctx);
    assert!(plans.len() >= 3 && plans.len() <= 10);
    assert_eq!(ctx.runtime_context.registered_tables.len(), plans.len());
    for (i, plan) in plans.iter().enumerate() {
        assert_eq!(plan.table.name, format!("t{}", i));
    }

    ctx.reset_datafusion_context();
    assert_eq!(ctx.runtime_context.registered_tables.len(), 0);
    let mut generator = datafusion_fuzzer::dataset::DatasetGenerator::new(9);
    let plan = generator.generate_dataset(&mut ctx);
    assert_eq!(plan.table.name, "t0");
}

/// CREATE VIEW statements wrap the generated SELECT verbatim.
#[test]
fn view_sql_wrapping() {
    assert_eq!(
        create_view_sql("v0", "SELECT 1\nFROM t0"),
        "CREATE VIEW v0 AS SELECT 1\nFROM t0"
    );
}

/// Column names are derived from the table name, position and type
/// display name.
#[test]
fn column_names_follow_the_derivation() {
    let config = RunnerConfig::new().with_seed(11).with_max_column_count(4);
    let mut ctx = GlobalContext::new(config, RuntimeContext::new());
    let mut generator = datafusion_fuzzer::dataset::DatasetGenerator::new(11);
    let plan = generator.generate_dataset(&mut ctx);
    for (i, col) in plan.table.columns.iter().enumerate() {
        let expected = format!(
            "col_{}_{}_{}",
            plan.table.name,
            i + 1,
            col.data_type.display_name()
        );
        assert_eq!(col.name, expected);
    }
}

/// Query contexts wrap and unwrap query text unchanged.
#[test]
fn query_context_helpers() {
    let qc = QueryContext::new("SELECT 1".to_string());
    assert_eq!(qc.display_description(), "Query: SELECT 1");
    let qc2 = QueryContext::with_description("SELECT 2".to_string(), "alt config".to_string());
    assert_eq!(qc2.display_description(), "Query with alt config: SELECT 2");

    let group = QueryContext::from_queries(vec!["a".to_string(), "b".to_string()]);
    let back = QueryContext::get_queries(&group);
    assert_eq!(back, vec!["a".to_string(), "b".to_string()]);
}

/// Validation rejects an empty result group with its error message.
#[test]
fn validation_rejects_empty_results() {
    let oracle = NoCrashOracle::new(1);
    let r = oracle.validate_consistency(&Vec::new());
    assert_eq!(r.err().unwrap().message(), "No query results to validate");
}

/// The command-line overlay: explicitly set values win, the rest come
/// from the base configuration.
#[test]
fn cli_overlay_on_defaults() {
    let cli = Cli {
        config: None,
        seed: Some(7),
        rounds: Some(5),
        queries_per_round: None,
        timeout: Some(9),
        log_path: None,
        display_logs: true,
        enable_tui: false,
    };
    let config = RunnerConfig::from_cli(&cli, RunnerConfig::new());
    assert_eq!(config.seed, 7);
    assert_eq!(config.rounds, 5);
    assert_eq!(config.queries_per_round, 10);
    assert_eq!(config.timeout_seconds, 9);
    assert!(config.display_logs);
    assert!(!config.enable_tui);
    // The default configuration logs under "logs".
    assert_eq!(RunnerConfig::new().log_path.as_deref(), Some("logs"));

    // An unset seed leaves the base seed in place; an explicitly
    // passed seed always wins, even when it equals the default.
    let cli_unset_seed = Cli { seed: None, rounds: None, ..cli };
    let base = RunnerConfig::new().with_seed(1234);
    let config2 = RunnerConfig::from_cli(&cli_unset_seed, base);
    assert_eq!(config2.seed, 1234);
    let cli_explicit_default = Cli {
        config: None,
        seed: Some(42),
        rounds: None,
        queries_per_round: None,
        timeout: None,
        log_path: None,
        display_logs: false,
        enable_tui: true,
    };
    let base2 = RunnerConfig::new().with_seed(1234);
    let config3 = RunnerConfig::from_cli(&cli_explicit_default, base2);
    assert_eq!(config3.seed, 42);

    let frc = FuzzerRunnerConfig::default();
    let runner = frc.to_runner_config();
    assert_eq!(runner.max_column_count, 5);
    assert_eq!(runner.max_row_count, 100);
    assert_eq!(runner.max_expr_level, 3);
    assert_eq!(runner.seed, 42);
}

/// The raw stream: equal seeds replay the same draws, different seeds
/// diverge, and draws move the stream forward.
#[test]
fn stream_determinism() {
    let mut a = rng_from_seed(99);
    let mut b = rng_from_seed(99);
    let mut c = rng_from_seed(100);

    let draws_a: Vec<u64> = (0..8).map(|_| a.next_range_u64(0, u64::MAX)).collect();
    let draws_b: Vec<u64> = (0..8).map(|_| b.next_range_u64(0, u64::MAX)).collect();
    let draws_c: Vec<u64> = (0..8).map(|_| c.next_range_u64(0, u64::MAX)).collect();

    assert_eq!(draws_a, draws_b);
    assert_ne!(draws_a, draws_c);
    // The draws come from a moving stream, not a constant.
    assert!(draws_a.windows(2).any(|w| w[0] != w[1]));
}
