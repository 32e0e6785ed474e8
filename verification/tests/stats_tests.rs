use datafusion_fuzzer::stats::{
    percentile, FuzzerStats, QueryExecutionRecord, QueryRuntimeStats,
};

#[test]
fn test_percentile_calculation() {
    let values: Vec<u64> = vec![1, 2, 3, 4, 5, 6, 7, 8, 9, 10];

    assert_eq!(percentile(&values, 0), 1);
    assert_eq!(percentile(&values, 50), 5);
    assert_eq!(percentile(&values, 90), 9);
    assert_eq!(percentile(&values, 100), 10);
}

#[test]
fn test_runtime_stats_creation() {
    let records = vec![
        QueryExecutionRecord { query: "SELECT 1".to_string(), execution_time_ms: 10 },
        QueryExecutionRecord { query: "SELECT 2".to_string(), execution_time_ms: 20 },
        QueryExecutionRecord { query: "SELECT 3".to_string(), execution_time_ms: 30 },
        QueryExecutionRecord { query: "SELECT 4".to_string(), execution_time_ms: 100 },
        QueryExecutionRecord {
            query: "SELECT 5 -- slowest".to_string(),
            execution_time_ms: 200,
        },
    ];

    let stats = QueryRuntimeStats::from_records(&records).unwrap();

    assert_eq!(stats.fastest_ms, 10);
    assert_eq!(stats.slowest_ms, 200);
    assert_eq!(stats.avg_ms, 72); // (10+20+30+100+200)/5
    assert_eq!(stats.slowest_query, "SELECT 5 -- slowest");
}

#[test]
fn test_empty_query_records() {
    let stats = QueryRuntimeStats::from_records(&Vec::new());
    assert!(stats.is_none());
}

#[test]
fn test_fuzzer_stats_with_runtime() {
    let mut stats = FuzzerStats::new(1);

    // Record some queries with execution times
    stats.record_query_with_time("SELECT 1", true, 10, 0, 5);
    stats.record_query_with_time("SELECT 2 -- slowest", true, 20, 1, 5);

    let tui_stats = stats.get_tui_stats(100);
    assert_eq!(tui_stats.queries_executed, 2);
    assert!(tui_stats.query_runtime_stats.is_some());

    let runtime_stats = tui_stats.query_runtime_stats.unwrap();
    assert_eq!(runtime_stats.fastest_ms, 10);
    assert_eq!(runtime_stats.slowest_ms, 20);
    assert_eq!(runtime_stats.avg_ms, 15);
    assert_eq!(runtime_stats.slowest_query, "SELECT 2 -- slowest");
}
