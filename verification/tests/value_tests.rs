use datafusion_fuzzer::context::RuntimeContext;
use datafusion_fuzzer::rng::rng_from_seed;
use datafusion_fuzzer::types::FuzzerDataType;
use datafusion_fuzzer::value::{
    generate_value, safe_power_of_10, unpack_days, unpack_months, unpack_nanos, GeneratedValue,
    ValueGenerationConfig,
};

fn non_nullable_config() -> ValueGenerationConfig {
    ValueGenerationConfig {
        nullable: false,
        null_probability_percent: 0,
        int_range: (-100, 100),
        uint_range: (0, 200),
        float_range: (-100, 100),
    }
}

#[test]
fn test_simplified_decimal_type() {
    // Test that the simplified Decimal type works correctly
    let decimal_type = FuzzerDataType::Decimal;

    assert_eq!(decimal_type.display_name(), "decimal128");
    assert!(decimal_type.is_numeric());
    assert!(!decimal_type.is_time());
    assert_eq!(decimal_type.to_sql_type(), "DECIMAL");
}

#[test]
fn test_decimal_value_generation() {
    // Test that decimal values are generated with random precision and scale
    let mut rng = rng_from_seed(42);
    let config = non_nullable_config();

    for _ in 0..10 {
        let value = generate_value(&mut rng, &FuzzerDataType::Decimal, &config);

        match value {
            GeneratedValue::Decimal { value, precision, scale } => {
                assert!(precision >= 1 && precision <= 76);
                assert!(scale >= 0 && scale <= precision as i8);
                assert!(
                    value >= -99999 * safe_power_of_10(scale)
                        && value <= 99999 * safe_power_of_10(scale)
                );
            }
            other => panic!("Expected Decimal value, got: {:?}", other),
        }
    }
}

#[test]
fn test_generate_value_with_cached_config() {
    // Test that generate_value works with the context's cached config
    let mut rng = rng_from_seed(42);
    let fuzzer_type = FuzzerDataType::Int32;
    let runtime_ctx = RuntimeContext::new();

    let value = generate_value(&mut rng, &fuzzer_type, &runtime_ctx.value_generation_config);

    match value {
        GeneratedValue::Int32(v) => {
            assert!(v >= -100 && v <= 100, "Value should be in expected range");
        }
        _ => panic!("Expected Int32 value, got: {:?}", value),
    }
}

#[test]
fn test_cached_config_in_runtime_context() {
    // Test that RuntimeContext has the expected cached config
    let runtime_ctx = RuntimeContext::new();
    let expected_config = ValueGenerationConfig::default();

    assert_eq!(
        runtime_ctx.value_generation_config.nullable,
        expected_config.nullable
    );
    assert_eq!(
        runtime_ctx.value_generation_config.null_probability_percent,
        expected_config.null_probability_percent
    );
    assert_eq!(
        runtime_ctx.value_generation_config.int_range,
        expected_config.int_range
    );
    assert_eq!(
        runtime_ctx.value_generation_config.uint_range,
        expected_config.uint_range
    );
    assert_eq!(
        runtime_ctx.value_generation_config.float_range,
        expected_config.float_range
    );
    assert!(runtime_ctx.value_generation_config.nullable);
}

#[test]
fn test_timestamp_generation() {
    // Test that Timestamp generation works correctly
    let mut rng = rng_from_seed(42);
    let fuzzer_type = FuzzerDataType::Timestamp;
    let config = non_nullable_config();

    let value = generate_value(&mut rng, &fuzzer_type, &config);

    match &value {
        GeneratedValue::Timestamp(v, _) => {
            assert!(*v >= 0, "Timestamp should be non-negative");
            let max_ns = 24 * 60 * 60 * 1_000_000_000i64 * 36500;
            assert!(*v <= max_ns, "Timestamp should be within reasonable range");
        }
        _ => panic!("Expected Timestamp value, got: {:?}", value),
    }

    let sql_string = value.to_sql_string();
    assert!(sql_string.starts_with("'"), "SQL string should start with quote");
    assert!(sql_string.ends_with("'"), "SQL string should end with quote");
    assert!(sql_string.contains("-"), "SQL string should contain date separators");
    assert!(sql_string.contains(":"), "SQL string should contain time separators");
}

#[test]
fn test_timestamp_type_conversions() {
    // Test the Timestamp type's classification and names
    let fuzzer_type = FuzzerDataType::Timestamp;

    assert_eq!(fuzzer_type.display_name(), "timestamp");
    assert_eq!(fuzzer_type.to_sql_type(), "TIMESTAMP");
    assert!(fuzzer_type.is_time());
    assert!(!fuzzer_type.is_numeric());
}

#[test]
fn test_date_generation_validity() {
    // Test that date generation produces valid dates
    let mut rng = rng_from_seed(42);
    let fuzzer_type = FuzzerDataType::Date32;
    let config = non_nullable_config();

    for _ in 0..100 {
        let value = generate_value(&mut rng, &fuzzer_type, &config);

        match value {
            GeneratedValue::Date32(_) => {
                let sql_string = value.to_sql_string();
                assert!(sql_string.starts_with("'"), "Date should start with quote");
                assert!(sql_string.ends_with("'"), "Date should end with quote");

                let date_part = &sql_string[1..sql_string.len() - 1];
                let parts: Vec<&str> = date_part.split('-').collect();
                assert_eq!(parts.len(), 3, "Date should have 3 parts: year-month-day");

                let year: i32 = parts[0].parse().expect("Year should be parseable");
                let month: i32 = parts[1].parse().expect("Month should be parseable");
                let day: i32 = parts[2].parse().expect("Day should be parseable");

                assert!(year >= 1970, "Year should be >= 1970");
                assert!(year <= 2070, "Year should be <= 2070");
                assert!(month >= 1, "Month should be >= 1");
                assert!(month <= 12, "Month should be <= 12");
                assert!(day >= 1, "Day should be >= 1");
                assert!(day <= 31, "Day should be <= 31");

                let max_days = match month {
                    2 => 29,
                    4 | 6 | 9 | 11 => 30,
                    _ => 31,
                };
                assert!(day <= max_days, "Day {} is invalid for month {}", day, month);
            }
            _ => panic!("Expected Date32 value, got: {:?}", value),
        }
    }
}

#[test]
fn test_timestamp_generation_validity() {
    // Test that timestamp generation produces valid timestamps
    let mut rng = rng_from_seed(42);
    let fuzzer_type = FuzzerDataType::Timestamp;
    let config = non_nullable_config();

    for _ in 0..100 {
        let value = generate_value(&mut rng, &fuzzer_type, &config);

        match value {
            GeneratedValue::Timestamp(_, _) => {
                let sql_string = value.to_sql_string();
                assert!(sql_string.starts_with("'"), "Timestamp should start with quote");
                assert!(sql_string.ends_with("'"), "Timestamp should end with quote");

                let datetime_part = &sql_string[1..sql_string.len() - 1];
                let space_parts: Vec<&str> = datetime_part.split(' ').collect();
                assert!(space_parts.len() >= 2, "Timestamp should have date and time parts");

                let date_part = space_parts[0];
                let time_part_with_tz = space_parts[1..].join(" ");

                let date_parts: Vec<&str> = date_part.split('-').collect();
                assert_eq!(date_parts.len(), 3, "Date should have 3 parts: year-month-day");

                let year: i32 = date_parts[0].parse().expect("Year should be parseable");
                let month: i32 = date_parts[1].parse().expect("Month should be parseable");
                let day: i32 = date_parts[2].parse().expect("Day should be parseable");

                assert!(year >= 1970, "Year should be >= 1970");
                assert!(year <= 2070, "Year should be <= 2070");
                assert!(month >= 1, "Month should be >= 1");
                assert!(month <= 12, "Month should be <= 12");
                assert!(day >= 1, "Day should be >= 1");
                assert!(day <= 31, "Day should be <= 31");

                let max_days = match month {
                    2 => 29,
                    4 | 6 | 9 | 11 => 30,
                    _ => 31,
                };
                assert!(day <= max_days, "Day {} is invalid for month {}", day, month);

                // The time is HH:MM:SS.nnnnnnnnn with a possible
                // timezone label attached before the closing quote.
                let time_parts: Vec<&str> = time_part_with_tz.split(':').collect();
                assert!(time_parts.len() >= 3, "Time should have 3 parts: hour:minute:second.nanosecond");

                let hour: i32 = time_parts[0].parse().expect("Hour should be parseable");
                let minute: i32 = time_parts[1].parse().expect("Minute should be parseable");
                let second_part = time_parts[2];

                assert!(hour >= 0, "Hour should be >= 0");
                assert!(hour <= 23, "Hour should be <= 23");
                assert!(minute >= 0, "Minute should be >= 0");
                assert!(minute <= 59, "Minute should be <= 59");

                let second_parts: Vec<&str> = second_part.split('.').collect();
                assert_eq!(second_parts.len(), 2, "Second part should have seconds and nanoseconds");

                let second: i32 = second_parts[0].parse().expect("Second should be parseable");
                let ns_digits: String = second_parts[1]
                    .chars()
                    .take_while(|c| c.is_ascii_digit())
                    .collect();
                let nanosecond: i64 = ns_digits.parse().expect("Nanosecond should be parseable");

                assert!(second >= 0, "Second should be >= 0");
                assert!(second <= 59, "Second should be <= 59");
                assert!(nanosecond >= 0, "Nanosecond should be >= 0");
                assert!(nanosecond <= 999_999_999, "Nanosecond should be <= 999999999");
            }
            _ => panic!("Expected Timestamp value, got: {:?}", value),
        }
    }
}

#[test]
fn test_interval_month_day_nano_generation() {
    // Test that IntervalMonthDayNano generation works correctly
    let mut rng = rng_from_seed(42);
    let fuzzer_type = FuzzerDataType::IntervalMonthDayNano;
    let config = non_nullable_config();

    let value = generate_value(&mut rng, &fuzzer_type, &config);

    match &value {
        GeneratedValue::IntervalMonthDayNano(v) => {
            let months = unpack_months(*v);
            let days = unpack_days(*v);
            let nanoseconds = unpack_nanos(*v);

            assert!(months >= -12 && months <= 12, "Months should be in reasonable range");
            assert!(days >= -30 && days <= 30, "Days should be in reasonable range");
            assert!(
                nanoseconds >= -1_000_000_000 && nanoseconds <= 1_000_000_000,
                "Nanoseconds should be in reasonable range"
            );
        }
        _ => panic!("Expected IntervalMonthDayNano value, got: {:?}", value),
    }

    let sql_string = value.to_sql_string();
    assert!(
        sql_string.starts_with("INTERVAL '"),
        "SQL string should start with INTERVAL '"
    );
    assert!(sql_string.ends_with("'"), "SQL string should end with quote");
}

#[test]
fn test_interval_month_day_nano_type_conversions() {
    // Test the interval type's classification and names
    let fuzzer_type = FuzzerDataType::IntervalMonthDayNano;

    assert_eq!(fuzzer_type.display_name(), "interval_month_day_nano");
    assert_eq!(fuzzer_type.to_sql_type(), "INTERVAL");
    assert!(fuzzer_type.is_time());
    assert!(!fuzzer_type.is_numeric());
}

#[test]
fn test_interval_scalar_literal_generation() {
    // Test that INTERVAL scalar literals can be generated
    let mut rng = rng_from_seed(42);
    let fuzzer_type = FuzzerDataType::IntervalMonthDayNano;
    let config = non_nullable_config();

    let value = generate_value(&mut rng, &fuzzer_type, &config);

    assert!(
        matches!(value, GeneratedValue::IntervalMonthDayNano(_)),
        "Should generate IntervalMonthDayNano ScalarValue"
    );

    let string_repr = format!("{:?}", value);
    assert!(
        string_repr.contains("IntervalMonthDayNano"),
        "String representation should contain IntervalMonthDayNano"
    );
}

#[test]
fn test_timestamp_tz_type_conversions() {
    // The timezone-carrying timestamps share the Timestamp type tag
    let fuzzer_type = FuzzerDataType::Timestamp;

    assert_eq!(fuzzer_type.display_name(), "timestamp");
    assert_eq!(fuzzer_type.to_sql_type(), "TIMESTAMP");
    assert!(fuzzer_type.is_time());
    assert!(!fuzzer_type.is_numeric());
}

/// Parsing a numeric literal back recovers the generated value.
#[test]
fn numeric_literal_round_trip() {
    let mut rng = rng_from_seed(7);
    let config = non_nullable_config();

    for _ in 0..50 {
        match generate_value(&mut rng, &FuzzerDataType::Int32, &config) {
            GeneratedValue::Int32(v) => {
                let text = GeneratedValue::Int32(v).to_sql_string();
                assert_eq!(text.parse::<i32>().unwrap(), v);
            }
            other => panic!("Expected Int32 value, got: {:?}", other),
        }
        match generate_value(&mut rng, &FuzzerDataType::UInt64, &config) {
            GeneratedValue::UInt64(v) => {
                let text = GeneratedValue::UInt64(v).to_sql_string();
                assert_eq!(text.parse::<u64>().unwrap(), v);
            }
            other => panic!("Expected UInt64 value, got: {:?}", other),
        }
    }
}

/// Parsing a decimal literal back recovers the generated value for
/// scales whose power of ten is exact.
#[test]
fn decimal_literal_round_trip() {
    let mut rng = rng_from_seed(13);
    let config = non_nullable_config();

    let mut checked = 0;
    for _ in 0..200 {
        match generate_value(&mut rng, &FuzzerDataType::Decimal, &config) {
            GeneratedValue::Decimal { value, precision: _, scale } => {
                if scale == 0 {
                    let text =
                        GeneratedValue::Decimal { value, precision: 10, scale }.to_sql_string();
                    assert_eq!(text.parse::<i128>().unwrap(), value);
                    checked += 1;
                } else if scale <= 30 {
                    let text =
                        GeneratedValue::Decimal { value, precision: 76, scale }.to_sql_string();
                    let (int_part, frac_part) = text.split_once('.').unwrap();
                    assert_eq!(frac_part.len(), scale as usize);
                    let ip: i128 = int_part.parse().unwrap();
                    let fr: i128 = frac_part.parse().unwrap();
                    let pow = safe_power_of_10(scale);
                    let rebuilt = if value >= 0 { ip * pow + fr } else { ip * pow - fr };
                    assert_eq!(rebuilt, value);
                    checked += 1;
                }
            }
            other => panic!("Expected Decimal value, got: {:?}", other),
        }
    }
    assert!(checked > 0);
}
