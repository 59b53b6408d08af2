use spark_connect::options::StringMap;
use spark_connect::profiler::ProfilerCollector;

#[test]
fn test_profiler_collector_show_empty() {
    let collector = ProfilerCollector::new();

    let result = collector.show(None);
    assert_eq!(result, "No profile data collected");

    let result = collector.show(Some(99));
    assert_eq!(result, "No profile data for id: 99");
}

#[test]
fn default_constructs_empty_collector() {
    let collector = ProfilerCollector::default();
    assert_eq!(collector.count(), 0);
}

#[test]
fn test_profiler_collector_accumulate_and_show() {
    let mut collector = ProfilerCollector::new();
    let mut metadata = StringMap::new();
    metadata.insert("type".to_string(), "udf".to_string());
    collector.accumulate_profile(1, "profile data 1".to_string(), metadata);

    let result = collector.show(Some(1));
    assert_eq!(result, "profile data 1");

    let all = collector.show(None);
    assert!(all.contains("profile data 1"));
    assert!(all.contains("=== Profile 1 ==="));
}

#[test]
fn test_profiler_collector_clear() {
    let mut collector = ProfilerCollector::new();
    collector.accumulate_profile(1, "profile 1".to_string(), StringMap::new());
    collector.accumulate_profile(2, "profile 2".to_string(), StringMap::new());
    assert_eq!(collector.count(), 2);

    collector.clear(Some(1));
    assert_eq!(collector.count(), 1);

    collector.clear(None);
    assert_eq!(collector.count(), 0);
}

use spark_connect::profiler::{format_literal, ObservedMetrics};
use spark_connect::proto::{Literal, LiteralType};
use spark_connect::types::{DataType, Float32, Float64};

fn lit(lt: LiteralType) -> Literal {
    Literal { literal_type: Some(lt) }
}

#[test]
fn test_profiler_collector_accumulate_observed_metrics() {
    let mut collector = ProfilerCollector::new();
    let metric = ObservedMetrics {
        name: "udf_profile".to_string(),
        plan_id: 1,
        keys: vec!["udf_time_ms".to_string(), "python_calls".to_string()],
        values: vec![lit(LiteralType::Long(150)), lit(LiteralType::Long(42))],
    };

    collector.accumulate_observed_metrics(&vec![metric]);

    let result = collector.show(Some(1));
    assert!(result.contains("udf_time_ms: 150"));
    assert!(result.contains("python_calls: 42"));
}

#[test]
fn format_literal_covers_all_variants() {
    assert_eq!(format_literal(&lit(LiteralType::Null(DataType::Null))), "null");
    assert_eq!(format_literal(&lit(LiteralType::Boolean(true))), "true");
    assert_eq!(format_literal(&lit(LiteralType::Byte(1))), "1");
    assert_eq!(format_literal(&lit(LiteralType::Short(2))), "2");
    assert_eq!(format_literal(&lit(LiteralType::Integer(3))), "3");
    assert_eq!(format_literal(&lit(LiteralType::Long(4))), "4");
    let f = Float32 { bits: 1.5f32.to_bits(), text: 1.5f32.to_string() };
    assert_eq!(format_literal(&lit(LiteralType::Float(f))), "1.5");
    let d = Float64 { bits: 2.5f64.to_bits(), text: 2.5f64.to_string() };
    assert_eq!(format_literal(&lit(LiteralType::Double(d))), "2.5");
    assert_eq!(
        format_literal(&lit(LiteralType::Decimal { value: String::new(), precision: None, scale: None })),
        "decimal"
    );
    assert_eq!(format_literal(&lit(LiteralType::String("hi".to_string()))), "hi");
    assert!(format_literal(&lit(LiteralType::Binary(bytes::Bytes::from(vec![1u8, 2, 3])))).contains("3 bytes"));
    assert_eq!(
        format_literal(&lit(LiteralType::CalendarInterval { months: 0, days: 0, microseconds: 0 })),
        "calendar_interval"
    );
    assert_eq!(format_literal(&lit(LiteralType::YearMonthInterval(0))), "year_month_interval");
    assert_eq!(format_literal(&lit(LiteralType::DayTimeInterval(0))), "day_time_interval");
    assert_eq!(format_literal(&lit(LiteralType::Date(0))), "date");
    assert_eq!(format_literal(&lit(LiteralType::Timestamp(0))), "timestamp");
    assert_eq!(format_literal(&lit(LiteralType::TimestampNtz(0))), "timestamp_ntz");
    assert_eq!(format_literal(&lit(LiteralType::Time { nano: 0, precision: None })), "time");
    assert_eq!(format_literal(&lit(LiteralType::TimestampNtzNanos(0))), "timestamp_ntz_nanos");
    assert_eq!(format_literal(&lit(LiteralType::TimestampLtzNanos(0))), "timestamp_ltz_nanos");
    assert_eq!(format_literal(&lit(LiteralType::MapValue)), "map");
    assert_eq!(format_literal(&lit(LiteralType::Array { elements: vec![] })), "array");
    assert_eq!(format_literal(&lit(LiteralType::Struct)), "struct");
    assert_eq!(format_literal(&lit(LiteralType::SpecializedArray)), "specialized_array");
    // No literal type falls through to "unknown".
    assert_eq!(format_literal(&Literal { literal_type: None }), "unknown");
}

#[test]
fn accumulate_observed_metrics_more_values_than_keys() {
    let mut collector = ProfilerCollector::new();
    let metric = ObservedMetrics {
        name: "m".to_string(),
        plan_id: 7,
        keys: vec!["a".to_string()],
        values: vec![lit(LiteralType::Long(1)), lit(LiteralType::Long(2))],
    };
    collector.accumulate_observed_metrics(&vec![metric]);
    let shown = collector.show(Some(7));
    assert!(shown.contains("a: 1"));
    assert!(shown.contains("value_1: 2"));
}

#[test]
fn accumulating_an_id_again_replaces_its_profile() {
    let mut collector = ProfilerCollector::new();
    collector.accumulate_profile(3, "first".to_string(), StringMap::new());
    collector.accumulate_profile(4, "other".to_string(), StringMap::new());
    collector.accumulate_profile(3, "second".to_string(), StringMap::new());
    assert_eq!(collector.count(), 2);
    assert_eq!(collector.show(Some(3)), "second");
    assert_eq!(collector.show(Some(4)), "other");
    assert_eq!(collector.show(None), "=== Profile 3 ===\nsecond\n=== Profile 4 ===\nother\n");
}

#[test]
fn cleared_profile_is_no_longer_shown() {
    let mut collector = ProfilerCollector::new();
    collector.accumulate_profile(1, "p".to_string(), StringMap::new());
    collector.clear(Some(1));
    assert_eq!(collector.show(Some(1)), "No profile data for id: 1");
}
