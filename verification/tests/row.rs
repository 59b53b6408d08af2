use spark_connect::row::{Row, Value};
use spark_connect::types::{Float32, Float64};

fn double(v: f64) -> Value {
    Value::Double(Float64 { bits: v.to_bits(), text: v.to_string() })
}

fn float(v: f32) -> Value {
    Value::Float(Float32 { bits: v.to_bits(), text: v.to_string() })
}

#[test]
fn test_row_creation() {
    let row = Row::new(
        vec!["id".to_string(), "name".to_string()],
        vec![Value::Long(1), Value::String("Alice".to_string())],
    );

    assert_eq!(row.len(), 2);
    assert_eq!(row.get(0), Some(&Value::Long(1)));
    assert_eq!(row.get(1), Some(&Value::String("Alice".to_string())));
}

#[test]
fn test_row_access_by_name() {
    let row = Row::new(
        vec!["id".to_string(), "name".to_string()],
        vec![Value::Long(1), Value::String("Alice".to_string())],
    );

    assert_eq!(row.get_by_name("id"), Some(&Value::Long(1)));
    assert_eq!(row.get_by_name("name"), Some(&Value::String("Alice".to_string())));
    assert_eq!(row.get_by_name("nonexistent"), None);
}

#[test]
fn test_value_conversions() {
    let b = Value::Bool(true);
    assert_eq!(b.as_bool(), Some(true));

    let i = Value::Integer(42);
    assert_eq!(i.as_i64(), Some(42));

    match double(3.14) {
        Value::Double(d) => assert_eq!(f64::from_bits(d.bits), 3.14),
        _ => panic!("Expected a double"),
    }

    let s = Value::String("test".to_string());
    assert_eq!(s.as_str(), Some("test"));
}

#[test]
fn test_value_date_timestamp_decimal() {
    let date_val = Value::Date(18993);
    assert_eq!(date_val, Value::Date(18993));

    let ts_val = Value::Timestamp(1693526400000000);
    assert_eq!(ts_val, Value::Timestamp(1693526400000000));

    let dec_val = Value::Decimal { value: "123.45".to_string(), precision: Some(5), scale: Some(2) };
    match dec_val {
        Value::Decimal { value, precision, scale } => {
            assert_eq!(value, "123.45");
            assert_eq!(precision, Some(5));
            assert_eq!(scale, Some(2));
        }
        _ => panic!("Expected Decimal variant"),
    }
}

#[test]
fn as_i64_covers_all_integer_widths_and_rejects_others() {
    assert_eq!(Value::Byte(7).as_i64(), Some(7));
    assert_eq!(Value::Short(300).as_i64(), Some(300));
    assert_eq!(Value::Integer(70_000).as_i64(), Some(70_000));
    assert_eq!(Value::Long(5_000_000_000).as_i64(), Some(5_000_000_000));
    assert_eq!(double(1.0).as_i64(), None);
    assert_eq!(Value::Null.as_i64(), None);
}

#[test]
fn as_f64_covers_float_and_double_and_rejects_others() {
    // Floating-point values are carried as bit patterns.
    match float(1.5) {
        Value::Float(f) => assert_eq!(f32::from_bits(f.bits) as f64, 1.5),
        _ => panic!("Expected a float"),
    }
    match double(2.5) {
        Value::Double(d) => assert_eq!(f64::from_bits(d.bits), 2.5),
        _ => panic!("Expected a double"),
    }
    assert!(!matches!(Value::Long(3), Value::Float(_) | Value::Double(_)));
}

#[test]
fn scalar_accessors_reject_wrong_types() {
    assert_eq!(Value::Integer(1).as_bool(), None);
    assert_eq!(Value::Bool(true).as_str(), None);
    assert_eq!(Value::String("x".into()).as_bytes(), None);
    assert_eq!(Value::Binary(vec![1, 2]).as_bytes(), Some(&[1u8, 2][..]));
}

#[test]
fn is_null_reflects_variant() {
    assert!(Value::Null.is_null());
    assert!(!Value::Integer(0).is_null());
}

#[test]
fn display_covers_every_value_variant() {
    assert_eq!(Value::Null.render(), "NULL");
    assert_eq!(Value::Bool(true).render(), "true");
    assert_eq!(Value::Byte(1).render(), "1");
    assert_eq!(Value::Short(2).render(), "2");
    assert_eq!(Value::Integer(3).render(), "3");
    assert_eq!(Value::Long(4).render(), "4");
    assert_eq!(float(1.5).render(), "1.5");
    assert_eq!(double(2.5).render(), "2.5");
    assert_eq!(Value::String("hi".into()).render(), "hi");
    assert_eq!(Value::Binary(vec![1, 2]).render(), "[1, 2]");
    assert_eq!(Value::Date(19_000).render(), "19000");
    assert_eq!(Value::Timestamp(123).render(), "123");
    assert_eq!(Value::List(vec![Value::Integer(1), Value::Integer(2)]).render(), "[1, 2]");
    assert_eq!(Value::MapValue(vec![("k".to_string(), Value::Integer(9))]).render(), "{k: 9}");
    assert_eq!(Value::Struct(vec![("a".to_string(), Value::Integer(1))]).render(), "(a=1)");
}

#[test]
fn display_decimal_with_and_without_precision() {
    assert_eq!(
        Value::Decimal { value: "123.45".into(), precision: Some(5), scale: Some(2) }.render(),
        "Decimal(123.45,5)s=2"
    );
    assert_eq!(Value::Decimal { value: "7".into(), precision: None, scale: None }.render(), "Decimal(7)");
}

#[test]
fn row_helpers_and_display() {
    let empty = Row::empty();
    assert!(empty.is_empty());
    assert_eq!(empty.len(), 0);

    let row = Row::new(
        vec!["a".to_string(), "b".to_string()],
        vec![Value::Integer(1), Value::String("x".to_string())],
    );
    assert!(!row.is_empty());
    assert_eq!(row.get(5), None);
    assert_eq!(row.get_unchecked(0), &Value::Integer(1));
    assert_eq!(row.fields(), &["a".to_string(), "b".to_string()]);
    assert_eq!(row.values().len(), 2);
    assert_eq!(row.render(), "[1, x]");
    assert_eq!(row.into_values(), vec![Value::Integer(1), Value::String("x".to_string())]);
}

#[test]
fn get_by_name_returns_the_first_field_of_that_name() {
    let row = Row::new(
        vec!["a".to_string(), "a".to_string()],
        vec![Value::Integer(1), Value::Integer(2)],
    );
    assert_eq!(row.get_by_name("a"), Some(&Value::Integer(1)));
}
