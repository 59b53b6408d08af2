use spark_connect::plan::{range, LogicalPlan};
use spark_connect::plan_debug::plan_debug_string;
use std::rc::Rc;
use spark_connect::debug_text::{expr_debug_string, value_debug_string};
use spark_connect::expression::{CallFunctionWrapper, ColumnReference, Expression, LiteralExpression};
use spark_connect::row::Value;
use spark_connect::types::Float64;

#[test]
fn value_debug_text_of_nested_values() {
    let v = Value::MapValue(vec![("k".to_string(), Value::List(vec![Value::Long(1), Value::Null]))]);
    assert_eq!(value_debug_string(&v), "Map({\"k\": List([Long(1), Null])})");
    let s = Value::Struct(vec![("a".to_string(), Value::String("x\"y\n".to_string()))]);
    assert_eq!(value_debug_string(&s), "Struct([(\"a\", String(\"x\\\"y\\n\"))])");
    let d = Value::Decimal { value: "1.5".to_string(), precision: Some(3), scale: None };
    assert_eq!(value_debug_string(&d), "Decimal { value: \"1.5\", precision: Some(3), scale: None }");
}

#[test]
fn float_debug_text_gets_a_point() {
    let one = Value::Double(Float64 { bits: 1.0f64.to_bits(), text: "1".to_string() });
    assert_eq!(value_debug_string(&one), "Double(1.0)");
    let half = Value::Double(Float64 { bits: 0.5f64.to_bits(), text: "0.5".to_string() });
    assert_eq!(value_debug_string(&half), "Double(0.5)");
    let nan = Value::Double(Float64 { bits: f64::NAN.to_bits(), text: "NaN".to_string() });
    assert_eq!(value_debug_string(&nan), "Double(NaN)");
}

#[test]
fn call_function_debug_text() {
    let e = Expression::CallFunction(Box::new(CallFunctionWrapper {
        function_name: "f".to_string(),
        arguments: vec![
            Expression::ColumnReference(ColumnReference::new("a")),
            Expression::Literal(LiteralExpression::Integer(2)),
        ],
    }));
    assert_eq!(
        expr_debug_string(&e),
        "CallFunction(CallFunctionWrapper { function_name: \"f\", arguments: [ColumnReference(ColumnReference { name: \"a\", plan_id: None, is_metadata_column: false }), Literal(Integer(2))] })"
    );
    assert_eq!(e.render(), expr_debug_string(&e));
}

#[test]
fn plan_debug_text_of_a_range_and_a_limit() {
    let r = range(0, 3, 1);
    assert_eq!(plan_debug_string(&r), "Range { start: 0, end: 3, step: 1, num_partitions: None }");
    let l = LogicalPlan::Limit { input: Rc::new(range(0, 3, 1)), limit: 2 };
    assert_eq!(
        plan_debug_string(&l),
        "Limit { input: Range { start: 0, end: 3, step: 1, num_partitions: None }, limit: 2 }"
    );
}

fn double(x: f64) -> Value {
    Value::Double(Float64 { bits: x.to_bits(), text: x.to_string() })
}

#[test]
fn float_debug_text_matches_debug_formatting() {
    for x in [1e16, 1.5e16, -2.5e20, 1e-7, -1.234e-5, 0.0001, 123.0, -0.5, 0.0, 9999999999999998.0] {
        assert_eq!(value_debug_string(&double(x)), format!("Double({:?})", x));
    }
    assert_eq!(value_debug_string(&double(1e16)), "Double(1e16)");
    assert_eq!(value_debug_string(&double(1e-7)), "Double(1e-7)");
}

#[test]
fn string_debug_text_escapes_like_debug_formatting() {
    for s in ["plain", "tab\tquote\"back\\slash", "bell\u{7}", "del\u{7f}", "é and 'single'", "nul\0", "\u{200b}zero width"] {
        let v = Value::String(s.to_string());
        assert_eq!(value_debug_string(&v), format!("String({:?})", s));
    }
    assert_eq!(spark_connect::debug_text::quote("a\u{1}b"), "\"a\\u{1}b\"");
}
