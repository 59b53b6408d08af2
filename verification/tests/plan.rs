use spark_connect::plan_ids::{assign_plan_ids, PlanIdCounter};
use spark_connect::plan::limit;
use std::rc::Rc;

use spark_connect::column::col;
use spark_connect::expression::{Expression, LiteralExpression};
use spark_connect::plan::{aggregate_with_pivot, local_relation, range, AggregateGroupType, LogicalPlan, ReplaceValue};
use spark_connect::proto::{self, LiteralType};
use spark_connect::relation::RelType;
use spark_connect::row::Value;
use spark_connect::types::{DataType, Float64};

fn base() -> LogicalPlan {
    range(0, 10, 1)
}

fn rel_type(p: LogicalPlan) -> RelType {
    p.to_proto().rel_type.expect("rel_type")
}

#[test]
fn local_relation_carries_schema() {
    match rel_type(local_relation(DataType::Struct { fields: vec![] }, None)) {
        RelType::LocalRelation { schema, .. } => {
            assert!(schema.is_some(), "LocalRelation must carry the schema");
        }
        _ => panic!("expected LocalRelation"),
    }
}

#[test]
fn dropna_how_all_any_thresh_are_distinct() {
    let mk = |how: &str, thresh: Option<i32>| LogicalPlan::NADrop {
        input: Rc::new(base()),
        how: how.to_string(),
        min_non_null: thresh,
        columns: vec![],
    };
    let get = |p: LogicalPlan| match rel_type(p) {
        RelType::DropNa { min_non_nulls, .. } => min_non_nulls,
        _ => panic!("expected DropNa"),
    };
    assert_eq!(get(mk("all", None)), Some(1));
    assert_eq!(get(mk("any", None)), None);
    assert_eq!(get(mk("any", Some(3))), Some(3));
    assert_ne!(get(mk("all", None)), get(mk("any", None)));
}

#[test]
fn hint_carries_parameters() {
    let p = LogicalPlan::Hint {
        input: Rc::new(base()),
        name: "REPARTITION".to_string(),
        parameters: vec!["10".to_string(), "name".to_string()],
    };
    match rel_type(p) {
        RelType::Hint { parameters, .. } => {
            assert_eq!(parameters.len(), 2, "parameters must be forwarded");
            let lit = match &parameters[0] {
                proto::Expression::Literal(l) => l.literal_type.as_ref().unwrap(),
                _ => panic!("expected literal param"),
            };
            assert!(matches!(lit, LiteralType::Long(10)));
        }
        _ => panic!("expected Hint"),
    }
}

#[test]
fn replace_sets_string_literals() {
    let p = LogicalPlan::NAReplace {
        input: Rc::new(base()),
        replacements: vec![(ReplaceValue::Text("foo".to_string()), ReplaceValue::Text("bar".to_string()))],
        columns: vec![],
    };
    match rel_type(p) {
        RelType::Replace { replacements, .. } => {
            let repl = &replacements[0];
            let old = repl.old_value.as_ref().unwrap().literal_type.as_ref().unwrap();
            let new = repl.new_value.as_ref().unwrap().literal_type.as_ref().unwrap();
            assert!(matches!(old, LiteralType::String(s) if s == "foo"));
            assert!(matches!(new, LiteralType::String(s) if s == "bar"));
        }
        _ => panic!("expected Replace"),
    }
}

#[test]
fn pivot_values_are_serialized() {
    let p = aggregate_with_pivot(
        base(),
        AggregateGroupType::Pivot,
        vec![],
        vec![],
        col("k").expr,
        vec![
            Expression::Literal(LiteralExpression::string("a")),
            Expression::Literal(LiteralExpression::string("b")),
        ],
    );
    match rel_type(p) {
        RelType::Aggregate { pivot, .. } => {
            let pivot = pivot.expect("pivot set");
            assert_eq!(pivot.values.len(), 2, "explicit pivot values must be serialized");
        }
        _ => panic!("expected Aggregate"),
    }
}

#[test]
fn fillna_double_literal() {
    let p = LogicalPlan::NAFill {
        input: Rc::new(base()),
        fill_value: Value::Double(Float64 { bits: 1.5f64.to_bits(), text: "1.5".to_string() }),
        columns: vec![],
    };
    match rel_type(p) {
        RelType::FillNa { values, .. } => {
            let lit = values[0].literal_type.as_ref().unwrap();
            assert!(matches!(lit, LiteralType::Double(v) if (f64::from_bits(v.bits) - 1.5).abs() < 1e-9));
        }
        _ => panic!("expected FillNa"),
    }
}

#[test]
fn assigning_plan_ids_numbers_nodes_in_post_order() {
    let mut rel = limit(base(), 5).to_proto();
    let mut counter = PlanIdCounter::new(10);
    assign_plan_ids(&mut rel, &mut counter);
    assert_eq!(counter.next, 12);
    assert_eq!(rel.common.as_ref().and_then(|c| c.plan_id), Some(11));
    match rel.rel_type {
        Some(RelType::Limit { input: Some(child), .. }) => {
            assert_eq!(child.common.as_ref().and_then(|c| c.plan_id), Some(10));
        }
        _ => panic!("expected Limit"),
    }
}

#[test]
fn negative_hint_parameters_are_longs_and_text_stays_text() {
    let p = LogicalPlan::Hint {
        input: Rc::new(base()),
        name: "h".to_string(),
        parameters: vec!["-7".to_string(), "+3".to_string(), "x1".to_string()],
    };
    match rel_type(p) {
        RelType::Hint { parameters, .. } => {
            assert!(matches!(&parameters[0], proto::Expression::Literal(l) if matches!(l.literal_type, Some(LiteralType::Long(-7)))));
            assert!(matches!(&parameters[1], proto::Expression::Literal(l) if matches!(l.literal_type, Some(LiteralType::Long(3)))));
            assert!(matches!(&parameters[2], proto::Expression::Literal(l) if matches!(&l.literal_type, Some(LiteralType::String(s)) if s == "x1")));
        }
        _ => panic!("expected Hint"),
    }
}
