use std::rc::Rc;

use spark_connect::catalog::Catalog;
use spark_connect::dataframe::{column_names, count_from_rows, dtypes_of, DataFrame};
use spark_connect::expression::{Expression, LiteralExpression};
use spark_connect::plan::{AggregateGroupType, LogicalPlan};
use spark_connect::row::{Row, Value};
use spark_connect::types::{DataType, StructField};

fn range3() -> DataFrame {
    DataFrame { plan: Rc::new(LogicalPlan::Range { start: 0, end: 3, step: 1, num_partitions: None }) }
}

fn one_value_row(v: Value) -> Row {
    Row::new(vec!["count".to_string()], vec![v])
}

#[test]
fn count_is_asked_as_a_global_count_of_one() {
    let df = range3();
    let agg = df.count_aggregate();
    match &*agg.plan {
        LogicalPlan::Aggregate { group_type, grouping_expressions, aggregate_expressions, .. } => {
            assert_eq!(*group_type, AggregateGroupType::GroupBy);
            assert!(grouping_expressions.is_empty());
            assert_eq!(aggregate_expressions.len(), 1);
            match &aggregate_expressions[0] {
                Expression::UnresolvedFunction(f) => {
                    assert_eq!(f.name, "count");
                    assert!(matches!(f.args[0], Expression::Literal(LiteralExpression::Integer(1))));
                }
                _ => panic!("expected a count call"),
            }
        }
        _ => panic!("expected an aggregate"),
    }
}

#[test]
fn count_answer_reads_the_first_integer() {
    assert_eq!(count_from_rows(&vec![]).unwrap(), 0);
    assert_eq!(count_from_rows(&vec![one_value_row(Value::Long(42))]).unwrap(), 42);
    assert_eq!(count_from_rows(&vec![one_value_row(Value::Integer(7))]).unwrap(), 7);
    let err = count_from_rows(&vec![one_value_row(Value::String("x".to_string()))]).unwrap_err();
    assert_eq!(err.message, "count() aggregate returned a non-integer value");
}

#[test]
fn schema_names_and_types() {
    let schema = DataType::Struct {
        fields: vec![
            StructField { name: "id".to_string(), data_type: DataType::Long, nullable: false },
            StructField {
                name: "name".to_string(),
                data_type: DataType::String { collation: "UTF8_BINARY".to_string() },
                nullable: true,
            },
        ],
    };
    assert_eq!(column_names(&schema).unwrap(), vec!["id".to_string(), "name".to_string()]);
    assert_eq!(
        dtypes_of(&schema).unwrap(),
        vec![("id".to_string(), "bigint".to_string()), ("name".to_string(), "string".to_string())]
    );
    assert_eq!(column_names(&DataType::Long).unwrap_err().message, "Schema is not a struct type");
    assert_eq!(dtypes_of(&DataType::Long).unwrap_err().message, "Schema is not a struct type");
}

#[test]
fn catalog_answers_parse_rows() {
    let catalog = Catalog::new();
    let rows = vec![Row::new(
        vec!["name".to_string(), "catalog".to_string(), "description".to_string(), "locationUri".to_string()],
        vec![
            Value::String("db1".to_string()),
            Value::String("spark_catalog".to_string()),
            Value::Null,
            Value::String("file:/tmp".to_string()),
        ],
    )];
    let dbs = catalog.list_databases_typed(&rows);
    assert_eq!(dbs.len(), 1);
    assert_eq!(dbs[0].name, "db1");
    assert_eq!(dbs[0].catalog.as_deref(), Some("spark_catalog"));
    assert!(dbs[0].description.is_none());
    let db = catalog.get_database_typed(&rows).unwrap();
    assert_eq!(db.location_uri, "file:/tmp");
    assert_eq!(catalog.get_database_typed(&vec![]).unwrap_err().message, "getDatabase returned no result");
}

#[test]
fn same_semantics_compares_plans() {
    let a = range3();
    let b = range3();
    assert!(a.same_semantics(&b));
    let c = a.limit(1);
    assert!(!a.same_semantics(&c));
}
