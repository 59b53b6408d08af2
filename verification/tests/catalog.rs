use spark_connect::catalog::Catalog;
use spark_connect::row::{Row, Value};

fn one(v: Value) -> Vec<Row> {
    vec![Row::new(vec!["v".to_string()], vec![v])]
}

#[test]
fn function_exists_answer_reads_a_boolean() {
    let op = Catalog::new().function_exists("f");
    assert_eq!(op.answer_bool(&one(Value::Bool(true))).unwrap(), true);
    assert_eq!(op.answer_bool(&Vec::new()).unwrap(), false);
    let e = op.answer_bool(&one(Value::Long(1))).unwrap_err();
    assert_eq!(e.message, "functionExists returned non-boolean");
}

#[test]
fn exists_and_drop_answers_name_their_request() {
    let c = Catalog::new();
    let bad = one(Value::String("x".to_string()));
    assert_eq!(c.database_exists("d").answer_bool(&bad).unwrap_err().message, "databaseExists returned non-boolean");
    assert_eq!(c.table_exists("t").answer_bool(&bad).unwrap_err().message, "tableExists returned non-boolean");
    assert_eq!(c.drop_temp_view("v").answer_bool(&bad).unwrap_err().message, "dropTempView returned non-boolean");
    assert_eq!(c.drop_global_temp_view("v").answer_bool(&bad).unwrap_err().message, "dropGlobalTempView returned non-boolean");
    assert_eq!(c.is_cached("t").answer_bool(&bad).unwrap_err().message, "isCached returned non-boolean");
}

#[test]
fn current_database_answer_reads_a_string() {
    let c = Catalog::new();
    let op = c.current_database();
    assert_eq!(op.answer_string(&one(Value::String("db".to_string()))).unwrap(), "db");
    assert_eq!(op.answer_string(&Vec::new()).unwrap_err().message, "currentDatabase returned no result");
    assert_eq!(op.answer_string(&one(Value::Bool(true))).unwrap_err().message, "currentDatabase returned non-string");
    assert_eq!(c.current_catalog().answer_string(&Vec::new()).unwrap_err().message, "currentCatalog returned no result");
}

#[test]
fn create_table_string_and_properties_answers() {
    let c = Catalog::new();
    let op = c.get_create_table_string("t", false);
    assert_eq!(op.answer_create_table_string(&Vec::new()).unwrap(), "");
    assert_eq!(op.answer_create_table_string(&one(Value::String("CREATE".to_string()))).unwrap(), "CREATE");
    let rows = vec![Row::new(
        vec!["k".to_string(), "v".to_string()],
        vec![Value::String("a".to_string()), Value::String("1".to_string())],
    )];
    let props = c.get_table_properties("t").answer_table_properties(&rows).unwrap();
    assert_eq!(props, vec![("a".to_string(), "1".to_string())]);
}
