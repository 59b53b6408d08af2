use spark_connect::plan_ids::PlanIdCounter;
use std::rc::Rc;

use spark_connect::column::col;
use spark_connect::dataframe::DataFrame;
use spark_connect::merge::MergeIntoWriter;
use spark_connect::plan::LogicalPlan;

fn range3() -> DataFrame {
    DataFrame { plan: Rc::new(LogicalPlan::Range { start: 0, end: 3, step: 1, num_partitions: None }) }
}

#[test]
fn merge_into_when_matched_update() {
    let df = range3();
    let assignments = vec![("col1".to_string(), col("new_val"))];

    let writer = df.merge_into("target_table", col("id")).when_matched(None).update(assignments);

    assert_eq!(writer.matched_actions.len(), 1);
    assert_eq!(writer.not_matched_actions.len(), 0);
}

#[test]
fn merge_into_when_matched_delete() {
    let df = range3();
    let writer = df.merge_into("target_table", col("id")).when_matched(None).delete();
    assert_eq!(writer.matched_actions.len(), 1);
}

#[test]
fn merge_into_when_matched_update_all() {
    let df = range3();
    let writer = df.merge_into("target_table", col("id")).when_matched(None).update_all();
    assert_eq!(writer.matched_actions.len(), 1);
}

#[test]
fn merge_into_when_not_matched_insert() {
    let df = range3();
    let assignments = vec![("col1".to_string(), col("val"))];

    let writer = df.merge_into("target_table", col("id")).when_not_matched(None).insert(assignments);

    assert_eq!(writer.not_matched_actions.len(), 1);
    assert_eq!(writer.matched_actions.len(), 0);
}

#[test]
fn merge_into_when_not_matched_insert_all() {
    let df = range3();
    let writer = df.merge_into("target_table", col("id")).when_not_matched(None).insert_all();
    assert_eq!(writer.not_matched_actions.len(), 1);
}

#[test]
fn merge_into_when_not_matched_by_source() {
    let df = range3();
    let writer = df.merge_into("target_table", col("id")).when_not_matched_by_source(None).delete();
    assert_eq!(writer.not_matched_by_source_actions.len(), 1);
}

#[test]
fn merge_into_multiple_clauses() {
    let df = range3();
    let assign1 = vec![("col1".to_string(), col("val1"))];
    let assign2 = vec![("col2".to_string(), col("val2"))];

    let writer = df
        .merge_into("target_table", col("id"))
        .when_matched(None)
        .update(assign1)
        .when_not_matched(None)
        .insert(assign2);

    assert_eq!(writer.matched_actions.len(), 1);
    assert_eq!(writer.not_matched_actions.len(), 1);
}

#[test]
fn merge_into_with_schema_evolution() {
    let df = range3();
    let writer = df
        .merge_into("target_table", col("id"))
        .with_schema_evolution()
        .when_matched(None)
        .update_all();

    assert!(writer.schema_evolution);
}

#[test]
fn merge_command_carries_clauses_in_order() {
    let df = range3();
    let mut counter = PlanIdCounter::new(0);
    let cmd = MergeIntoWriter::new(&df, "t", col("id"))
        .when_matched(None)
        .delete()
        .when_not_matched(None)
        .insert_all()
        .merge(&mut counter);
    assert_eq!(cmd.target_table_name, "t");
    assert_eq!(cmd.match_actions.len(), 1);
    assert_eq!(cmd.not_matched_actions.len(), 1);
}
