use std::rc::Rc;

use spark_connect::column::col;
use spark_connect::dataframe::DataFrame;
use spark_connect::options::StringMap;
use spark_connect::plan::LogicalPlan;
use spark_connect::plan_ids::PlanIdCounter;
use spark_connect::readwriter::{
    DataFrameReader, DataFrameWriter, DataFrameWriterV2, ReadType, SaveMode, SaveType,
    TableSaveMethod, WriteModeV2,
};

fn range3() -> DataFrame {
    DataFrame { plan: Rc::new(LogicalPlan::Range { start: 0, end: 3, step: 1, num_partitions: None }) }
}

fn lookup<'a>(pairs: &'a [(String, String)], key: &str) -> Option<&'a str> {
    pairs.iter().find(|(k, _)| k == key).map(|(_, v)| v.as_str())
}

#[test]
fn v1_write_operation_to_path() {
    let df = range3();
    let mut counter = PlanIdCounter::new(0);
    let op = DataFrameWriter::new(&df)
        .format("parquet")
        .mode("overwrite")
        .option("compression", "snappy")
        .partition_by(vec!["a".to_string()])
        .build_write_operation(Some(SaveType::Path("/tmp/out".to_string())), &mut counter);

    assert!(op.input.rel_type.is_some());
    assert_eq!(op.source.as_deref(), Some("parquet"));
    assert_eq!(op.mode, SaveMode::Overwrite.to_proto());
    assert_eq!(lookup(&op.options, "compression"), Some("snappy"));
    assert_eq!(op.partitioning_columns, vec!["a".to_string()]);
    match op.save_type {
        Some(SaveType::Path(p)) => assert_eq!(p, "/tmp/out"),
        other => panic!("expected Path save_type, got {other:?}"),
    }
}

#[test]
fn v1_write_operation_save_as_table() {
    let df = range3();
    let mut counter = PlanIdCounter::new(0);
    let table = DataFrameWriter::table_save_type("db.people", TableSaveMethod::SaveAsTable);
    let op = DataFrameWriter::new(&df).build_write_operation(Some(table), &mut counter);

    match op.save_type {
        Some(SaveType::Table { table_name, save_method }) => {
            assert_eq!(table_name, "db.people");
            assert_eq!(save_method, TableSaveMethod::SaveAsTable.to_proto());
        }
        other => panic!("expected Table save_type, got {other:?}"),
    }
}

#[test]
fn v2_write_operation_fields_and_modes() {
    let df = range3();
    let mut counter = PlanIdCounter::new(0);
    let op = DataFrameWriterV2::new(&df, "db.tbl")
        .using("delta")
        .option("mergeSchema", "true")
        .table_property("owner", "eng")
        .partition_by(vec![col("a")])
        .build_operation(WriteModeV2::Append, None, &mut counter);

    assert!(op.input.rel_type.is_some());
    assert_eq!(op.table_name, "db.tbl");
    assert_eq!(op.provider.as_deref(), Some("delta"));
    assert_eq!(op.mode, WriteModeV2::Append.to_proto());
    assert_eq!(op.partitioning_columns.len(), 1);
    assert_eq!(lookup(&op.options, "mergeSchema"), Some("true"));
    assert_eq!(lookup(&op.table_properties, "owner"), Some("eng"));

    // Terminal modes map to the wire codes of the protocol.
    let create = DataFrameWriterV2::new(&df, "t").build_operation(WriteModeV2::Create, None, &mut counter);
    assert_eq!(create.mode, 1);
    let cor = DataFrameWriterV2::new(&df, "t").build_operation(WriteModeV2::CreateOrReplace, None, &mut counter);
    assert_eq!(cor.mode, 6);
}

#[test]
fn v2_overwrite_sets_condition() {
    let df = range3();
    let mut counter = PlanIdCounter::new(0);
    let op = DataFrameWriterV2::new(&df, "t").build_operation(
        WriteModeV2::Overwrite,
        Some(col("id")),
        &mut counter,
    );
    assert_eq!(op.mode, WriteModeV2::Overwrite.to_proto());
    assert!(op.overwrite_condition.is_some());
}

#[test]
fn v1_write_operation_cluster_by() {
    let df = range3();
    let mut counter = PlanIdCounter::new(0);
    let op = DataFrameWriter::new(&df)
        .format("parquet")
        .cluster_by(vec!["col1".to_string(), "col2".to_string()])
        .build_write_operation(Some(SaveType::Path("/tmp/out".to_string())), &mut counter);

    assert_eq!(op.clustering_columns, vec!["col1", "col2"]);
}

#[test]
fn v2_write_operation_cluster_by() {
    let df = range3();
    let mut counter = PlanIdCounter::new(0);
    let op = DataFrameWriterV2::new(&df, "t")
        .cluster_by(vec!["col1".to_string(), "col2".to_string()])
        .build_operation(WriteModeV2::Create, None, &mut counter);

    assert_eq!(op.clustering_columns, vec!["col1", "col2"]);
}

#[test]
fn reader_jdbc_with_options() {
    let reader = DataFrameReader::new();
    let df = reader
        .option("url", "jdbc:mysql://localhost:3306/db")
        .option("user", "root")
        .option("password", "secret")
        .jdbc("jdbc:mysql://localhost:3306/db", "table_name", None);

    match &*df.plan {
        LogicalPlan::Read { read_type: ReadType::DataSource { options, format, .. }, .. } => {
            assert_eq!(format.as_deref(), Some("jdbc"));
            assert_eq!(options.get("url").map(String::as_str), Some("jdbc:mysql://localhost:3306/db"));
            assert_eq!(options.get("user").map(String::as_str), Some("root"));
            assert_eq!(options.get("password").map(String::as_str), Some("secret"));
        }
        _ => panic!("expected Read plan"),
    }
}

#[test]
fn reader_jdbc_with_predicates() {
    let reader = DataFrameReader::new();
    let predicates = vec!["col1 > 10".to_string(), "col2 = 'value'".to_string()];
    let df = reader.jdbc("jdbc:mysql://localhost/db", "table", Some(predicates));

    match &*df.plan {
        LogicalPlan::Read { read_type: ReadType::DataSource { predicates: preds, .. }, .. } => {
            assert_eq!(preds.len(), 2);
        }
        _ => panic!("expected Read plan with predicates"),
    }
}

#[test]
fn v1_write_partition_and_cluster() {
    let df = range3();
    let mut counter = PlanIdCounter::new(0);
    let op = DataFrameWriter::new(&df)
        .format("delta")
        .partition_by(vec!["date".to_string()])
        .cluster_by(vec!["user_id".to_string()])
        .build_write_operation(Some(SaveType::Path("/tmp/data".to_string())), &mut counter);

    assert_eq!(op.partitioning_columns, vec!["date"]);
    assert_eq!(op.clustering_columns, vec!["user_id"]);
}

#[test]
fn v1_write_bucket_by() {
    let df = range3();
    let mut counter = PlanIdCounter::new(0);
    let op = DataFrameWriter::new(&df)
        .format("parquet")
        .bucket_by(10, vec!["col1".to_string()])
        .build_write_operation(Some(SaveType::Path("/tmp/out".to_string())), &mut counter);

    assert!(op.bucket_by.is_some());
    let bucket_by = op.bucket_by.unwrap();
    assert_eq!(bucket_by.num_buckets, 10);
    assert_eq!(bucket_by.bucket_column_names, vec!["col1"]);
}

#[test]
fn v1_write_sort_by() {
    let df = range3();
    let mut counter = PlanIdCounter::new(0);
    let op = DataFrameWriter::new(&df)
        .format("parquet")
        .sort_by(vec!["col1".to_string()])
        .build_write_operation(Some(SaveType::Path("/tmp/out".to_string())), &mut counter);

    assert_eq!(op.sort_column_names, vec!["col1"]);
}

#[test]
fn reader_format_options() {
    let mut opts = StringMap::new();
    opts.insert("delimiter".to_string(), ";".to_string());
    opts.insert("header".to_string(), "true".to_string());

    let df = DataFrameReader::new().format("csv").options(opts).load(Some("/data.csv"));

    match &*df.plan {
        LogicalPlan::Read { read_type: ReadType::DataSource { options, format, .. }, .. } => {
            assert_eq!(format.as_deref(), Some("csv"));
            assert_eq!(options.get("delimiter").map(String::as_str), Some(";"));
            assert_eq!(options.get("header").map(String::as_str), Some("true"));
        }
        _ => panic!("expected Read plan"),
    }
}

#[test]
fn save_mode_names_parse_in_any_case() {
    assert_eq!(SaveMode::from_str("APPEND"), Some(SaveMode::Append));
    assert_eq!(SaveMode::from_str("Overwrite"), Some(SaveMode::Overwrite));
    assert_eq!(SaveMode::from_str("errorifexists"), Some(SaveMode::ErrorIfExists));
    assert_eq!(SaveMode::from_str("error"), Some(SaveMode::ErrorIfExists));
    assert_eq!(SaveMode::from_str("Ignore"), Some(SaveMode::Ignore));
    assert_eq!(SaveMode::from_str("bogus"), None);
}

#[test]
fn write_operation_numbers_the_input_plan() {
    let df = range3();
    let mut counter = PlanIdCounter::new(7);
    let op = DataFrameWriter::new(&df).build_write_operation(None, &mut counter);
    assert_eq!(op.input.common.as_ref().and_then(|c| c.plan_id), Some(7));
    assert_eq!(counter.next, 8);
}
