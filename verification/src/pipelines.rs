//! Declarative pipelines: the commands that build a dataflow graph (its
//! outputs, flows and SQL definitions) and start a run of it.

use vstd::prelude::*;
use crate::dataframe::DataFrame;

use crate::options::StringMap;
use crate::plan::plan_rel;
use crate::plan_ids::{PlanIdCounter, assign_rel, count_rel};

use crate::relation::Relation;
use crate::text::owned;
use crate::types::DataType;

verus! {

/// Where in the user's source a definition stands.
#[derive(Debug)]
pub struct SourceCodeLocation {
    pub file_name: Option<String>,
    pub line_number: Option<i32>,
}

/// The details of a table or materialized-view output.
#[derive(Debug)]
pub struct TableDetailsSpec {
    pub table_properties: StringMap,
    pub partition_cols: Vec<String>,
    pub clustering_columns: Vec<String>,
    pub format: Option<String>,
    /// The schema as a DDL string, if given that way.
    pub schema_string: Option<String>,
    /// The schema as a data type, if given that way.
    pub schema_data_type: Option<DataType>,
}

/// The details of an external sink output.
#[derive(Debug)]
pub struct SinkDetailsSpec {
    pub options: StringMap,
    pub format: Option<String>,
}

/// One output of a pipeline: a table, materialized view, view or sink.
#[derive(Debug)]
pub struct OutputSpec {
    pub name: String,
    /// 1 materialized view, 2 table, 3 temporary view, 4 sink.
    pub output_type: i32,
    pub comment: Option<String>,
    pub source_code_location: Option<SourceCodeLocation>,
    pub table_details: Option<TableDetailsSpec>,
    pub sink_details: Option<SinkDetailsSpec>,
}

/// The schema of a table output, as sent.
#[derive(Debug)]
pub enum Schema {
    SchemaDataType(DataType),
    SchemaString(String),
}

/// The details part of a `DefineOutput` command.
#[derive(Debug)]
pub enum OutputDetails {
    TableDetails {
        table_properties: StringMap,
        partition_cols: Vec<String>,
        clustering_columns: Vec<String>,
        format: Option<String>,
        schema: Option<Schema>,
    },
    SinkDetails { options: StringMap, format: Option<String> },
}

/// `PipelineCommand.DefineOutput`.
#[derive(Debug)]
pub struct DefineOutput {
    pub dataflow_graph_id: Option<String>,
    pub output_name: Option<String>,
    pub output_type: Option<i32>,
    pub comment: Option<String>,
    pub source_code_location: Option<SourceCodeLocation>,
    pub details: Option<OutputDetails>,
}

/// The schema a table output sends: its data type when it has one, else its
/// DDL string when it has one, else none.
pub open spec fn chosen_schema(t: TableDetailsSpec) -> Option<Schema> {
    match (t.schema_data_type, t.schema_string) {
        (Some(dt), _) => Some(Schema::SchemaDataType(dt)),
        (None, Some(s)) => Some(Schema::SchemaString(s)),
        (None, None) => None,
    }
}

/// The details an output sends: table details when it has them, else sink
/// details when it has them, else none.
pub open spec fn chosen_details(spec: OutputSpec) -> Option<OutputDetails> {
    match spec.table_details {
        Some(t) => Some(OutputDetails::TableDetails {
            table_properties: t.table_properties,
            partition_cols: t.partition_cols,
            clustering_columns: t.clustering_columns,
            format: t.format,
            schema: chosen_schema(t),
        }),
        None => match spec.sink_details {
            Some(s) => Some(OutputDetails::SinkDetails { options: s.options, format: s.format }),
            None => None,
        },
    }
}

/// The `DefineOutput` command that registers `spec` in the graph
/// `dataflow_graph_id`.
pub fn define_output(dataflow_graph_id: &str, spec: OutputSpec) -> (cmd: DefineOutput)
    ensures
        cmd.dataflow_graph_id matches Some(g) && g@ == dataflow_graph_id@,
        cmd.output_name == Some(spec.name),
        cmd.output_type == Some(spec.output_type),
        cmd.comment == spec.comment,
        cmd.source_code_location == spec.source_code_location,
        cmd.details == chosen_details(spec),
{
    let details = match spec.table_details {
        Some(t) => {
            let schema = match (t.schema_data_type, t.schema_string) {
                (Some(dt), _) => Some(Schema::SchemaDataType(dt)),
                (None, Some(s)) => Some(Schema::SchemaString(s)),
                (None, None) => None,
            };
            Some(OutputDetails::TableDetails {
                table_properties: t.table_properties,
                partition_cols: t.partition_cols,
                clustering_columns: t.clustering_columns,
                format: t.format,
                schema,
            })
        },
        None => match spec.sink_details {
            Some(s) => Some(OutputDetails::SinkDetails { options: s.options, format: s.format }),
            None => None,
        },
    };
    DefineOutput {
        dataflow_graph_id: Some(owned(dataflow_graph_id)),
        output_name: Some(spec.name),
        output_type: Some(spec.output_type),
        comment: spec.comment,
        source_code_location: spec.source_code_location,
        details,
    }
}

/// `PipelineCommand.CreateDataflowGraph`.
#[derive(Debug)]
pub struct CreateDataflowGraph {
    pub default_catalog: Option<String>,
    pub default_database: Option<String>,
    pub sql_conf: StringMap,
}

/// The command that creates a dataflow graph with these defaults.
pub fn create_dataflow_graph(default_catalog: Option<String>, default_database: Option<String>, sql_conf: StringMap) -> (cmd: CreateDataflowGraph)
    ensures
        cmd == (CreateDataflowGraph { default_catalog, default_database, sql_conf }),
{
    CreateDataflowGraph { default_catalog, default_database, sql_conf }
}

/// `PipelineCommand.DefineFlow` with a relation body.
#[derive(Debug)]
pub struct DefineFlow {
    pub dataflow_graph_id: Option<String>,
    pub flow_name: Option<String>,
    pub target_dataset_name: Option<String>,
    pub sql_conf: StringMap,
    pub source_code_location: Option<SourceCodeLocation>,
    pub relation: Relation,
}

/// The command that defines the flow `flow_name` into `target_dataset_name`
/// from the query of `relation_df`, whose plan nodes are numbered from
/// `counter`.
pub fn define_flow(
    dataflow_graph_id: &str,
    flow_name: &str,
    target_dataset_name: &str,
    relation_df: &DataFrame,
    sql_conf: StringMap,
    source_code_location: Option<SourceCodeLocation>,
    counter: &mut PlanIdCounter,
) -> (cmd: DefineFlow)
    requires
        old(counter).next + count_rel(plan_rel(*relation_df.plan)) <= i64::MAX,
    ensures
        assign_rel(plan_rel(*relation_df.plan), old(counter).next as int) == (cmd.relation@, final(counter).next as int),
        cmd.dataflow_graph_id matches Some(g) && g@ == dataflow_graph_id@,
        cmd.flow_name matches Some(f) && f@ == flow_name@,
        cmd.target_dataset_name matches Some(t) && t@ == target_dataset_name@,
        cmd.sql_conf == sql_conf,
        cmd.source_code_location == source_code_location,
{
    let relation = relation_df.build_relation(counter);
    DefineFlow {
        dataflow_graph_id: Some(owned(dataflow_graph_id)),
        flow_name: Some(owned(flow_name)),
        target_dataset_name: Some(owned(target_dataset_name)),
        sql_conf,
        source_code_location,
        relation,
    }
}

/// `PipelineCommand.DefineSqlGraphElements`.
#[derive(Debug)]
pub struct DefineSqlGraphElements {
    pub dataflow_graph_id: Option<String>,
    pub sql_file_path: Option<String>,
    pub sql_text: Option<String>,
}

/// The command that registers the SQL definitions `sql_text` read from
/// `sql_file_path`.
pub fn define_sql_graph_elements(dataflow_graph_id: &str, sql_text: &str, sql_file_path: &str) -> (cmd: DefineSqlGraphElements)
    ensures
        cmd.dataflow_graph_id matches Some(g) && g@ == dataflow_graph_id@,
        cmd.sql_file_path matches Some(p) && p@ == sql_file_path@,
        cmd.sql_text matches Some(t) && t@ == sql_text@,
{
    DefineSqlGraphElements {
        dataflow_graph_id: Some(owned(dataflow_graph_id)),
        sql_file_path: Some(owned(sql_file_path)),
        sql_text: Some(owned(sql_text)),
    }
}

/// `PipelineCommand.StartRun`.
#[derive(Debug)]
pub struct StartRun {
    pub dataflow_graph_id: Option<String>,
    pub full_refresh_selection: Vec<String>,
    pub full_refresh_all: Option<bool>,
    pub refresh_selection: Vec<String>,
    pub dry: Option<bool>,
    pub storage: Option<String>,
}

/// The command that starts (or, when `dry`, validates) a run of the graph.
pub fn start_run(
    dataflow_graph_id: &str,
    full_refresh_selection: Vec<String>,
    full_refresh_all: bool,
    refresh_selection: Vec<String>,
    dry: bool,
    storage: Option<String>,
) -> (cmd: StartRun)
    ensures
        cmd.dataflow_graph_id matches Some(g) && g@ == dataflow_graph_id@,
        cmd.full_refresh_selection == full_refresh_selection,
        cmd.full_refresh_all == Some(full_refresh_all),
        cmd.refresh_selection == refresh_selection,
        cmd.dry == Some(dry),
        cmd.storage == storage,
{
    StartRun {
        dataflow_graph_id: Some(owned(dataflow_graph_id)),
        full_refresh_selection,
        full_refresh_all: Some(full_refresh_all),
        refresh_selection,
        dry: Some(dry),
        storage,
    }
}

} // verus!
