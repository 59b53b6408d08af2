//! The debug text of logical plans (`Range { start: 0, ... }`), in the form
//! of `debug_text`: two plans are judged to have the same semantics when
//! their texts are equal.

use vstd::prelude::*;
use vstd::string::StringExecFns;
use crate::catalog::{CatalogOp, StorageLevel};
use crate::column::Column;
use crate::debug_text::{bool_text, bytes_debug, data_type_debug, expr_debug, float_debug, list_debug,
    opt_debug, push_bool, push_bytes, push_data_type, push_expr, push_float_debug, push_list, push_quoted,
    push_value, quoted, value_debug};
use crate::expression::Expression;
use crate::ml::{MlOperator, OperatorType, Params, ml_params_view};
use crate::options::StringMap;
use crate::plan::{AggregateGroupType, JoinType, LogicalPlan, ReplaceValue, SetOpType};
use crate::profiler::{format_literal, literal_display};
use crate::proto::LiteralView;
use crate::readwriter::ReadType;
use crate::row::Value;
use crate::text::{int_text, push_int_text, strings_view};
use crate::types::{DataType, Float64};

verus! {

/// The texts of a map's entries: `("k", "v")`.
pub open spec fn string_pair_debugs(s: Seq<(Seq<char>, Seq<char>)>) -> Seq<Seq<char>> {
    s.map_values(|p: (Seq<char>, Seq<char>)| "("@ + quoted(p.0) + ", "@ + quoted(p.1) + ")"@)
}

/// The debug text of a string map: its entries in order.
pub open spec fn string_map_debug(m: StringMap) -> Seq<char> {
    "StringMap { entries: "@ + list_debug(string_pair_debugs(m.entries_view())) + " }"@
}

/// Appends the debug text of a string map.
pub fn push_string_map(out: &mut String, m: &StringMap)
    ensures
        final(out)@ == old(out)@ + string_map_debug(*m),
{
    let pairs = m.to_pairs();
    let ghost pv = crate::options::pairs_view(pairs@);
    let mut parts: Vec<String> = Vec::new();
    let mut i: usize = 0;
    while i < pairs.len()
        invariant
            i <= pairs@.len(),
            pv == crate::options::pairs_view(pairs@),
            parts@.len() == i,
            forall|j: int| 0 <= j < i ==> #[trigger] parts@[j]@ == "("@ + quoted(pv[j].0) + ", "@ + quoted(pv[j].1) + ")"@,
        decreases pairs@.len() - i,
    {
        let mut s = String::new();
        s.append("(");
        push_quoted(&mut s, pairs[i].0.as_str());
        s.append(", ");
        push_quoted(&mut s, pairs[i].1.as_str());
        s.append(")");
        parts.push(s);
        i = i + 1;
    }
    assert(strings_view(parts@) =~= string_pair_debugs(m.entries_view()));
    out.append("StringMap { entries: ");
    push_list(out, &parts);
    out.append(" }");
}

/// The texts of ML parameters: `("name", literal)`.
pub open spec fn param_debugs(s: Seq<(Seq<char>, LiteralView)>) -> Seq<Seq<char>> {
    s.map_values(|p: (Seq<char>, LiteralView)| "("@ + quoted(p.0) + ", "@ + literal_display(p.1) + ")"@)
}

/// The debug text of ML parameters: each name with its literal's text.
pub open spec fn params_debug(p: Params) -> Seq<char> {
    "Params { params: "@ + list_debug(param_debugs(p.entries())) + " }"@
}

/// Appends the debug text of ML parameters.
pub fn push_params(out: &mut String, p: &Params)
    ensures
        final(out)@ == old(out)@ + params_debug(*p),
{
    let m = p.to_proto();
    let ghost es = ml_params_view(m);
    let mut parts: Vec<String> = Vec::new();
    let mut i: usize = 0;
    while i < m.params.len()
        invariant
            i <= m.params@.len(),
            es == ml_params_view(m),
            parts@.len() == i,
            forall|j: int| 0 <= j < i ==> #[trigger] parts@[j]@ == "("@ + quoted(es[j].0) + ", "@ + literal_display(es[j].1) + ")"@,
        decreases m.params@.len() - i,
    {
        let mut s = String::new();
        s.append("(");
        push_quoted(&mut s, m.params[i].0.as_str());
        s.append(", ");
        let t = format_literal(&m.params[i].1);
        s.append(t.as_str());
        s.append(")");
        parts.push(s);
        i = i + 1;
    }
    assert(strings_view(parts@) =~= param_debugs(p.entries()));
    out.append("Params { params: ");
    push_list(out, &parts);
    out.append(" }");
}

/// The debug text of a `AggregateGroupType`.
pub open spec fn aggregate_group_type_debug(p: AggregateGroupType) -> Seq<char>
{
    match p {
        AggregateGroupType::GroupBy => "GroupBy"@,
        AggregateGroupType::Rollup => "Rollup"@,
        AggregateGroupType::Cube => "Cube"@,
        AggregateGroupType::Pivot => "Pivot"@,
        AggregateGroupType::GroupingSets => "GroupingSets"@,
    }
}

/// The debug text of a `JoinType`.
pub open spec fn join_type_debug(p: JoinType) -> Seq<char>
{
    match p {
        JoinType::Inner => "Inner"@,
        JoinType::LeftOuter => "LeftOuter"@,
        JoinType::RightOuter => "RightOuter"@,
        JoinType::FullOuter => "FullOuter"@,
        JoinType::LeftSemi => "LeftSemi"@,
        JoinType::LeftAnti => "LeftAnti"@,
        JoinType::Cross => "Cross"@,
    }
}

/// The debug text of a `SetOpType`.
pub open spec fn set_op_type_debug(p: SetOpType) -> Seq<char>
{
    match p {
        SetOpType::Union => "Union"@,
        SetOpType::Intersect => "Intersect"@,
        SetOpType::Except => "Except"@,
    }
}

/// The debug text of a `OperatorType`.
pub open spec fn operator_type_debug(p: OperatorType) -> Seq<char>
{
    match p {
        OperatorType::Estimator => "Estimator"@,
        OperatorType::Transformer => "Transformer"@,
        OperatorType::Evaluator => "Evaluator"@,
        OperatorType::Model => "Model"@,
    }
}

/// The debug text of a `ReplaceValue`.
pub open spec fn replace_value_debug(p: ReplaceValue) -> Seq<char>
{
    match p {
        ReplaceValue::Double(x0) => "Double("@ + float_debug(x0.text@) + ")"@,
        ReplaceValue::Text(x0) => "Text("@ + quoted(x0@) + ")"@,
    }
}

/// The debug text of a `ReadType`.
pub open spec fn read_type_debug(p: ReadType) -> Seq<char>
{
    match p {
        ReadType::DataSource { format, schema, options, paths, predicates, source_name } => "DataSource { format: "@ + opt_debug(match format { Some(y) => Some(quoted(y@)), None => None }) + ", schema: "@ + opt_debug(match schema { Some(y) => Some(quoted(y@)), None => None }) + ", options: "@ + string_map_debug(options) + ", paths: "@ + list_debug(debugs_string(paths@)) + ", predicates: "@ + list_debug(debugs_string(predicates@)) + ", source_name: "@ + opt_debug(match source_name { Some(y) => Some(quoted(y@)), None => None }) + " }"@,
        ReadType::NamedTable { table_name, options } => "NamedTable { table_name: "@ + quoted(table_name@) + ", options: "@ + string_map_debug(options) + " }"@,
    }
}

/// The debug text of a `CatalogOp`.
pub open spec fn catalog_op_debug(p: CatalogOp) -> Seq<char>
{
    match p {
        CatalogOp::CurrentCatalog => "CurrentCatalog"@,
        CatalogOp::SetCurrentCatalog { catalog_name } => "SetCurrentCatalog { catalog_name: "@ + quoted(catalog_name@) + " }"@,
        CatalogOp::ListCatalogs { pattern } => "ListCatalogs { pattern: "@ + opt_debug(match pattern { Some(y) => Some(quoted(y@)), None => None }) + " }"@,
        CatalogOp::CurrentDatabase => "CurrentDatabase"@,
        CatalogOp::SetCurrentDatabase { db_name } => "SetCurrentDatabase { db_name: "@ + quoted(db_name@) + " }"@,
        CatalogOp::ListDatabases { pattern } => "ListDatabases { pattern: "@ + opt_debug(match pattern { Some(y) => Some(quoted(y@)), None => None }) + " }"@,
        CatalogOp::GetDatabase { db_name } => "GetDatabase { db_name: "@ + quoted(db_name@) + " }"@,
        CatalogOp::DatabaseExists { db_name } => "DatabaseExists { db_name: "@ + quoted(db_name@) + " }"@,
        CatalogOp::ListTables { db_name, pattern } => "ListTables { db_name: "@ + opt_debug(match db_name { Some(y) => Some(quoted(y@)), None => None }) + ", pattern: "@ + opt_debug(match pattern { Some(y) => Some(quoted(y@)), None => None }) + " }"@,
        CatalogOp::GetTable { table_name, db_name } => "GetTable { table_name: "@ + quoted(table_name@) + ", db_name: "@ + opt_debug(match db_name { Some(y) => Some(quoted(y@)), None => None }) + " }"@,
        CatalogOp::TableExists { table_name, db_name } => "TableExists { table_name: "@ + quoted(table_name@) + ", db_name: "@ + opt_debug(match db_name { Some(y) => Some(quoted(y@)), None => None }) + " }"@,
        CatalogOp::ListColumns { table_name, db_name } => "ListColumns { table_name: "@ + quoted(table_name@) + ", db_name: "@ + opt_debug(match db_name { Some(y) => Some(quoted(y@)), None => None }) + " }"@,
        CatalogOp::ListFunctions { db_name, pattern } => "ListFunctions { db_name: "@ + opt_debug(match db_name { Some(y) => Some(quoted(y@)), None => None }) + ", pattern: "@ + opt_debug(match pattern { Some(y) => Some(quoted(y@)), None => None }) + " }"@,
        CatalogOp::GetFunction { function_name, db_name } => "GetFunction { function_name: "@ + quoted(function_name@) + ", db_name: "@ + opt_debug(match db_name { Some(y) => Some(quoted(y@)), None => None }) + " }"@,
        CatalogOp::FunctionExists { function_name, db_name } => "FunctionExists { function_name: "@ + quoted(function_name@) + ", db_name: "@ + opt_debug(match db_name { Some(y) => Some(quoted(y@)), None => None }) + " }"@,
        CatalogOp::CreateExternalTable { table_name, path, source } => "CreateExternalTable { table_name: "@ + quoted(table_name@) + ", path: "@ + opt_debug(match path { Some(y) => Some(quoted(y@)), None => None }) + ", source: "@ + opt_debug(match source { Some(y) => Some(quoted(y@)), None => None }) + " }"@,
        CatalogOp::CreateTable { table_name, path, source, description } => "CreateTable { table_name: "@ + quoted(table_name@) + ", path: "@ + opt_debug(match path { Some(y) => Some(quoted(y@)), None => None }) + ", source: "@ + opt_debug(match source { Some(y) => Some(quoted(y@)), None => None }) + ", description: "@ + opt_debug(match description { Some(y) => Some(quoted(y@)), None => None }) + " }"@,
        CatalogOp::DropTempView { view_name } => "DropTempView { view_name: "@ + quoted(view_name@) + " }"@,
        CatalogOp::DropGlobalTempView { view_name } => "DropGlobalTempView { view_name: "@ + quoted(view_name@) + " }"@,
        CatalogOp::CacheTable { table_name, storage_level } => "CacheTable { table_name: "@ + quoted(table_name@) + ", storage_level: "@ + opt_debug(match storage_level { Some(y) => Some(storage_level_debug(y)), None => None }) + " }"@,
        CatalogOp::UncacheTable { table_name } => "UncacheTable { table_name: "@ + quoted(table_name@) + " }"@,
        CatalogOp::IsCached { table_name } => "IsCached { table_name: "@ + quoted(table_name@) + " }"@,
        CatalogOp::ClearCache => "ClearCache"@,
        CatalogOp::RefreshTable { table_name } => "RefreshTable { table_name: "@ + quoted(table_name@) + " }"@,
        CatalogOp::RefreshByPath { path } => "RefreshByPath { path: "@ + quoted(path@) + " }"@,
        CatalogOp::RecoverPartitions { table_name } => "RecoverPartitions { table_name: "@ + quoted(table_name@) + " }"@,
        CatalogOp::CreateDatabase { db_name, if_not_exists, properties } => "CreateDatabase { db_name: "@ + quoted(db_name@) + ", if_not_exists: "@ + bool_text(if_not_exists) + ", properties: "@ + string_map_debug(properties) + " }"@,
        CatalogOp::DropDatabase { db_name, if_exists, cascade } => "DropDatabase { db_name: "@ + quoted(db_name@) + ", if_exists: "@ + bool_text(if_exists) + ", cascade: "@ + bool_text(cascade) + " }"@,
        CatalogOp::DropTable { table_name, if_exists, purge } => "DropTable { table_name: "@ + quoted(table_name@) + ", if_exists: "@ + bool_text(if_exists) + ", purge: "@ + bool_text(purge) + " }"@,
        CatalogOp::DropView { view_name, if_exists } => "DropView { view_name: "@ + quoted(view_name@) + ", if_exists: "@ + bool_text(if_exists) + " }"@,
        CatalogOp::TruncateTable { table_name } => "TruncateTable { table_name: "@ + quoted(table_name@) + " }"@,
        CatalogOp::AnalyzeTable { table_name, no_scan } => "AnalyzeTable { table_name: "@ + quoted(table_name@) + ", no_scan: "@ + bool_text(no_scan) + " }"@,
        CatalogOp::GetCreateTableString { table_name, as_serde } => "GetCreateTableString { table_name: "@ + quoted(table_name@) + ", as_serde: "@ + bool_text(as_serde) + " }"@,
        CatalogOp::GetTableProperties { table_name } => "GetTableProperties { table_name: "@ + quoted(table_name@) + " }"@,
        CatalogOp::ListPartitions { table_name } => "ListPartitions { table_name: "@ + quoted(table_name@) + " }"@,
        CatalogOp::ListViews { db_name, pattern } => "ListViews { db_name: "@ + opt_debug(match db_name { Some(y) => Some(quoted(y@)), None => None }) + ", pattern: "@ + opt_debug(match pattern { Some(y) => Some(quoted(y@)), None => None }) + " }"@,
    }
}

/// The debug text of a `Column`.
pub open spec fn column_debug(p: Column) -> Seq<char> {
    "Column { expr: "@ + expr_debug(p.expr) + " }"@
}

/// The debug text of a `StorageLevel`.
pub open spec fn storage_level_debug(p: StorageLevel) -> Seq<char> {
    "StorageLevel { use_disk: "@ + bool_text(p.use_disk) + ", use_memory: "@ + bool_text(p.use_memory) + ", use_off_heap: "@ + bool_text(p.use_off_heap) + ", deserialized: "@ + bool_text(p.deserialized) + ", replication: "@ + int_text(p.replication as int) + " }"@
}

/// The debug text of a `MlOperator`.
pub open spec fn ml_operator_debug(p: MlOperator) -> Seq<char> {
    "MlOperator { name: "@ + quoted(p.name@) + ", uid: "@ + quoted(p.uid@) + ", op_type: "@ + operator_type_debug(p.op_type) + " }"@
}

/// The debug text of a `LogicalPlan`.
pub open spec fn plan_debug(p: LogicalPlan) -> Seq<char>
    decreases p,
{
    match p {
        LogicalPlan::Range { start, end, step, num_partitions } => "Range { start: "@ + int_text(start as int) + ", end: "@ + int_text(end as int) + ", step: "@ + int_text(step as int) + ", num_partitions: "@ + opt_debug(match num_partitions { Some(y) => Some(int_text(y as int)), None => None }) + " }"@,
        LogicalPlan::Sql { query } => "Sql { query: "@ + quoted(query@) + " }"@,
        LogicalPlan::Project { input, columns } => "Project { input: "@ + plan_debug(*input) + ", columns: "@ + list_debug(debugs_column(columns@)) + " }"@,
        LogicalPlan::Filter { input, condition } => "Filter { input: "@ + plan_debug(*input) + ", condition: "@ + column_debug(condition) + " }"@,
        LogicalPlan::Aggregate { input, group_type, grouping_expressions, aggregate_expressions, pivot_col, pivot_values, grouping_sets } => "Aggregate { input: "@ + plan_debug(*input) + ", group_type: "@ + aggregate_group_type_debug(group_type) + ", grouping_expressions: "@ + list_debug(debugs_expression(grouping_expressions@)) + ", aggregate_expressions: "@ + list_debug(debugs_expression(aggregate_expressions@)) + ", pivot_col: "@ + opt_debug(match pivot_col { Some(y) => Some(expr_debug(y)), None => None }) + ", pivot_values: "@ + list_debug(debugs_expression(pivot_values@)) + ", grouping_sets: "@ + list_debug(debugs_vec_expression(grouping_sets@)) + " }"@,
        LogicalPlan::Join { left, right, join_type, on, using_columns } => "Join { left: "@ + plan_debug(*left) + ", right: "@ + plan_debug(*right) + ", join_type: "@ + join_type_debug(join_type) + ", on: "@ + opt_debug(match on { Some(y) => Some(column_debug(y)), None => None }) + ", using_columns: "@ + list_debug(debugs_string(using_columns@)) + " }"@,
        LogicalPlan::LateralJoin { left, right, join_type, on } => "LateralJoin { left: "@ + plan_debug(*left) + ", right: "@ + plan_debug(*right) + ", join_type: "@ + join_type_debug(join_type) + ", on: "@ + opt_debug(match on { Some(y) => Some(column_debug(y)), None => None }) + " }"@,
        LogicalPlan::SetOperation { left, right, set_op_type, is_all, by_name, allow_missing_columns } => "SetOperation { left: "@ + plan_debug(*left) + ", right: "@ + plan_debug(*right) + ", set_op_type: "@ + set_op_type_debug(set_op_type) + ", is_all: "@ + bool_text(is_all) + ", by_name: "@ + bool_text(by_name) + ", allow_missing_columns: "@ + bool_text(allow_missing_columns) + " }"@,
        LogicalPlan::Limit { input, limit } => "Limit { input: "@ + plan_debug(*input) + ", limit: "@ + int_text(limit as int) + " }"@,
        LogicalPlan::Offset { input, offset } => "Offset { input: "@ + plan_debug(*input) + ", offset: "@ + int_text(offset as int) + " }"@,
        LogicalPlan::Tail { input, limit } => "Tail { input: "@ + plan_debug(*input) + ", limit: "@ + int_text(limit as int) + " }"@,
        LogicalPlan::Deduplicate { input, all_columns_as_keys, column_names, within_watermark } => "Deduplicate { input: "@ + plan_debug(*input) + ", all_columns_as_keys: "@ + bool_text(all_columns_as_keys) + ", column_names: "@ + list_debug(debugs_string(column_names@)) + ", within_watermark: "@ + bool_text(within_watermark) + " }"@,
        LogicalPlan::Sort { input, order, is_global } => "Sort { input: "@ + plan_debug(*input) + ", order: "@ + list_debug(debugs_expression(order@)) + ", is_global: "@ + bool_text(is_global) + " }"@,
        LogicalPlan::Sample { input, lower_bound, upper_bound, with_replacement, seed } => "Sample { input: "@ + plan_debug(*input) + ", lower_bound: "@ + float_debug(lower_bound.text@) + ", upper_bound: "@ + float_debug(upper_bound.text@) + ", with_replacement: "@ + bool_text(with_replacement) + ", seed: "@ + opt_debug(match seed { Some(y) => Some(int_text(y as int)), None => None }) + " }"@,
        LogicalPlan::Repartition { input, num_partitions, shuffle } => "Repartition { input: "@ + plan_debug(*input) + ", num_partitions: "@ + int_text(num_partitions as int) + ", shuffle: "@ + bool_text(shuffle) + " }"@,
        LogicalPlan::RepartitionByExpression { input, num_partitions, expressions } => "RepartitionByExpression { input: "@ + plan_debug(*input) + ", num_partitions: "@ + int_text(num_partitions as int) + ", expressions: "@ + list_debug(debugs_expression(expressions@)) + " }"@,
        LogicalPlan::WithColumns { input, column_names, columns } => "WithColumns { input: "@ + plan_debug(*input) + ", column_names: "@ + list_debug(debugs_string(column_names@)) + ", columns: "@ + list_debug(debugs_column(columns@)) + " }"@,
        LogicalPlan::WithColumnsRenamed { input, renames } => "WithColumnsRenamed { input: "@ + plan_debug(*input) + ", renames: "@ + string_map_debug(renames) + " }"@,
        LogicalPlan::Drop { input, columns } => "Drop { input: "@ + plan_debug(*input) + ", columns: "@ + list_debug(debugs_string(columns@)) + " }"@,
        LogicalPlan::ToDF { input, column_names } => "ToDF { input: "@ + plan_debug(*input) + ", column_names: "@ + list_debug(debugs_string(column_names@)) + " }"@,
        LogicalPlan::ToSchema { input, schema } => "ToSchema { input: "@ + plan_debug(*input) + ", schema: "@ + data_type_debug(schema) + " }"@,
        LogicalPlan::Hint { input, name, parameters } => "Hint { input: "@ + plan_debug(*input) + ", name: "@ + quoted(name@) + ", parameters: "@ + list_debug(debugs_string(parameters@)) + " }"@,
        LogicalPlan::Unpivot { input, ids, values, variable_column_name, value_column_name } => "Unpivot { input: "@ + plan_debug(*input) + ", ids: "@ + list_debug(debugs_column(ids@)) + ", values: "@ + opt_debug(match values { Some(y) => Some(list_debug(debugs_column(y@))), None => None }) + ", variable_column_name: "@ + quoted(variable_column_name@) + ", value_column_name: "@ + quoted(value_column_name@) + " }"@,
        LogicalPlan::NAFill { input, fill_value, columns } => "NAFill { input: "@ + plan_debug(*input) + ", fill_value: "@ + value_debug(fill_value) + ", columns: "@ + list_debug(debugs_string(columns@)) + " }"@,
        LogicalPlan::NADrop { input, how, min_non_null, columns } => "NADrop { input: "@ + plan_debug(*input) + ", how: "@ + quoted(how@) + ", min_non_null: "@ + opt_debug(match min_non_null { Some(y) => Some(int_text(y as int)), None => None }) + ", columns: "@ + list_debug(debugs_string(columns@)) + " }"@,
        LogicalPlan::NAReplace { input, replacements, columns } => "NAReplace { input: "@ + plan_debug(*input) + ", replacements: "@ + list_debug(debugs_replacevalue_replacevalue(replacements@)) + ", columns: "@ + list_debug(debugs_string(columns@)) + " }"@,
        LogicalPlan::Describe { input, columns } => "Describe { input: "@ + plan_debug(*input) + ", columns: "@ + list_debug(debugs_string(columns@)) + " }"@,
        LogicalPlan::Summary { input, percentiles } => "Summary { input: "@ + plan_debug(*input) + ", percentiles: "@ + list_debug(debugs_string(percentiles@)) + " }"@,
        LogicalPlan::ColRegex { input, col_name } => "ColRegex { input: "@ + plan_debug(*input) + ", col_name: "@ + quoted(col_name@) + " }"@,
        LogicalPlan::SubqueryAlias { input, alias } => "SubqueryAlias { input: "@ + plan_debug(*input) + ", alias: "@ + quoted(alias@) + " }"@,
        LogicalPlan::LocalRelation { schema, data } => "LocalRelation { schema: "@ + data_type_debug(schema) + ", data: "@ + opt_debug(match data { Some(y) => Some(bytes_debug(y@)), None => None }) + " }"@,
        LogicalPlan::CachedRemoteRelation { relation_id } => "CachedRemoteRelation { relation_id: "@ + quoted(relation_id@) + " }"@,
        LogicalPlan::Read { read_type, is_streaming } => "Read { read_type: "@ + read_type_debug(read_type) + ", is_streaming: "@ + bool_text(is_streaming) + " }"@,
        LogicalPlan::WithWatermark { input, time_column, delay_threshold } => "WithWatermark { input: "@ + plan_debug(*input) + ", time_column: "@ + quoted(time_column@) + ", delay_threshold: "@ + quoted(delay_threshold@) + " }"@,
        LogicalPlan::RepartitionByRange { input, num_partitions, partition_exprs } => "RepartitionByRange { input: "@ + plan_debug(*input) + ", num_partitions: "@ + opt_debug(match num_partitions { Some(y) => Some(int_text(y as int)), None => None }) + ", partition_exprs: "@ + list_debug(debugs_expression(partition_exprs@)) + " }"@,
        LogicalPlan::StatCrosstab { input, col1, col2 } => "StatCrosstab { input: "@ + plan_debug(*input) + ", col1: "@ + quoted(col1@) + ", col2: "@ + quoted(col2@) + " }"@,
        LogicalPlan::StatFreqItems { input, columns, support } => "StatFreqItems { input: "@ + plan_debug(*input) + ", columns: "@ + list_debug(debugs_string(columns@)) + ", support: "@ + float_debug(support.text@) + " }"@,
        LogicalPlan::StatApproxQuantile { input, columns, probabilities, relative_error } => "StatApproxQuantile { input: "@ + plan_debug(*input) + ", columns: "@ + list_debug(debugs_string(columns@)) + ", probabilities: "@ + list_debug(debugs_float64(probabilities@)) + ", relative_error: "@ + float_debug(relative_error.text@) + " }"@,
        LogicalPlan::StatCorr { input, col1, col2 } => "StatCorr { input: "@ + plan_debug(*input) + ", col1: "@ + quoted(col1@) + ", col2: "@ + quoted(col2@) + " }"@,
        LogicalPlan::StatCov { input, col1, col2 } => "StatCov { input: "@ + plan_debug(*input) + ", col1: "@ + quoted(col1@) + ", col2: "@ + quoted(col2@) + " }"@,
        LogicalPlan::StatSampleBy { input, col, fractions, seed } => "StatSampleBy { input: "@ + plan_debug(*input) + ", col: "@ + quoted(col@) + ", fractions: "@ + list_debug(debugs_expression_float64(fractions@)) + ", seed: "@ + opt_debug(match seed { Some(y) => Some(int_text(y as int)), None => None }) + " }"@,
        LogicalPlan::Observe { input, name, exprs } => "Observe { input: "@ + plan_debug(*input) + ", name: "@ + quoted(name@) + ", exprs: "@ + list_debug(debugs_expression(exprs@)) + " }"@,
        LogicalPlan::UnresolvedTableValuedFunction { name, arguments } => "UnresolvedTableValuedFunction { name: "@ + quoted(name@) + ", arguments: "@ + list_debug(debugs_expression(arguments@)) + " }"@,
        LogicalPlan::Zip { left, right } => "Zip { left: "@ + plan_debug(*left) + ", right: "@ + plan_debug(*right) + " }"@,
        LogicalPlan::NearestByJoin { left, right, ranking_expression, num_results, join_type, mode, direction } => "NearestByJoin { left: "@ + plan_debug(*left) + ", right: "@ + plan_debug(*right) + ", ranking_expression: "@ + expr_debug(ranking_expression) + ", num_results: "@ + int_text(num_results as int) + ", join_type: "@ + quoted(join_type@) + ", mode: "@ + quoted(mode@) + ", direction: "@ + quoted(direction@) + " }"@,
        LogicalPlan::CommonInlineUdtf { function_name, deterministic, arguments, return_type, eval_type, command, python_ver } => "CommonInlineUdtf { function_name: "@ + quoted(function_name@) + ", deterministic: "@ + bool_text(deterministic) + ", arguments: "@ + list_debug(debugs_expression(arguments@)) + ", return_type: "@ + opt_debug(match return_type { Some(y) => Some(data_type_debug(y)), None => None }) + ", eval_type: "@ + int_text(eval_type as int) + ", command: "@ + bytes_debug(command@) + ", python_ver: "@ + quoted(python_ver@) + " }"@,
        LogicalPlan::Catalog { catalog } => "Catalog { catalog: "@ + catalog_op_debug(catalog) + " }"@,
        LogicalPlan::MlTransform { transformer, input, params } => "MlTransform { transformer: "@ + ml_operator_debug(transformer) + ", input: "@ + plan_debug(*input) + ", params: "@ + params_debug(params) + " }"@,
    }
}

/// The debug texts of a list.
pub open spec fn debugs_string(s: Seq<String>) -> Seq<Seq<char>> {
    s.map_values(|e: String| quoted(e@))
}

fn parts_string(v: &Vec<String>) -> (parts: Vec<String>)
    ensures
        strings_view(parts@) == debugs_string(v@),
{
    let mut parts: Vec<String> = Vec::new();
    let mut i: usize = 0;
    while i < v.len()
        invariant
            i <= v@.len(),
            parts@.len() == i,
            forall|j: int| 0 <= j < i ==> #[trigger] parts@[j]@ == (quoted(v@[j]@)),
        decreases v@.len() - i,
    {
        let mut s = String::new();
        {
            let out = &mut s;
            push_quoted(out, (&v[i]).as_str());
        }
        assert(s@ =~= quoted(v@[i as int]@));
        parts.push(s);
        i = i + 1;
    }
    assert(strings_view(parts@) =~= debugs_string(v@));
    parts
}

/// The debug texts of a list.
pub open spec fn debugs_column(s: Seq<Column>) -> Seq<Seq<char>> {
    s.map_values(|e: Column| column_debug(e))
}

fn parts_column(v: &Vec<Column>) -> (parts: Vec<String>)
    ensures
        strings_view(parts@) == debugs_column(v@),
{
    let mut parts: Vec<String> = Vec::new();
    let mut i: usize = 0;
    while i < v.len()
        invariant
            i <= v@.len(),
            parts@.len() == i,
            forall|j: int| 0 <= j < i ==> #[trigger] parts@[j]@ == (column_debug(v@[j])),
        decreases v@.len() - i,
    {
        let mut s = String::new();
        {
            let out = &mut s;
            push_column(out, &v[i]);
        }
        assert(s@ =~= column_debug(v@[i as int]));
        parts.push(s);
        i = i + 1;
    }
    assert(strings_view(parts@) =~= debugs_column(v@));
    parts
}

/// The debug texts of a list.
pub open spec fn debugs_expression(s: Seq<Expression>) -> Seq<Seq<char>> {
    s.map_values(|e: Expression| expr_debug(e))
}

fn parts_expression(v: &Vec<Expression>) -> (parts: Vec<String>)
    ensures
        strings_view(parts@) == debugs_expression(v@),
{
    let mut parts: Vec<String> = Vec::new();
    let mut i: usize = 0;
    while i < v.len()
        invariant
            i <= v@.len(),
            parts@.len() == i,
            forall|j: int| 0 <= j < i ==> #[trigger] parts@[j]@ == (expr_debug(v@[j])),
        decreases v@.len() - i,
    {
        let mut s = String::new();
        {
            let out = &mut s;
            push_expr(out, &v[i]);
        }
        assert(s@ =~= expr_debug(v@[i as int]));
        parts.push(s);
        i = i + 1;
    }
    assert(strings_view(parts@) =~= debugs_expression(v@));
    parts
}

/// The debug texts of a list.
pub open spec fn debugs_vec_expression(s: Seq<Vec<Expression>>) -> Seq<Seq<char>> {
    s.map_values(|e: Vec<Expression>| list_debug(debugs_expression(e@)))
}

fn parts_vec_expression(v: &Vec<Vec<Expression>>) -> (parts: Vec<String>)
    ensures
        strings_view(parts@) == debugs_vec_expression(v@),
{
    let mut parts: Vec<String> = Vec::new();
    let mut i: usize = 0;
    while i < v.len()
        invariant
            i <= v@.len(),
            parts@.len() == i,
            forall|j: int| 0 <= j < i ==> #[trigger] parts@[j]@ == (list_debug(debugs_expression(v@[j]@))),
        decreases v@.len() - i,
    {
        let mut s = String::new();
        {
            let out = &mut s;
            {
                let parts = parts_expression(&v[i]);
                push_list(out, &parts);
            }
        }
        assert(s@ =~= list_debug(debugs_expression(v@[i as int]@)));
        parts.push(s);
        i = i + 1;
    }
    assert(strings_view(parts@) =~= debugs_vec_expression(v@));
    parts
}

/// The debug texts of a list.
pub open spec fn debugs_replacevalue_replacevalue(s: Seq<(ReplaceValue, ReplaceValue)>) -> Seq<Seq<char>> {
    s.map_values(|e: (ReplaceValue, ReplaceValue)| "("@ + replace_value_debug(e.0) + ", "@ + replace_value_debug(e.1) + ")"@)
}

fn parts_replacevalue_replacevalue(v: &Vec<(ReplaceValue, ReplaceValue)>) -> (parts: Vec<String>)
    ensures
        strings_view(parts@) == debugs_replacevalue_replacevalue(v@),
{
    let mut parts: Vec<String> = Vec::new();
    let mut i: usize = 0;
    while i < v.len()
        invariant
            i <= v@.len(),
            parts@.len() == i,
            forall|j: int| 0 <= j < i ==> #[trigger] parts@[j]@ == ("("@ + replace_value_debug(v@[j].0) + ", "@ + replace_value_debug(v@[j].1) + ")"@),
        decreases v@.len() - i,
    {
        let mut s = String::new();
        {
            let out = &mut s;
            out.append("(");
            push_replace_value(out, &(&v[i]).0);
            out.append(", ");
            push_replace_value(out, &(&v[i]).1);
            out.append(")");
        }
        assert(s@ =~= "("@ + replace_value_debug(v@[i as int].0) + ", "@ + replace_value_debug(v@[i as int].1) + ")"@);
        parts.push(s);
        i = i + 1;
    }
    assert(strings_view(parts@) =~= debugs_replacevalue_replacevalue(v@));
    parts
}

/// The debug texts of a list.
pub open spec fn debugs_float64(s: Seq<Float64>) -> Seq<Seq<char>> {
    s.map_values(|e: Float64| float_debug(e.text@))
}

fn parts_float64(v: &Vec<Float64>) -> (parts: Vec<String>)
    ensures
        strings_view(parts@) == debugs_float64(v@),
{
    let mut parts: Vec<String> = Vec::new();
    let mut i: usize = 0;
    while i < v.len()
        invariant
            i <= v@.len(),
            parts@.len() == i,
            forall|j: int| 0 <= j < i ==> #[trigger] parts@[j]@ == (float_debug(v@[j].text@)),
        decreases v@.len() - i,
    {
        let mut s = String::new();
        {
            let out = &mut s;
            push_float_debug(out, &(&v[i]).text);
        }
        assert(s@ =~= float_debug(v@[i as int].text@));
        parts.push(s);
        i = i + 1;
    }
    assert(strings_view(parts@) =~= debugs_float64(v@));
    parts
}

/// The debug texts of a list.
pub open spec fn debugs_expression_float64(s: Seq<(Expression, Float64)>) -> Seq<Seq<char>> {
    s.map_values(|e: (Expression, Float64)| "("@ + expr_debug(e.0) + ", "@ + float_debug(e.1.text@) + ")"@)
}

fn parts_expression_float64(v: &Vec<(Expression, Float64)>) -> (parts: Vec<String>)
    ensures
        strings_view(parts@) == debugs_expression_float64(v@),
{
    let mut parts: Vec<String> = Vec::new();
    let mut i: usize = 0;
    while i < v.len()
        invariant
            i <= v@.len(),
            parts@.len() == i,
            forall|j: int| 0 <= j < i ==> #[trigger] parts@[j]@ == ("("@ + expr_debug(v@[j].0) + ", "@ + float_debug(v@[j].1.text@) + ")"@),
        decreases v@.len() - i,
    {
        let mut s = String::new();
        {
            let out = &mut s;
            out.append("(");
            push_expr(out, &(&v[i]).0);
            out.append(", ");
            push_float_debug(out, &(&(&v[i]).1).text);
            out.append(")");
        }
        assert(s@ =~= "("@ + expr_debug(v@[i as int].0) + ", "@ + float_debug(v@[i as int].1.text@) + ")"@);
        parts.push(s);
        i = i + 1;
    }
    assert(strings_view(parts@) =~= debugs_expression_float64(v@));
    parts
}

/// Appends the debug text of a `AggregateGroupType`.
#[verifier::rlimit(50)]
pub fn push_aggregate_group_type(out: &mut String, p: &AggregateGroupType)
    ensures
        final(out)@ == old(out)@ + aggregate_group_type_debug(*p),
{
    match p {
        AggregateGroupType::GroupBy => out.append("GroupBy"),
        AggregateGroupType::Rollup => out.append("Rollup"),
        AggregateGroupType::Cube => out.append("Cube"),
        AggregateGroupType::Pivot => out.append("Pivot"),
        AggregateGroupType::GroupingSets => out.append("GroupingSets"),
    }
}

/// Appends the debug text of a `JoinType`.
#[verifier::rlimit(50)]
pub fn push_join_type(out: &mut String, p: &JoinType)
    ensures
        final(out)@ == old(out)@ + join_type_debug(*p),
{
    match p {
        JoinType::Inner => out.append("Inner"),
        JoinType::LeftOuter => out.append("LeftOuter"),
        JoinType::RightOuter => out.append("RightOuter"),
        JoinType::FullOuter => out.append("FullOuter"),
        JoinType::LeftSemi => out.append("LeftSemi"),
        JoinType::LeftAnti => out.append("LeftAnti"),
        JoinType::Cross => out.append("Cross"),
    }
}

/// Appends the debug text of a `SetOpType`.
#[verifier::rlimit(50)]
pub fn push_set_op_type(out: &mut String, p: &SetOpType)
    ensures
        final(out)@ == old(out)@ + set_op_type_debug(*p),
{
    match p {
        SetOpType::Union => out.append("Union"),
        SetOpType::Intersect => out.append("Intersect"),
        SetOpType::Except => out.append("Except"),
    }
}

/// Appends the debug text of a `OperatorType`.
#[verifier::rlimit(50)]
pub fn push_operator_type(out: &mut String, p: &OperatorType)
    ensures
        final(out)@ == old(out)@ + operator_type_debug(*p),
{
    match p {
        OperatorType::Estimator => out.append("Estimator"),
        OperatorType::Transformer => out.append("Transformer"),
        OperatorType::Evaluator => out.append("Evaluator"),
        OperatorType::Model => out.append("Model"),
    }
}

#[verifier::spinoff_prover]
#[verifier::rlimit(100)]
fn push_replace_value_double(out: &mut String, p: &ReplaceValue)
    requires
        *p is Double,
    ensures
        final(out)@ == old(out)@ + replace_value_debug(*p),
{
    match p {
        ReplaceValue::Double(x0) => {
            out.append("Double(");
            push_float_debug(out, &(x0).text);
            out.append(")");
        },
        _ => {},
    }
}

#[verifier::spinoff_prover]
#[verifier::rlimit(100)]
fn push_replace_value_text(out: &mut String, p: &ReplaceValue)
    requires
        *p is Text,
    ensures
        final(out)@ == old(out)@ + replace_value_debug(*p),
{
    match p {
        ReplaceValue::Text(x0) => {
            out.append("Text(");
            push_quoted(out, (x0).as_str());
            out.append(")");
        },
        _ => {},
    }
}

/// Appends the debug text of a `ReplaceValue`.
#[verifier::rlimit(50)]
pub fn push_replace_value(out: &mut String, p: &ReplaceValue)
    ensures
        final(out)@ == old(out)@ + replace_value_debug(*p),
{
    match p {
        ReplaceValue::Double(..) => push_replace_value_double(out, p),
        ReplaceValue::Text(..) => push_replace_value_text(out, p),
    }
}

#[verifier::spinoff_prover]
#[verifier::rlimit(100)]
fn push_read_type_datasource(out: &mut String, p: &ReadType)
    requires
        *p is DataSource,
    ensures
        final(out)@ == old(out)@ + read_type_debug(*p),
{
    match p {
        ReadType::DataSource { format, schema, options, paths, predicates, source_name } => {
            let ghost out_before = out@;
            out.append("DataSource { format: ");
            match format {
                Some(y) => {
                    out.append("Some(");
                    push_quoted(out, (y).as_str());
                    out.append(")");
                },
                None => out.append("None"),
            }
            assert(out@ =~= out_before + "DataSource { format: "@ + opt_debug(match (*format) { Some(y) => Some(quoted(y@)), None => None }));
            out.append(", schema: ");
            match schema {
                Some(y) => {
                    out.append("Some(");
                    push_quoted(out, (y).as_str());
                    out.append(")");
                },
                None => out.append("None"),
            }
            assert(out@ =~= out_before + "DataSource { format: "@ + opt_debug(match (*format) { Some(y) => Some(quoted(y@)), None => None }) + ", schema: "@ + opt_debug(match (*schema) { Some(y) => Some(quoted(y@)), None => None }));
            out.append(", options: ");
            push_string_map(out, options);
            assert(out@ =~= out_before + "DataSource { format: "@ + opt_debug(match (*format) { Some(y) => Some(quoted(y@)), None => None }) + ", schema: "@ + opt_debug(match (*schema) { Some(y) => Some(quoted(y@)), None => None }) + ", options: "@ + string_map_debug((*options)));
            out.append(", paths: ");
            {
                let parts = parts_string(paths);
                push_list(out, &parts);
            }
            assert(out@ =~= out_before + "DataSource { format: "@ + opt_debug(match (*format) { Some(y) => Some(quoted(y@)), None => None }) + ", schema: "@ + opt_debug(match (*schema) { Some(y) => Some(quoted(y@)), None => None }) + ", options: "@ + string_map_debug((*options)) + ", paths: "@ + list_debug(debugs_string((*paths)@)));
            out.append(", predicates: ");
            {
                let parts = parts_string(predicates);
                push_list(out, &parts);
            }
            assert(out@ =~= out_before + "DataSource { format: "@ + opt_debug(match (*format) { Some(y) => Some(quoted(y@)), None => None }) + ", schema: "@ + opt_debug(match (*schema) { Some(y) => Some(quoted(y@)), None => None }) + ", options: "@ + string_map_debug((*options)) + ", paths: "@ + list_debug(debugs_string((*paths)@)) + ", predicates: "@ + list_debug(debugs_string((*predicates)@)));
            out.append(", source_name: ");
            match source_name {
                Some(y) => {
                    out.append("Some(");
                    push_quoted(out, (y).as_str());
                    out.append(")");
                },
                None => out.append("None"),
            }
            assert(out@ =~= out_before + "DataSource { format: "@ + opt_debug(match (*format) { Some(y) => Some(quoted(y@)), None => None }) + ", schema: "@ + opt_debug(match (*schema) { Some(y) => Some(quoted(y@)), None => None }) + ", options: "@ + string_map_debug((*options)) + ", paths: "@ + list_debug(debugs_string((*paths)@)) + ", predicates: "@ + list_debug(debugs_string((*predicates)@)) + ", source_name: "@ + opt_debug(match (*source_name) { Some(y) => Some(quoted(y@)), None => None }));
            out.append(" }");
        },
        _ => {},
    }
}

#[verifier::spinoff_prover]
#[verifier::rlimit(100)]
fn push_read_type_namedtable(out: &mut String, p: &ReadType)
    requires
        *p is NamedTable,
    ensures
        final(out)@ == old(out)@ + read_type_debug(*p),
{
    match p {
        ReadType::NamedTable { table_name, options } => {
            let ghost out_before = out@;
            out.append("NamedTable { table_name: ");
            push_quoted(out, (table_name).as_str());
            assert(out@ =~= out_before + "NamedTable { table_name: "@ + quoted((*table_name)@));
            out.append(", options: ");
            push_string_map(out, options);
            assert(out@ =~= out_before + "NamedTable { table_name: "@ + quoted((*table_name)@) + ", options: "@ + string_map_debug((*options)));
            out.append(" }");
        },
        _ => {},
    }
}

/// Appends the debug text of a `ReadType`.
#[verifier::rlimit(50)]
pub fn push_read_type(out: &mut String, p: &ReadType)
    ensures
        final(out)@ == old(out)@ + read_type_debug(*p),
{
    match p {
        ReadType::DataSource { .. } => push_read_type_datasource(out, p),
        ReadType::NamedTable { .. } => push_read_type_namedtable(out, p),
    }
}

#[verifier::spinoff_prover]
#[verifier::rlimit(100)]
fn push_catalog_op_setcurrentcatalog(out: &mut String, p: &CatalogOp)
    requires
        *p is SetCurrentCatalog,
    ensures
        final(out)@ == old(out)@ + catalog_op_debug(*p),
{
    match p {
        CatalogOp::SetCurrentCatalog { catalog_name } => {
            let ghost out_before = out@;
            out.append("SetCurrentCatalog { catalog_name: ");
            push_quoted(out, (catalog_name).as_str());
            assert(out@ =~= out_before + "SetCurrentCatalog { catalog_name: "@ + quoted((*catalog_name)@));
            out.append(" }");
        },
        _ => {},
    }
}

#[verifier::spinoff_prover]
#[verifier::rlimit(100)]
fn push_catalog_op_listcatalogs(out: &mut String, p: &CatalogOp)
    requires
        *p is ListCatalogs,
    ensures
        final(out)@ == old(out)@ + catalog_op_debug(*p),
{
    match p {
        CatalogOp::ListCatalogs { pattern } => {
            let ghost out_before = out@;
            out.append("ListCatalogs { pattern: ");
            match pattern {
                Some(y) => {
                    out.append("Some(");
                    push_quoted(out, (y).as_str());
                    out.append(")");
                },
                None => out.append("None"),
            }
            assert(out@ =~= out_before + "ListCatalogs { pattern: "@ + opt_debug(match (*pattern) { Some(y) => Some(quoted(y@)), None => None }));
            out.append(" }");
        },
        _ => {},
    }
}

#[verifier::spinoff_prover]
#[verifier::rlimit(100)]
fn push_catalog_op_setcurrentdatabase(out: &mut String, p: &CatalogOp)
    requires
        *p is SetCurrentDatabase,
    ensures
        final(out)@ == old(out)@ + catalog_op_debug(*p),
{
    match p {
        CatalogOp::SetCurrentDatabase { db_name } => {
            let ghost out_before = out@;
            out.append("SetCurrentDatabase { db_name: ");
            push_quoted(out, (db_name).as_str());
            assert(out@ =~= out_before + "SetCurrentDatabase { db_name: "@ + quoted((*db_name)@));
            out.append(" }");
        },
        _ => {},
    }
}

#[verifier::spinoff_prover]
#[verifier::rlimit(100)]
fn push_catalog_op_listdatabases(out: &mut String, p: &CatalogOp)
    requires
        *p is ListDatabases,
    ensures
        final(out)@ == old(out)@ + catalog_op_debug(*p),
{
    match p {
        CatalogOp::ListDatabases { pattern } => {
            let ghost out_before = out@;
            out.append("ListDatabases { pattern: ");
            match pattern {
                Some(y) => {
                    out.append("Some(");
                    push_quoted(out, (y).as_str());
                    out.append(")");
                },
                None => out.append("None"),
            }
            assert(out@ =~= out_before + "ListDatabases { pattern: "@ + opt_debug(match (*pattern) { Some(y) => Some(quoted(y@)), None => None }));
            out.append(" }");
        },
        _ => {},
    }
}

#[verifier::spinoff_prover]
#[verifier::rlimit(100)]
fn push_catalog_op_getdatabase(out: &mut String, p: &CatalogOp)
    requires
        *p is GetDatabase,
    ensures
        final(out)@ == old(out)@ + catalog_op_debug(*p),
{
    match p {
        CatalogOp::GetDatabase { db_name } => {
            let ghost out_before = out@;
            out.append("GetDatabase { db_name: ");
            push_quoted(out, (db_name).as_str());
            assert(out@ =~= out_before + "GetDatabase { db_name: "@ + quoted((*db_name)@));
            out.append(" }");
        },
        _ => {},
    }
}

#[verifier::spinoff_prover]
#[verifier::rlimit(100)]
fn push_catalog_op_databaseexists(out: &mut String, p: &CatalogOp)
    requires
        *p is DatabaseExists,
    ensures
        final(out)@ == old(out)@ + catalog_op_debug(*p),
{
    match p {
        CatalogOp::DatabaseExists { db_name } => {
            let ghost out_before = out@;
            out.append("DatabaseExists { db_name: ");
            push_quoted(out, (db_name).as_str());
            assert(out@ =~= out_before + "DatabaseExists { db_name: "@ + quoted((*db_name)@));
            out.append(" }");
        },
        _ => {},
    }
}

#[verifier::spinoff_prover]
#[verifier::rlimit(100)]
fn push_catalog_op_listtables(out: &mut String, p: &CatalogOp)
    requires
        *p is ListTables,
    ensures
        final(out)@ == old(out)@ + catalog_op_debug(*p),
{
    match p {
        CatalogOp::ListTables { db_name, pattern } => {
            let ghost out_before = out@;
            out.append("ListTables { db_name: ");
            match db_name {
                Some(y) => {
                    out.append("Some(");
                    push_quoted(out, (y).as_str());
                    out.append(")");
                },
                None => out.append("None"),
            }
            assert(out@ =~= out_before + "ListTables { db_name: "@ + opt_debug(match (*db_name) { Some(y) => Some(quoted(y@)), None => None }));
            out.append(", pattern: ");
            match pattern {
                Some(y) => {
                    out.append("Some(");
                    push_quoted(out, (y).as_str());
                    out.append(")");
                },
                None => out.append("None"),
            }
            assert(out@ =~= out_before + "ListTables { db_name: "@ + opt_debug(match (*db_name) { Some(y) => Some(quoted(y@)), None => None }) + ", pattern: "@ + opt_debug(match (*pattern) { Some(y) => Some(quoted(y@)), None => None }));
            out.append(" }");
        },
        _ => {},
    }
}

#[verifier::spinoff_prover]
#[verifier::rlimit(100)]
fn push_catalog_op_gettable(out: &mut String, p: &CatalogOp)
    requires
        *p is GetTable,
    ensures
        final(out)@ == old(out)@ + catalog_op_debug(*p),
{
    match p {
        CatalogOp::GetTable { table_name, db_name } => {
            let ghost out_before = out@;
            out.append("GetTable { table_name: ");
            push_quoted(out, (table_name).as_str());
            assert(out@ =~= out_before + "GetTable { table_name: "@ + quoted((*table_name)@));
            out.append(", db_name: ");
            match db_name {
                Some(y) => {
                    out.append("Some(");
                    push_quoted(out, (y).as_str());
                    out.append(")");
                },
                None => out.append("None"),
            }
            assert(out@ =~= out_before + "GetTable { table_name: "@ + quoted((*table_name)@) + ", db_name: "@ + opt_debug(match (*db_name) { Some(y) => Some(quoted(y@)), None => None }));
            out.append(" }");
        },
        _ => {},
    }
}

#[verifier::spinoff_prover]
#[verifier::rlimit(100)]
fn push_catalog_op_tableexists(out: &mut String, p: &CatalogOp)
    requires
        *p is TableExists,
    ensures
        final(out)@ == old(out)@ + catalog_op_debug(*p),
{
    match p {
        CatalogOp::TableExists { table_name, db_name } => {
            let ghost out_before = out@;
            out.append("TableExists { table_name: ");
            push_quoted(out, (table_name).as_str());
            assert(out@ =~= out_before + "TableExists { table_name: "@ + quoted((*table_name)@));
            out.append(", db_name: ");
            match db_name {
                Some(y) => {
                    out.append("Some(");
                    push_quoted(out, (y).as_str());
                    out.append(")");
                },
                None => out.append("None"),
            }
            assert(out@ =~= out_before + "TableExists { table_name: "@ + quoted((*table_name)@) + ", db_name: "@ + opt_debug(match (*db_name) { Some(y) => Some(quoted(y@)), None => None }));
            out.append(" }");
        },
        _ => {},
    }
}

#[verifier::spinoff_prover]
#[verifier::rlimit(100)]
fn push_catalog_op_listcolumns(out: &mut String, p: &CatalogOp)
    requires
        *p is ListColumns,
    ensures
        final(out)@ == old(out)@ + catalog_op_debug(*p),
{
    match p {
        CatalogOp::ListColumns { table_name, db_name } => {
            let ghost out_before = out@;
            out.append("ListColumns { table_name: ");
            push_quoted(out, (table_name).as_str());
            assert(out@ =~= out_before + "ListColumns { table_name: "@ + quoted((*table_name)@));
            out.append(", db_name: ");
            match db_name {
                Some(y) => {
                    out.append("Some(");
                    push_quoted(out, (y).as_str());
                    out.append(")");
                },
                None => out.append("None"),
            }
            assert(out@ =~= out_before + "ListColumns { table_name: "@ + quoted((*table_name)@) + ", db_name: "@ + opt_debug(match (*db_name) { Some(y) => Some(quoted(y@)), None => None }));
            out.append(" }");
        },
        _ => {},
    }
}

#[verifier::spinoff_prover]
#[verifier::rlimit(100)]
fn push_catalog_op_listfunctions(out: &mut String, p: &CatalogOp)
    requires
        *p is ListFunctions,
    ensures
        final(out)@ == old(out)@ + catalog_op_debug(*p),
{
    match p {
        CatalogOp::ListFunctions { db_name, pattern } => {
            let ghost out_before = out@;
            out.append("ListFunctions { db_name: ");
            match db_name {
                Some(y) => {
                    out.append("Some(");
                    push_quoted(out, (y).as_str());
                    out.append(")");
                },
                None => out.append("None"),
            }
            assert(out@ =~= out_before + "ListFunctions { db_name: "@ + opt_debug(match (*db_name) { Some(y) => Some(quoted(y@)), None => None }));
            out.append(", pattern: ");
            match pattern {
                Some(y) => {
                    out.append("Some(");
                    push_quoted(out, (y).as_str());
                    out.append(")");
                },
                None => out.append("None"),
            }
            assert(out@ =~= out_before + "ListFunctions { db_name: "@ + opt_debug(match (*db_name) { Some(y) => Some(quoted(y@)), None => None }) + ", pattern: "@ + opt_debug(match (*pattern) { Some(y) => Some(quoted(y@)), None => None }));
            out.append(" }");
        },
        _ => {},
    }
}

#[verifier::spinoff_prover]
#[verifier::rlimit(100)]
fn push_catalog_op_getfunction(out: &mut String, p: &CatalogOp)
    requires
        *p is GetFunction,
    ensures
        final(out)@ == old(out)@ + catalog_op_debug(*p),
{
    match p {
        CatalogOp::GetFunction { function_name, db_name } => {
            let ghost out_before = out@;
            out.append("GetFunction { function_name: ");
            push_quoted(out, (function_name).as_str());
            assert(out@ =~= out_before + "GetFunction { function_name: "@ + quoted((*function_name)@));
            out.append(", db_name: ");
            match db_name {
                Some(y) => {
                    out.append("Some(");
                    push_quoted(out, (y).as_str());
                    out.append(")");
                },
                None => out.append("None"),
            }
            assert(out@ =~= out_before + "GetFunction { function_name: "@ + quoted((*function_name)@) + ", db_name: "@ + opt_debug(match (*db_name) { Some(y) => Some(quoted(y@)), None => None }));
            out.append(" }");
        },
        _ => {},
    }
}

#[verifier::spinoff_prover]
#[verifier::rlimit(100)]
fn push_catalog_op_functionexists(out: &mut String, p: &CatalogOp)
    requires
        *p is FunctionExists,
    ensures
        final(out)@ == old(out)@ + catalog_op_debug(*p),
{
    match p {
        CatalogOp::FunctionExists { function_name, db_name } => {
            let ghost out_before = out@;
            out.append("FunctionExists { function_name: ");
            push_quoted(out, (function_name).as_str());
            assert(out@ =~= out_before + "FunctionExists { function_name: "@ + quoted((*function_name)@));
            out.append(", db_name: ");
            match db_name {
                Some(y) => {
                    out.append("Some(");
                    push_quoted(out, (y).as_str());
                    out.append(")");
                },
                None => out.append("None"),
            }
            assert(out@ =~= out_before + "FunctionExists { function_name: "@ + quoted((*function_name)@) + ", db_name: "@ + opt_debug(match (*db_name) { Some(y) => Some(quoted(y@)), None => None }));
            out.append(" }");
        },
        _ => {},
    }
}

#[verifier::spinoff_prover]
#[verifier::rlimit(100)]
fn push_catalog_op_createexternaltable(out: &mut String, p: &CatalogOp)
    requires
        *p is CreateExternalTable,
    ensures
        final(out)@ == old(out)@ + catalog_op_debug(*p),
{
    match p {
        CatalogOp::CreateExternalTable { table_name, path, source } => {
            let ghost out_before = out@;
            out.append("CreateExternalTable { table_name: ");
            push_quoted(out, (table_name).as_str());
            assert(out@ =~= out_before + "CreateExternalTable { table_name: "@ + quoted((*table_name)@));
            out.append(", path: ");
            match path {
                Some(y) => {
                    out.append("Some(");
                    push_quoted(out, (y).as_str());
                    out.append(")");
                },
                None => out.append("None"),
            }
            assert(out@ =~= out_before + "CreateExternalTable { table_name: "@ + quoted((*table_name)@) + ", path: "@ + opt_debug(match (*path) { Some(y) => Some(quoted(y@)), None => None }));
            out.append(", source: ");
            match source {
                Some(y) => {
                    out.append("Some(");
                    push_quoted(out, (y).as_str());
                    out.append(")");
                },
                None => out.append("None"),
            }
            assert(out@ =~= out_before + "CreateExternalTable { table_name: "@ + quoted((*table_name)@) + ", path: "@ + opt_debug(match (*path) { Some(y) => Some(quoted(y@)), None => None }) + ", source: "@ + opt_debug(match (*source) { Some(y) => Some(quoted(y@)), None => None }));
            out.append(" }");
        },
        _ => {},
    }
}

#[verifier::spinoff_prover]
#[verifier::rlimit(100)]
fn push_catalog_op_createtable(out: &mut String, p: &CatalogOp)
    requires
        *p is CreateTable,
    ensures
        final(out)@ == old(out)@ + catalog_op_debug(*p),
{
    match p {
        CatalogOp::CreateTable { table_name, path, source, description } => {
            let ghost out_before = out@;
            out.append("CreateTable { table_name: ");
            push_quoted(out, (table_name).as_str());
            assert(out@ =~= out_before + "CreateTable { table_name: "@ + quoted((*table_name)@));
            out.append(", path: ");
            match path {
                Some(y) => {
                    out.append("Some(");
                    push_quoted(out, (y).as_str());
                    out.append(")");
                },
                None => out.append("None"),
            }
            assert(out@ =~= out_before + "CreateTable { table_name: "@ + quoted((*table_name)@) + ", path: "@ + opt_debug(match (*path) { Some(y) => Some(quoted(y@)), None => None }));
            out.append(", source: ");
            match source {
                Some(y) => {
                    out.append("Some(");
                    push_quoted(out, (y).as_str());
                    out.append(")");
                },
                None => out.append("None"),
            }
            assert(out@ =~= out_before + "CreateTable { table_name: "@ + quoted((*table_name)@) + ", path: "@ + opt_debug(match (*path) { Some(y) => Some(quoted(y@)), None => None }) + ", source: "@ + opt_debug(match (*source) { Some(y) => Some(quoted(y@)), None => None }));
            out.append(", description: ");
            match description {
                Some(y) => {
                    out.append("Some(");
                    push_quoted(out, (y).as_str());
                    out.append(")");
                },
                None => out.append("None"),
            }
            assert(out@ =~= out_before + "CreateTable { table_name: "@ + quoted((*table_name)@) + ", path: "@ + opt_debug(match (*path) { Some(y) => Some(quoted(y@)), None => None }) + ", source: "@ + opt_debug(match (*source) { Some(y) => Some(quoted(y@)), None => None }) + ", description: "@ + opt_debug(match (*description) { Some(y) => Some(quoted(y@)), None => None }));
            out.append(" }");
        },
        _ => {},
    }
}

#[verifier::spinoff_prover]
#[verifier::rlimit(100)]
fn push_catalog_op_droptempview(out: &mut String, p: &CatalogOp)
    requires
        *p is DropTempView,
    ensures
        final(out)@ == old(out)@ + catalog_op_debug(*p),
{
    match p {
        CatalogOp::DropTempView { view_name } => {
            let ghost out_before = out@;
            out.append("DropTempView { view_name: ");
            push_quoted(out, (view_name).as_str());
            assert(out@ =~= out_before + "DropTempView { view_name: "@ + quoted((*view_name)@));
            out.append(" }");
        },
        _ => {},
    }
}

#[verifier::spinoff_prover]
#[verifier::rlimit(100)]
fn push_catalog_op_dropglobaltempview(out: &mut String, p: &CatalogOp)
    requires
        *p is DropGlobalTempView,
    ensures
        final(out)@ == old(out)@ + catalog_op_debug(*p),
{
    match p {
        CatalogOp::DropGlobalTempView { view_name } => {
            let ghost out_before = out@;
            out.append("DropGlobalTempView { view_name: ");
            push_quoted(out, (view_name).as_str());
            assert(out@ =~= out_before + "DropGlobalTempView { view_name: "@ + quoted((*view_name)@));
            out.append(" }");
        },
        _ => {},
    }
}

#[verifier::spinoff_prover]
#[verifier::rlimit(100)]
fn push_catalog_op_cachetable(out: &mut String, p: &CatalogOp)
    requires
        *p is CacheTable,
    ensures
        final(out)@ == old(out)@ + catalog_op_debug(*p),
{
    match p {
        CatalogOp::CacheTable { table_name, storage_level } => {
            let ghost out_before = out@;
            out.append("CacheTable { table_name: ");
            push_quoted(out, (table_name).as_str());
            assert(out@ =~= out_before + "CacheTable { table_name: "@ + quoted((*table_name)@));
            out.append(", storage_level: ");
            match storage_level {
                Some(y) => {
                    out.append("Some(");
                    push_storage_level(out, y);
                    out.append(")");
                },
                None => out.append("None"),
            }
            assert(out@ =~= out_before + "CacheTable { table_name: "@ + quoted((*table_name)@) + ", storage_level: "@ + opt_debug(match (*storage_level) { Some(y) => Some(storage_level_debug(y)), None => None }));
            out.append(" }");
        },
        _ => {},
    }
}

#[verifier::spinoff_prover]
#[verifier::rlimit(100)]
fn push_catalog_op_uncachetable(out: &mut String, p: &CatalogOp)
    requires
        *p is UncacheTable,
    ensures
        final(out)@ == old(out)@ + catalog_op_debug(*p),
{
    match p {
        CatalogOp::UncacheTable { table_name } => {
            let ghost out_before = out@;
            out.append("UncacheTable { table_name: ");
            push_quoted(out, (table_name).as_str());
            assert(out@ =~= out_before + "UncacheTable { table_name: "@ + quoted((*table_name)@));
            out.append(" }");
        },
        _ => {},
    }
}

#[verifier::spinoff_prover]
#[verifier::rlimit(100)]
fn push_catalog_op_iscached(out: &mut String, p: &CatalogOp)
    requires
        *p is IsCached,
    ensures
        final(out)@ == old(out)@ + catalog_op_debug(*p),
{
    match p {
        CatalogOp::IsCached { table_name } => {
            let ghost out_before = out@;
            out.append("IsCached { table_name: ");
            push_quoted(out, (table_name).as_str());
            assert(out@ =~= out_before + "IsCached { table_name: "@ + quoted((*table_name)@));
            out.append(" }");
        },
        _ => {},
    }
}

#[verifier::spinoff_prover]
#[verifier::rlimit(100)]
fn push_catalog_op_refreshtable(out: &mut String, p: &CatalogOp)
    requires
        *p is RefreshTable,
    ensures
        final(out)@ == old(out)@ + catalog_op_debug(*p),
{
    match p {
        CatalogOp::RefreshTable { table_name } => {
            let ghost out_before = out@;
            out.append("RefreshTable { table_name: ");
            push_quoted(out, (table_name).as_str());
            assert(out@ =~= out_before + "RefreshTable { table_name: "@ + quoted((*table_name)@));
            out.append(" }");
        },
        _ => {},
    }
}

#[verifier::spinoff_prover]
#[verifier::rlimit(100)]
fn push_catalog_op_refreshbypath(out: &mut String, p: &CatalogOp)
    requires
        *p is RefreshByPath,
    ensures
        final(out)@ == old(out)@ + catalog_op_debug(*p),
{
    match p {
        CatalogOp::RefreshByPath { path } => {
            let ghost out_before = out@;
            out.append("RefreshByPath { path: ");
            push_quoted(out, (path).as_str());
            assert(out@ =~= out_before + "RefreshByPath { path: "@ + quoted((*path)@));
            out.append(" }");
        },
        _ => {},
    }
}

#[verifier::spinoff_prover]
#[verifier::rlimit(100)]
fn push_catalog_op_recoverpartitions(out: &mut String, p: &CatalogOp)
    requires
        *p is RecoverPartitions,
    ensures
        final(out)@ == old(out)@ + catalog_op_debug(*p),
{
    match p {
        CatalogOp::RecoverPartitions { table_name } => {
            let ghost out_before = out@;
            out.append("RecoverPartitions { table_name: ");
            push_quoted(out, (table_name).as_str());
            assert(out@ =~= out_before + "RecoverPartitions { table_name: "@ + quoted((*table_name)@));
            out.append(" }");
        },
        _ => {},
    }
}

#[verifier::spinoff_prover]
#[verifier::rlimit(100)]
fn push_catalog_op_createdatabase(out: &mut String, p: &CatalogOp)
    requires
        *p is CreateDatabase,
    ensures
        final(out)@ == old(out)@ + catalog_op_debug(*p),
{
    match p {
        CatalogOp::CreateDatabase { db_name, if_not_exists, properties } => {
            let ghost out_before = out@;
            out.append("CreateDatabase { db_name: ");
            push_quoted(out, (db_name).as_str());
            assert(out@ =~= out_before + "CreateDatabase { db_name: "@ + quoted((*db_name)@));
            out.append(", if_not_exists: ");
            push_bool(out, *(if_not_exists));
            assert(out@ =~= out_before + "CreateDatabase { db_name: "@ + quoted((*db_name)@) + ", if_not_exists: "@ + bool_text((*if_not_exists)));
            out.append(", properties: ");
            push_string_map(out, properties);
            assert(out@ =~= out_before + "CreateDatabase { db_name: "@ + quoted((*db_name)@) + ", if_not_exists: "@ + bool_text((*if_not_exists)) + ", properties: "@ + string_map_debug((*properties)));
            out.append(" }");
        },
        _ => {},
    }
}

#[verifier::spinoff_prover]
#[verifier::rlimit(100)]
fn push_catalog_op_dropdatabase(out: &mut String, p: &CatalogOp)
    requires
        *p is DropDatabase,
    ensures
        final(out)@ == old(out)@ + catalog_op_debug(*p),
{
    match p {
        CatalogOp::DropDatabase { db_name, if_exists, cascade } => {
            let ghost out_before = out@;
            out.append("DropDatabase { db_name: ");
            push_quoted(out, (db_name).as_str());
            assert(out@ =~= out_before + "DropDatabase { db_name: "@ + quoted((*db_name)@));
            out.append(", if_exists: ");
            push_bool(out, *(if_exists));
            assert(out@ =~= out_before + "DropDatabase { db_name: "@ + quoted((*db_name)@) + ", if_exists: "@ + bool_text((*if_exists)));
            out.append(", cascade: ");
            push_bool(out, *(cascade));
            assert(out@ =~= out_before + "DropDatabase { db_name: "@ + quoted((*db_name)@) + ", if_exists: "@ + bool_text((*if_exists)) + ", cascade: "@ + bool_text((*cascade)));
            out.append(" }");
        },
        _ => {},
    }
}

#[verifier::spinoff_prover]
#[verifier::rlimit(100)]
fn push_catalog_op_droptable(out: &mut String, p: &CatalogOp)
    requires
        *p is DropTable,
    ensures
        final(out)@ == old(out)@ + catalog_op_debug(*p),
{
    match p {
        CatalogOp::DropTable { table_name, if_exists, purge } => {
            let ghost out_before = out@;
            out.append("DropTable { table_name: ");
            push_quoted(out, (table_name).as_str());
            assert(out@ =~= out_before + "DropTable { table_name: "@ + quoted((*table_name)@));
            out.append(", if_exists: ");
            push_bool(out, *(if_exists));
            assert(out@ =~= out_before + "DropTable { table_name: "@ + quoted((*table_name)@) + ", if_exists: "@ + bool_text((*if_exists)));
            out.append(", purge: ");
            push_bool(out, *(purge));
            assert(out@ =~= out_before + "DropTable { table_name: "@ + quoted((*table_name)@) + ", if_exists: "@ + bool_text((*if_exists)) + ", purge: "@ + bool_text((*purge)));
            out.append(" }");
        },
        _ => {},
    }
}

#[verifier::spinoff_prover]
#[verifier::rlimit(100)]
fn push_catalog_op_dropview(out: &mut String, p: &CatalogOp)
    requires
        *p is DropView,
    ensures
        final(out)@ == old(out)@ + catalog_op_debug(*p),
{
    match p {
        CatalogOp::DropView { view_name, if_exists } => {
            let ghost out_before = out@;
            out.append("DropView { view_name: ");
            push_quoted(out, (view_name).as_str());
            assert(out@ =~= out_before + "DropView { view_name: "@ + quoted((*view_name)@));
            out.append(", if_exists: ");
            push_bool(out, *(if_exists));
            assert(out@ =~= out_before + "DropView { view_name: "@ + quoted((*view_name)@) + ", if_exists: "@ + bool_text((*if_exists)));
            out.append(" }");
        },
        _ => {},
    }
}

#[verifier::spinoff_prover]
#[verifier::rlimit(100)]
fn push_catalog_op_truncatetable(out: &mut String, p: &CatalogOp)
    requires
        *p is TruncateTable,
    ensures
        final(out)@ == old(out)@ + catalog_op_debug(*p),
{
    match p {
        CatalogOp::TruncateTable { table_name } => {
            let ghost out_before = out@;
            out.append("TruncateTable { table_name: ");
            push_quoted(out, (table_name).as_str());
            assert(out@ =~= out_before + "TruncateTable { table_name: "@ + quoted((*table_name)@));
            out.append(" }");
        },
        _ => {},
    }
}

#[verifier::spinoff_prover]
#[verifier::rlimit(100)]
fn push_catalog_op_analyzetable(out: &mut String, p: &CatalogOp)
    requires
        *p is AnalyzeTable,
    ensures
        final(out)@ == old(out)@ + catalog_op_debug(*p),
{
    match p {
        CatalogOp::AnalyzeTable { table_name, no_scan } => {
            let ghost out_before = out@;
            out.append("AnalyzeTable { table_name: ");
            push_quoted(out, (table_name).as_str());
            assert(out@ =~= out_before + "AnalyzeTable { table_name: "@ + quoted((*table_name)@));
            out.append(", no_scan: ");
            push_bool(out, *(no_scan));
            assert(out@ =~= out_before + "AnalyzeTable { table_name: "@ + quoted((*table_name)@) + ", no_scan: "@ + bool_text((*no_scan)));
            out.append(" }");
        },
        _ => {},
    }
}

#[verifier::spinoff_prover]
#[verifier::rlimit(100)]
fn push_catalog_op_getcreatetablestring(out: &mut String, p: &CatalogOp)
    requires
        *p is GetCreateTableString,
    ensures
        final(out)@ == old(out)@ + catalog_op_debug(*p),
{
    match p {
        CatalogOp::GetCreateTableString { table_name, as_serde } => {
            let ghost out_before = out@;
            out.append("GetCreateTableString { table_name: ");
            push_quoted(out, (table_name).as_str());
            assert(out@ =~= out_before + "GetCreateTableString { table_name: "@ + quoted((*table_name)@));
            out.append(", as_serde: ");
            push_bool(out, *(as_serde));
            assert(out@ =~= out_before + "GetCreateTableString { table_name: "@ + quoted((*table_name)@) + ", as_serde: "@ + bool_text((*as_serde)));
            out.append(" }");
        },
        _ => {},
    }
}

#[verifier::spinoff_prover]
#[verifier::rlimit(100)]
fn push_catalog_op_gettableproperties(out: &mut String, p: &CatalogOp)
    requires
        *p is GetTableProperties,
    ensures
        final(out)@ == old(out)@ + catalog_op_debug(*p),
{
    match p {
        CatalogOp::GetTableProperties { table_name } => {
            let ghost out_before = out@;
            out.append("GetTableProperties { table_name: ");
            push_quoted(out, (table_name).as_str());
            assert(out@ =~= out_before + "GetTableProperties { table_name: "@ + quoted((*table_name)@));
            out.append(" }");
        },
        _ => {},
    }
}

#[verifier::spinoff_prover]
#[verifier::rlimit(100)]
fn push_catalog_op_listpartitions(out: &mut String, p: &CatalogOp)
    requires
        *p is ListPartitions,
    ensures
        final(out)@ == old(out)@ + catalog_op_debug(*p),
{
    match p {
        CatalogOp::ListPartitions { table_name } => {
            let ghost out_before = out@;
            out.append("ListPartitions { table_name: ");
            push_quoted(out, (table_name).as_str());
            assert(out@ =~= out_before + "ListPartitions { table_name: "@ + quoted((*table_name)@));
            out.append(" }");
        },
        _ => {},
    }
}

#[verifier::spinoff_prover]
#[verifier::rlimit(100)]
fn push_catalog_op_listviews(out: &mut String, p: &CatalogOp)
    requires
        *p is ListViews,
    ensures
        final(out)@ == old(out)@ + catalog_op_debug(*p),
{
    match p {
        CatalogOp::ListViews { db_name, pattern } => {
            let ghost out_before = out@;
            out.append("ListViews { db_name: ");
            match db_name {
                Some(y) => {
                    out.append("Some(");
                    push_quoted(out, (y).as_str());
                    out.append(")");
                },
                None => out.append("None"),
            }
            assert(out@ =~= out_before + "ListViews { db_name: "@ + opt_debug(match (*db_name) { Some(y) => Some(quoted(y@)), None => None }));
            out.append(", pattern: ");
            match pattern {
                Some(y) => {
                    out.append("Some(");
                    push_quoted(out, (y).as_str());
                    out.append(")");
                },
                None => out.append("None"),
            }
            assert(out@ =~= out_before + "ListViews { db_name: "@ + opt_debug(match (*db_name) { Some(y) => Some(quoted(y@)), None => None }) + ", pattern: "@ + opt_debug(match (*pattern) { Some(y) => Some(quoted(y@)), None => None }));
            out.append(" }");
        },
        _ => {},
    }
}

/// Appends the debug text of a `CatalogOp`.
#[verifier::rlimit(50)]
pub fn push_catalog_op(out: &mut String, p: &CatalogOp)
    ensures
        final(out)@ == old(out)@ + catalog_op_debug(*p),
{
    match p {
        CatalogOp::CurrentCatalog => out.append("CurrentCatalog"),
        CatalogOp::SetCurrentCatalog { .. } => push_catalog_op_setcurrentcatalog(out, p),
        CatalogOp::ListCatalogs { .. } => push_catalog_op_listcatalogs(out, p),
        CatalogOp::CurrentDatabase => out.append("CurrentDatabase"),
        CatalogOp::SetCurrentDatabase { .. } => push_catalog_op_setcurrentdatabase(out, p),
        CatalogOp::ListDatabases { .. } => push_catalog_op_listdatabases(out, p),
        CatalogOp::GetDatabase { .. } => push_catalog_op_getdatabase(out, p),
        CatalogOp::DatabaseExists { .. } => push_catalog_op_databaseexists(out, p),
        CatalogOp::ListTables { .. } => push_catalog_op_listtables(out, p),
        CatalogOp::GetTable { .. } => push_catalog_op_gettable(out, p),
        CatalogOp::TableExists { .. } => push_catalog_op_tableexists(out, p),
        CatalogOp::ListColumns { .. } => push_catalog_op_listcolumns(out, p),
        CatalogOp::ListFunctions { .. } => push_catalog_op_listfunctions(out, p),
        CatalogOp::GetFunction { .. } => push_catalog_op_getfunction(out, p),
        CatalogOp::FunctionExists { .. } => push_catalog_op_functionexists(out, p),
        CatalogOp::CreateExternalTable { .. } => push_catalog_op_createexternaltable(out, p),
        CatalogOp::CreateTable { .. } => push_catalog_op_createtable(out, p),
        CatalogOp::DropTempView { .. } => push_catalog_op_droptempview(out, p),
        CatalogOp::DropGlobalTempView { .. } => push_catalog_op_dropglobaltempview(out, p),
        CatalogOp::CacheTable { .. } => push_catalog_op_cachetable(out, p),
        CatalogOp::UncacheTable { .. } => push_catalog_op_uncachetable(out, p),
        CatalogOp::IsCached { .. } => push_catalog_op_iscached(out, p),
        CatalogOp::ClearCache => out.append("ClearCache"),
        CatalogOp::RefreshTable { .. } => push_catalog_op_refreshtable(out, p),
        CatalogOp::RefreshByPath { .. } => push_catalog_op_refreshbypath(out, p),
        CatalogOp::RecoverPartitions { .. } => push_catalog_op_recoverpartitions(out, p),
        CatalogOp::CreateDatabase { .. } => push_catalog_op_createdatabase(out, p),
        CatalogOp::DropDatabase { .. } => push_catalog_op_dropdatabase(out, p),
        CatalogOp::DropTable { .. } => push_catalog_op_droptable(out, p),
        CatalogOp::DropView { .. } => push_catalog_op_dropview(out, p),
        CatalogOp::TruncateTable { .. } => push_catalog_op_truncatetable(out, p),
        CatalogOp::AnalyzeTable { .. } => push_catalog_op_analyzetable(out, p),
        CatalogOp::GetCreateTableString { .. } => push_catalog_op_getcreatetablestring(out, p),
        CatalogOp::GetTableProperties { .. } => push_catalog_op_gettableproperties(out, p),
        CatalogOp::ListPartitions { .. } => push_catalog_op_listpartitions(out, p),
        CatalogOp::ListViews { .. } => push_catalog_op_listviews(out, p),
    }
}

/// Appends the debug text of a `Column`.
#[verifier::spinoff_prover]
#[verifier::rlimit(100)]
pub fn push_column(out: &mut String, p: &Column)
    ensures
        final(out)@ == old(out)@ + column_debug(*p),
{
    out.append("Column { expr: ");
    push_expr(out, &p.expr);
    out.append(" }");
}

/// Appends the debug text of a `StorageLevel`.
#[verifier::spinoff_prover]
#[verifier::rlimit(100)]
pub fn push_storage_level(out: &mut String, p: &StorageLevel)
    ensures
        final(out)@ == old(out)@ + storage_level_debug(*p),
{
    out.append("StorageLevel { use_disk: ");
    push_bool(out, *(&p.use_disk));
    out.append(", use_memory: ");
    push_bool(out, *(&p.use_memory));
    out.append(", use_off_heap: ");
    push_bool(out, *(&p.use_off_heap));
    out.append(", deserialized: ");
    push_bool(out, *(&p.deserialized));
    out.append(", replication: ");
    push_int_text(out, *(&p.replication) as i64);
    out.append(" }");
}

/// Appends the debug text of a `MlOperator`.
#[verifier::spinoff_prover]
#[verifier::rlimit(100)]
pub fn push_ml_operator(out: &mut String, p: &MlOperator)
    ensures
        final(out)@ == old(out)@ + ml_operator_debug(*p),
{
    out.append("MlOperator { name: ");
    push_quoted(out, (&p.name).as_str());
    out.append(", uid: ");
    push_quoted(out, (&p.uid).as_str());
    out.append(", op_type: ");
    push_operator_type(out, &p.op_type);
    out.append(" }");
}

#[verifier::spinoff_prover]
#[verifier::rlimit(100)]
fn push_plan_range(out: &mut String, p: &LogicalPlan)
    requires
        *p is Range,
    ensures
        final(out)@ == old(out)@ + plan_debug(*p),
    decreases p, 1int,
{
    match p {
        LogicalPlan::Range { start, end, step, num_partitions } => {
            let ghost out_before = out@;
            out.append("Range { start: ");
            push_int_text(out, *(start));
            assert(out@ =~= out_before + "Range { start: "@ + int_text((*start) as int));
            out.append(", end: ");
            push_int_text(out, *(end));
            assert(out@ =~= out_before + "Range { start: "@ + int_text((*start) as int) + ", end: "@ + int_text((*end) as int));
            out.append(", step: ");
            push_int_text(out, *(step));
            assert(out@ =~= out_before + "Range { start: "@ + int_text((*start) as int) + ", end: "@ + int_text((*end) as int) + ", step: "@ + int_text((*step) as int));
            out.append(", num_partitions: ");
            match num_partitions {
                Some(y) => {
                    out.append("Some(");
                    push_int_text(out, *(y) as i64);
                    out.append(")");
                },
                None => out.append("None"),
            }
            assert(out@ =~= out_before + "Range { start: "@ + int_text((*start) as int) + ", end: "@ + int_text((*end) as int) + ", step: "@ + int_text((*step) as int) + ", num_partitions: "@ + opt_debug(match (*num_partitions) { Some(y) => Some(int_text(y as int)), None => None }));
            out.append(" }");
        },
        _ => {},
    }
}

#[verifier::spinoff_prover]
#[verifier::rlimit(100)]
fn push_plan_sql(out: &mut String, p: &LogicalPlan)
    requires
        *p is Sql,
    ensures
        final(out)@ == old(out)@ + plan_debug(*p),
    decreases p, 1int,
{
    match p {
        LogicalPlan::Sql { query } => {
            let ghost out_before = out@;
            out.append("Sql { query: ");
            push_quoted(out, (query).as_str());
            assert(out@ =~= out_before + "Sql { query: "@ + quoted((*query)@));
            out.append(" }");
        },
        _ => {},
    }
}

#[verifier::spinoff_prover]
#[verifier::rlimit(100)]
fn push_plan_project(out: &mut String, p: &LogicalPlan)
    requires
        *p is Project,
    ensures
        final(out)@ == old(out)@ + plan_debug(*p),
    decreases p, 1int,
{
    match p {
        LogicalPlan::Project { input, columns } => {
            let ghost out_before = out@;
            out.append("Project { input: ");
            push_plan(out, &**(input));
            assert(out@ =~= out_before + "Project { input: "@ + plan_debug(*(*input)));
            out.append(", columns: ");
            {
                let parts = parts_column(columns);
                push_list(out, &parts);
            }
            assert(out@ =~= out_before + "Project { input: "@ + plan_debug(*(*input)) + ", columns: "@ + list_debug(debugs_column((*columns)@)));
            out.append(" }");
        },
        _ => {},
    }
}

#[verifier::spinoff_prover]
#[verifier::rlimit(100)]
fn push_plan_filter(out: &mut String, p: &LogicalPlan)
    requires
        *p is Filter,
    ensures
        final(out)@ == old(out)@ + plan_debug(*p),
    decreases p, 1int,
{
    match p {
        LogicalPlan::Filter { input, condition } => {
            let ghost out_before = out@;
            out.append("Filter { input: ");
            push_plan(out, &**(input));
            assert(out@ =~= out_before + "Filter { input: "@ + plan_debug(*(*input)));
            out.append(", condition: ");
            push_column(out, condition);
            assert(out@ =~= out_before + "Filter { input: "@ + plan_debug(*(*input)) + ", condition: "@ + column_debug((*condition)));
            out.append(" }");
        },
        _ => {},
    }
}

#[verifier::spinoff_prover]
#[verifier::rlimit(100)]
fn push_plan_aggregate(out: &mut String, p: &LogicalPlan)
    requires
        *p is Aggregate,
    ensures
        final(out)@ == old(out)@ + plan_debug(*p),
    decreases p, 1int,
{
    match p {
        LogicalPlan::Aggregate { input, group_type, grouping_expressions, aggregate_expressions, pivot_col, pivot_values, grouping_sets } => {
            let ghost out_before = out@;
            out.append("Aggregate { input: ");
            push_plan(out, &**(input));
            assert(out@ =~= out_before + "Aggregate { input: "@ + plan_debug(*(*input)));
            out.append(", group_type: ");
            push_aggregate_group_type(out, group_type);
            assert(out@ =~= out_before + "Aggregate { input: "@ + plan_debug(*(*input)) + ", group_type: "@ + aggregate_group_type_debug((*group_type)));
            out.append(", grouping_expressions: ");
            {
                let parts = parts_expression(grouping_expressions);
                push_list(out, &parts);
            }
            assert(out@ =~= out_before + "Aggregate { input: "@ + plan_debug(*(*input)) + ", group_type: "@ + aggregate_group_type_debug((*group_type)) + ", grouping_expressions: "@ + list_debug(debugs_expression((*grouping_expressions)@)));
            out.append(", aggregate_expressions: ");
            {
                let parts = parts_expression(aggregate_expressions);
                push_list(out, &parts);
            }
            assert(out@ =~= out_before + "Aggregate { input: "@ + plan_debug(*(*input)) + ", group_type: "@ + aggregate_group_type_debug((*group_type)) + ", grouping_expressions: "@ + list_debug(debugs_expression((*grouping_expressions)@)) + ", aggregate_expressions: "@ + list_debug(debugs_expression((*aggregate_expressions)@)));
            out.append(", pivot_col: ");
            match pivot_col {
                Some(y) => {
                    out.append("Some(");
                    push_expr(out, y);
                    out.append(")");
                },
                None => out.append("None"),
            }
            assert(out@ =~= out_before + "Aggregate { input: "@ + plan_debug(*(*input)) + ", group_type: "@ + aggregate_group_type_debug((*group_type)) + ", grouping_expressions: "@ + list_debug(debugs_expression((*grouping_expressions)@)) + ", aggregate_expressions: "@ + list_debug(debugs_expression((*aggregate_expressions)@)) + ", pivot_col: "@ + opt_debug(match (*pivot_col) { Some(y) => Some(expr_debug(y)), None => None }));
            out.append(", pivot_values: ");
            {
                let parts = parts_expression(pivot_values);
                push_list(out, &parts);
            }
            assert(out@ =~= out_before + "Aggregate { input: "@ + plan_debug(*(*input)) + ", group_type: "@ + aggregate_group_type_debug((*group_type)) + ", grouping_expressions: "@ + list_debug(debugs_expression((*grouping_expressions)@)) + ", aggregate_expressions: "@ + list_debug(debugs_expression((*aggregate_expressions)@)) + ", pivot_col: "@ + opt_debug(match (*pivot_col) { Some(y) => Some(expr_debug(y)), None => None }) + ", pivot_values: "@ + list_debug(debugs_expression((*pivot_values)@)));
            out.append(", grouping_sets: ");
            {
                let parts = parts_vec_expression(grouping_sets);
                push_list(out, &parts);
            }
            assert(out@ =~= out_before + "Aggregate { input: "@ + plan_debug(*(*input)) + ", group_type: "@ + aggregate_group_type_debug((*group_type)) + ", grouping_expressions: "@ + list_debug(debugs_expression((*grouping_expressions)@)) + ", aggregate_expressions: "@ + list_debug(debugs_expression((*aggregate_expressions)@)) + ", pivot_col: "@ + opt_debug(match (*pivot_col) { Some(y) => Some(expr_debug(y)), None => None }) + ", pivot_values: "@ + list_debug(debugs_expression((*pivot_values)@)) + ", grouping_sets: "@ + list_debug(debugs_vec_expression((*grouping_sets)@)));
            out.append(" }");
        },
        _ => {},
    }
}

#[verifier::spinoff_prover]
#[verifier::rlimit(100)]
fn push_plan_join(out: &mut String, p: &LogicalPlan)
    requires
        *p is Join,
    ensures
        final(out)@ == old(out)@ + plan_debug(*p),
    decreases p, 1int,
{
    match p {
        LogicalPlan::Join { left, right, join_type, on, using_columns } => {
            let ghost out_before = out@;
            out.append("Join { left: ");
            push_plan(out, &**(left));
            assert(out@ =~= out_before + "Join { left: "@ + plan_debug(*(*left)));
            out.append(", right: ");
            push_plan(out, &**(right));
            assert(out@ =~= out_before + "Join { left: "@ + plan_debug(*(*left)) + ", right: "@ + plan_debug(*(*right)));
            out.append(", join_type: ");
            push_join_type(out, join_type);
            assert(out@ =~= out_before + "Join { left: "@ + plan_debug(*(*left)) + ", right: "@ + plan_debug(*(*right)) + ", join_type: "@ + join_type_debug((*join_type)));
            out.append(", on: ");
            match on {
                Some(y) => {
                    out.append("Some(");
                    push_column(out, y);
                    out.append(")");
                },
                None => out.append("None"),
            }
            assert(out@ =~= out_before + "Join { left: "@ + plan_debug(*(*left)) + ", right: "@ + plan_debug(*(*right)) + ", join_type: "@ + join_type_debug((*join_type)) + ", on: "@ + opt_debug(match (*on) { Some(y) => Some(column_debug(y)), None => None }));
            out.append(", using_columns: ");
            {
                let parts = parts_string(using_columns);
                push_list(out, &parts);
            }
            assert(out@ =~= out_before + "Join { left: "@ + plan_debug(*(*left)) + ", right: "@ + plan_debug(*(*right)) + ", join_type: "@ + join_type_debug((*join_type)) + ", on: "@ + opt_debug(match (*on) { Some(y) => Some(column_debug(y)), None => None }) + ", using_columns: "@ + list_debug(debugs_string((*using_columns)@)));
            out.append(" }");
        },
        _ => {},
    }
}

#[verifier::spinoff_prover]
#[verifier::rlimit(100)]
fn push_plan_lateraljoin(out: &mut String, p: &LogicalPlan)
    requires
        *p is LateralJoin,
    ensures
        final(out)@ == old(out)@ + plan_debug(*p),
    decreases p, 1int,
{
    match p {
        LogicalPlan::LateralJoin { left, right, join_type, on } => {
            let ghost out_before = out@;
            out.append("LateralJoin { left: ");
            push_plan(out, &**(left));
            assert(out@ =~= out_before + "LateralJoin { left: "@ + plan_debug(*(*left)));
            out.append(", right: ");
            push_plan(out, &**(right));
            assert(out@ =~= out_before + "LateralJoin { left: "@ + plan_debug(*(*left)) + ", right: "@ + plan_debug(*(*right)));
            out.append(", join_type: ");
            push_join_type(out, join_type);
            assert(out@ =~= out_before + "LateralJoin { left: "@ + plan_debug(*(*left)) + ", right: "@ + plan_debug(*(*right)) + ", join_type: "@ + join_type_debug((*join_type)));
            out.append(", on: ");
            match on {
                Some(y) => {
                    out.append("Some(");
                    push_column(out, y);
                    out.append(")");
                },
                None => out.append("None"),
            }
            assert(out@ =~= out_before + "LateralJoin { left: "@ + plan_debug(*(*left)) + ", right: "@ + plan_debug(*(*right)) + ", join_type: "@ + join_type_debug((*join_type)) + ", on: "@ + opt_debug(match (*on) { Some(y) => Some(column_debug(y)), None => None }));
            out.append(" }");
        },
        _ => {},
    }
}

#[verifier::spinoff_prover]
#[verifier::rlimit(100)]
fn push_plan_setoperation(out: &mut String, p: &LogicalPlan)
    requires
        *p is SetOperation,
    ensures
        final(out)@ == old(out)@ + plan_debug(*p),
    decreases p, 1int,
{
    match p {
        LogicalPlan::SetOperation { left, right, set_op_type, is_all, by_name, allow_missing_columns } => {
            let mut l = String::new();
            push_plan(&mut l, &**(left));
            let mut r = String::new();
            push_plan(&mut r, &**(right));
            let mut tail = String::new();
            push_set_op_type(&mut tail, set_op_type);
            tail.append(", is_all: ");
            push_bool(&mut tail, *is_all);
            tail.append(", by_name: ");
            push_bool(&mut tail, *by_name);
            tail.append(", allow_missing_columns: ");
            push_bool(&mut tail, *allow_missing_columns);
            assert(tail@ =~= set_op_type_debug(*set_op_type) + ", is_all: "@ + bool_text(*is_all) + ", by_name: "@
                + bool_text(*by_name) + ", allow_missing_columns: "@ + bool_text(*allow_missing_columns));
            let ghost out_before = out@;
            out.append("SetOperation { left: ");
            out.append(l.as_str());
            out.append(", right: ");
            out.append(r.as_str());
            out.append(", set_op_type: ");
            out.append(tail.as_str());
            out.append(" }");
            assert(out@ =~= out_before + ("SetOperation { left: "@ + l@ + ", right: "@ + r@ + ", set_op_type: "@ + tail@ + " }"@));
        },
        _ => {},
    }
}

#[verifier::spinoff_prover]
#[verifier::rlimit(100)]
fn push_plan_limit(out: &mut String, p: &LogicalPlan)
    requires
        *p is Limit,
    ensures
        final(out)@ == old(out)@ + plan_debug(*p),
    decreases p, 1int,
{
    match p {
        LogicalPlan::Limit { input, limit } => {
            let ghost out_before = out@;
            out.append("Limit { input: ");
            push_plan(out, &**(input));
            assert(out@ =~= out_before + "Limit { input: "@ + plan_debug(*(*input)));
            out.append(", limit: ");
            push_int_text(out, *(limit) as i64);
            assert(out@ =~= out_before + "Limit { input: "@ + plan_debug(*(*input)) + ", limit: "@ + int_text((*limit) as int));
            out.append(" }");
        },
        _ => {},
    }
}

#[verifier::spinoff_prover]
#[verifier::rlimit(100)]
fn push_plan_offset(out: &mut String, p: &LogicalPlan)
    requires
        *p is Offset,
    ensures
        final(out)@ == old(out)@ + plan_debug(*p),
    decreases p, 1int,
{
    match p {
        LogicalPlan::Offset { input, offset } => {
            let ghost out_before = out@;
            out.append("Offset { input: ");
            push_plan(out, &**(input));
            assert(out@ =~= out_before + "Offset { input: "@ + plan_debug(*(*input)));
            out.append(", offset: ");
            push_int_text(out, *(offset) as i64);
            assert(out@ =~= out_before + "Offset { input: "@ + plan_debug(*(*input)) + ", offset: "@ + int_text((*offset) as int));
            out.append(" }");
        },
        _ => {},
    }
}

#[verifier::spinoff_prover]
#[verifier::rlimit(100)]
fn push_plan_tail(out: &mut String, p: &LogicalPlan)
    requires
        *p is Tail,
    ensures
        final(out)@ == old(out)@ + plan_debug(*p),
    decreases p, 1int,
{
    match p {
        LogicalPlan::Tail { input, limit } => {
            let ghost out_before = out@;
            out.append("Tail { input: ");
            push_plan(out, &**(input));
            assert(out@ =~= out_before + "Tail { input: "@ + plan_debug(*(*input)));
            out.append(", limit: ");
            push_int_text(out, *(limit) as i64);
            assert(out@ =~= out_before + "Tail { input: "@ + plan_debug(*(*input)) + ", limit: "@ + int_text((*limit) as int));
            out.append(" }");
        },
        _ => {},
    }
}

#[verifier::spinoff_prover]
#[verifier::rlimit(100)]
fn push_plan_deduplicate(out: &mut String, p: &LogicalPlan)
    requires
        *p is Deduplicate,
    ensures
        final(out)@ == old(out)@ + plan_debug(*p),
    decreases p, 1int,
{
    match p {
        LogicalPlan::Deduplicate { input, all_columns_as_keys, column_names, within_watermark } => {
            let ghost out_before = out@;
            out.append("Deduplicate { input: ");
            push_plan(out, &**(input));
            assert(out@ =~= out_before + "Deduplicate { input: "@ + plan_debug(*(*input)));
            out.append(", all_columns_as_keys: ");
            push_bool(out, *(all_columns_as_keys));
            assert(out@ =~= out_before + "Deduplicate { input: "@ + plan_debug(*(*input)) + ", all_columns_as_keys: "@ + bool_text((*all_columns_as_keys)));
            out.append(", column_names: ");
            {
                let parts = parts_string(column_names);
                push_list(out, &parts);
            }
            assert(out@ =~= out_before + "Deduplicate { input: "@ + plan_debug(*(*input)) + ", all_columns_as_keys: "@ + bool_text((*all_columns_as_keys)) + ", column_names: "@ + list_debug(debugs_string((*column_names)@)));
            out.append(", within_watermark: ");
            push_bool(out, *(within_watermark));
            assert(out@ =~= out_before + "Deduplicate { input: "@ + plan_debug(*(*input)) + ", all_columns_as_keys: "@ + bool_text((*all_columns_as_keys)) + ", column_names: "@ + list_debug(debugs_string((*column_names)@)) + ", within_watermark: "@ + bool_text((*within_watermark)));
            out.append(" }");
        },
        _ => {},
    }
}

#[verifier::spinoff_prover]
#[verifier::rlimit(100)]
fn push_plan_sort(out: &mut String, p: &LogicalPlan)
    requires
        *p is Sort,
    ensures
        final(out)@ == old(out)@ + plan_debug(*p),
    decreases p, 1int,
{
    match p {
        LogicalPlan::Sort { input, order, is_global } => {
            let ghost out_before = out@;
            out.append("Sort { input: ");
            push_plan(out, &**(input));
            assert(out@ =~= out_before + "Sort { input: "@ + plan_debug(*(*input)));
            out.append(", order: ");
            {
                let parts = parts_expression(order);
                push_list(out, &parts);
            }
            assert(out@ =~= out_before + "Sort { input: "@ + plan_debug(*(*input)) + ", order: "@ + list_debug(debugs_expression((*order)@)));
            out.append(", is_global: ");
            push_bool(out, *(is_global));
            assert(out@ =~= out_before + "Sort { input: "@ + plan_debug(*(*input)) + ", order: "@ + list_debug(debugs_expression((*order)@)) + ", is_global: "@ + bool_text((*is_global)));
            out.append(" }");
        },
        _ => {},
    }
}

#[verifier::spinoff_prover]
#[verifier::rlimit(100)]
fn push_plan_sample(out: &mut String, p: &LogicalPlan)
    requires
        *p is Sample,
    ensures
        final(out)@ == old(out)@ + plan_debug(*p),
    decreases p, 1int,
{
    match p {
        LogicalPlan::Sample { input, lower_bound, upper_bound, with_replacement, seed } => {
            let ghost out_before = out@;
            out.append("Sample { input: ");
            push_plan(out, &**(input));
            assert(out@ =~= out_before + "Sample { input: "@ + plan_debug(*(*input)));
            out.append(", lower_bound: ");
            push_float_debug(out, &(lower_bound).text);
            assert(out@ =~= out_before + "Sample { input: "@ + plan_debug(*(*input)) + ", lower_bound: "@ + float_debug((*lower_bound).text@));
            out.append(", upper_bound: ");
            push_float_debug(out, &(upper_bound).text);
            assert(out@ =~= out_before + "Sample { input: "@ + plan_debug(*(*input)) + ", lower_bound: "@ + float_debug((*lower_bound).text@) + ", upper_bound: "@ + float_debug((*upper_bound).text@));
            out.append(", with_replacement: ");
            push_bool(out, *(with_replacement));
            assert(out@ =~= out_before + "Sample { input: "@ + plan_debug(*(*input)) + ", lower_bound: "@ + float_debug((*lower_bound).text@) + ", upper_bound: "@ + float_debug((*upper_bound).text@) + ", with_replacement: "@ + bool_text((*with_replacement)));
            out.append(", seed: ");
            match seed {
                Some(y) => {
                    out.append("Some(");
                    push_int_text(out, *(y));
                    out.append(")");
                },
                None => out.append("None"),
            }
            assert(out@ =~= out_before + "Sample { input: "@ + plan_debug(*(*input)) + ", lower_bound: "@ + float_debug((*lower_bound).text@) + ", upper_bound: "@ + float_debug((*upper_bound).text@) + ", with_replacement: "@ + bool_text((*with_replacement)) + ", seed: "@ + opt_debug(match (*seed) { Some(y) => Some(int_text(y as int)), None => None }));
            out.append(" }");
        },
        _ => {},
    }
}

#[verifier::spinoff_prover]
#[verifier::rlimit(100)]
fn push_plan_repartition(out: &mut String, p: &LogicalPlan)
    requires
        *p is Repartition,
    ensures
        final(out)@ == old(out)@ + plan_debug(*p),
    decreases p, 1int,
{
    match p {
        LogicalPlan::Repartition { input, num_partitions, shuffle } => {
            let ghost out_before = out@;
            out.append("Repartition { input: ");
            push_plan(out, &**(input));
            assert(out@ =~= out_before + "Repartition { input: "@ + plan_debug(*(*input)));
            out.append(", num_partitions: ");
            push_int_text(out, *(num_partitions) as i64);
            assert(out@ =~= out_before + "Repartition { input: "@ + plan_debug(*(*input)) + ", num_partitions: "@ + int_text((*num_partitions) as int));
            out.append(", shuffle: ");
            push_bool(out, *(shuffle));
            assert(out@ =~= out_before + "Repartition { input: "@ + plan_debug(*(*input)) + ", num_partitions: "@ + int_text((*num_partitions) as int) + ", shuffle: "@ + bool_text((*shuffle)));
            out.append(" }");
        },
        _ => {},
    }
}

#[verifier::spinoff_prover]
#[verifier::rlimit(100)]
fn push_plan_repartitionbyexpression(out: &mut String, p: &LogicalPlan)
    requires
        *p is RepartitionByExpression,
    ensures
        final(out)@ == old(out)@ + plan_debug(*p),
    decreases p, 1int,
{
    match p {
        LogicalPlan::RepartitionByExpression { input, num_partitions, expressions } => {
            let ghost out_before = out@;
            out.append("RepartitionByExpression { input: ");
            push_plan(out, &**(input));
            assert(out@ =~= out_before + "RepartitionByExpression { input: "@ + plan_debug(*(*input)));
            out.append(", num_partitions: ");
            push_int_text(out, *(num_partitions) as i64);
            assert(out@ =~= out_before + "RepartitionByExpression { input: "@ + plan_debug(*(*input)) + ", num_partitions: "@ + int_text((*num_partitions) as int));
            out.append(", expressions: ");
            {
                let parts = parts_expression(expressions);
                push_list(out, &parts);
            }
            assert(out@ =~= out_before + "RepartitionByExpression { input: "@ + plan_debug(*(*input)) + ", num_partitions: "@ + int_text((*num_partitions) as int) + ", expressions: "@ + list_debug(debugs_expression((*expressions)@)));
            out.append(" }");
        },
        _ => {},
    }
}

#[verifier::spinoff_prover]
#[verifier::rlimit(100)]
fn push_plan_withcolumns(out: &mut String, p: &LogicalPlan)
    requires
        *p is WithColumns,
    ensures
        final(out)@ == old(out)@ + plan_debug(*p),
    decreases p, 1int,
{
    match p {
        LogicalPlan::WithColumns { input, column_names, columns } => {
            let ghost out_before = out@;
            out.append("WithColumns { input: ");
            push_plan(out, &**(input));
            assert(out@ =~= out_before + "WithColumns { input: "@ + plan_debug(*(*input)));
            out.append(", column_names: ");
            {
                let parts = parts_string(column_names);
                push_list(out, &parts);
            }
            assert(out@ =~= out_before + "WithColumns { input: "@ + plan_debug(*(*input)) + ", column_names: "@ + list_debug(debugs_string((*column_names)@)));
            out.append(", columns: ");
            {
                let parts = parts_column(columns);
                push_list(out, &parts);
            }
            assert(out@ =~= out_before + "WithColumns { input: "@ + plan_debug(*(*input)) + ", column_names: "@ + list_debug(debugs_string((*column_names)@)) + ", columns: "@ + list_debug(debugs_column((*columns)@)));
            out.append(" }");
        },
        _ => {},
    }
}

#[verifier::spinoff_prover]
#[verifier::rlimit(100)]
fn push_plan_withcolumnsrenamed(out: &mut String, p: &LogicalPlan)
    requires
        *p is WithColumnsRenamed,
    ensures
        final(out)@ == old(out)@ + plan_debug(*p),
    decreases p, 1int,
{
    match p {
        LogicalPlan::WithColumnsRenamed { input, renames } => {
            let ghost out_before = out@;
            out.append("WithColumnsRenamed { input: ");
            push_plan(out, &**(input));
            assert(out@ =~= out_before + "WithColumnsRenamed { input: "@ + plan_debug(*(*input)));
            out.append(", renames: ");
            push_string_map(out, renames);
            assert(out@ =~= out_before + "WithColumnsRenamed { input: "@ + plan_debug(*(*input)) + ", renames: "@ + string_map_debug((*renames)));
            out.append(" }");
        },
        _ => {},
    }
}

#[verifier::spinoff_prover]
#[verifier::rlimit(100)]
fn push_plan_drop(out: &mut String, p: &LogicalPlan)
    requires
        *p is Drop,
    ensures
        final(out)@ == old(out)@ + plan_debug(*p),
    decreases p, 1int,
{
    match p {
        LogicalPlan::Drop { input, columns } => {
            let ghost out_before = out@;
            out.append("Drop { input: ");
            push_plan(out, &**(input));
            assert(out@ =~= out_before + "Drop { input: "@ + plan_debug(*(*input)));
            out.append(", columns: ");
            {
                let parts = parts_string(columns);
                push_list(out, &parts);
            }
            assert(out@ =~= out_before + "Drop { input: "@ + plan_debug(*(*input)) + ", columns: "@ + list_debug(debugs_string((*columns)@)));
            out.append(" }");
        },
        _ => {},
    }
}

#[verifier::spinoff_prover]
#[verifier::rlimit(100)]
fn push_plan_todf(out: &mut String, p: &LogicalPlan)
    requires
        *p is ToDF,
    ensures
        final(out)@ == old(out)@ + plan_debug(*p),
    decreases p, 1int,
{
    match p {
        LogicalPlan::ToDF { input, column_names } => {
            let ghost out_before = out@;
            out.append("ToDF { input: ");
            push_plan(out, &**(input));
            assert(out@ =~= out_before + "ToDF { input: "@ + plan_debug(*(*input)));
            out.append(", column_names: ");
            {
                let parts = parts_string(column_names);
                push_list(out, &parts);
            }
            assert(out@ =~= out_before + "ToDF { input: "@ + plan_debug(*(*input)) + ", column_names: "@ + list_debug(debugs_string((*column_names)@)));
            out.append(" }");
        },
        _ => {},
    }
}

#[verifier::spinoff_prover]
#[verifier::rlimit(100)]
fn push_plan_toschema(out: &mut String, p: &LogicalPlan)
    requires
        *p is ToSchema,
    ensures
        final(out)@ == old(out)@ + plan_debug(*p),
    decreases p, 1int,
{
    match p {
        LogicalPlan::ToSchema { input, schema } => {
            let ghost out_before = out@;
            out.append("ToSchema { input: ");
            push_plan(out, &**(input));
            assert(out@ =~= out_before + "ToSchema { input: "@ + plan_debug(*(*input)));
            out.append(", schema: ");
            push_data_type(out, schema);
            assert(out@ =~= out_before + "ToSchema { input: "@ + plan_debug(*(*input)) + ", schema: "@ + data_type_debug((*schema)));
            out.append(" }");
        },
        _ => {},
    }
}

#[verifier::spinoff_prover]
#[verifier::rlimit(100)]
fn push_plan_hint(out: &mut String, p: &LogicalPlan)
    requires
        *p is Hint,
    ensures
        final(out)@ == old(out)@ + plan_debug(*p),
    decreases p, 1int,
{
    match p {
        LogicalPlan::Hint { input, name, parameters } => {
            let ghost out_before = out@;
            out.append("Hint { input: ");
            push_plan(out, &**(input));
            assert(out@ =~= out_before + "Hint { input: "@ + plan_debug(*(*input)));
            out.append(", name: ");
            push_quoted(out, (name).as_str());
            assert(out@ =~= out_before + "Hint { input: "@ + plan_debug(*(*input)) + ", name: "@ + quoted((*name)@));
            out.append(", parameters: ");
            {
                let parts = parts_string(parameters);
                push_list(out, &parts);
            }
            assert(out@ =~= out_before + "Hint { input: "@ + plan_debug(*(*input)) + ", name: "@ + quoted((*name)@) + ", parameters: "@ + list_debug(debugs_string((*parameters)@)));
            out.append(" }");
        },
        _ => {},
    }
}

#[verifier::spinoff_prover]
#[verifier::rlimit(100)]
fn push_plan_unpivot(out: &mut String, p: &LogicalPlan)
    requires
        *p is Unpivot,
    ensures
        final(out)@ == old(out)@ + plan_debug(*p),
    decreases p, 1int,
{
    match p {
        LogicalPlan::Unpivot { input, ids, values, variable_column_name, value_column_name } => {
            let ghost out_before = out@;
            out.append("Unpivot { input: ");
            push_plan(out, &**(input));
            assert(out@ =~= out_before + "Unpivot { input: "@ + plan_debug(*(*input)));
            out.append(", ids: ");
            {
                let parts = parts_column(ids);
                push_list(out, &parts);
            }
            assert(out@ =~= out_before + "Unpivot { input: "@ + plan_debug(*(*input)) + ", ids: "@ + list_debug(debugs_column((*ids)@)));
            out.append(", values: ");
            match values {
                Some(y) => {
                    out.append("Some(");
                    {
                        let parts = parts_column(y);
                        push_list(out, &parts);
                    }
                    out.append(")");
                },
                None => out.append("None"),
            }
            assert(out@ =~= out_before + "Unpivot { input: "@ + plan_debug(*(*input)) + ", ids: "@ + list_debug(debugs_column((*ids)@)) + ", values: "@ + opt_debug(match (*values) { Some(y) => Some(list_debug(debugs_column(y@))), None => None }));
            out.append(", variable_column_name: ");
            push_quoted(out, (variable_column_name).as_str());
            assert(out@ =~= out_before + "Unpivot { input: "@ + plan_debug(*(*input)) + ", ids: "@ + list_debug(debugs_column((*ids)@)) + ", values: "@ + opt_debug(match (*values) { Some(y) => Some(list_debug(debugs_column(y@))), None => None }) + ", variable_column_name: "@ + quoted((*variable_column_name)@));
            out.append(", value_column_name: ");
            push_quoted(out, (value_column_name).as_str());
            assert(out@ =~= out_before + "Unpivot { input: "@ + plan_debug(*(*input)) + ", ids: "@ + list_debug(debugs_column((*ids)@)) + ", values: "@ + opt_debug(match (*values) { Some(y) => Some(list_debug(debugs_column(y@))), None => None }) + ", variable_column_name: "@ + quoted((*variable_column_name)@) + ", value_column_name: "@ + quoted((*value_column_name)@));
            out.append(" }");
        },
        _ => {},
    }
}

#[verifier::spinoff_prover]
#[verifier::rlimit(100)]
fn push_plan_nafill(out: &mut String, p: &LogicalPlan)
    requires
        *p is NAFill,
    ensures
        final(out)@ == old(out)@ + plan_debug(*p),
    decreases p, 1int,
{
    match p {
        LogicalPlan::NAFill { input, fill_value, columns } => {
            let ghost out_before = out@;
            out.append("NAFill { input: ");
            push_plan(out, &**(input));
            assert(out@ =~= out_before + "NAFill { input: "@ + plan_debug(*(*input)));
            out.append(", fill_value: ");
            push_value(out, fill_value);
            assert(out@ =~= out_before + "NAFill { input: "@ + plan_debug(*(*input)) + ", fill_value: "@ + value_debug((*fill_value)));
            out.append(", columns: ");
            {
                let parts = parts_string(columns);
                push_list(out, &parts);
            }
            assert(out@ =~= out_before + "NAFill { input: "@ + plan_debug(*(*input)) + ", fill_value: "@ + value_debug((*fill_value)) + ", columns: "@ + list_debug(debugs_string((*columns)@)));
            out.append(" }");
        },
        _ => {},
    }
}

#[verifier::spinoff_prover]
#[verifier::rlimit(100)]
fn push_plan_nadrop(out: &mut String, p: &LogicalPlan)
    requires
        *p is NADrop,
    ensures
        final(out)@ == old(out)@ + plan_debug(*p),
    decreases p, 1int,
{
    match p {
        LogicalPlan::NADrop { input, how, min_non_null, columns } => {
            let ghost out_before = out@;
            out.append("NADrop { input: ");
            push_plan(out, &**(input));
            assert(out@ =~= out_before + "NADrop { input: "@ + plan_debug(*(*input)));
            out.append(", how: ");
            push_quoted(out, (how).as_str());
            assert(out@ =~= out_before + "NADrop { input: "@ + plan_debug(*(*input)) + ", how: "@ + quoted((*how)@));
            out.append(", min_non_null: ");
            match min_non_null {
                Some(y) => {
                    out.append("Some(");
                    push_int_text(out, *(y) as i64);
                    out.append(")");
                },
                None => out.append("None"),
            }
            assert(out@ =~= out_before + "NADrop { input: "@ + plan_debug(*(*input)) + ", how: "@ + quoted((*how)@) + ", min_non_null: "@ + opt_debug(match (*min_non_null) { Some(y) => Some(int_text(y as int)), None => None }));
            out.append(", columns: ");
            {
                let parts = parts_string(columns);
                push_list(out, &parts);
            }
            assert(out@ =~= out_before + "NADrop { input: "@ + plan_debug(*(*input)) + ", how: "@ + quoted((*how)@) + ", min_non_null: "@ + opt_debug(match (*min_non_null) { Some(y) => Some(int_text(y as int)), None => None }) + ", columns: "@ + list_debug(debugs_string((*columns)@)));
            out.append(" }");
        },
        _ => {},
    }
}

#[verifier::spinoff_prover]
#[verifier::rlimit(100)]
fn push_plan_nareplace(out: &mut String, p: &LogicalPlan)
    requires
        *p is NAReplace,
    ensures
        final(out)@ == old(out)@ + plan_debug(*p),
    decreases p, 1int,
{
    match p {
        LogicalPlan::NAReplace { input, replacements, columns } => {
            let ghost out_before = out@;
            out.append("NAReplace { input: ");
            push_plan(out, &**(input));
            assert(out@ =~= out_before + "NAReplace { input: "@ + plan_debug(*(*input)));
            out.append(", replacements: ");
            {
                let parts = parts_replacevalue_replacevalue(replacements);
                push_list(out, &parts);
            }
            assert(out@ =~= out_before + "NAReplace { input: "@ + plan_debug(*(*input)) + ", replacements: "@ + list_debug(debugs_replacevalue_replacevalue((*replacements)@)));
            out.append(", columns: ");
            {
                let parts = parts_string(columns);
                push_list(out, &parts);
            }
            assert(out@ =~= out_before + "NAReplace { input: "@ + plan_debug(*(*input)) + ", replacements: "@ + list_debug(debugs_replacevalue_replacevalue((*replacements)@)) + ", columns: "@ + list_debug(debugs_string((*columns)@)));
            out.append(" }");
        },
        _ => {},
    }
}

#[verifier::spinoff_prover]
#[verifier::rlimit(100)]
fn push_plan_describe(out: &mut String, p: &LogicalPlan)
    requires
        *p is Describe,
    ensures
        final(out)@ == old(out)@ + plan_debug(*p),
    decreases p, 1int,
{
    match p {
        LogicalPlan::Describe { input, columns } => {
            let ghost out_before = out@;
            out.append("Describe { input: ");
            push_plan(out, &**(input));
            assert(out@ =~= out_before + "Describe { input: "@ + plan_debug(*(*input)));
            out.append(", columns: ");
            {
                let parts = parts_string(columns);
                push_list(out, &parts);
            }
            assert(out@ =~= out_before + "Describe { input: "@ + plan_debug(*(*input)) + ", columns: "@ + list_debug(debugs_string((*columns)@)));
            out.append(" }");
        },
        _ => {},
    }
}

#[verifier::spinoff_prover]
#[verifier::rlimit(100)]
fn push_plan_summary(out: &mut String, p: &LogicalPlan)
    requires
        *p is Summary,
    ensures
        final(out)@ == old(out)@ + plan_debug(*p),
    decreases p, 1int,
{
    match p {
        LogicalPlan::Summary { input, percentiles } => {
            let ghost out_before = out@;
            out.append("Summary { input: ");
            push_plan(out, &**(input));
            assert(out@ =~= out_before + "Summary { input: "@ + plan_debug(*(*input)));
            out.append(", percentiles: ");
            {
                let parts = parts_string(percentiles);
                push_list(out, &parts);
            }
            assert(out@ =~= out_before + "Summary { input: "@ + plan_debug(*(*input)) + ", percentiles: "@ + list_debug(debugs_string((*percentiles)@)));
            out.append(" }");
        },
        _ => {},
    }
}

#[verifier::spinoff_prover]
#[verifier::rlimit(100)]
fn push_plan_colregex(out: &mut String, p: &LogicalPlan)
    requires
        *p is ColRegex,
    ensures
        final(out)@ == old(out)@ + plan_debug(*p),
    decreases p, 1int,
{
    match p {
        LogicalPlan::ColRegex { input, col_name } => {
            let ghost out_before = out@;
            out.append("ColRegex { input: ");
            push_plan(out, &**(input));
            assert(out@ =~= out_before + "ColRegex { input: "@ + plan_debug(*(*input)));
            out.append(", col_name: ");
            push_quoted(out, (col_name).as_str());
            assert(out@ =~= out_before + "ColRegex { input: "@ + plan_debug(*(*input)) + ", col_name: "@ + quoted((*col_name)@));
            out.append(" }");
        },
        _ => {},
    }
}

#[verifier::spinoff_prover]
#[verifier::rlimit(100)]
fn push_plan_subqueryalias(out: &mut String, p: &LogicalPlan)
    requires
        *p is SubqueryAlias,
    ensures
        final(out)@ == old(out)@ + plan_debug(*p),
    decreases p, 1int,
{
    match p {
        LogicalPlan::SubqueryAlias { input, alias } => {
            let ghost out_before = out@;
            out.append("SubqueryAlias { input: ");
            push_plan(out, &**(input));
            assert(out@ =~= out_before + "SubqueryAlias { input: "@ + plan_debug(*(*input)));
            out.append(", alias: ");
            push_quoted(out, (alias).as_str());
            assert(out@ =~= out_before + "SubqueryAlias { input: "@ + plan_debug(*(*input)) + ", alias: "@ + quoted((*alias)@));
            out.append(" }");
        },
        _ => {},
    }
}

#[verifier::spinoff_prover]
#[verifier::rlimit(100)]
fn push_plan_localrelation(out: &mut String, p: &LogicalPlan)
    requires
        *p is LocalRelation,
    ensures
        final(out)@ == old(out)@ + plan_debug(*p),
    decreases p, 1int,
{
    match p {
        LogicalPlan::LocalRelation { schema, data } => {
            let ghost out_before = out@;
            out.append("LocalRelation { schema: ");
            push_data_type(out, schema);
            assert(out@ =~= out_before + "LocalRelation { schema: "@ + data_type_debug((*schema)));
            out.append(", data: ");
            match data {
                Some(y) => {
                    out.append("Some(");
                    push_bytes(out, y);
                    out.append(")");
                },
                None => out.append("None"),
            }
            assert(out@ =~= out_before + "LocalRelation { schema: "@ + data_type_debug((*schema)) + ", data: "@ + opt_debug(match (*data) { Some(y) => Some(bytes_debug(y@)), None => None }));
            out.append(" }");
        },
        _ => {},
    }
}

#[verifier::spinoff_prover]
#[verifier::rlimit(100)]
fn push_plan_cachedremoterelation(out: &mut String, p: &LogicalPlan)
    requires
        *p is CachedRemoteRelation,
    ensures
        final(out)@ == old(out)@ + plan_debug(*p),
    decreases p, 1int,
{
    match p {
        LogicalPlan::CachedRemoteRelation { relation_id } => {
            let ghost out_before = out@;
            out.append("CachedRemoteRelation { relation_id: ");
            push_quoted(out, (relation_id).as_str());
            assert(out@ =~= out_before + "CachedRemoteRelation { relation_id: "@ + quoted((*relation_id)@));
            out.append(" }");
        },
        _ => {},
    }
}

#[verifier::spinoff_prover]
#[verifier::rlimit(100)]
fn push_plan_read(out: &mut String, p: &LogicalPlan)
    requires
        *p is Read,
    ensures
        final(out)@ == old(out)@ + plan_debug(*p),
    decreases p, 1int,
{
    match p {
        LogicalPlan::Read { read_type, is_streaming } => {
            let ghost out_before = out@;
            out.append("Read { read_type: ");
            push_read_type(out, read_type);
            assert(out@ =~= out_before + "Read { read_type: "@ + read_type_debug((*read_type)));
            out.append(", is_streaming: ");
            push_bool(out, *(is_streaming));
            assert(out@ =~= out_before + "Read { read_type: "@ + read_type_debug((*read_type)) + ", is_streaming: "@ + bool_text((*is_streaming)));
            out.append(" }");
        },
        _ => {},
    }
}

#[verifier::spinoff_prover]
#[verifier::rlimit(100)]
fn push_plan_withwatermark(out: &mut String, p: &LogicalPlan)
    requires
        *p is WithWatermark,
    ensures
        final(out)@ == old(out)@ + plan_debug(*p),
    decreases p, 1int,
{
    match p {
        LogicalPlan::WithWatermark { input, time_column, delay_threshold } => {
            let ghost out_before = out@;
            out.append("WithWatermark { input: ");
            push_plan(out, &**(input));
            assert(out@ =~= out_before + "WithWatermark { input: "@ + plan_debug(*(*input)));
            out.append(", time_column: ");
            push_quoted(out, (time_column).as_str());
            assert(out@ =~= out_before + "WithWatermark { input: "@ + plan_debug(*(*input)) + ", time_column: "@ + quoted((*time_column)@));
            out.append(", delay_threshold: ");
            push_quoted(out, (delay_threshold).as_str());
            assert(out@ =~= out_before + "WithWatermark { input: "@ + plan_debug(*(*input)) + ", time_column: "@ + quoted((*time_column)@) + ", delay_threshold: "@ + quoted((*delay_threshold)@));
            out.append(" }");
        },
        _ => {},
    }
}

#[verifier::spinoff_prover]
#[verifier::rlimit(100)]
fn push_plan_repartitionbyrange(out: &mut String, p: &LogicalPlan)
    requires
        *p is RepartitionByRange,
    ensures
        final(out)@ == old(out)@ + plan_debug(*p),
    decreases p, 1int,
{
    match p {
        LogicalPlan::RepartitionByRange { input, num_partitions, partition_exprs } => {
            let ghost out_before = out@;
            out.append("RepartitionByRange { input: ");
            push_plan(out, &**(input));
            assert(out@ =~= out_before + "RepartitionByRange { input: "@ + plan_debug(*(*input)));
            out.append(", num_partitions: ");
            match num_partitions {
                Some(y) => {
                    out.append("Some(");
                    push_int_text(out, *(y) as i64);
                    out.append(")");
                },
                None => out.append("None"),
            }
            assert(out@ =~= out_before + "RepartitionByRange { input: "@ + plan_debug(*(*input)) + ", num_partitions: "@ + opt_debug(match (*num_partitions) { Some(y) => Some(int_text(y as int)), None => None }));
            out.append(", partition_exprs: ");
            {
                let parts = parts_expression(partition_exprs);
                push_list(out, &parts);
            }
            assert(out@ =~= out_before + "RepartitionByRange { input: "@ + plan_debug(*(*input)) + ", num_partitions: "@ + opt_debug(match (*num_partitions) { Some(y) => Some(int_text(y as int)), None => None }) + ", partition_exprs: "@ + list_debug(debugs_expression((*partition_exprs)@)));
            out.append(" }");
        },
        _ => {},
    }
}

#[verifier::spinoff_prover]
#[verifier::rlimit(100)]
fn push_plan_statcrosstab(out: &mut String, p: &LogicalPlan)
    requires
        *p is StatCrosstab,
    ensures
        final(out)@ == old(out)@ + plan_debug(*p),
    decreases p, 1int,
{
    match p {
        LogicalPlan::StatCrosstab { input, col1, col2 } => {
            let ghost out_before = out@;
            out.append("StatCrosstab { input: ");
            push_plan(out, &**(input));
            assert(out@ =~= out_before + "StatCrosstab { input: "@ + plan_debug(*(*input)));
            out.append(", col1: ");
            push_quoted(out, (col1).as_str());
            assert(out@ =~= out_before + "StatCrosstab { input: "@ + plan_debug(*(*input)) + ", col1: "@ + quoted((*col1)@));
            out.append(", col2: ");
            push_quoted(out, (col2).as_str());
            assert(out@ =~= out_before + "StatCrosstab { input: "@ + plan_debug(*(*input)) + ", col1: "@ + quoted((*col1)@) + ", col2: "@ + quoted((*col2)@));
            out.append(" }");
        },
        _ => {},
    }
}

#[verifier::spinoff_prover]
#[verifier::rlimit(100)]
fn push_plan_statfreqitems(out: &mut String, p: &LogicalPlan)
    requires
        *p is StatFreqItems,
    ensures
        final(out)@ == old(out)@ + plan_debug(*p),
    decreases p, 1int,
{
    match p {
        LogicalPlan::StatFreqItems { input, columns, support } => {
            let ghost out_before = out@;
            out.append("StatFreqItems { input: ");
            push_plan(out, &**(input));
            assert(out@ =~= out_before + "StatFreqItems { input: "@ + plan_debug(*(*input)));
            out.append(", columns: ");
            {
                let parts = parts_string(columns);
                push_list(out, &parts);
            }
            assert(out@ =~= out_before + "StatFreqItems { input: "@ + plan_debug(*(*input)) + ", columns: "@ + list_debug(debugs_string((*columns)@)));
            out.append(", support: ");
            push_float_debug(out, &(support).text);
            assert(out@ =~= out_before + "StatFreqItems { input: "@ + plan_debug(*(*input)) + ", columns: "@ + list_debug(debugs_string((*columns)@)) + ", support: "@ + float_debug((*support).text@));
            out.append(" }");
        },
        _ => {},
    }
}

#[verifier::spinoff_prover]
#[verifier::rlimit(100)]
fn push_plan_statapproxquantile(out: &mut String, p: &LogicalPlan)
    requires
        *p is StatApproxQuantile,
    ensures
        final(out)@ == old(out)@ + plan_debug(*p),
    decreases p, 1int,
{
    match p {
        LogicalPlan::StatApproxQuantile { input, columns, probabilities, relative_error } => {
            let ghost out_before = out@;
            out.append("StatApproxQuantile { input: ");
            push_plan(out, &**(input));
            assert(out@ =~= out_before + "StatApproxQuantile { input: "@ + plan_debug(*(*input)));
            out.append(", columns: ");
            {
                let parts = parts_string(columns);
                push_list(out, &parts);
            }
            assert(out@ =~= out_before + "StatApproxQuantile { input: "@ + plan_debug(*(*input)) + ", columns: "@ + list_debug(debugs_string((*columns)@)));
            out.append(", probabilities: ");
            {
                let parts = parts_float64(probabilities);
                push_list(out, &parts);
            }
            assert(out@ =~= out_before + "StatApproxQuantile { input: "@ + plan_debug(*(*input)) + ", columns: "@ + list_debug(debugs_string((*columns)@)) + ", probabilities: "@ + list_debug(debugs_float64((*probabilities)@)));
            out.append(", relative_error: ");
            push_float_debug(out, &(relative_error).text);
            assert(out@ =~= out_before + "StatApproxQuantile { input: "@ + plan_debug(*(*input)) + ", columns: "@ + list_debug(debugs_string((*columns)@)) + ", probabilities: "@ + list_debug(debugs_float64((*probabilities)@)) + ", relative_error: "@ + float_debug((*relative_error).text@));
            out.append(" }");
        },
        _ => {},
    }
}

#[verifier::spinoff_prover]
#[verifier::rlimit(100)]
fn push_plan_statcorr(out: &mut String, p: &LogicalPlan)
    requires
        *p is StatCorr,
    ensures
        final(out)@ == old(out)@ + plan_debug(*p),
    decreases p, 1int,
{
    match p {
        LogicalPlan::StatCorr { input, col1, col2 } => {
            let ghost out_before = out@;
            out.append("StatCorr { input: ");
            push_plan(out, &**(input));
            assert(out@ =~= out_before + "StatCorr { input: "@ + plan_debug(*(*input)));
            out.append(", col1: ");
            push_quoted(out, (col1).as_str());
            assert(out@ =~= out_before + "StatCorr { input: "@ + plan_debug(*(*input)) + ", col1: "@ + quoted((*col1)@));
            out.append(", col2: ");
            push_quoted(out, (col2).as_str());
            assert(out@ =~= out_before + "StatCorr { input: "@ + plan_debug(*(*input)) + ", col1: "@ + quoted((*col1)@) + ", col2: "@ + quoted((*col2)@));
            out.append(" }");
        },
        _ => {},
    }
}

#[verifier::spinoff_prover]
#[verifier::rlimit(100)]
fn push_plan_statcov(out: &mut String, p: &LogicalPlan)
    requires
        *p is StatCov,
    ensures
        final(out)@ == old(out)@ + plan_debug(*p),
    decreases p, 1int,
{
    match p {
        LogicalPlan::StatCov { input, col1, col2 } => {
            let ghost out_before = out@;
            out.append("StatCov { input: ");
            push_plan(out, &**(input));
            assert(out@ =~= out_before + "StatCov { input: "@ + plan_debug(*(*input)));
            out.append(", col1: ");
            push_quoted(out, (col1).as_str());
            assert(out@ =~= out_before + "StatCov { input: "@ + plan_debug(*(*input)) + ", col1: "@ + quoted((*col1)@));
            out.append(", col2: ");
            push_quoted(out, (col2).as_str());
            assert(out@ =~= out_before + "StatCov { input: "@ + plan_debug(*(*input)) + ", col1: "@ + quoted((*col1)@) + ", col2: "@ + quoted((*col2)@));
            out.append(" }");
        },
        _ => {},
    }
}

#[verifier::spinoff_prover]
#[verifier::rlimit(100)]
fn push_plan_statsampleby(out: &mut String, p: &LogicalPlan)
    requires
        *p is StatSampleBy,
    ensures
        final(out)@ == old(out)@ + plan_debug(*p),
    decreases p, 1int,
{
    match p {
        LogicalPlan::StatSampleBy { input, col, fractions, seed } => {
            let ghost out_before = out@;
            out.append("StatSampleBy { input: ");
            push_plan(out, &**(input));
            assert(out@ =~= out_before + "StatSampleBy { input: "@ + plan_debug(*(*input)));
            out.append(", col: ");
            push_quoted(out, (col).as_str());
            assert(out@ =~= out_before + "StatSampleBy { input: "@ + plan_debug(*(*input)) + ", col: "@ + quoted((*col)@));
            out.append(", fractions: ");
            {
                let parts = parts_expression_float64(fractions);
                push_list(out, &parts);
            }
            assert(out@ =~= out_before + "StatSampleBy { input: "@ + plan_debug(*(*input)) + ", col: "@ + quoted((*col)@) + ", fractions: "@ + list_debug(debugs_expression_float64((*fractions)@)));
            out.append(", seed: ");
            match seed {
                Some(y) => {
                    out.append("Some(");
                    push_int_text(out, *(y));
                    out.append(")");
                },
                None => out.append("None"),
            }
            assert(out@ =~= out_before + "StatSampleBy { input: "@ + plan_debug(*(*input)) + ", col: "@ + quoted((*col)@) + ", fractions: "@ + list_debug(debugs_expression_float64((*fractions)@)) + ", seed: "@ + opt_debug(match (*seed) { Some(y) => Some(int_text(y as int)), None => None }));
            out.append(" }");
        },
        _ => {},
    }
}

#[verifier::spinoff_prover]
#[verifier::rlimit(100)]
fn push_plan_observe(out: &mut String, p: &LogicalPlan)
    requires
        *p is Observe,
    ensures
        final(out)@ == old(out)@ + plan_debug(*p),
    decreases p, 1int,
{
    match p {
        LogicalPlan::Observe { input, name, exprs } => {
            let ghost out_before = out@;
            out.append("Observe { input: ");
            push_plan(out, &**(input));
            assert(out@ =~= out_before + "Observe { input: "@ + plan_debug(*(*input)));
            out.append(", name: ");
            push_quoted(out, (name).as_str());
            assert(out@ =~= out_before + "Observe { input: "@ + plan_debug(*(*input)) + ", name: "@ + quoted((*name)@));
            out.append(", exprs: ");
            {
                let parts = parts_expression(exprs);
                push_list(out, &parts);
            }
            assert(out@ =~= out_before + "Observe { input: "@ + plan_debug(*(*input)) + ", name: "@ + quoted((*name)@) + ", exprs: "@ + list_debug(debugs_expression((*exprs)@)));
            out.append(" }");
        },
        _ => {},
    }
}

#[verifier::spinoff_prover]
#[verifier::rlimit(100)]
fn push_plan_unresolvedtablevaluedfunction(out: &mut String, p: &LogicalPlan)
    requires
        *p is UnresolvedTableValuedFunction,
    ensures
        final(out)@ == old(out)@ + plan_debug(*p),
    decreases p, 1int,
{
    match p {
        LogicalPlan::UnresolvedTableValuedFunction { name, arguments } => {
            let ghost out_before = out@;
            out.append("UnresolvedTableValuedFunction { name: ");
            push_quoted(out, (name).as_str());
            assert(out@ =~= out_before + "UnresolvedTableValuedFunction { name: "@ + quoted((*name)@));
            out.append(", arguments: ");
            {
                let parts = parts_expression(arguments);
                push_list(out, &parts);
            }
            assert(out@ =~= out_before + "UnresolvedTableValuedFunction { name: "@ + quoted((*name)@) + ", arguments: "@ + list_debug(debugs_expression((*arguments)@)));
            out.append(" }");
        },
        _ => {},
    }
}

#[verifier::spinoff_prover]
#[verifier::rlimit(100)]
fn push_plan_zip(out: &mut String, p: &LogicalPlan)
    requires
        *p is Zip,
    ensures
        final(out)@ == old(out)@ + plan_debug(*p),
    decreases p, 1int,
{
    match p {
        LogicalPlan::Zip { left, right } => {
            let ghost out_before = out@;
            out.append("Zip { left: ");
            push_plan(out, &**(left));
            assert(out@ =~= out_before + "Zip { left: "@ + plan_debug(*(*left)));
            out.append(", right: ");
            push_plan(out, &**(right));
            assert(out@ =~= out_before + "Zip { left: "@ + plan_debug(*(*left)) + ", right: "@ + plan_debug(*(*right)));
            out.append(" }");
        },
        _ => {},
    }
}

#[verifier::spinoff_prover]
#[verifier::rlimit(100)]
fn push_plan_nearestbyjoin(out: &mut String, p: &LogicalPlan)
    requires
        *p is NearestByJoin,
    ensures
        final(out)@ == old(out)@ + plan_debug(*p),
    decreases p, 1int,
{
    match p {
        LogicalPlan::NearestByJoin { left, right, ranking_expression, num_results, join_type, mode, direction } => {
            let ghost out_before = out@;
            out.append("NearestByJoin { left: ");
            push_plan(out, &**(left));
            assert(out@ =~= out_before + "NearestByJoin { left: "@ + plan_debug(*(*left)));
            out.append(", right: ");
            push_plan(out, &**(right));
            assert(out@ =~= out_before + "NearestByJoin { left: "@ + plan_debug(*(*left)) + ", right: "@ + plan_debug(*(*right)));
            out.append(", ranking_expression: ");
            push_expr(out, ranking_expression);
            assert(out@ =~= out_before + "NearestByJoin { left: "@ + plan_debug(*(*left)) + ", right: "@ + plan_debug(*(*right)) + ", ranking_expression: "@ + expr_debug((*ranking_expression)));
            out.append(", num_results: ");
            push_int_text(out, *(num_results) as i64);
            assert(out@ =~= out_before + "NearestByJoin { left: "@ + plan_debug(*(*left)) + ", right: "@ + plan_debug(*(*right)) + ", ranking_expression: "@ + expr_debug((*ranking_expression)) + ", num_results: "@ + int_text((*num_results) as int));
            out.append(", join_type: ");
            push_quoted(out, (join_type).as_str());
            assert(out@ =~= out_before + "NearestByJoin { left: "@ + plan_debug(*(*left)) + ", right: "@ + plan_debug(*(*right)) + ", ranking_expression: "@ + expr_debug((*ranking_expression)) + ", num_results: "@ + int_text((*num_results) as int) + ", join_type: "@ + quoted((*join_type)@));
            out.append(", mode: ");
            push_quoted(out, (mode).as_str());
            assert(out@ =~= out_before + "NearestByJoin { left: "@ + plan_debug(*(*left)) + ", right: "@ + plan_debug(*(*right)) + ", ranking_expression: "@ + expr_debug((*ranking_expression)) + ", num_results: "@ + int_text((*num_results) as int) + ", join_type: "@ + quoted((*join_type)@) + ", mode: "@ + quoted((*mode)@));
            out.append(", direction: ");
            push_quoted(out, (direction).as_str());
            assert(out@ =~= out_before + "NearestByJoin { left: "@ + plan_debug(*(*left)) + ", right: "@ + plan_debug(*(*right)) + ", ranking_expression: "@ + expr_debug((*ranking_expression)) + ", num_results: "@ + int_text((*num_results) as int) + ", join_type: "@ + quoted((*join_type)@) + ", mode: "@ + quoted((*mode)@) + ", direction: "@ + quoted((*direction)@));
            out.append(" }");
        },
        _ => {},
    }
}

#[verifier::spinoff_prover]
#[verifier::rlimit(100)]
fn push_plan_commoninlineudtf(out: &mut String, p: &LogicalPlan)
    requires
        *p is CommonInlineUdtf,
    ensures
        final(out)@ == old(out)@ + plan_debug(*p),
    decreases p, 1int,
{
    match p {
        LogicalPlan::CommonInlineUdtf { function_name, deterministic, arguments, return_type, eval_type, command, python_ver } => {
            let ghost out_before = out@;
            out.append("CommonInlineUdtf { function_name: ");
            push_quoted(out, (function_name).as_str());
            assert(out@ =~= out_before + "CommonInlineUdtf { function_name: "@ + quoted((*function_name)@));
            out.append(", deterministic: ");
            push_bool(out, *(deterministic));
            assert(out@ =~= out_before + "CommonInlineUdtf { function_name: "@ + quoted((*function_name)@) + ", deterministic: "@ + bool_text((*deterministic)));
            out.append(", arguments: ");
            {
                let parts = parts_expression(arguments);
                push_list(out, &parts);
            }
            assert(out@ =~= out_before + "CommonInlineUdtf { function_name: "@ + quoted((*function_name)@) + ", deterministic: "@ + bool_text((*deterministic)) + ", arguments: "@ + list_debug(debugs_expression((*arguments)@)));
            out.append(", return_type: ");
            match return_type {
                Some(y) => {
                    out.append("Some(");
                    push_data_type(out, y);
                    out.append(")");
                },
                None => out.append("None"),
            }
            assert(out@ =~= out_before + "CommonInlineUdtf { function_name: "@ + quoted((*function_name)@) + ", deterministic: "@ + bool_text((*deterministic)) + ", arguments: "@ + list_debug(debugs_expression((*arguments)@)) + ", return_type: "@ + opt_debug(match (*return_type) { Some(y) => Some(data_type_debug(y)), None => None }));
            out.append(", eval_type: ");
            push_int_text(out, *(eval_type) as i64);
            assert(out@ =~= out_before + "CommonInlineUdtf { function_name: "@ + quoted((*function_name)@) + ", deterministic: "@ + bool_text((*deterministic)) + ", arguments: "@ + list_debug(debugs_expression((*arguments)@)) + ", return_type: "@ + opt_debug(match (*return_type) { Some(y) => Some(data_type_debug(y)), None => None }) + ", eval_type: "@ + int_text((*eval_type) as int));
            out.append(", command: ");
            push_bytes(out, command);
            assert(out@ =~= out_before + "CommonInlineUdtf { function_name: "@ + quoted((*function_name)@) + ", deterministic: "@ + bool_text((*deterministic)) + ", arguments: "@ + list_debug(debugs_expression((*arguments)@)) + ", return_type: "@ + opt_debug(match (*return_type) { Some(y) => Some(data_type_debug(y)), None => None }) + ", eval_type: "@ + int_text((*eval_type) as int) + ", command: "@ + bytes_debug((*command)@));
            out.append(", python_ver: ");
            push_quoted(out, (python_ver).as_str());
            assert(out@ =~= out_before + "CommonInlineUdtf { function_name: "@ + quoted((*function_name)@) + ", deterministic: "@ + bool_text((*deterministic)) + ", arguments: "@ + list_debug(debugs_expression((*arguments)@)) + ", return_type: "@ + opt_debug(match (*return_type) { Some(y) => Some(data_type_debug(y)), None => None }) + ", eval_type: "@ + int_text((*eval_type) as int) + ", command: "@ + bytes_debug((*command)@) + ", python_ver: "@ + quoted((*python_ver)@));
            out.append(" }");
        },
        _ => {},
    }
}

#[verifier::spinoff_prover]
#[verifier::rlimit(100)]
fn push_plan_catalog(out: &mut String, p: &LogicalPlan)
    requires
        *p is Catalog,
    ensures
        final(out)@ == old(out)@ + plan_debug(*p),
    decreases p, 1int,
{
    match p {
        LogicalPlan::Catalog { catalog } => {
            let ghost out_before = out@;
            out.append("Catalog { catalog: ");
            push_catalog_op(out, catalog);
            assert(out@ =~= out_before + "Catalog { catalog: "@ + catalog_op_debug((*catalog)));
            out.append(" }");
        },
        _ => {},
    }
}

#[verifier::spinoff_prover]
#[verifier::rlimit(100)]
fn push_plan_mltransform(out: &mut String, p: &LogicalPlan)
    requires
        *p is MlTransform,
    ensures
        final(out)@ == old(out)@ + plan_debug(*p),
    decreases p, 1int,
{
    match p {
        LogicalPlan::MlTransform { transformer, input, params } => {
            let ghost out_before = out@;
            out.append("MlTransform { transformer: ");
            push_ml_operator(out, transformer);
            assert(out@ =~= out_before + "MlTransform { transformer: "@ + ml_operator_debug((*transformer)));
            out.append(", input: ");
            push_plan(out, &**(input));
            assert(out@ =~= out_before + "MlTransform { transformer: "@ + ml_operator_debug((*transformer)) + ", input: "@ + plan_debug(*(*input)));
            out.append(", params: ");
            push_params(out, params);
            assert(out@ =~= out_before + "MlTransform { transformer: "@ + ml_operator_debug((*transformer)) + ", input: "@ + plan_debug(*(*input)) + ", params: "@ + params_debug((*params)));
            out.append(" }");
        },
        _ => {},
    }
}

/// Appends the debug text of a `LogicalPlan`.
#[verifier::rlimit(50)]
pub fn push_plan(out: &mut String, p: &LogicalPlan)
    ensures
        final(out)@ == old(out)@ + plan_debug(*p),
    decreases p, 2int,
{
    match p {
        LogicalPlan::Range { .. } => push_plan_range(out, p),
        LogicalPlan::Sql { .. } => push_plan_sql(out, p),
        LogicalPlan::Project { .. } => push_plan_project(out, p),
        LogicalPlan::Filter { .. } => push_plan_filter(out, p),
        LogicalPlan::Aggregate { .. } => push_plan_aggregate(out, p),
        LogicalPlan::Join { .. } => push_plan_join(out, p),
        LogicalPlan::LateralJoin { .. } => push_plan_lateraljoin(out, p),
        LogicalPlan::SetOperation { .. } => push_plan_setoperation(out, p),
        LogicalPlan::Limit { .. } => push_plan_limit(out, p),
        LogicalPlan::Offset { .. } => push_plan_offset(out, p),
        LogicalPlan::Tail { .. } => push_plan_tail(out, p),
        LogicalPlan::Deduplicate { .. } => push_plan_deduplicate(out, p),
        LogicalPlan::Sort { .. } => push_plan_sort(out, p),
        LogicalPlan::Sample { .. } => push_plan_sample(out, p),
        LogicalPlan::Repartition { .. } => push_plan_repartition(out, p),
        LogicalPlan::RepartitionByExpression { .. } => push_plan_repartitionbyexpression(out, p),
        LogicalPlan::WithColumns { .. } => push_plan_withcolumns(out, p),
        LogicalPlan::WithColumnsRenamed { .. } => push_plan_withcolumnsrenamed(out, p),
        LogicalPlan::Drop { .. } => push_plan_drop(out, p),
        LogicalPlan::ToDF { .. } => push_plan_todf(out, p),
        LogicalPlan::ToSchema { .. } => push_plan_toschema(out, p),
        LogicalPlan::Hint { .. } => push_plan_hint(out, p),
        LogicalPlan::Unpivot { .. } => push_plan_unpivot(out, p),
        LogicalPlan::NAFill { .. } => push_plan_nafill(out, p),
        LogicalPlan::NADrop { .. } => push_plan_nadrop(out, p),
        LogicalPlan::NAReplace { .. } => push_plan_nareplace(out, p),
        LogicalPlan::Describe { .. } => push_plan_describe(out, p),
        LogicalPlan::Summary { .. } => push_plan_summary(out, p),
        LogicalPlan::ColRegex { .. } => push_plan_colregex(out, p),
        LogicalPlan::SubqueryAlias { .. } => push_plan_subqueryalias(out, p),
        LogicalPlan::LocalRelation { .. } => push_plan_localrelation(out, p),
        LogicalPlan::CachedRemoteRelation { .. } => push_plan_cachedremoterelation(out, p),
        LogicalPlan::Read { .. } => push_plan_read(out, p),
        LogicalPlan::WithWatermark { .. } => push_plan_withwatermark(out, p),
        LogicalPlan::RepartitionByRange { .. } => push_plan_repartitionbyrange(out, p),
        LogicalPlan::StatCrosstab { .. } => push_plan_statcrosstab(out, p),
        LogicalPlan::StatFreqItems { .. } => push_plan_statfreqitems(out, p),
        LogicalPlan::StatApproxQuantile { .. } => push_plan_statapproxquantile(out, p),
        LogicalPlan::StatCorr { .. } => push_plan_statcorr(out, p),
        LogicalPlan::StatCov { .. } => push_plan_statcov(out, p),
        LogicalPlan::StatSampleBy { .. } => push_plan_statsampleby(out, p),
        LogicalPlan::Observe { .. } => push_plan_observe(out, p),
        LogicalPlan::UnresolvedTableValuedFunction { .. } => push_plan_unresolvedtablevaluedfunction(out, p),
        LogicalPlan::Zip { .. } => push_plan_zip(out, p),
        LogicalPlan::NearestByJoin { .. } => push_plan_nearestbyjoin(out, p),
        LogicalPlan::CommonInlineUdtf { .. } => push_plan_commoninlineudtf(out, p),
        LogicalPlan::Catalog { .. } => push_plan_catalog(out, p),
        LogicalPlan::MlTransform { .. } => push_plan_mltransform(out, p),
    }
}

/// The debug text of a plan, as a new string.
pub fn plan_debug_string(p: &LogicalPlan) -> (s: String)
    ensures
        s@ == plan_debug(*p),
{
    let mut s = String::new();
    push_plan(&mut s, p);
    assert(s@ =~= plan_debug(*p));
    s
}

} // verus!
