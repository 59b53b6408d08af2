//! Logical plans: the relational operators a DataFrame is built from, and
//! their conversion to `spark.connect.Relation` messages.

use vstd::prelude::*;
use std::rc::Rc;
use crate::column::Column;
use crate::expression::{Expression, LiteralExpression, SortOrder, copy_opt_string, copy_strings, expr_to_msg, exprs_to_msgs, exprs_to_proto, literal_to_msg, sort_to_msg};
use crate::options::StringMap;
use crate::proto;
use crate::proto::{ExpressionView, LiteralTypeView, LiteralView, SortOrderView, opt_string_view};
use crate::readwriter::ReadType;
use crate::relation::{opt_literal_view, opt_expr_view, rel_view, rel_type_view, Relation, RelationCommon, RelType, RelationView, RelationCommonView, RelTypeView, PivotView, ColumnAliasView, ReplacementView, ReadSourceView, PythonUdtfView, floats_view, Pivot, GroupingSets, ColumnAlias, Rename, Replacement, Fraction, ReadSource, PythonUdtf};
use crate::row::{Value, value_to_literal};
use crate::text::{owned, parse_i64, parsed_i64, str_eq, strings_view};
use crate::types::{DataType, Float64, type_json};
use crate::catalog::CatalogOp;
use crate::ml::{MlOperator, Params, operator_type_code};

verus! {

/// How an aggregate groups its input.
#[derive(Debug, Clone, Copy, PartialEq, Eq, Structural)]
pub enum AggregateGroupType {
    GroupBy,
    Rollup,
    Cube,
    Pivot,
    GroupingSets,
}

/// The kind of a join.
#[derive(Debug, Clone, Copy, PartialEq, Eq, Structural)]
pub enum JoinType {
    Inner,
    LeftOuter,
    RightOuter,
    FullOuter,
    LeftSemi,
    LeftAnti,
    Cross,
}

/// The kind of a set operation.
#[derive(Debug, Clone, Copy, PartialEq, Eq, Structural)]
pub enum SetOpType {
    Union,
    Intersect,
    Except,
}

/// Parameters of a `transformWithState` operator.
#[derive(Debug)]
pub struct TransformWithStateInfo {
    pub time_mode: String,
    pub event_time_column_name: Option<String>,
    pub output_schema: Option<DataType>,
}

/// A value of a replacement: a number (as a double) or a string.
#[derive(Debug)]
pub enum ReplaceValue {
    Double(Float64),
    Text(String),
}

/// A logical plan node.
#[derive(Debug)]
pub enum LogicalPlan {
    Range { start: i64, end: i64, step: i64, num_partitions: Option<i32> },
    Sql { query: String },
    Project { input: Rc<LogicalPlan>, columns: Vec<Column> },
    Filter { input: Rc<LogicalPlan>, condition: Column },
    Aggregate {
        input: Rc<LogicalPlan>,
        group_type: AggregateGroupType,
        grouping_expressions: Vec<Expression>,
        aggregate_expressions: Vec<Expression>,
        pivot_col: Option<Expression>,
        pivot_values: Vec<Expression>,
        grouping_sets: Vec<Vec<Expression>>,
    },
    Join {
        left: Rc<LogicalPlan>,
        right: Rc<LogicalPlan>,
        join_type: JoinType,
        on: Option<Column>,
        using_columns: Vec<String>,
    },
    LateralJoin { left: Rc<LogicalPlan>, right: Rc<LogicalPlan>, join_type: JoinType, on: Option<Column> },
    SetOperation {
        left: Rc<LogicalPlan>,
        right: Rc<LogicalPlan>,
        set_op_type: SetOpType,
        is_all: bool,
        by_name: bool,
        allow_missing_columns: bool,
    },
    Limit { input: Rc<LogicalPlan>, limit: i32 },
    Offset { input: Rc<LogicalPlan>, offset: i32 },
    Tail { input: Rc<LogicalPlan>, limit: i32 },
    Deduplicate {
        input: Rc<LogicalPlan>,
        all_columns_as_keys: bool,
        column_names: Vec<String>,
        within_watermark: bool,
    },
    Sort { input: Rc<LogicalPlan>, order: Vec<Expression>, is_global: bool },
    Sample {
        input: Rc<LogicalPlan>,
        lower_bound: Float64,
        upper_bound: Float64,
        with_replacement: bool,
        seed: Option<i64>,
    },
    Repartition { input: Rc<LogicalPlan>, num_partitions: i32, shuffle: bool },
    RepartitionByExpression { input: Rc<LogicalPlan>, num_partitions: i32, expressions: Vec<Expression> },
    WithColumns { input: Rc<LogicalPlan>, column_names: Vec<String>, columns: Vec<Column> },
    WithColumnsRenamed { input: Rc<LogicalPlan>, renames: StringMap },
    Drop { input: Rc<LogicalPlan>, columns: Vec<String> },
    ToDF { input: Rc<LogicalPlan>, column_names: Vec<String> },
    ToSchema { input: Rc<LogicalPlan>, schema: DataType },
    Hint { input: Rc<LogicalPlan>, name: String, parameters: Vec<String> },
    Unpivot {
        input: Rc<LogicalPlan>,
        ids: Vec<Column>,
        values: Option<Vec<Column>>,
        variable_column_name: String,
        value_column_name: String,
    },
    NAFill { input: Rc<LogicalPlan>, fill_value: Value, columns: Vec<String> },
    NADrop { input: Rc<LogicalPlan>, how: String, min_non_null: Option<i32>, columns: Vec<String> },
    NAReplace { input: Rc<LogicalPlan>, replacements: Vec<(ReplaceValue, ReplaceValue)>, columns: Vec<String> },
    Describe { input: Rc<LogicalPlan>, columns: Vec<String> },
    Summary { input: Rc<LogicalPlan>, percentiles: Vec<String> },
    ColRegex { input: Rc<LogicalPlan>, col_name: String },
    SubqueryAlias { input: Rc<LogicalPlan>, alias: String },
    LocalRelation { schema: DataType, data: Option<Vec<u8>> },
    CachedRemoteRelation { relation_id: String },
    Read { read_type: ReadType, is_streaming: bool },
    WithWatermark { input: Rc<LogicalPlan>, time_column: String, delay_threshold: String },
    RepartitionByRange { input: Rc<LogicalPlan>, num_partitions: Option<i32>, partition_exprs: Vec<Expression> },
    StatCrosstab { input: Rc<LogicalPlan>, col1: String, col2: String },
    StatFreqItems { input: Rc<LogicalPlan>, columns: Vec<String>, support: Float64 },
    StatApproxQuantile {
        input: Rc<LogicalPlan>,
        columns: Vec<String>,
        probabilities: Vec<Float64>,
        relative_error: Float64,
    },
    StatCorr { input: Rc<LogicalPlan>, col1: String, col2: String },
    StatCov { input: Rc<LogicalPlan>, col1: String, col2: String },
    StatSampleBy { input: Rc<LogicalPlan>, col: String, fractions: Vec<(Expression, Float64)>, seed: Option<i64> },
    Observe { input: Rc<LogicalPlan>, name: String, exprs: Vec<Expression> },
    UnresolvedTableValuedFunction { name: String, arguments: Vec<Expression> },
    Zip { left: Rc<LogicalPlan>, right: Rc<LogicalPlan> },
    NearestByJoin {
        left: Rc<LogicalPlan>,
        right: Rc<LogicalPlan>,
        ranking_expression: Expression,
        num_results: i32,
        join_type: String,
        mode: String,
        direction: String,
    },
    CommonInlineUdtf {
        function_name: String,
        deterministic: bool,
        arguments: Vec<Expression>,
        return_type: Option<DataType>,
        eval_type: i32,
        command: Vec<u8>,
        python_ver: String,
    },
    Catalog { catalog: CatalogOp },
    /// An ML transform: `transformer` applied to `input` with `params`.
    MlTransform { transformer: MlOperator, input: Rc<LogicalPlan>, params: Params },
}

// ---------------------------------------------------------------------------
// The relation of a plan
// ---------------------------------------------------------------------------

/// The wire code of a group type.
pub open spec fn group_type_code(g: AggregateGroupType) -> i32 {
    match g {
        AggregateGroupType::GroupBy => 1,
        AggregateGroupType::Rollup => 2,
        AggregateGroupType::Cube => 3,
        AggregateGroupType::Pivot => 4,
        AggregateGroupType::GroupingSets => 5,
    }
}

/// Aggregate groupings go on the wire with the protocol's codes: group-by
/// 1, rollup 2, cube 3, pivot 4, grouping sets 5.
pub proof fn law_group_type_wire_codes()
    ensures
        group_type_code(AggregateGroupType::GroupBy) == 1,
        group_type_code(AggregateGroupType::Rollup) == 2,
        group_type_code(AggregateGroupType::Cube) == 3,
        group_type_code(AggregateGroupType::Pivot) == 4,
        group_type_code(AggregateGroupType::GroupingSets) == 5,
{
}

/// The wire code of a join type.
pub open spec fn join_type_code(j: JoinType) -> i32 {
    match j {
        JoinType::Inner => 1,
        JoinType::FullOuter => 2,
        JoinType::LeftOuter => 3,
        JoinType::RightOuter => 4,
        JoinType::LeftAnti => 5,
        JoinType::LeftSemi => 6,
        JoinType::Cross => 7,
    }
}

/// Join types go on the wire with the protocol's codes: inner 1, full outer
/// 2, left outer 3, right outer 4, left anti 5, left semi 6, cross 7.
pub proof fn law_join_type_wire_codes()
    ensures
        join_type_code(JoinType::Inner) == 1,
        join_type_code(JoinType::FullOuter) == 2,
        join_type_code(JoinType::LeftOuter) == 3,
        join_type_code(JoinType::RightOuter) == 4,
        join_type_code(JoinType::LeftAnti) == 5,
        join_type_code(JoinType::LeftSemi) == 6,
        join_type_code(JoinType::Cross) == 7,
{
}

/// The wire code of a set operation type.
pub open spec fn set_op_code(s: SetOpType) -> i32 {
    match s {
        SetOpType::Intersect => 1,
        SetOpType::Union => 2,
        SetOpType::Except => 3,
    }
}

/// Set operations go on the wire with the protocol's codes: intersect 1,
/// union 2, except 3.
pub proof fn law_set_op_wire_codes()
    ensures
        set_op_code(SetOpType::Intersect) == 1,
        set_op_code(SetOpType::Union) == 2,
        set_op_code(SetOpType::Except) == 3,
{
}

/// The messages of a list of columns.
pub open spec fn columns_to_msgs(s: Seq<Column>) -> Seq<ExpressionView> {
    s.map_values(|c: Column| expr_to_msg(c.expr))
}

/// The literal of each expression message that is a literal, in order.
pub open spec fn literal_msgs(s: Seq<ExpressionView>) -> Seq<LiteralView>
    decreases s.len(),
{
    if s.len() == 0 {
        Seq::empty()
    } else {
        literal_msgs(s.drop_last()) + match s.last() {
            ExpressionView::Literal(l) => seq![l],
            _ => Seq::empty(),
        }
    }
}

/// The sort order an ordering expression stands for: a sort order as it is,
/// any other expression ascending with nulls first.
pub open spec fn sort_entry(e: Expression) -> SortOrderView {
    match e {
        Expression::SortOrder(so) => sort_to_msg(*so),
        _ => SortOrderView { child: Box::new(expr_to_msg(e)), direction: 1, null_ordering: 1 },
    }
}

/// A hint parameter: an integer text becomes a long literal, anything else a
/// string literal.
pub open spec fn hint_param(p: Seq<char>) -> ExpressionView {
    match parsed_i64(p) {
        Some(n) => ExpressionView::Literal(literal_to_msg(LiteralExpression::Long(n))),
        None => ExpressionView::Literal(LiteralView { literal_type: Some(LiteralTypeView::String(p)) }),
    }
}

/// The literal of a replacement value.
pub open spec fn replace_literal(v: ReplaceValue) -> LiteralView {
    LiteralView {
        literal_type: Some(
            match v {
                ReplaceValue::Double(f) => LiteralTypeView::Double(f@),
                ReplaceValue::Text(s) => LiteralTypeView::String(s@),
            },
        ),
    }
}

/// `min_non_nulls` of a drop of missing values: an explicit threshold wins,
/// otherwise `how = "all"` means 1 and anything else leaves it unset.
pub open spec fn min_non_nulls(how: Seq<char>, thresh: Option<i32>) -> Option<i32> {
    match thresh {
        Some(m) => Some(m),
        None => if how == "all"@ { Some(1) } else { None },
    }
}

/// The stratum of a sample-by fraction: the literal its expression is, if any.
pub open spec fn stratum_of(e: Expression) -> Option<LiteralView> {
    match expr_to_msg(e) {
        ExpressionView::Literal(l) => Some(l),
        _ => None,
    }
}

/// The relation message of a read.
pub open spec fn read_msg(r: ReadType) -> ReadSourceView {
    match r {
        ReadType::DataSource { format, schema, options, paths, predicates, source_name } =>
            ReadSourceView::DataSource {
                format: opt_string_view(format),
                schema: opt_string_view(schema),
                options: options.entries_view(),
                paths: strings_view(paths@),
                predicates: strings_view(predicates@),
                source_name: opt_string_view(source_name),
            },
        ReadType::NamedTable { table_name, options } => ReadSourceView::NamedTable {
            unparsed_identifier: table_name@,
            options: options.entries_view(),
        },
    }
}

/// The relation message of a plan. Every node carries a `common` part
/// without a plan id; ids are assigned later.
pub open spec fn plan_rel(p: LogicalPlan) -> RelationView
    decreases p, 1int,
{
    RelationView { common: Some(RelationCommonView { plan_id: None }), rel_type: Some(plan_rel_type(p)) }
}

/// The relation kind of a plan's message.
pub open spec fn plan_rel_type(p: LogicalPlan) -> RelTypeView
    decreases p, 0int,
{
    match p {
        LogicalPlan::Range { start, end, step, num_partitions } =>
            RelTypeView::Range { start: Some(start), end, step, num_partitions },
        LogicalPlan::Sql { query } => RelTypeView::Sql { query: query@ },
        LogicalPlan::Project { input, columns } => RelTypeView::Project {
            input: Some(Box::new(plan_rel(*input))),
            expressions: columns_to_msgs(columns@),
        },
        LogicalPlan::Filter { input, condition } => RelTypeView::Filter {
            input: Some(Box::new(plan_rel(*input))),
            condition: Some(expr_to_msg(condition.expr)),
        },
        LogicalPlan::Aggregate { input, group_type, grouping_expressions, aggregate_expressions, pivot_col, pivot_values, grouping_sets } =>
            RelTypeView::Aggregate {
                input: Some(Box::new(plan_rel(*input))),
                group_type: group_type_code(group_type),
                grouping_expressions: exprs_to_msgs(grouping_expressions@),
                aggregate_expressions: exprs_to_msgs(aggregate_expressions@),
                pivot: match pivot_col {
                    Some(c) => Some(PivotView {
                        col: Some(expr_to_msg(c)),
                        values: literal_msgs(exprs_to_msgs(pivot_values@)),
                    }),
                    None => None,
                },
                grouping_sets: grouping_sets@.map_values(|g: Vec<Expression>| exprs_to_msgs(g@)),
            },
        LogicalPlan::Join { left, right, join_type, on, using_columns } => RelTypeView::Join {
            left: Some(Box::new(plan_rel(*left))),
            right: Some(Box::new(plan_rel(*right))),
            join_condition: match on {
                Some(c) => Some(expr_to_msg(c.expr)),
                None => None,
            },
            join_type: join_type_code(join_type),
            using_columns: strings_view(using_columns@),
        },
        LogicalPlan::LateralJoin { left, right, join_type, on } => RelTypeView::LateralJoin {
            left: Some(Box::new(plan_rel(*left))),
            right: Some(Box::new(plan_rel(*right))),
            join_condition: match on {
                Some(c) => Some(expr_to_msg(c.expr)),
                None => None,
            },
            join_type: join_type_code(join_type),
        },
        LogicalPlan::SetOperation { left, right, set_op_type, is_all, by_name, allow_missing_columns } =>
            RelTypeView::SetOp {
                left_input: Some(Box::new(plan_rel(*left))),
                right_input: Some(Box::new(plan_rel(*right))),
                set_op_type: set_op_code(set_op_type),
                is_all: Some(is_all),
                by_name: Some(by_name),
                allow_missing_columns: Some(allow_missing_columns),
            },
        LogicalPlan::Limit { input, limit } => RelTypeView::Limit { input: Some(Box::new(plan_rel(*input))), limit },
        LogicalPlan::Offset { input, offset } => RelTypeView::Offset { input: Some(Box::new(plan_rel(*input))), offset },
        LogicalPlan::Tail { input, limit } => RelTypeView::Tail { input: Some(Box::new(plan_rel(*input))), limit },
        LogicalPlan::Deduplicate { input, all_columns_as_keys, column_names, within_watermark } =>
            RelTypeView::Deduplicate {
                input: Some(Box::new(plan_rel(*input))),
                column_names: strings_view(column_names@),
                all_columns_as_keys: Some(all_columns_as_keys),
                within_watermark: Some(within_watermark),
            },
        LogicalPlan::Sort { input, order, is_global } => RelTypeView::Sort {
            input: Some(Box::new(plan_rel(*input))),
            order: order@.map_values(|e: Expression| sort_entry(e)),
            is_global: Some(is_global),
        },
        LogicalPlan::Sample { input, lower_bound, upper_bound, with_replacement, seed } => RelTypeView::Sample {
            input: Some(Box::new(plan_rel(*input))),
            lower_bound: lower_bound@,
            upper_bound: upper_bound@,
            with_replacement: Some(with_replacement),
            seed,
        },
        LogicalPlan::Repartition { input, num_partitions, shuffle } => RelTypeView::Repartition {
            input: Some(Box::new(plan_rel(*input))),
            num_partitions,
            shuffle: Some(shuffle),
        },
        LogicalPlan::RepartitionByExpression { input, num_partitions, expressions } =>
            RelTypeView::RepartitionByExpression {
                input: Some(Box::new(plan_rel(*input))),
                partition_exprs: exprs_to_msgs(expressions@),
                num_partitions: Some(num_partitions),
            },
        LogicalPlan::WithColumns { input, column_names, columns } => RelTypeView::WithColumns {
            input: Some(Box::new(plan_rel(*input))),
            aliases: Seq::new(
                if column_names@.len() <= columns@.len() { column_names@.len() } else { columns@.len() },
                |i: int| ColumnAliasView { expr: expr_to_msg(columns@[i].expr), name: seq![column_names@[i]@] },
            ),
        },
        LogicalPlan::WithColumnsRenamed { input, renames } => RelTypeView::WithColumnsRenamed {
            input: Some(Box::new(plan_rel(*input))),
            renames: renames.entries_view(),
        },
        LogicalPlan::Drop { input, columns } => RelTypeView::Drop {
            input: Some(Box::new(plan_rel(*input))),
            column_names: strings_view(columns@),
        },
        LogicalPlan::ToDF { input, column_names } => RelTypeView::ToDf {
            input: Some(Box::new(plan_rel(*input))),
            column_names: strings_view(column_names@),
        },
        LogicalPlan::ToSchema { input, schema } => RelTypeView::ToSchema {
            input: Some(Box::new(plan_rel(*input))),
            schema: Some(schema@),
        },
        LogicalPlan::Hint { input, name, parameters } => RelTypeView::Hint {
            input: Some(Box::new(plan_rel(*input))),
            name: name@,
            parameters: parameters@.map_values(|p: String| hint_param(p@)),
        },
        LogicalPlan::Unpivot { input, ids, values, variable_column_name, value_column_name } => RelTypeView::Unpivot {
            input: Some(Box::new(plan_rel(*input))),
            ids: columns_to_msgs(ids@),
            values: match values {
                Some(v) => Some(columns_to_msgs(v@)),
                None => None,
            },
            variable_column_name: variable_column_name@,
            value_column_name: value_column_name@,
        },
        LogicalPlan::NAFill { input, fill_value, columns } => RelTypeView::FillNa {
            input: Some(Box::new(plan_rel(*input))),
            cols: strings_view(columns@),
            values: seq![value_to_literal(fill_value)],
        },
        LogicalPlan::NADrop { input, how, min_non_null, columns } => RelTypeView::DropNa {
            input: Some(Box::new(plan_rel(*input))),
            cols: strings_view(columns@),
            min_non_nulls: min_non_nulls(how@, min_non_null),
        },
        LogicalPlan::NAReplace { input, replacements, columns } => RelTypeView::Replace {
            input: Some(Box::new(plan_rel(*input))),
            cols: strings_view(columns@),
            replacements: replacements@.map_values(|r: (ReplaceValue, ReplaceValue)| ReplacementView {
                old_value: Some(replace_literal(r.0)),
                new_value: Some(replace_literal(r.1)),
            }),
        },
        LogicalPlan::Describe { input, columns } => RelTypeView::Describe {
            input: Some(Box::new(plan_rel(*input))),
            cols: strings_view(columns@),
        },
        LogicalPlan::Summary { input, percentiles } => RelTypeView::Summary {
            input: Some(Box::new(plan_rel(*input))),
            statistics: strings_view(percentiles@),
        },
        LogicalPlan::ColRegex { input, col_name } => RelTypeView::Project {
            input: Some(Box::new(plan_rel(*input))),
            expressions: seq![ExpressionView::UnresolvedRegex { col_name: col_name@, plan_id: None }],
        },
        LogicalPlan::SubqueryAlias { input, alias } => RelTypeView::SubqueryAlias {
            input: Some(Box::new(plan_rel(*input))),
            alias: alias@,
        },
        LogicalPlan::LocalRelation { schema, data } => RelTypeView::LocalRelation {
            data: match data {
                Some(d) => Some(d@),
                None => None,
            },
            schema: Some(type_json(schema@)),
        },
        LogicalPlan::CachedRemoteRelation { relation_id } => RelTypeView::CachedRemoteRelation { relation_id: relation_id@ },
        LogicalPlan::Read { read_type, is_streaming } => RelTypeView::Read { is_streaming, read_type: Some(read_msg(read_type)) },
        LogicalPlan::WithWatermark { input, time_column, delay_threshold } => RelTypeView::WithWatermark {
            input: Some(Box::new(plan_rel(*input))),
            event_time: time_column@,
            delay_threshold: delay_threshold@,
        },
        LogicalPlan::RepartitionByRange { input, num_partitions, partition_exprs } =>
            RelTypeView::RepartitionByExpression {
                input: Some(Box::new(plan_rel(*input))),
                partition_exprs: exprs_to_msgs(partition_exprs@),
                num_partitions,
            },
        LogicalPlan::StatCrosstab { input, col1, col2 } => RelTypeView::Crosstab {
            input: Some(Box::new(plan_rel(*input))),
            col1: col1@,
            col2: col2@,
        },
        LogicalPlan::StatFreqItems { input, columns, support } => RelTypeView::FreqItems {
            input: Some(Box::new(plan_rel(*input))),
            cols: strings_view(columns@),
            support: Some(support@),
        },
        LogicalPlan::StatApproxQuantile { input, columns, probabilities, relative_error } =>
            RelTypeView::ApproxQuantile {
                input: Some(Box::new(plan_rel(*input))),
                cols: strings_view(columns@),
                probabilities: floats_view(probabilities@),
                relative_error: relative_error@,
            },
        LogicalPlan::StatCorr { input, col1, col2 } => RelTypeView::Corr {
            input: Some(Box::new(plan_rel(*input))),
            col1: col1@,
            col2: col2@,
        },
        LogicalPlan::StatCov { input, col1, col2 } => RelTypeView::Cov {
            input: Some(Box::new(plan_rel(*input))),
            col1: col1@,
            col2: col2@,
        },
        LogicalPlan::StatSampleBy { input, col, fractions, seed } => RelTypeView::SampleBy {
            input: Some(Box::new(plan_rel(*input))),
            col: Some(ExpressionView::UnresolvedAttribute { unparsed_identifier: col@, plan_id: None, is_metadata_column: None }),
            fractions: fractions@.map_values(|f: (Expression, Float64)| stratum_of(f.0)),
            seed,
        },
        LogicalPlan::Observe { input, name, exprs } => RelTypeView::CollectMetrics {
            input: Some(Box::new(plan_rel(*input))),
            name: name@,
            metrics: exprs_to_msgs(exprs@),
        },
        LogicalPlan::UnresolvedTableValuedFunction { name, arguments } => RelTypeView::UnresolvedTableValuedFunction {
            function_name: name@,
            arguments: exprs_to_msgs(arguments@),
        },
        LogicalPlan::Zip { left, right } => RelTypeView::Zip {
            left: Some(Box::new(plan_rel(*left))),
            right: Some(Box::new(plan_rel(*right))),
        },
        LogicalPlan::NearestByJoin { left, right, ranking_expression, num_results, join_type, mode, direction } =>
            RelTypeView::NearestByJoin {
                left: Some(Box::new(plan_rel(*left))),
                right: Some(Box::new(plan_rel(*right))),
                ranking_expression: Some(expr_to_msg(ranking_expression)),
                num_results,
                join_type: join_type@,
                mode: mode@,
                direction: direction@,
            },
        LogicalPlan::CommonInlineUdtf { function_name, deterministic, arguments, return_type, eval_type, command, python_ver } =>
            RelTypeView::CommonInlineUserDefinedTableFunction {
                function_name: function_name@,
                deterministic,
                arguments: exprs_to_msgs(arguments@),
                python_udtf: PythonUdtfView {
                    return_type: match return_type {
                        Some(d) => Some(d@),
                        None => None,
                    },
                    eval_type,
                    command: command@,
                    python_ver: python_ver@,
                },
            },
        LogicalPlan::Catalog { catalog } => RelTypeView::Catalog(catalog@),
        LogicalPlan::MlTransform { transformer, input, params } => RelTypeView::MlRelation {
            transformer: (transformer.name@, transformer.uid@, operator_type_code(transformer.op_type)),
            input: Some(Box::new(plan_rel(*input))),
            params: params.entries(),
        },
    }
}

// ---------------------------------------------------------------------------
// Building the relation
// ---------------------------------------------------------------------------

fn columns_to_proto(v: &Vec<Column>) -> (r: Vec<proto::Expression>)
    ensures
        proto::expr_msgs_view(r@) == columns_to_msgs(v@),
{
    let mut r: Vec<proto::Expression> = Vec::new();
    let mut i: usize = 0;
    while i < v.len()
        invariant
            i <= v.len(),
            r@.len() == i,
            forall|j: int| 0 <= j < i ==> #[trigger] r@[j]@ == expr_to_msg(v@[j].expr),
        decreases v.len() - i,
    {
        r.push(v[i].to_proto());
        i = i + 1;
    }
    assert forall|j: int| 0 <= j < r@.len() implies #[trigger] proto::expr_msgs_view(r@)[j] == columns_to_msgs(v@)[j] by {
        assert(r@[j]@ == expr_to_msg(v@[j].expr));
    }
    assert(proto::expr_msgs_view(r@) =~= columns_to_msgs(v@));
    r
}

fn pivot_literals(v: &Vec<Expression>) -> (r: Vec<proto::Literal>)
    ensures
        proto::literals_view(r@) == literal_msgs(exprs_to_msgs(v@)),
{
    let ghost ms = exprs_to_msgs(v@);
    let mut r: Vec<proto::Literal> = Vec::new();
    let mut i: usize = 0;
    while i < v.len()
        invariant
            i <= v.len(),
            ms == exprs_to_msgs(v@),
            proto::literals_view(r@) == literal_msgs(ms.take(i as int)),
        decreases v.len() - i,
    {
        let m = v[i].to_proto();
        assert(ms.take(i as int + 1).drop_last() =~= ms.take(i as int));
        assert(ms.take(i as int + 1).last() == m@);
        match m {
            proto::Expression::Literal(l) => {
                let ghost before = r@;
                r.push(l);
                assert(proto::literals_view(r@) =~= proto::literals_view(before) + seq![l@]);
            },
            _ => {},
        }
        i = i + 1;
    }
    assert(ms.take(v.len() as int) =~= ms);
    r
}

fn grouping_sets_to_proto(v: &Vec<Vec<Expression>>) -> (r: Vec<GroupingSets>)
    ensures
        r@.map_values(|g: GroupingSets| proto::expr_msgs_view(g.grouping_set@))
            == v@.map_values(|g: Vec<Expression>| exprs_to_msgs(g@)),
{
    let mut r: Vec<GroupingSets> = Vec::new();
    let mut i: usize = 0;
    while i < v.len()
        invariant
            i <= v.len(),
            r@.len() == i,
            forall|j: int| 0 <= j < i ==> #[trigger] proto::expr_msgs_view(r@[j].grouping_set@) == exprs_to_msgs(v@[j]@),
        decreases v.len() - i,
    {
        r.push(GroupingSets { grouping_set: exprs_to_proto(&v[i]) });
        i = i + 1;
    }
    assert(r@.map_values(|g: GroupingSets| proto::expr_msgs_view(g.grouping_set@))
        =~= v@.map_values(|g: Vec<Expression>| exprs_to_msgs(g@)));
    r
}

fn sort_entries(v: &Vec<Expression>) -> (r: Vec<proto::SortOrder>)
    ensures
        proto::sort_msgs_view(r@) == v@.map_values(|e: Expression| sort_entry(e)),
{
    let mut r: Vec<proto::SortOrder> = Vec::new();
    let mut i: usize = 0;
    while i < v.len()
        invariant
            i <= v.len(),
            r@.len() == i,
            forall|j: int| 0 <= j < i ==> #[trigger] r@[j]@ == sort_entry(v@[j]),
        decreases v.len() - i,
    {
        let m = match &v[i] {
            Expression::SortOrder(so) => so.to_proto_sort_order(),
            e => proto::SortOrder { child: Box::new(e.to_proto()), direction: 1, null_ordering: 1 },
        };
        r.push(m);
        i = i + 1;
    }
    assert forall|j: int| 0 <= j < r@.len() implies #[trigger] proto::sort_msgs_view(r@)[j] == v@.map_values(|e: Expression| sort_entry(e))[j] by {
        assert(r@[j]@ == sort_entry(v@[j]));
    }
    assert(proto::sort_msgs_view(r@) =~= v@.map_values(|e: Expression| sort_entry(e)));
    r
}

fn hint_params(v: &Vec<String>) -> (r: Vec<proto::Expression>)
    ensures
        proto::expr_msgs_view(r@) == v@.map_values(|p: String| hint_param(p@)),
{
    let mut r: Vec<proto::Expression> = Vec::new();
    let mut i: usize = 0;
    while i < v.len()
        invariant
            i <= v.len(),
            r@.len() == i,
            forall|j: int| 0 <= j < i ==> #[trigger] r@[j]@ == hint_param(v@[j]@),
        decreases v.len() - i,
    {
        let m = match parse_i64(v[i].as_str()) {
            Some(n) => LiteralExpression::long(n).to_proto(),
            None => LiteralExpression::String(v[i].clone()).to_proto(),
        };
        r.push(m);
        i = i + 1;
    }
    assert forall|j: int| 0 <= j < r@.len() implies #[trigger] proto::expr_msgs_view(r@)[j] == v@.map_values(|p: String| hint_param(p@))[j] by {
        assert(r@[j]@ == hint_param(v@[j]@));
    }
    assert(proto::expr_msgs_view(r@) =~= v@.map_values(|p: String| hint_param(p@)));
    r
}

fn replace_literal_msg(v: &ReplaceValue) -> (l: proto::Literal)
    ensures
        l@ == replace_literal(*v),
{
    let t = match v {
        ReplaceValue::Double(f) => proto::LiteralType::Double(f.copy()),
        ReplaceValue::Text(s) => proto::LiteralType::String(s.clone()),
    };
    proto::Literal { literal_type: Some(t) }
}

fn replacements_to_proto(v: &Vec<(ReplaceValue, ReplaceValue)>) -> (r: Vec<Replacement>)
    ensures
        r@.map_values(|x: Replacement| ReplacementView {
            old_value: opt_literal_view(x.old_value),
            new_value: opt_literal_view(x.new_value),
        }) == v@.map_values(|x: (ReplaceValue, ReplaceValue)| ReplacementView {
            old_value: Some(replace_literal(x.0)),
            new_value: Some(replace_literal(x.1)),
        }),
{
    let mut r: Vec<Replacement> = Vec::new();
    let mut i: usize = 0;
    while i < v.len()
        invariant
            i <= v.len(),
            r@.len() == i,
            forall|j: int| 0 <= j < i ==> #[trigger] opt_literal_view(r@[j].old_value) == Some(replace_literal(v@[j].0))
                && opt_literal_view(r@[j].new_value) == Some(replace_literal(v@[j].1)),
        decreases v.len() - i,
    {
        let o = replace_literal_msg(&v[i].0);
        let n = replace_literal_msg(&v[i].1);
        r.push(Replacement { old_value: Some(o), new_value: Some(n) });
        i = i + 1;
    }
    assert(r@.map_values(|x: Replacement| ReplacementView {
        old_value: opt_literal_view(x.old_value),
        new_value: opt_literal_view(x.new_value),
    }) =~= v@.map_values(|x: (ReplaceValue, ReplaceValue)| ReplacementView {
        old_value: Some(replace_literal(x.0)),
        new_value: Some(replace_literal(x.1)),
    }));
    r
}

fn fractions_to_proto(v: &Vec<(Expression, Float64)>) -> (r: Vec<Fraction>)
    ensures
        r@.map_values(|f: Fraction| opt_literal_view(f.stratum))
            == v@.map_values(|f: (Expression, Float64)| stratum_of(f.0)),
{
    let mut r: Vec<Fraction> = Vec::new();
    let mut i: usize = 0;
    while i < v.len()
        invariant
            i <= v.len(),
            r@.len() == i,
            forall|j: int| 0 <= j < i ==> #[trigger] opt_literal_view(r@[j].stratum) == stratum_of(v@[j].0),
        decreases v.len() - i,
    {
        let m = v[i].0.to_proto();
        let stratum = match m {
            proto::Expression::Literal(l) => Some(l),
            _ => None,
        };
        r.push(Fraction { stratum });
        i = i + 1;
    }
    assert(r@.map_values(|f: Fraction| opt_literal_view(f.stratum))
        =~= v@.map_values(|f: (Expression, Float64)| stratum_of(f.0)));
    r
}

fn copy_floats(v: &Vec<Float64>) -> (r: Vec<Float64>)
    ensures
        floats_view(r@) == floats_view(v@),
{
    let mut r: Vec<Float64> = Vec::new();
    let mut i: usize = 0;
    while i < v.len()
        invariant
            i <= v.len(),
            r@.len() == i,
            forall|j: int| 0 <= j < i ==> #[trigger] r@[j]@ == v@[j]@,
        decreases v.len() - i,
    {
        r.push(v[i].copy());
        i = i + 1;
    }
    assert(floats_view(r@) =~= floats_view(v@));
    r
}

fn column_aliases(names: &Vec<String>, cols: &Vec<Column>) -> (r: Vec<ColumnAlias>)
    ensures
        r@.map_values(|a: ColumnAlias| ColumnAliasView { expr: proto::expr_msg_view(a.expr), name: strings_view(a.name@) })
            == Seq::new(
                if names@.len() <= cols@.len() { names@.len() } else { cols@.len() },
                |i: int| ColumnAliasView { expr: expr_to_msg(cols@[i].expr), name: seq![names@[i]@] },
            ),
{
    let n = if names.len() <= cols.len() { names.len() } else { cols.len() };
    let mut r: Vec<ColumnAlias> = Vec::new();
    let mut i: usize = 0;
    while i < n
        invariant
            i <= n,
            n <= names@.len(),
            n <= cols@.len(),
            r@.len() == i,
            forall|j: int| 0 <= j < i ==> #[trigger] proto::expr_msg_view(r@[j].expr) == expr_to_msg(cols@[j].expr)
                && strings_view(r@[j].name@) == seq![names@[j]@],
        decreases n - i,
    {
        let mut name: Vec<String> = Vec::new();
        name.push(names[i].clone());
        assert(strings_view(name@) =~= seq![names@[i as int]@]);
        r.push(ColumnAlias { expr: cols[i].to_proto(), name });
        i = i + 1;
    }
    assert(r@.map_values(|a: ColumnAlias| ColumnAliasView { expr: proto::expr_msg_view(a.expr), name: strings_view(a.name@) })
        =~= Seq::new(
            if names@.len() <= cols@.len() { names@.len() } else { cols@.len() },
            |i: int| ColumnAliasView { expr: expr_to_msg(cols@[i].expr), name: seq![names@[i]@] },
        ));
    r
}

fn renames_to_proto(m: &StringMap) -> (r: Vec<Rename>)
    ensures
        r@.map_values(|x: Rename| (x.col_name@, x.new_col_name@)) == m.entries_view(),
{
    let pairs = m.to_pairs();
    let mut r: Vec<Rename> = Vec::new();
    let mut i: usize = 0;
    while i < pairs.len()
        invariant
            i <= pairs@.len(),
            r@.len() == i,
            crate::options::pairs_view(pairs@) == m.entries_view(),
            forall|j: int| 0 <= j < i ==> #[trigger] r@[j].col_name@ == pairs@[j].0@ && r@[j].new_col_name@ == pairs@[j].1@,
        decreases pairs@.len() - i,
    {
        r.push(Rename { col_name: pairs[i].0.clone(), new_col_name: pairs[i].1.clone() });
        i = i + 1;
    }
    assert(r@.map_values(|x: Rename| (x.col_name@, x.new_col_name@)) =~= crate::options::pairs_view(pairs@));
    r
}

fn read_to_proto(t: &ReadType) -> (m: ReadSource)
    ensures
        crate::relation::read_source_view(m) == read_msg(*t),
{
    match t {
        ReadType::DataSource { format, schema, options, paths, predicates, source_name } => ReadSource::DataSource {
            format: copy_opt_string(format),
            schema: copy_opt_string(schema),
            options: options.to_pairs(),
            paths: copy_strings(paths),
            predicates: copy_strings(predicates),
            source_name: copy_opt_string(source_name),
        },
        ReadType::NamedTable { table_name, options } => ReadSource::NamedTable {
            unparsed_identifier: table_name.clone(),
            options: options.to_pairs(),
        },
    }
}

pub(crate) fn copy_bytes(v: &Vec<u8>) -> (r: Vec<u8>)
    ensures
        r@ == v@,
{
    let mut r: Vec<u8> = Vec::new();
    let mut i: usize = 0;
    while i < v.len()
        invariant
            i <= v.len(),
            r@ == v@.take(i as int),
        decreases v.len() - i,
    {
        r.push(v[i]);
        assert(r@ =~= v@.take(i as int + 1));
        i = i + 1;
    }
    assert(v@.take(v.len() as int) =~= v@);
    r
}

fn copy_opt_type(d: &Option<DataType>) -> (r: Option<DataType>)
    ensures
        match (r, *d) {
            (Some(a), Some(b)) => a@ == b@,
            (None, None) => true,
            _ => false,
        },
{
    match d {
        Some(t) => Some(t.copy()),
        None => None,
    }
}

/// A relation node with an unset plan id.
fn node(t: RelType) -> (r: Relation)
    ensures
        r == (Relation { common: Some(RelationCommon { plan_id: None }), rel_type: Some(t) }),
{
    Relation { common: Some(RelationCommon { plan_id: None }), rel_type: Some(t) }
}

fn group_code(g: AggregateGroupType) -> (c: i32)
    ensures
        c == group_type_code(g),
{
    match g {
        AggregateGroupType::GroupBy => 1,
        AggregateGroupType::Rollup => 2,
        AggregateGroupType::Cube => 3,
        AggregateGroupType::Pivot => 4,
        AggregateGroupType::GroupingSets => 5,
    }
}

fn join_code(j: JoinType) -> (c: i32)
    ensures
        c == join_type_code(j),
{
    match j {
        JoinType::Inner => 1,
        JoinType::FullOuter => 2,
        JoinType::LeftOuter => 3,
        JoinType::RightOuter => 4,
        JoinType::LeftAnti => 5,
        JoinType::LeftSemi => 6,
        JoinType::Cross => 7,
    }
}

fn set_code(s: SetOpType) -> (c: i32)
    ensures
        c == set_op_code(s),
{
    match s {
        SetOpType::Intersect => 1,
        SetOpType::Union => 2,
        SetOpType::Except => 3,
    }
}

fn opt_column_to_proto(c: &Option<Column>) -> (r: Option<proto::Expression>)
    ensures
        opt_expr_view(r) == (match *c {
            Some(x) => Some(expr_to_msg(x.expr)),
            None => None,
        }),
{
    match c {
        Some(x) => Some(x.to_proto()),
        None => None,
    }
}

impl LogicalPlan {
    /// The relation message of this plan (see `plan_rel`).
    pub fn to_proto(&self) -> (r: Relation)
        ensures
            r@ == plan_rel(*self),
        decreases self, 8int,
    {
        let t = self.rel_type_first();
        let r = node(t);
        assert(rel_view(r) =~= plan_rel(*self));
        r
    }

    fn rel_type_first(&self) -> (t: RelType)
        ensures
            rel_type_view(t) == plan_rel_type(*self),
        decreases self, 7int,
    {
        proof {
            reveal_strlit("all");
        }
        match self {
            LogicalPlan::Range { start, end, step, num_partitions } => RelType::Range {
                start: Some(*start),
                end: *end,
                step: *step,
                num_partitions: *num_partitions,
            },
            LogicalPlan::Sql { query } => RelType::Sql { query: query.clone() },
            LogicalPlan::Project { input, columns } => {
                let i = input.to_proto();
                RelType::Project { input: Some(Box::new(i)), expressions: columns_to_proto(columns) }
            },
            LogicalPlan::Filter { input, condition } => {
                let i = input.to_proto();
                RelType::Filter { input: Some(Box::new(i)), condition: Some(condition.to_proto()) }
            },
            LogicalPlan::Aggregate { input, group_type, grouping_expressions, aggregate_expressions, pivot_col, pivot_values, grouping_sets } => {
                let i = input.to_proto();
                let pivot = match pivot_col {
                    Some(c) => Some(Pivot { col: Some(c.to_proto()), values: pivot_literals(pivot_values) }),
                    None => None,
                };
                RelType::Aggregate {
                    input: Some(Box::new(i)),
                    group_type: group_code(*group_type),
                    grouping_expressions: exprs_to_proto(grouping_expressions),
                    aggregate_expressions: exprs_to_proto(aggregate_expressions),
                    pivot,
                    grouping_sets: grouping_sets_to_proto(grouping_sets),
                }
            },
            LogicalPlan::Join { left, right, join_type, on, using_columns } => {
                let l = left.to_proto();
                let r = right.to_proto();
                RelType::Join {
                    left: Some(Box::new(l)),
                    right: Some(Box::new(r)),
                    join_condition: opt_column_to_proto(on),
                    join_type: join_code(*join_type),
                    using_columns: copy_strings(using_columns),
                }
            },
            _ => self.rel_type_second(),
        }
    }

    fn rel_type_second(&self) -> (t: RelType)
        requires
            !(*self is Range),
            !(*self is Sql),
            !(*self is Project),
            !(*self is Filter),
            !(*self is Aggregate),
            !(*self is Join),
        ensures
            rel_type_view(t) == plan_rel_type(*self),
        decreases self, 6int,
    {
        proof {
            reveal_strlit("all");
        }
        match self {
            LogicalPlan::LateralJoin { left, right, join_type, on } => {
                let l = left.to_proto();
                let r = right.to_proto();
                RelType::LateralJoin {
                    left: Some(Box::new(l)),
                    right: Some(Box::new(r)),
                    join_condition: opt_column_to_proto(on),
                    join_type: join_code(*join_type),
                }
            },
            LogicalPlan::SetOperation { left, right, set_op_type, is_all, by_name, allow_missing_columns } => {
                let l = left.to_proto();
                let r = right.to_proto();
                RelType::SetOp {
                    left_input: Some(Box::new(l)),
                    right_input: Some(Box::new(r)),
                    set_op_type: set_code(*set_op_type),
                    is_all: Some(*is_all),
                    by_name: Some(*by_name),
                    allow_missing_columns: Some(*allow_missing_columns),
                }
            },
            LogicalPlan::Limit { input, limit } => {
                let i = input.to_proto();
                RelType::Limit { input: Some(Box::new(i)), limit: *limit }
            },
            LogicalPlan::Offset { input, offset } => {
                let i = input.to_proto();
                RelType::Offset { input: Some(Box::new(i)), offset: *offset }
            },
            LogicalPlan::Tail { input, limit } => {
                let i = input.to_proto();
                RelType::Tail { input: Some(Box::new(i)), limit: *limit }
            },
            LogicalPlan::Deduplicate { input, all_columns_as_keys, column_names, within_watermark } => {
                let i = input.to_proto();
                RelType::Deduplicate {
                    input: Some(Box::new(i)),
                    column_names: copy_strings(column_names),
                    all_columns_as_keys: Some(*all_columns_as_keys),
                    within_watermark: Some(*within_watermark),
                }
            },
            _ => self.rel_type_third(),
        }
    }

    fn rel_type_third(&self) -> (t: RelType)
        requires
            !(*self is Range),
            !(*self is Sql),
            !(*self is Project),
            !(*self is Filter),
            !(*self is Aggregate),
            !(*self is Join),
            !(*self is LateralJoin),
            !(*self is SetOperation),
            !(*self is Limit),
            !(*self is Offset),
            !(*self is Tail),
            !(*self is Deduplicate),
        ensures
            rel_type_view(t) == plan_rel_type(*self),
        decreases self, 5int,
    {
        proof {
            reveal_strlit("all");
        }
        match self {
            LogicalPlan::Sort { input, order, is_global } => {
                let i = input.to_proto();
                RelType::Sort { input: Some(Box::new(i)), order: sort_entries(order), is_global: Some(*is_global) }
            },
            LogicalPlan::Sample { input, lower_bound, upper_bound, with_replacement, seed } => {
                let i = input.to_proto();
                RelType::Sample {
                    input: Some(Box::new(i)),
                    lower_bound: lower_bound.copy(),
                    upper_bound: upper_bound.copy(),
                    with_replacement: Some(*with_replacement),
                    seed: *seed,
                }
            },
            LogicalPlan::Repartition { input, num_partitions, shuffle } => {
                let i = input.to_proto();
                RelType::Repartition { input: Some(Box::new(i)), num_partitions: *num_partitions, shuffle: Some(*shuffle) }
            },
            LogicalPlan::RepartitionByExpression { input, num_partitions, expressions } => {
                let i = input.to_proto();
                RelType::RepartitionByExpression {
                    input: Some(Box::new(i)),
                    partition_exprs: exprs_to_proto(expressions),
                    num_partitions: Some(*num_partitions),
                }
            },
            LogicalPlan::WithColumns { input, column_names, columns } => {
                let i = input.to_proto();
                RelType::WithColumns { input: Some(Box::new(i)), aliases: column_aliases(column_names, columns) }
            },
            LogicalPlan::WithColumnsRenamed { input, renames } => {
                let i = input.to_proto();
                RelType::WithColumnsRenamed { input: Some(Box::new(i)), renames: renames_to_proto(renames) }
            },
            _ => self.rel_type_fourth(),
        }
    }

    fn rel_type_fourth(&self) -> (t: RelType)
        requires
            !(*self is Range),
            !(*self is Sql),
            !(*self is Project),
            !(*self is Filter),
            !(*self is Aggregate),
            !(*self is Join),
            !(*self is LateralJoin),
            !(*self is SetOperation),
            !(*self is Limit),
            !(*self is Offset),
            !(*self is Tail),
            !(*self is Deduplicate),
            !(*self is Sort),
            !(*self is Sample),
            !(*self is Repartition),
            !(*self is RepartitionByExpression),
            !(*self is WithColumns),
            !(*self is WithColumnsRenamed),
        ensures
            rel_type_view(t) == plan_rel_type(*self),
        decreases self, 4int,
    {
        proof {
            reveal_strlit("all");
        }
        match self {
            LogicalPlan::Drop { input, columns } => {
                let i = input.to_proto();
                RelType::Drop { input: Some(Box::new(i)), column_names: copy_strings(columns) }
            },
            LogicalPlan::ToDF { input, column_names } => {
                let i = input.to_proto();
                RelType::ToDf { input: Some(Box::new(i)), column_names: copy_strings(column_names) }
            },
            LogicalPlan::ToSchema { input, schema } => {
                let i = input.to_proto();
                RelType::ToSchema { input: Some(Box::new(i)), schema: Some(schema.copy()) }
            },
            LogicalPlan::Hint { input, name, parameters } => {
                let i = input.to_proto();
                RelType::Hint { input: Some(Box::new(i)), name: name.clone(), parameters: hint_params(parameters) }
            },
            LogicalPlan::Unpivot { input, ids, values, variable_column_name, value_column_name } => {
                let i = input.to_proto();
                let vals = match values {
                    Some(v) => Some(columns_to_proto(v)),
                    None => None,
                };
                RelType::Unpivot {
                    input: Some(Box::new(i)),
                    ids: columns_to_proto(ids),
                    values: vals,
                    variable_column_name: variable_column_name.clone(),
                    value_column_name: value_column_name.clone(),
                }
            },
            LogicalPlan::NAFill { input, fill_value, columns } => {
                let i = input.to_proto();
                let mut values: Vec<proto::Literal> = Vec::new();
                values.push(fill_value.to_literal());
                assert(proto::literals_view(values@) =~= seq![value_to_literal(*fill_value)]);
                RelType::FillNa { input: Some(Box::new(i)), cols: copy_strings(columns), values }
            },
            _ => self.rel_type_fifth(),
        }
    }

    fn rel_type_fifth(&self) -> (t: RelType)
        requires
            !(*self is Range),
            !(*self is Sql),
            !(*self is Project),
            !(*self is Filter),
            !(*self is Aggregate),
            !(*self is Join),
            !(*self is LateralJoin),
            !(*self is SetOperation),
            !(*self is Limit),
            !(*self is Offset),
            !(*self is Tail),
            !(*self is Deduplicate),
            !(*self is Sort),
            !(*self is Sample),
            !(*self is Repartition),
            !(*self is RepartitionByExpression),
            !(*self is WithColumns),
            !(*self is WithColumnsRenamed),
            !(*self is Drop),
            !(*self is ToDF),
            !(*self is ToSchema),
            !(*self is Hint),
            !(*self is Unpivot),
            !(*self is NAFill),
        ensures
            rel_type_view(t) == plan_rel_type(*self),
        decreases self, 3int,
    {
        proof {
            reveal_strlit("all");
        }
        match self {
            LogicalPlan::NADrop { input, how, min_non_null, columns } => {
                let i = input.to_proto();
                let m = match min_non_null {
                    Some(m) => Some(*m),
                    None => if str_eq(how.as_str(), "all") { Some(1i32) } else { None },
                };
                RelType::DropNa { input: Some(Box::new(i)), cols: copy_strings(columns), min_non_nulls: m }
            },
            LogicalPlan::NAReplace { input, replacements, columns } => {
                let i = input.to_proto();
                RelType::Replace {
                    input: Some(Box::new(i)),
                    cols: copy_strings(columns),
                    replacements: replacements_to_proto(replacements),
                }
            },
            LogicalPlan::Describe { input, columns } => {
                let i = input.to_proto();
                RelType::Describe { input: Some(Box::new(i)), cols: copy_strings(columns) }
            },
            LogicalPlan::Summary { input, percentiles } => {
                let i = input.to_proto();
                RelType::Summary { input: Some(Box::new(i)), statistics: copy_strings(percentiles) }
            },
            LogicalPlan::ColRegex { input, col_name } => {
                let i = input.to_proto();
                let mut exprs: Vec<proto::Expression> = Vec::new();
                exprs.push(proto::Expression::UnresolvedRegex { col_name: col_name.clone(), plan_id: None });
                assert(proto::expr_msgs_view(exprs@) =~= seq![ExpressionView::UnresolvedRegex { col_name: col_name@, plan_id: None }]);
                RelType::Project { input: Some(Box::new(i)), expressions: exprs }
            },
            LogicalPlan::SubqueryAlias { input, alias } => {
                let i = input.to_proto();
                RelType::SubqueryAlias { input: Some(Box::new(i)), alias: alias.clone() }
            },
            _ => self.rel_type_sixth(),
        }
    }

    fn rel_type_sixth(&self) -> (t: RelType)
        requires
            !(*self is Range),
            !(*self is Sql),
            !(*self is Project),
            !(*self is Filter),
            !(*self is Aggregate),
            !(*self is Join),
            !(*self is LateralJoin),
            !(*self is SetOperation),
            !(*self is Limit),
            !(*self is Offset),
            !(*self is Tail),
            !(*self is Deduplicate),
            !(*self is Sort),
            !(*self is Sample),
            !(*self is Repartition),
            !(*self is RepartitionByExpression),
            !(*self is WithColumns),
            !(*self is WithColumnsRenamed),
            !(*self is Drop),
            !(*self is ToDF),
            !(*self is ToSchema),
            !(*self is Hint),
            !(*self is Unpivot),
            !(*self is NAFill),
            !(*self is NADrop),
            !(*self is NAReplace),
            !(*self is Describe),
            !(*self is Summary),
            !(*self is ColRegex),
            !(*self is SubqueryAlias),
        ensures
            rel_type_view(t) == plan_rel_type(*self),
        decreases self, 2int,
    {
        proof {
            reveal_strlit("all");
        }
        match self {
            LogicalPlan::LocalRelation { schema, data } => {
                let d = match data {
                    Some(bytes) => Some(proto::bytes_from_vec(copy_bytes(bytes))),
                    None => None,
                };
                RelType::LocalRelation { data: d, schema: Some(schema.json()) }
            },
            LogicalPlan::CachedRemoteRelation { relation_id } => RelType::CachedRemoteRelation { relation_id: relation_id.clone() },
            LogicalPlan::Read { read_type, is_streaming } => RelType::Read {
                is_streaming: *is_streaming,
                read_type: Some(read_to_proto(read_type)),
            },
            LogicalPlan::WithWatermark { input, time_column, delay_threshold } => {
                let i = input.to_proto();
                RelType::WithWatermark {
                    input: Some(Box::new(i)),
                    event_time: time_column.clone(),
                    delay_threshold: delay_threshold.clone(),
                }
            },
            LogicalPlan::RepartitionByRange { input, num_partitions, partition_exprs } => {
                let i = input.to_proto();
                RelType::RepartitionByExpression {
                    input: Some(Box::new(i)),
                    partition_exprs: exprs_to_proto(partition_exprs),
                    num_partitions: *num_partitions,
                }
            },
            LogicalPlan::StatCrosstab { input, col1, col2 } => {
                let i = input.to_proto();
                RelType::Crosstab { input: Some(Box::new(i)), col1: col1.clone(), col2: col2.clone() }
            },
            _ => self.rel_type_seventh(),
        }
    }
    fn rel_type_seventh(&self) -> (t: RelType)
        requires
            !(*self is Range),
            !(*self is Sql),
            !(*self is Project),
            !(*self is Filter),
            !(*self is Aggregate),
            !(*self is Join),
            !(*self is LateralJoin),
            !(*self is SetOperation),
            !(*self is Limit),
            !(*self is Offset),
            !(*self is Tail),
            !(*self is Deduplicate),
            !(*self is Sort),
            !(*self is Sample),
            !(*self is Repartition),
            !(*self is RepartitionByExpression),
            !(*self is WithColumns),
            !(*self is WithColumnsRenamed),
            !(*self is Drop),
            !(*self is ToDF),
            !(*self is ToSchema),
            !(*self is Hint),
            !(*self is Unpivot),
            !(*self is NAFill),
            !(*self is NADrop),
            !(*self is NAReplace),
            !(*self is Describe),
            !(*self is Summary),
            !(*self is ColRegex),
            !(*self is SubqueryAlias),
            !(*self is LocalRelation),
            !(*self is CachedRemoteRelation),
            !(*self is Read),
            !(*self is WithWatermark),
            !(*self is RepartitionByRange),
            !(*self is StatCrosstab),
        ensures
            rel_type_view(t) == plan_rel_type(*self),
        decreases self, 1int,
    {
        match self {
            LogicalPlan::StatFreqItems { input, columns, support } => {
                let i = input.to_proto();
                RelType::FreqItems { input: Some(Box::new(i)), cols: copy_strings(columns), support: Some(support.copy()) }
            },
            LogicalPlan::StatApproxQuantile { input, columns, probabilities, relative_error } => {
                let i = input.to_proto();
                RelType::ApproxQuantile {
                    input: Some(Box::new(i)),
                    cols: copy_strings(columns),
                    probabilities: copy_floats(probabilities),
                    relative_error: relative_error.copy(),
                }
            },
            LogicalPlan::StatCorr { input, col1, col2 } => {
                let i = input.to_proto();
                RelType::Corr { input: Some(Box::new(i)), col1: col1.clone(), col2: col2.clone() }
            },
            LogicalPlan::StatCov { input, col1, col2 } => {
                let i = input.to_proto();
                RelType::Cov { input: Some(Box::new(i)), col1: col1.clone(), col2: col2.clone() }
            },
            LogicalPlan::StatSampleBy { input, col, fractions, seed } => {
                let i = input.to_proto();
                let c = proto::Expression::UnresolvedAttribute {
                    unparsed_identifier: col.clone(),
                    plan_id: None,
                    is_metadata_column: None,
                };
                RelType::SampleBy {
                    input: Some(Box::new(i)),
                    col: Some(c),
                    fractions: fractions_to_proto(fractions),
                    seed: *seed,
                }
            },
            _ => self.rel_type_eighth(),
        }
    }

    fn rel_type_eighth(&self) -> (t: RelType)
        requires
            !(*self is Range),
            !(*self is Sql),
            !(*self is Project),
            !(*self is Filter),
            !(*self is Aggregate),
            !(*self is Join),
            !(*self is LateralJoin),
            !(*self is SetOperation),
            !(*self is Limit),
            !(*self is Offset),
            !(*self is Tail),
            !(*self is Deduplicate),
            !(*self is Sort),
            !(*self is Sample),
            !(*self is Repartition),
            !(*self is RepartitionByExpression),
            !(*self is WithColumns),
            !(*self is WithColumnsRenamed),
            !(*self is Drop),
            !(*self is ToDF),
            !(*self is ToSchema),
            !(*self is Hint),
            !(*self is Unpivot),
            !(*self is NAFill),
            !(*self is NADrop),
            !(*self is NAReplace),
            !(*self is Describe),
            !(*self is Summary),
            !(*self is ColRegex),
            !(*self is SubqueryAlias),
            !(*self is LocalRelation),
            !(*self is CachedRemoteRelation),
            !(*self is Read),
            !(*self is WithWatermark),
            !(*self is RepartitionByRange),
            !(*self is StatCrosstab),
            !(*self is StatFreqItems),
            !(*self is StatApproxQuantile),
            !(*self is StatCorr),
            !(*self is StatCov),
            !(*self is StatSampleBy),
        ensures
            rel_type_view(t) == plan_rel_type(*self),
        decreases self, 0int,
    {
        match self {
            LogicalPlan::Observe { input, name, exprs } => {
                let i = input.to_proto();
                RelType::CollectMetrics { input: Some(Box::new(i)), name: name.clone(), metrics: exprs_to_proto(exprs) }
            },
            LogicalPlan::UnresolvedTableValuedFunction { name, arguments } => RelType::UnresolvedTableValuedFunction {
                function_name: name.clone(),
                arguments: exprs_to_proto(arguments),
            },
            LogicalPlan::Zip { left, right } => {
                let l = left.to_proto();
                let r = right.to_proto();
                RelType::Zip { left: Some(Box::new(l)), right: Some(Box::new(r)) }
            },
            LogicalPlan::NearestByJoin { left, right, ranking_expression, num_results, join_type, mode, direction } => {
                let l = left.to_proto();
                let r = right.to_proto();
                RelType::NearestByJoin {
                    left: Some(Box::new(l)),
                    right: Some(Box::new(r)),
                    ranking_expression: Some(ranking_expression.to_proto()),
                    num_results: *num_results,
                    join_type: join_type.clone(),
                    mode: mode.clone(),
                    direction: direction.clone(),
                }
            },
            LogicalPlan::CommonInlineUdtf { function_name, deterministic, arguments, return_type, eval_type, command, python_ver } => {
                let udtf = PythonUdtf {
                    return_type: copy_opt_type(return_type),
                    eval_type: *eval_type,
                    command: proto::bytes_copy_from_slice(command.as_slice()),
                    python_ver: python_ver.clone(),
                };
                RelType::CommonInlineUserDefinedTableFunction {
                    function_name: function_name.clone(),
                    deterministic: *deterministic,
                    arguments: exprs_to_proto(arguments),
                    python_udtf: udtf,
                }
            },
            LogicalPlan::Catalog { catalog } => RelType::Catalog(catalog.copy()),
            LogicalPlan::MlTransform { transformer, input, params } => {
                let i = input.to_proto();
                RelType::MlRelation { transformer: transformer.to_proto(), input: Some(Box::new(i)), params: params.to_proto() }
            },
            _ => vstd::pervasive::unreached(),
        }
    }
}

// ---------------------------------------------------------------------------
// Plan builders
// ---------------------------------------------------------------------------

/// A range of `start` to `end` (exclusive) by `step`.
pub fn range(start: i64, end: i64, step: i64) -> (p: LogicalPlan)
    ensures
        p matches LogicalPlan::Range { start: p_start, end: p_end, step: p_step, num_partitions: p_num_partitions }
            && p_start == start
            && p_end == end
            && p_step == step
            && p_num_partitions is None,
{
    LogicalPlan::Range { start, end, step, num_partitions: None }
}

/// A range of `start` to `end` (exclusive) by `step`, in `num_partitions` partitions.
pub fn range_with_partitions(start: i64, end: i64, step: i64, num_partitions: i32) -> (p: LogicalPlan)
    ensures
        p matches LogicalPlan::Range { start: p_start, end: p_end, step: p_step, num_partitions: p_num_partitions }
            && p_start == start
            && p_end == end
            && p_step == step
            && p_num_partitions == Some(num_partitions),
{
    LogicalPlan::Range { start, end, step, num_partitions: Some(num_partitions) }
}

/// The result of the SQL query `query`.
pub fn sql(query: &str) -> (p: LogicalPlan)
    ensures
        p matches LogicalPlan::Sql { query: p_query }
            && p_query@ == query@,
{
    LogicalPlan::Sql { query: owned(query) }
}

/// `input` projected to `columns`.
pub fn project(input: LogicalPlan, columns: Vec<Column>) -> (p: LogicalPlan)
    ensures
        p matches LogicalPlan::Project { input: p_input, columns: p_columns }
            && *p_input == input
            && p_columns == columns,
{
    LogicalPlan::Project { input: Rc::new(input), columns }
}

/// The rows of `input` that satisfy `condition`.
pub fn filter(input: LogicalPlan, condition: Column) -> (p: LogicalPlan)
    ensures
        p matches LogicalPlan::Filter { input: p_input, condition: p_condition }
            && *p_input == input
            && p_condition == condition,
{
    LogicalPlan::Filter { input: Rc::new(input), condition }
}

/// `input` grouped by `grouping_expressions` as `group_type` says, with `aggregate_expressions` computed per group.
pub fn aggregate(input: LogicalPlan, group_type: AggregateGroupType, grouping_expressions: Vec<Expression>, aggregate_expressions: Vec<Expression>) -> (p: LogicalPlan)
    ensures
        p matches LogicalPlan::Aggregate { input: p_input, group_type: p_group_type, grouping_expressions: p_grouping_expressions, aggregate_expressions: p_aggregate_expressions, pivot_col: p_pivot_col, pivot_values: p_pivot_values, grouping_sets: p_grouping_sets }
            && *p_input == input
            && p_group_type == group_type
            && p_grouping_expressions == grouping_expressions
            && p_aggregate_expressions == aggregate_expressions
            && p_pivot_col is None
            && p_pivot_values@.len() == 0
            && p_grouping_sets@.len() == 0,
{
    LogicalPlan::Aggregate { input: Rc::new(input), group_type, grouping_expressions, aggregate_expressions, pivot_col: None, pivot_values: Vec::new(), grouping_sets: Vec::new() }
}

/// An aggregate of `input` pivoted on `pivot_col` over `pivot_values`.
pub fn aggregate_with_pivot(input: LogicalPlan, group_type: AggregateGroupType, grouping_expressions: Vec<Expression>, aggregate_expressions: Vec<Expression>, pivot_col: Expression, pivot_values: Vec<Expression>) -> (p: LogicalPlan)
    ensures
        p matches LogicalPlan::Aggregate { input: p_input, group_type: p_group_type, grouping_expressions: p_grouping_expressions, aggregate_expressions: p_aggregate_expressions, pivot_col: p_pivot_col, pivot_values: p_pivot_values, grouping_sets: p_grouping_sets }
            && *p_input == input
            && p_group_type == group_type
            && p_grouping_expressions == grouping_expressions
            && p_aggregate_expressions == aggregate_expressions
            && p_pivot_col == Some(pivot_col)
            && p_pivot_values == pivot_values
            && p_grouping_sets@.len() == 0,
{
    LogicalPlan::Aggregate { input: Rc::new(input), group_type, grouping_expressions, aggregate_expressions, pivot_col: Some(pivot_col), pivot_values, grouping_sets: Vec::new() }
}

/// An aggregate of `input` over the explicit `grouping_sets`.
pub fn aggregate_with_grouping_sets(input: LogicalPlan, grouping_expressions: Vec<Expression>, aggregate_expressions: Vec<Expression>, grouping_sets: Vec<Vec<Expression>>) -> (p: LogicalPlan)
    ensures
        p matches LogicalPlan::Aggregate { input: p_input, group_type: p_group_type, grouping_expressions: p_grouping_expressions, aggregate_expressions: p_aggregate_expressions, pivot_col: p_pivot_col, pivot_values: p_pivot_values, grouping_sets: p_grouping_sets }
            && *p_input == input
            && p_group_type == AggregateGroupType::GroupingSets
            && p_grouping_expressions == grouping_expressions
            && p_aggregate_expressions == aggregate_expressions
            && p_pivot_col is None
            && p_pivot_values@.len() == 0
            && p_grouping_sets == grouping_sets,
{
    LogicalPlan::Aggregate { input: Rc::new(input), group_type: AggregateGroupType::GroupingSets, grouping_expressions, aggregate_expressions, pivot_col: None, pivot_values: Vec::new(), grouping_sets }
}

/// The join of `left` and `right` of kind `join_type`, on `on` or on the equality of `using_columns`.
pub fn join(left: LogicalPlan, right: LogicalPlan, join_type: JoinType, on: Option<Column>, using_columns: Vec<String>) -> (p: LogicalPlan)
    ensures
        p matches LogicalPlan::Join { left: p_left, right: p_right, join_type: p_join_type, on: p_on, using_columns: p_using_columns }
            && *p_left == left
            && *p_right == right
            && p_join_type == join_type
            && p_on == on
            && p_using_columns == using_columns,
{
    LogicalPlan::Join { left: Rc::new(left), right: Rc::new(right), join_type, on, using_columns }
}

/// The set operation `set_op_type` of `left` and `right`.
pub fn set_operation(left: LogicalPlan, right: LogicalPlan, set_op_type: SetOpType, is_all: bool, by_name: bool, allow_missing_columns: bool) -> (p: LogicalPlan)
    ensures
        p matches LogicalPlan::SetOperation { left: p_left, right: p_right, set_op_type: p_set_op_type, is_all: p_is_all, by_name: p_by_name, allow_missing_columns: p_allow_missing_columns }
            && *p_left == left
            && *p_right == right
            && p_set_op_type == set_op_type
            && p_is_all == is_all
            && p_by_name == by_name
            && p_allow_missing_columns == allow_missing_columns,
{
    LogicalPlan::SetOperation { left: Rc::new(left), right: Rc::new(right), set_op_type, is_all, by_name, allow_missing_columns }
}

/// The first `n` rows of `input`.
pub fn limit(input: LogicalPlan, n: i32) -> (p: LogicalPlan)
    ensures
        p matches LogicalPlan::Limit { input: p_input, limit: p_limit }
            && *p_input == input
            && p_limit == n,
{
    LogicalPlan::Limit { input: Rc::new(input), limit: n }
}

/// `input` without its first `n` rows.
pub fn offset(input: LogicalPlan, n: i32) -> (p: LogicalPlan)
    ensures
        p matches LogicalPlan::Offset { input: p_input, offset: p_offset }
            && *p_input == input
            && p_offset == n,
{
    LogicalPlan::Offset { input: Rc::new(input), offset: n }
}

/// The last `n` rows of `input`.
pub fn tail(input: LogicalPlan, n: i32) -> (p: LogicalPlan)
    ensures
        p matches LogicalPlan::Tail { input: p_input, limit: p_limit }
            && *p_input == input
            && p_limit == n,
{
    LogicalPlan::Tail { input: Rc::new(input), limit: n }
}

/// `input` without duplicate rows, keyed by all columns or by `column_names`.
pub fn deduplicate(input: LogicalPlan, all_columns_as_keys: bool, column_names: Vec<String>, within_watermark: bool) -> (p: LogicalPlan)
    ensures
        p matches LogicalPlan::Deduplicate { input: p_input, all_columns_as_keys: p_all_columns_as_keys, column_names: p_column_names, within_watermark: p_within_watermark }
            && *p_input == input
            && p_all_columns_as_keys == all_columns_as_keys
            && p_column_names == column_names
            && p_within_watermark == within_watermark,
{
    LogicalPlan::Deduplicate { input: Rc::new(input), all_columns_as_keys, column_names, within_watermark }
}

/// `input` sorted by `order`, globally or within partitions.
pub fn sort(input: LogicalPlan, order: Vec<Expression>, is_global: bool) -> (p: LogicalPlan)
    ensures
        p matches LogicalPlan::Sort { input: p_input, order: p_order, is_global: p_is_global }
            && *p_input == input
            && p_order == order
            && p_is_global == is_global,
{
    LogicalPlan::Sort { input: Rc::new(input), order, is_global }
}

/// A sample of `input` between the given bounds.
pub fn sample(input: LogicalPlan, lower_bound: Float64, upper_bound: Float64, with_replacement: bool, seed: Option<i64>) -> (p: LogicalPlan)
    ensures
        p matches LogicalPlan::Sample { input: p_input, lower_bound: p_lower_bound, upper_bound: p_upper_bound, with_replacement: p_with_replacement, seed: p_seed }
            && *p_input == input
            && p_lower_bound == lower_bound
            && p_upper_bound == upper_bound
            && p_with_replacement == with_replacement
            && p_seed == seed,
{
    LogicalPlan::Sample { input: Rc::new(input), lower_bound, upper_bound, with_replacement, seed }
}

/// `input` in `num_partitions` partitions, shuffled or coalesced.
pub fn repartition(input: LogicalPlan, num_partitions: i32, shuffle: bool) -> (p: LogicalPlan)
    ensures
        p matches LogicalPlan::Repartition { input: p_input, num_partitions: p_num_partitions, shuffle: p_shuffle }
            && *p_input == input
            && p_num_partitions == num_partitions
            && p_shuffle == shuffle,
{
    LogicalPlan::Repartition { input: Rc::new(input), num_partitions, shuffle }
}

/// `input` partitioned by `expressions`.
pub fn repartition_by_expression(input: LogicalPlan, num_partitions: i32, expressions: Vec<Expression>) -> (p: LogicalPlan)
    ensures
        p matches LogicalPlan::RepartitionByExpression { input: p_input, num_partitions: p_num_partitions, expressions: p_expressions }
            && *p_input == input
            && p_num_partitions == num_partitions
            && p_expressions == expressions,
{
    LogicalPlan::RepartitionByExpression { input: Rc::new(input), num_partitions, expressions }
}

/// `input` with the columns `columns` added under `column_names`.
pub fn with_columns(input: LogicalPlan, column_names: Vec<String>, columns: Vec<Column>) -> (p: LogicalPlan)
    ensures
        p matches LogicalPlan::WithColumns { input: p_input, column_names: p_column_names, columns: p_columns }
            && *p_input == input
            && p_column_names == column_names
            && p_columns == columns,
{
    LogicalPlan::WithColumns { input: Rc::new(input), column_names, columns }
}

/// `input` with columns renamed as `renames` maps them.
pub fn with_columns_renamed(input: LogicalPlan, renames: StringMap) -> (p: LogicalPlan)
    ensures
        p matches LogicalPlan::WithColumnsRenamed { input: p_input, renames: p_renames }
            && *p_input == input
            && p_renames == renames,
{
    LogicalPlan::WithColumnsRenamed { input: Rc::new(input), renames }
}

/// `input` without `columns`.
pub fn drop(input: LogicalPlan, columns: Vec<String>) -> (p: LogicalPlan)
    ensures
        p matches LogicalPlan::Drop { input: p_input, columns: p_columns }
            && *p_input == input
            && p_columns == columns,
{
    LogicalPlan::Drop { input: Rc::new(input), columns }
}

/// `input` with its columns renamed to `column_names`.
pub fn to_df(input: LogicalPlan, column_names: Vec<String>) -> (p: LogicalPlan)
    ensures
        p matches LogicalPlan::ToDF { input: p_input, column_names: p_column_names }
            && *p_input == input
            && p_column_names == column_names,
{
    LogicalPlan::ToDF { input: Rc::new(input), column_names }
}

/// `input` conformed to `schema`.
pub fn to_schema(input: LogicalPlan, schema: DataType) -> (p: LogicalPlan)
    ensures
        p matches LogicalPlan::ToSchema { input: p_input, schema: p_schema }
            && *p_input == input
            && p_schema == schema,
{
    LogicalPlan::ToSchema { input: Rc::new(input), schema }
}

/// `input` with the hint `name` and its parameters.
pub fn hint(input: LogicalPlan, name: &str, parameters: Vec<String>) -> (p: LogicalPlan)
    ensures
        p matches LogicalPlan::Hint { input: p_input, name: p_name, parameters: p_parameters }
            && *p_input == input
            && p_name@ == name@
            && p_parameters == parameters,
{
    LogicalPlan::Hint { input: Rc::new(input), name: owned(name), parameters }
}

/// `input` unpivoted from wide to long form.
pub fn unpivot(input: LogicalPlan, ids: Vec<Column>, values: Option<Vec<Column>>, variable_column_name: &str, value_column_name: &str) -> (p: LogicalPlan)
    ensures
        p matches LogicalPlan::Unpivot { input: p_input, ids: p_ids, values: p_values, variable_column_name: p_variable_column_name, value_column_name: p_value_column_name }
            && *p_input == input
            && p_ids == ids
            && p_values == values
            && p_variable_column_name@ == variable_column_name@
            && p_value_column_name@ == value_column_name@,
{
    LogicalPlan::Unpivot { input: Rc::new(input), ids, values, variable_column_name: owned(variable_column_name), value_column_name: owned(value_column_name) }
}

/// `input` with nulls in `columns` replaced by `fill_value`.
pub fn na_fill(input: LogicalPlan, fill_value: Value, columns: Vec<String>) -> (p: LogicalPlan)
    ensures
        p matches LogicalPlan::NAFill { input: p_input, fill_value: p_fill_value, columns: p_columns }
            && *p_input == input
            && p_fill_value == fill_value
            && p_columns == columns,
{
    LogicalPlan::NAFill { input: Rc::new(input), fill_value, columns }
}

/// `input` without the rows that have nulls, as `how` and `min_non_null` say.
pub fn na_drop(input: LogicalPlan, how: &str, min_non_null: Option<i32>, columns: Vec<String>) -> (p: LogicalPlan)
    ensures
        p matches LogicalPlan::NADrop { input: p_input, how: p_how, min_non_null: p_min_non_null, columns: p_columns }
            && *p_input == input
            && p_how@ == how@
            && p_min_non_null == min_non_null
            && p_columns == columns,
{
    LogicalPlan::NADrop { input: Rc::new(input), how: owned(how), min_non_null, columns }
}

/// `input` with the values of `replacements` replaced in `columns`.
pub fn na_replace(input: LogicalPlan, replacements: Vec<(ReplaceValue, ReplaceValue)>, columns: Vec<String>) -> (p: LogicalPlan)
    ensures
        p matches LogicalPlan::NAReplace { input: p_input, replacements: p_replacements, columns: p_columns }
            && *p_input == input
            && p_replacements == replacements
            && p_columns == columns,
{
    LogicalPlan::NAReplace { input: Rc::new(input), replacements, columns }
}

/// The basic statistics of `columns` of `input`.
pub fn describe(input: LogicalPlan, columns: Vec<String>) -> (p: LogicalPlan)
    ensures
        p matches LogicalPlan::Describe { input: p_input, columns: p_columns }
            && *p_input == input
            && p_columns == columns,
{
    LogicalPlan::Describe { input: Rc::new(input), columns }
}

/// The summary statistics of `input` at `percentiles`.
pub fn summary(input: LogicalPlan, percentiles: Vec<String>) -> (p: LogicalPlan)
    ensures
        p matches LogicalPlan::Summary { input: p_input, percentiles: p_percentiles }
            && *p_input == input
            && p_percentiles == percentiles,
{
    LogicalPlan::Summary { input: Rc::new(input), percentiles }
}

/// The columns of `input` whose names match `col_name`.
pub fn col_regex(input: LogicalPlan, col_name: &str) -> (p: LogicalPlan)
    ensures
        p matches LogicalPlan::ColRegex { input: p_input, col_name: p_col_name }
            && *p_input == input
            && p_col_name@ == col_name@,
{
    LogicalPlan::ColRegex { input: Rc::new(input), col_name: owned(col_name) }
}

/// `input` under the alias `alias`.
pub fn subquery_alias(input: LogicalPlan, alias: &str) -> (p: LogicalPlan)
    ensures
        p matches LogicalPlan::SubqueryAlias { input: p_input, alias: p_alias }
            && *p_input == input
            && p_alias@ == alias@,
{
    LogicalPlan::SubqueryAlias { input: Rc::new(input), alias: owned(alias) }
}

/// Local data of the given schema.
pub fn local_relation(schema: DataType, data: Option<Vec<u8>>) -> (p: LogicalPlan)
    ensures
        p matches LogicalPlan::LocalRelation { schema: p_schema, data: p_data }
            && p_schema == schema
            && p_data == data,
{
    LogicalPlan::LocalRelation { schema, data }
}

/// The relation the server cached under `relation_id`.
pub fn cached_remote_relation(relation_id: &str) -> (p: LogicalPlan)
    ensures
        p matches LogicalPlan::CachedRemoteRelation { relation_id: p_relation_id }
            && p_relation_id@ == relation_id@,
{
    LogicalPlan::CachedRemoteRelation { relation_id: owned(relation_id) }
}

} // verus!
