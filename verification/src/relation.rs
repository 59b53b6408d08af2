//! The relation messages of the Spark Connect protocol (`spark.connect.Relation`)
//! that logical plans become, with their mathematical views: strings are
//! character sequences, lists are sequences, byte buffers are byte sequences.

use vstd::prelude::*;
use crate::proto::{Expression, ExpressionView, Literal, LiteralView, SortOrder, SortOrderView,
    expr_msg_view, expr_msgs_view, literal_view, literals_view, sort_msgs_view, opt_string_view,
    bytes_content};
use crate::options::pairs_view;
use crate::text::strings_view;
use crate::types::{DataType, DataTypeView, Float64};
use crate::catalog::{CatalogOp, CatalogOpView};
use crate::ml::{MlOperatorMsg, MlParams, ml_operator_msg_view, ml_params_view};

verus! {

/// `spark.connect.RelationCommon`: the id the plan node is known by.
#[derive(Debug)]
pub struct RelationCommon {
    pub plan_id: Option<i64>,
}

/// `spark.connect.Relation`.
#[derive(Debug)]
pub struct Relation {
    pub common: Option<RelationCommon>,
    pub rel_type: Option<RelType>,
}

/// One grouping set of an aggregate.
#[derive(Debug)]
pub struct GroupingSets {
    pub grouping_set: Vec<Expression>,
}

/// The pivot of an aggregate: the pivot column and its explicit values.
#[derive(Debug)]
pub struct Pivot {
    pub col: Option<Expression>,
    pub values: Vec<Literal>,
}

/// An aliased column of a `WithColumns` relation.
#[derive(Debug)]
pub struct ColumnAlias {
    pub expr: Expression,
    pub name: Vec<String>,
}

/// A rename of a `WithColumnsRenamed` relation.
#[derive(Debug)]
pub struct Rename {
    pub col_name: String,
    pub new_col_name: String,
}

/// A replacement of a `Replace` relation.
#[derive(Debug)]
pub struct Replacement {
    pub old_value: Option<Literal>,
    pub new_value: Option<Literal>,
}

/// A stratum of a `SampleBy` relation (its fraction keeps the default).
#[derive(Debug)]
pub struct Fraction {
    pub stratum: Option<Literal>,
}

/// What a `Read` relation reads.
#[derive(Debug)]
pub enum ReadSource {
    DataSource {
        format: Option<String>,
        schema: Option<String>,
        options: Vec<(String, String)>,
        paths: Vec<String>,
        predicates: Vec<String>,
        source_name: Option<String>,
    },
    NamedTable { unparsed_identifier: String, options: Vec<(String, String)> },
}

/// The Python UDTF a table function relation calls.
#[derive(Debug)]
pub struct PythonUdtf {
    pub return_type: Option<DataType>,
    pub eval_type: i32,
    pub command: bytes::Bytes,
    pub python_ver: String,
}

/// The kind of a relation and its fields.
#[derive(Debug)]
pub enum RelType {
    Range { start: Option<i64>, end: i64, step: i64, num_partitions: Option<i32> },
    Sql { query: String },
    Project { input: Option<Box<Relation>>, expressions: Vec<Expression> },
    Filter { input: Option<Box<Relation>>, condition: Option<Expression> },
    Aggregate {
        input: Option<Box<Relation>>,
        group_type: i32,
        grouping_expressions: Vec<Expression>,
        aggregate_expressions: Vec<Expression>,
        pivot: Option<Pivot>,
        grouping_sets: Vec<GroupingSets>,
    },
    Join {
        left: Option<Box<Relation>>,
        right: Option<Box<Relation>>,
        join_condition: Option<Expression>,
        join_type: i32,
        using_columns: Vec<String>,
    },
    LateralJoin {
        left: Option<Box<Relation>>,
        right: Option<Box<Relation>>,
        join_condition: Option<Expression>,
        join_type: i32,
    },
    SetOp {
        left_input: Option<Box<Relation>>,
        right_input: Option<Box<Relation>>,
        set_op_type: i32,
        is_all: Option<bool>,
        by_name: Option<bool>,
        allow_missing_columns: Option<bool>,
    },
    Limit { input: Option<Box<Relation>>, limit: i32 },
    Offset { input: Option<Box<Relation>>, offset: i32 },
    Tail { input: Option<Box<Relation>>, limit: i32 },
    Deduplicate {
        input: Option<Box<Relation>>,
        column_names: Vec<String>,
        all_columns_as_keys: Option<bool>,
        within_watermark: Option<bool>,
    },
    Sort { input: Option<Box<Relation>>, order: Vec<SortOrder>, is_global: Option<bool> },
    Sample {
        input: Option<Box<Relation>>,
        lower_bound: Float64,
        upper_bound: Float64,
        with_replacement: Option<bool>,
        seed: Option<i64>,
    },
    Repartition { input: Option<Box<Relation>>, num_partitions: i32, shuffle: Option<bool> },
    RepartitionByExpression {
        input: Option<Box<Relation>>,
        partition_exprs: Vec<Expression>,
        num_partitions: Option<i32>,
    },
    WithColumns { input: Option<Box<Relation>>, aliases: Vec<ColumnAlias> },
    WithColumnsRenamed { input: Option<Box<Relation>>, renames: Vec<Rename> },
    Drop { input: Option<Box<Relation>>, column_names: Vec<String> },
    ToDf { input: Option<Box<Relation>>, column_names: Vec<String> },
    ToSchema { input: Option<Box<Relation>>, schema: Option<DataType> },
    Hint { input: Option<Box<Relation>>, name: String, parameters: Vec<Expression> },
    Unpivot {
        input: Option<Box<Relation>>,
        ids: Vec<Expression>,
        values: Option<Vec<Expression>>,
        variable_column_name: String,
        value_column_name: String,
    },
    FillNa { input: Option<Box<Relation>>, cols: Vec<String>, values: Vec<Literal> },
    DropNa { input: Option<Box<Relation>>, cols: Vec<String>, min_non_nulls: Option<i32> },
    Replace { input: Option<Box<Relation>>, cols: Vec<String>, replacements: Vec<Replacement> },
    Describe { input: Option<Box<Relation>>, cols: Vec<String> },
    Summary { input: Option<Box<Relation>>, statistics: Vec<String> },
    SubqueryAlias { input: Option<Box<Relation>>, alias: String },
    LocalRelation { data: Option<bytes::Bytes>, schema: Option<String> },
    CachedRemoteRelation { relation_id: String },
    Read { is_streaming: bool, read_type: Option<ReadSource> },
    WithWatermark { input: Option<Box<Relation>>, event_time: String, delay_threshold: String },
    Crosstab { input: Option<Box<Relation>>, col1: String, col2: String },
    FreqItems { input: Option<Box<Relation>>, cols: Vec<String>, support: Option<Float64> },
    ApproxQuantile {
        input: Option<Box<Relation>>,
        cols: Vec<String>,
        probabilities: Vec<Float64>,
        relative_error: Float64,
    },
    Corr { input: Option<Box<Relation>>, col1: String, col2: String },
    Cov { input: Option<Box<Relation>>, col1: String, col2: String },
    SampleBy {
        input: Option<Box<Relation>>,
        col: Option<Expression>,
        fractions: Vec<Fraction>,
        seed: Option<i64>,
    },
    CollectMetrics { input: Option<Box<Relation>>, name: String, metrics: Vec<Expression> },
    UnresolvedTableValuedFunction { function_name: String, arguments: Vec<Expression> },
    Zip { left: Option<Box<Relation>>, right: Option<Box<Relation>> },
    NearestByJoin {
        left: Option<Box<Relation>>,
        right: Option<Box<Relation>>,
        ranking_expression: Option<Expression>,
        num_results: i32,
        join_type: String,
        mode: String,
        direction: String,
    },
    CommonInlineUserDefinedTableFunction {
        function_name: String,
        deterministic: bool,
        arguments: Vec<Expression>,
        python_udtf: PythonUdtf,
    },
    Catalog(CatalogOp),
    /// `spark.connect.MlRelation` of kind `Transform`: the transformer
    /// applied to `input` with `params`.
    MlRelation { transformer: MlOperatorMsg, input: Option<Box<Relation>>, params: MlParams },
}

// ---------------------------------------------------------------------------
// Views
// ---------------------------------------------------------------------------

pub struct RelationCommonView {
    pub plan_id: Option<i64>,
}

pub struct RelationView {
    pub common: Option<RelationCommonView>,
    pub rel_type: Option<RelTypeView>,
}

pub struct PivotView {
    pub col: Option<ExpressionView>,
    pub values: Seq<LiteralView>,
}

pub struct ColumnAliasView {
    pub expr: ExpressionView,
    pub name: Seq<Seq<char>>,
}

pub struct ReplacementView {
    pub old_value: Option<LiteralView>,
    pub new_value: Option<LiteralView>,
}

pub enum ReadSourceView {
    DataSource {
        format: Option<Seq<char>>,
        schema: Option<Seq<char>>,
        options: Seq<(Seq<char>, Seq<char>)>,
        paths: Seq<Seq<char>>,
        predicates: Seq<Seq<char>>,
        source_name: Option<Seq<char>>,
    },
    NamedTable { unparsed_identifier: Seq<char>, options: Seq<(Seq<char>, Seq<char>)> },
}

pub struct PythonUdtfView {
    pub return_type: Option<DataTypeView>,
    pub eval_type: i32,
    pub command: Seq<u8>,
    pub python_ver: Seq<char>,
}

pub type Input = Option<Box<RelationView>>;

pub enum RelTypeView {
    Range { start: Option<i64>, end: i64, step: i64, num_partitions: Option<i32> },
    Sql { query: Seq<char> },
    Project { input: Input, expressions: Seq<ExpressionView> },
    Filter { input: Input, condition: Option<ExpressionView> },
    Aggregate {
        input: Input,
        group_type: i32,
        grouping_expressions: Seq<ExpressionView>,
        aggregate_expressions: Seq<ExpressionView>,
        pivot: Option<PivotView>,
        grouping_sets: Seq<Seq<ExpressionView>>,
    },
    Join { left: Input, right: Input, join_condition: Option<ExpressionView>, join_type: i32, using_columns: Seq<Seq<char>> },
    LateralJoin { left: Input, right: Input, join_condition: Option<ExpressionView>, join_type: i32 },
    SetOp {
        left_input: Input,
        right_input: Input,
        set_op_type: i32,
        is_all: Option<bool>,
        by_name: Option<bool>,
        allow_missing_columns: Option<bool>,
    },
    Limit { input: Input, limit: i32 },
    Offset { input: Input, offset: i32 },
    Tail { input: Input, limit: i32 },
    Deduplicate { input: Input, column_names: Seq<Seq<char>>, all_columns_as_keys: Option<bool>, within_watermark: Option<bool> },
    Sort { input: Input, order: Seq<SortOrderView>, is_global: Option<bool> },
    Sample { input: Input, lower_bound: (u64, Seq<char>), upper_bound: (u64, Seq<char>), with_replacement: Option<bool>, seed: Option<i64> },
    Repartition { input: Input, num_partitions: i32, shuffle: Option<bool> },
    RepartitionByExpression { input: Input, partition_exprs: Seq<ExpressionView>, num_partitions: Option<i32> },
    WithColumns { input: Input, aliases: Seq<ColumnAliasView> },
    WithColumnsRenamed { input: Input, renames: Seq<(Seq<char>, Seq<char>)> },
    Drop { input: Input, column_names: Seq<Seq<char>> },
    ToDf { input: Input, column_names: Seq<Seq<char>> },
    ToSchema { input: Input, schema: Option<DataTypeView> },
    Hint { input: Input, name: Seq<char>, parameters: Seq<ExpressionView> },
    Unpivot { input: Input, ids: Seq<ExpressionView>, values: Option<Seq<ExpressionView>>, variable_column_name: Seq<char>, value_column_name: Seq<char> },
    FillNa { input: Input, cols: Seq<Seq<char>>, values: Seq<LiteralView> },
    DropNa { input: Input, cols: Seq<Seq<char>>, min_non_nulls: Option<i32> },
    Replace { input: Input, cols: Seq<Seq<char>>, replacements: Seq<ReplacementView> },
    Describe { input: Input, cols: Seq<Seq<char>> },
    Summary { input: Input, statistics: Seq<Seq<char>> },
    SubqueryAlias { input: Input, alias: Seq<char> },
    LocalRelation { data: Option<Seq<u8>>, schema: Option<Seq<char>> },
    CachedRemoteRelation { relation_id: Seq<char> },
    Read { is_streaming: bool, read_type: Option<ReadSourceView> },
    WithWatermark { input: Input, event_time: Seq<char>, delay_threshold: Seq<char> },
    Crosstab { input: Input, col1: Seq<char>, col2: Seq<char> },
    FreqItems { input: Input, cols: Seq<Seq<char>>, support: Option<(u64, Seq<char>)> },
    ApproxQuantile { input: Input, cols: Seq<Seq<char>>, probabilities: Seq<(u64, Seq<char>)>, relative_error: (u64, Seq<char>) },
    Corr { input: Input, col1: Seq<char>, col2: Seq<char> },
    Cov { input: Input, col1: Seq<char>, col2: Seq<char> },
    SampleBy { input: Input, col: Option<ExpressionView>, fractions: Seq<Option<LiteralView>>, seed: Option<i64> },
    CollectMetrics { input: Input, name: Seq<char>, metrics: Seq<ExpressionView> },
    UnresolvedTableValuedFunction { function_name: Seq<char>, arguments: Seq<ExpressionView> },
    Zip { left: Input, right: Input },
    NearestByJoin {
        left: Input,
        right: Input,
        ranking_expression: Option<ExpressionView>,
        num_results: i32,
        join_type: Seq<char>,
        mode: Seq<char>,
        direction: Seq<char>,
    },
    CommonInlineUserDefinedTableFunction { function_name: Seq<char>, deterministic: bool, arguments: Seq<ExpressionView>, python_udtf: PythonUdtfView },
    Catalog(CatalogOpView),
    MlRelation { transformer: (Seq<char>, Seq<char>, i32), input: Input, params: Seq<(Seq<char>, LiteralView)> },
}

pub open spec fn opt_expr_view(e: Option<Expression>) -> Option<ExpressionView> {
    match e {
        Some(x) => Some(expr_msg_view(x)),
        None => None,
    }
}

pub open spec fn opt_literal_view(l: Option<Literal>) -> Option<LiteralView> {
    match l {
        Some(x) => Some(literal_view(x)),
        None => None,
    }
}

pub open spec fn floats_view(s: Seq<Float64>) -> Seq<(u64, Seq<char>)> {
    s.map_values(|f: Float64| f@)
}

pub open spec fn opt_data_type_view(d: Option<DataType>) -> Option<DataTypeView> {
    match d {
        Some(x) => Some(x@),
        None => None,
    }
}

pub open spec fn read_source_view(r: ReadSource) -> ReadSourceView {
    match r {
        ReadSource::DataSource { format, schema, options, paths, predicates, source_name } =>
            ReadSourceView::DataSource {
                format: opt_string_view(format),
                schema: opt_string_view(schema),
                options: pairs_view(options@),
                paths: strings_view(paths@),
                predicates: strings_view(predicates@),
                source_name: opt_string_view(source_name),
            },
        ReadSource::NamedTable { unparsed_identifier, options } => ReadSourceView::NamedTable {
            unparsed_identifier: unparsed_identifier@,
            options: pairs_view(options@),
        },
    }
}

pub open spec fn input_view(r: Option<Box<Relation>>) -> Input
    decreases r, 0int,
{
    match r {
        Some(b) => Some(Box::new(rel_view(*b))),
        None => None,
    }
}

pub open spec fn rel_view(r: Relation) -> RelationView
    decreases r, 1int,
{
    RelationView {
        common: match r.common {
            Some(c) => Some(RelationCommonView { plan_id: c.plan_id }),
            None => None,
        },
        rel_type: match r.rel_type {
            Some(t) => Some(rel_type_view(t)),
            None => None,
        },
    }
}

pub open spec fn rel_type_view(t: RelType) -> RelTypeView
    decreases t, 2int,
{
    match t {
        RelType::Range { start, end, step, num_partitions } => RelTypeView::Range { start, end, step, num_partitions },
        RelType::Sql { query } => RelTypeView::Sql { query: query@ },
        RelType::Project { input, expressions } => RelTypeView::Project { input: input_view(input), expressions: expr_msgs_view(expressions@) },
        RelType::Filter { input, condition } => RelTypeView::Filter { input: input_view(input), condition: opt_expr_view(condition) },
        RelType::Aggregate { input, group_type, grouping_expressions, aggregate_expressions, pivot, grouping_sets } =>
            RelTypeView::Aggregate {
                input: input_view(input),
                group_type,
                grouping_expressions: expr_msgs_view(grouping_expressions@),
                aggregate_expressions: expr_msgs_view(aggregate_expressions@),
                pivot: match pivot {
                    Some(p) => Some(PivotView { col: opt_expr_view(p.col), values: literals_view(p.values@) }),
                    None => None,
                },
                grouping_sets: grouping_sets@.map_values(|g: GroupingSets| expr_msgs_view(g.grouping_set@)),
            },
        RelType::Join { left, right, join_condition, join_type, using_columns } => RelTypeView::Join {
            left: input_view(left),
            right: input_view(right),
            join_condition: opt_expr_view(join_condition),
            join_type,
            using_columns: strings_view(using_columns@),
        },
        RelType::LateralJoin { left, right, join_condition, join_type } => RelTypeView::LateralJoin {
            left: input_view(left),
            right: input_view(right),
            join_condition: opt_expr_view(join_condition),
            join_type,
        },
        RelType::SetOp { left_input, right_input, set_op_type, is_all, by_name, allow_missing_columns } => RelTypeView::SetOp {
            left_input: input_view(left_input),
            right_input: input_view(right_input),
            set_op_type,
            is_all,
            by_name,
            allow_missing_columns,
        },
        RelType::Limit { input, limit } => RelTypeView::Limit { input: input_view(input), limit },
        RelType::Offset { input, offset } => RelTypeView::Offset { input: input_view(input), offset },
        RelType::Tail { input, limit } => RelTypeView::Tail { input: input_view(input), limit },
        RelType::Deduplicate { input, column_names, all_columns_as_keys, within_watermark } => RelTypeView::Deduplicate {
            input: input_view(input),
            column_names: strings_view(column_names@),
            all_columns_as_keys,
            within_watermark,
        },
        RelType::Sort { input, order, is_global } => RelTypeView::Sort { input: input_view(input), order: sort_msgs_view(order@), is_global },
        RelType::Sample { input, lower_bound, upper_bound, with_replacement, seed } => RelTypeView::Sample {
            input: input_view(input),
            lower_bound: lower_bound@,
            upper_bound: upper_bound@,
            with_replacement,
            seed,
        },
        RelType::Repartition { input, num_partitions, shuffle } => RelTypeView::Repartition { input: input_view(input), num_partitions, shuffle },
        RelType::RepartitionByExpression { input, partition_exprs, num_partitions } => RelTypeView::RepartitionByExpression {
            input: input_view(input),
            partition_exprs: expr_msgs_view(partition_exprs@),
            num_partitions,
        },
        RelType::WithColumns { input, aliases } => RelTypeView::WithColumns {
            input: input_view(input),
            aliases: aliases@.map_values(|a: ColumnAlias| ColumnAliasView { expr: expr_msg_view(a.expr), name: strings_view(a.name@) }),
        },
        RelType::WithColumnsRenamed { input, renames } => RelTypeView::WithColumnsRenamed {
            input: input_view(input),
            renames: renames@.map_values(|r: Rename| (r.col_name@, r.new_col_name@)),
        },
        RelType::Drop { input, column_names } => RelTypeView::Drop { input: input_view(input), column_names: strings_view(column_names@) },
        RelType::ToDf { input, column_names } => RelTypeView::ToDf { input: input_view(input), column_names: strings_view(column_names@) },
        RelType::ToSchema { input, schema } => RelTypeView::ToSchema { input: input_view(input), schema: opt_data_type_view(schema) },
        RelType::Hint { input, name, parameters } => RelTypeView::Hint { input: input_view(input), name: name@, parameters: expr_msgs_view(parameters@) },
        RelType::Unpivot { input, ids, values, variable_column_name, value_column_name } => RelTypeView::Unpivot {
            input: input_view(input),
            ids: expr_msgs_view(ids@),
            values: match values {
                Some(v) => Some(expr_msgs_view(v@)),
                None => None,
            },
            variable_column_name: variable_column_name@,
            value_column_name: value_column_name@,
        },
        RelType::FillNa { input, cols, values } => RelTypeView::FillNa { input: input_view(input), cols: strings_view(cols@), values: literals_view(values@) },
        RelType::DropNa { input, cols, min_non_nulls } => RelTypeView::DropNa { input: input_view(input), cols: strings_view(cols@), min_non_nulls },
        RelType::Replace { input, cols, replacements } => RelTypeView::Replace {
            input: input_view(input),
            cols: strings_view(cols@),
            replacements: replacements@.map_values(|r: Replacement| ReplacementView {
                old_value: opt_literal_view(r.old_value),
                new_value: opt_literal_view(r.new_value),
            }),
        },
        RelType::Describe { input, cols } => RelTypeView::Describe { input: input_view(input), cols: strings_view(cols@) },
        RelType::Summary { input, statistics } => RelTypeView::Summary { input: input_view(input), statistics: strings_view(statistics@) },
        RelType::SubqueryAlias { input, alias } => RelTypeView::SubqueryAlias { input: input_view(input), alias: alias@ },
        RelType::LocalRelation { data, schema } => RelTypeView::LocalRelation {
            data: match data {
                Some(b) => Some(bytes_content(b)),
                None => None,
            },
            schema: opt_string_view(schema),
        },
        RelType::CachedRemoteRelation { relation_id } => RelTypeView::CachedRemoteRelation { relation_id: relation_id@ },
        RelType::Read { is_streaming, read_type } => RelTypeView::Read {
            is_streaming,
            read_type: match read_type {
                Some(r) => Some(read_source_view(r)),
                None => None,
            },
        },
        RelType::WithWatermark { input, event_time, delay_threshold } => RelTypeView::WithWatermark {
            input: input_view(input),
            event_time: event_time@,
            delay_threshold: delay_threshold@,
        },
        RelType::Crosstab { input, col1, col2 } => RelTypeView::Crosstab { input: input_view(input), col1: col1@, col2: col2@ },
        RelType::FreqItems { input, cols, support } => RelTypeView::FreqItems {
            input: input_view(input),
            cols: strings_view(cols@),
            support: match support {
                Some(f) => Some(f@),
                None => None,
            },
        },
        RelType::ApproxQuantile { input, cols, probabilities, relative_error } => RelTypeView::ApproxQuantile {
            input: input_view(input),
            cols: strings_view(cols@),
            probabilities: floats_view(probabilities@),
            relative_error: relative_error@,
        },
        RelType::Corr { input, col1, col2 } => RelTypeView::Corr { input: input_view(input), col1: col1@, col2: col2@ },
        RelType::Cov { input, col1, col2 } => RelTypeView::Cov { input: input_view(input), col1: col1@, col2: col2@ },
        RelType::SampleBy { input, col, fractions, seed } => RelTypeView::SampleBy {
            input: input_view(input),
            col: opt_expr_view(col),
            fractions: fractions@.map_values(|f: Fraction| opt_literal_view(f.stratum)),
            seed,
        },
        RelType::CollectMetrics { input, name, metrics } => RelTypeView::CollectMetrics {
            input: input_view(input),
            name: name@,
            metrics: expr_msgs_view(metrics@),
        },
        RelType::UnresolvedTableValuedFunction { function_name, arguments } => RelTypeView::UnresolvedTableValuedFunction {
            function_name: function_name@,
            arguments: expr_msgs_view(arguments@),
        },
        RelType::Zip { left, right } => RelTypeView::Zip { left: input_view(left), right: input_view(right) },
        RelType::NearestByJoin { left, right, ranking_expression, num_results, join_type, mode, direction } => RelTypeView::NearestByJoin {
            left: input_view(left),
            right: input_view(right),
            ranking_expression: opt_expr_view(ranking_expression),
            num_results,
            join_type: join_type@,
            mode: mode@,
            direction: direction@,
        },
        RelType::CommonInlineUserDefinedTableFunction { function_name, deterministic, arguments, python_udtf } =>
            RelTypeView::CommonInlineUserDefinedTableFunction {
                function_name: function_name@,
                deterministic,
                arguments: expr_msgs_view(arguments@),
                python_udtf: PythonUdtfView {
                    return_type: opt_data_type_view(python_udtf.return_type),
                    eval_type: python_udtf.eval_type,
                    command: bytes_content(python_udtf.command),
                    python_ver: python_udtf.python_ver@,
                },
            },
        RelType::Catalog(op) => RelTypeView::Catalog(op@),
        RelType::MlRelation { transformer, input, params } => RelTypeView::MlRelation {
            transformer: ml_operator_msg_view(transformer),
            input: input_view(input),
            params: ml_params_view(params),
        },
    }
}

impl View for Relation {
    type V = RelationView;

    open spec fn view(&self) -> RelationView {
        rel_view(*self)
    }
}

} // verus!
