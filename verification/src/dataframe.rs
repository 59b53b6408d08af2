//! DataFrames as lazily built plans: each transformation wraps the current
//! plan in one new operator, and a plan becomes a request relation by
//! conversion to messages and plan-id numbering.

use vstd::prelude::*;
use std::rc::Rc;
use crate::column::{Column, col, is_call};
use crate::expression::{Expression, ColumnReference, LiteralExpression};
use crate::options::StringMap;
use crate::plan::{AggregateGroupType, JoinType, LogicalPlan, ReplaceValue, SetOpType, plan_rel};
use crate::plan_ids::{PlanIdCounter, assign_plan_ids, assign_rel, count_rel};
use crate::relation::Relation;
use crate::row::{Row, Value, int_value};
use crate::catalog::{ConnectError, first_value};
use crate::merge::MergeIntoWriter;
use crate::readwriter::{DataFrameWriter, DataFrameWriterV2, SaveMode};
use crate::types::{DataType, StructField, type_simple_string};
use crate::text::{owned, strings_view};
use crate::plan_debug::{plan_debug, plan_debug_string};
use crate::types::Float64;

verus! {

/// A DataFrame: a lazily evaluated logical plan.
#[derive(Debug)]
pub struct DataFrame {
    pub plan: Rc<LogicalPlan>,
}

/// `c` is a free reference to the column `name`.
pub open spec fn is_column_named(c: Column, name: Seq<char>) -> bool {
    c.expr matches Expression::ColumnReference(r) && r.name@ == name && r.plan_id is None && !r.is_metadata_column
}

/// The names as strings, in order.
pub(crate) fn strings_of(names: &Vec<&str>) -> (r: Vec<String>)
    ensures
        strings_view(r@) == names@.map_values(|s: &str| s@),
{
    let mut r: Vec<String> = Vec::new();
    let mut i: usize = 0;
    while i < names.len()
        invariant
            i <= names@.len(),
            r@.len() == i,
            forall|j: int| 0 <= j < i ==> #[trigger] r@[j]@ == names@[j]@,
        decreases names@.len() - i,
    {
        r.push(owned(names[i]));
        i = i + 1;
    }
    assert(strings_view(r@) =~= names@.map_values(|s: &str| s@));
    r
}

/// Free column references to each name, in order.
fn columns_of(names: &Vec<&str>) -> (r: Vec<Column>)
    ensures
        r@.len() == names@.len(),
        forall|i: int| 0 <= i < names@.len() ==> is_column_named(#[trigger] r@[i], names@[i]@),
{
    let mut r: Vec<Column> = Vec::new();
    let mut i: usize = 0;
    while i < names.len()
        invariant
            i <= names@.len(),
            r@.len() == i,
            forall|j: int| 0 <= j < i ==> is_column_named(#[trigger] r@[j], names@[j]@),
        decreases names@.len() - i,
    {
        r.push(col(names[i]));
        i = i + 1;
    }
    r
}

/// The optional list of names as strings; no list gives no names.
fn subset_strings(subset: Option<Vec<&str>>) -> (r: Vec<String>)
    ensures
        strings_view(r@) == match subset {
            Some(v) => v@.map_values(|s: &str| s@),
            None => Seq::empty(),
        },
{
    match subset {
        Some(v) => strings_of(&v),
        None => {
            let r: Vec<String> = Vec::new();
            assert(strings_view(r@) =~= Seq::<Seq<char>>::empty());
            r
        },
    }
}

impl DataFrame {
    /// A DataFrame over `plan`.
    pub fn new(plan: LogicalPlan) -> (df: DataFrame)
        ensures
            *df.plan == plan,
    {
        DataFrame { plan: Rc::new(plan) }
    }

    /// The plan of this DataFrame.
    pub fn plan(&self) -> (p: &LogicalPlan)
        ensures
            *p == *self.plan,
    {
        &self.plan
    }

    fn wrap(p: LogicalPlan) -> (df: DataFrame)
        ensures
            *df.plan == p,
    {
        DataFrame { plan: Rc::new(p) }
    }

    /// `SELECT columns`.
    pub fn select(&self, columns: Vec<Column>) -> (df: DataFrame)
        ensures
            *df.plan == (LogicalPlan::Project { input: self.plan, columns }),
    {
        Self::wrap(LogicalPlan::Project { input: self.plan.clone(), columns })
    }

    /// Rows satisfying `condition`.
    pub fn filter(&self, condition: Column) -> (df: DataFrame)
        ensures
            *df.plan == (LogicalPlan::Filter { input: self.plan, condition }),
    {
        Self::wrap(LogicalPlan::Filter { input: self.plan.clone(), condition })
    }

    /// Same as `filter`.
    pub fn where_(&self, condition: Column) -> (df: DataFrame)
        ensures
            *df.plan == (LogicalPlan::Filter { input: self.plan, condition }),
    {
        self.filter(condition)
    }

    /// Adds or replaces the column `name`.
    pub fn with_column(&self, name: &str, column: Column) -> (df: DataFrame)
        ensures
            *df.plan matches LogicalPlan::WithColumns { input, column_names, columns }
                && input == self.plan && strings_view(column_names@) == seq![name@] && columns@ == seq![column],
    {
        let mut names: Vec<String> = Vec::new();
        names.push(owned(name));
        let mut cols: Vec<Column> = Vec::new();
        cols.push(column);
        assert(strings_view(names@) =~= seq![name@]);
        Self::wrap(LogicalPlan::WithColumns { input: self.plan.clone(), column_names: names, columns: cols })
    }

    /// Adds or replaces several columns, in order.
    pub fn with_columns(&self, columns: Vec<(String, Column)>) -> (df: DataFrame)
        ensures
            *df.plan matches LogicalPlan::WithColumns { input, column_names, columns: cols }
                && input == self.plan
                && column_names@ == columns@.map_values(|p: (String, Column)| p.0)
                && cols@ == columns@.map_values(|p: (String, Column)| p.1),
    {
        let ghost orig = columns@;
        let mut names: Vec<String> = Vec::new();
        let mut cols: Vec<Column> = Vec::new();
        assert(columns@ =~= orig.skip(0));
        let mut rest = columns;
        while rest.len() > 0
            invariant
                names@.len() == cols@.len(),
                names@.len() + rest@.len() == orig.len(),
                rest@ == orig.skip(names@.len() as int),
                names@ == orig.take(names@.len() as int).map_values(|p: (String, Column)| p.0),
                cols@ == orig.take(names@.len() as int).map_values(|p: (String, Column)| p.1),
            decreases rest@.len(),
        {
            let ghost k = names@.len() as int;
            let (n, c) = rest.remove(0);
            assert(orig[k] == (n, c));
            names.push(n);
            cols.push(c);
            assert(rest@ =~= orig.skip(k + 1));
            assert(names@ =~= orig.take(k + 1).map_values(|p: (String, Column)| p.0));
            assert(cols@ =~= orig.take(k + 1).map_values(|p: (String, Column)| p.1));
        }
        assert(orig.take(orig.len() as int) =~= orig);
        Self::wrap(LogicalPlan::WithColumns { input: self.plan.clone(), column_names: names, columns: cols })
    }

    /// Renames the column `existing` to `new`.
    pub fn with_column_renamed(&self, existing: &str, new: &str) -> (df: DataFrame)
        ensures
            *df.plan matches LogicalPlan::WithColumnsRenamed { input, renames }
                && input == self.plan && renames@ == map![existing@ => new@]
                && renames.entries_view() == seq![(existing@, new@)],
    {
        let mut renames = StringMap::new();
        renames.insert(owned(existing), owned(new));
        assert(Map::<Seq<char>, Seq<char>>::empty().insert(existing@, new@) =~= map![existing@ => new@]);
        Self::wrap(LogicalPlan::WithColumnsRenamed { input: self.plan.clone(), renames })
    }

    /// Renames several columns; a later rename of the same column wins.
    pub fn with_columns_renamed(&self, renames: Vec<(String, String)>) -> (df: DataFrame)
        ensures
            *df.plan matches LogicalPlan::WithColumnsRenamed { input, renames: m }
                && input == self.plan
                && m@ == crate::options::pairs_map(crate::options::pairs_view(renames@)),
    {
        let ghost orig = crate::options::pairs_view(renames@);
        let mut m = StringMap::new();
        let mut i: usize = 0;
        while i < renames.len()
            invariant
                i <= renames@.len(),
                orig == crate::options::pairs_view(renames@),
                m@ == crate::options::pairs_map(orig.take(i as int)),
            decreases renames@.len() - i,
        {
            let k = renames[i].0.clone();
            let v = renames[i].1.clone();
            m.insert(k, v);
            assert(orig.take(i as int + 1).drop_last() =~= orig.take(i as int));
            i = i + 1;
        }
        assert(orig.take(renames@.len() as int) =~= orig);
        Self::wrap(LogicalPlan::WithColumnsRenamed { input: self.plan.clone(), renames: m })
    }

    /// Drops the named columns.
    pub fn drop(&self, columns: Vec<&str>) -> (df: DataFrame)
        ensures
            *df.plan matches LogicalPlan::Drop { input, columns: c }
                && input == self.plan && strings_view(c@) == columns@.map_values(|s: &str| s@),
    {
        let c = strings_of(&columns);
        Self::wrap(LogicalPlan::Drop { input: self.plan.clone(), columns: c })
    }

    /// The first `n` rows.
    pub fn limit(&self, n: i32) -> (df: DataFrame)
        ensures
            *df.plan == (LogicalPlan::Limit { input: self.plan, limit: n }),
    {
        Self::wrap(LogicalPlan::Limit { input: self.plan.clone(), limit: n })
    }

    /// All but the first `n` rows.
    pub fn offset(&self, n: i32) -> (df: DataFrame)
        ensures
            *df.plan == (LogicalPlan::Offset { input: self.plan, offset: n }),
    {
        Self::wrap(LogicalPlan::Offset { input: self.plan.clone(), offset: n })
    }

    /// The last `n` rows.
    pub fn tail(&self, n: i32) -> (df: DataFrame)
        ensures
            *df.plan == (LogicalPlan::Tail { input: self.plan, limit: n }),
    {
        Self::wrap(LogicalPlan::Tail { input: self.plan.clone(), limit: n })
    }

    /// Distinct rows.
    pub fn distinct(&self) -> (df: DataFrame)
        ensures
            *df.plan matches LogicalPlan::Deduplicate { input, all_columns_as_keys, column_names, within_watermark }
                && input == self.plan && all_columns_as_keys && column_names@.len() == 0 && !within_watermark,
    {
        Self::wrap(LogicalPlan::Deduplicate {
            input: self.plan.clone(),
            all_columns_as_keys: true,
            column_names: Vec::new(),
            within_watermark: false,
        })
    }

    /// Rows distinct on the named columns, or on all columns when none are named.
    pub fn drop_duplicates(&self, column_names: Option<Vec<&str>>) -> (df: DataFrame)
        ensures
            *df.plan matches LogicalPlan::Deduplicate { input, all_columns_as_keys, column_names: c, within_watermark }
                && input == self.plan && all_columns_as_keys == (column_names is None) && !within_watermark
                && strings_view(c@) == match column_names {
                    Some(v) => v@.map_values(|s: &str| s@),
                    None => Seq::empty(),
                },
    {
        let all = column_names.is_none();
        let c = subset_strings(column_names);
        Self::wrap(LogicalPlan::Deduplicate {
            input: self.plan.clone(),
            all_columns_as_keys: all,
            column_names: c,
            within_watermark: false,
        })
    }

    /// Rows distinct on the named columns within the watermark.
    pub fn drop_duplicates_within_watermark(&self, column_names: Option<Vec<&str>>) -> (df: DataFrame)
        ensures
            *df.plan matches LogicalPlan::Deduplicate { input, all_columns_as_keys, column_names: c, within_watermark }
                && input == self.plan && all_columns_as_keys == (column_names is None) && within_watermark
                && strings_view(c@) == match column_names {
                    Some(v) => v@.map_values(|s: &str| s@),
                    None => Seq::empty(),
                },
    {
        let all = column_names.is_none();
        let c = subset_strings(column_names);
        Self::wrap(LogicalPlan::Deduplicate {
            input: self.plan.clone(),
            all_columns_as_keys: all,
            column_names: c,
            within_watermark: true,
        })
    }

    /// Rows sorted globally by `columns`.
    pub fn sort(&self, columns: Vec<Expression>) -> (df: DataFrame)
        ensures
            *df.plan == (LogicalPlan::Sort { input: self.plan, order: columns, is_global: true }),
    {
        Self::wrap(LogicalPlan::Sort { input: self.plan.clone(), order: columns, is_global: true })
    }

    /// Same as `sort`.
    pub fn order_by(&self, columns: Vec<Expression>) -> (df: DataFrame)
        ensures
            *df.plan == (LogicalPlan::Sort { input: self.plan, order: columns, is_global: true }),
    {
        self.sort(columns)
    }

    /// Rows sorted within each partition.
    pub fn sort_within_partitions(&self, columns: Vec<Expression>) -> (df: DataFrame)
        ensures
            *df.plan == (LogicalPlan::Sort { input: self.plan, order: columns, is_global: false }),
    {
        Self::wrap(LogicalPlan::Sort { input: self.plan.clone(), order: columns, is_global: false })
    }

    /// A join with `right` on `on`.
    pub fn join(&self, right: &DataFrame, on: Option<Column>, join_type: JoinType) -> (df: DataFrame)
        ensures
            *df.plan matches LogicalPlan::Join { left, right: r, join_type: t, on: o, using_columns }
                && left == self.plan && r == right.plan && t == join_type && o == on && using_columns@.len() == 0,
    {
        Self::wrap(LogicalPlan::Join {
            left: self.plan.clone(),
            right: right.plan.clone(),
            join_type,
            on,
            using_columns: Vec::new(),
        })
    }

    /// A join with `right` on the named columns.
    pub fn join_using(&self, right: &DataFrame, using_columns: Vec<String>, join_type: JoinType) -> (df: DataFrame)
        ensures
            *df.plan == (LogicalPlan::Join { left: self.plan, right: right.plan, join_type, on: None, using_columns }),
    {
        Self::wrap(LogicalPlan::Join {
            left: self.plan.clone(),
            right: right.plan.clone(),
            join_type,
            on: None,
            using_columns,
        })
    }

    /// The cross product with `right`.
    pub fn cross_join(&self, right: &DataFrame) -> (df: DataFrame)
        ensures
            *df.plan matches LogicalPlan::Join { left, right: r, join_type: t, on: o, using_columns }
                && left == self.plan && r == right.plan && t == JoinType::Cross && o is None && using_columns@.len() == 0,
    {
        self.join(right, None, JoinType::Cross)
    }

    fn set_op(&self, other: &DataFrame, set_op_type: SetOpType, is_all: bool, by_name: bool) -> (df: DataFrame)
        ensures
            *df.plan == (LogicalPlan::SetOperation {
                left: self.plan,
                right: other.plan,
                set_op_type,
                is_all,
                by_name,
                allow_missing_columns: false,
            }),
    {
        Self::wrap(LogicalPlan::SetOperation {
            left: self.plan.clone(),
            right: other.plan.clone(),
            set_op_type,
            is_all,
            by_name,
            allow_missing_columns: false,
        })
    }

    /// All rows of both (`UNION ALL`, by position).
    pub fn union(&self, other: &DataFrame) -> (df: DataFrame)
        ensures
            *df.plan == (LogicalPlan::SetOperation { left: self.plan, right: other.plan, set_op_type: SetOpType::Union, is_all: true, by_name: false, allow_missing_columns: false }),
    {
        self.set_op(other, SetOpType::Union, true, false)
    }

    /// Same as `union`.
    pub fn union_all(&self, other: &DataFrame) -> (df: DataFrame)
        ensures
            *df.plan == (LogicalPlan::SetOperation { left: self.plan, right: other.plan, set_op_type: SetOpType::Union, is_all: true, by_name: false, allow_missing_columns: false }),
    {
        self.set_op(other, SetOpType::Union, true, false)
    }

    /// All rows of both, matching columns by name.
    pub fn union_by_name(&self, other: &DataFrame) -> (df: DataFrame)
        ensures
            *df.plan == (LogicalPlan::SetOperation { left: self.plan, right: other.plan, set_op_type: SetOpType::Union, is_all: true, by_name: true, allow_missing_columns: false }),
    {
        self.set_op(other, SetOpType::Union, true, true)
    }

    /// Distinct rows in both.
    pub fn intersect(&self, other: &DataFrame) -> (df: DataFrame)
        ensures
            *df.plan == (LogicalPlan::SetOperation { left: self.plan, right: other.plan, set_op_type: SetOpType::Intersect, is_all: false, by_name: false, allow_missing_columns: false }),
    {
        self.set_op(other, SetOpType::Intersect, false, false)
    }

    /// Rows in both, keeping duplicates.
    pub fn intersect_all(&self, other: &DataFrame) -> (df: DataFrame)
        ensures
            *df.plan == (LogicalPlan::SetOperation { left: self.plan, right: other.plan, set_op_type: SetOpType::Intersect, is_all: true, by_name: false, allow_missing_columns: false }),
    {
        self.set_op(other, SetOpType::Intersect, true, false)
    }

    /// Distinct rows not in `other`.
    pub fn subtract(&self, other: &DataFrame) -> (df: DataFrame)
        ensures
            *df.plan == (LogicalPlan::SetOperation { left: self.plan, right: other.plan, set_op_type: SetOpType::Except, is_all: false, by_name: false, allow_missing_columns: false }),
    {
        self.set_op(other, SetOpType::Except, false, false)
    }

    /// Rows not in `other`, keeping duplicates.
    pub fn except_all(&self, other: &DataFrame) -> (df: DataFrame)
        ensures
            *df.plan == (LogicalPlan::SetOperation { left: self.plan, right: other.plan, set_op_type: SetOpType::Except, is_all: true, by_name: false, allow_missing_columns: false }),
    {
        self.set_op(other, SetOpType::Except, true, false)
    }

    /// Redistributes into `num_partitions` partitions with a shuffle.
    pub fn repartition(&self, num_partitions: i32) -> (df: DataFrame)
        ensures
            *df.plan == (LogicalPlan::Repartition { input: self.plan, num_partitions, shuffle: true }),
    {
        Self::wrap(LogicalPlan::Repartition { input: self.plan.clone(), num_partitions, shuffle: true })
    }

    /// Same as `repartition`.
    pub fn repartition_by_id(&self, num_partitions: i32) -> (df: DataFrame)
        ensures
            *df.plan == (LogicalPlan::Repartition { input: self.plan, num_partitions, shuffle: true }),
    {
        self.repartition(num_partitions)
    }

    /// Reduces to `num_partitions` partitions without a shuffle.
    pub fn coalesce(&self, num_partitions: i32) -> (df: DataFrame)
        ensures
            *df.plan == (LogicalPlan::Repartition { input: self.plan, num_partitions, shuffle: false }),
    {
        Self::wrap(LogicalPlan::Repartition { input: self.plan.clone(), num_partitions, shuffle: false })
    }

    /// Range partitioning by `columns` into `num_partitions` partitions.
    pub fn repartition_by_range(&self, num_partitions: i32, columns: Vec<Expression>) -> (df: DataFrame)
        ensures
            *df.plan == (LogicalPlan::RepartitionByRange { input: self.plan, num_partitions: Some(num_partitions), partition_exprs: columns }),
    {
        Self::wrap(LogicalPlan::RepartitionByRange {
            input: self.plan.clone(),
            num_partitions: Some(num_partitions),
            partition_exprs: columns,
        })
    }

    /// A hint named `name` with `parameters`.
    pub fn hint(&self, name: &str, parameters: Vec<String>) -> (df: DataFrame)
        ensures
            *df.plan matches LogicalPlan::Hint { input, name: n, parameters: p }
                && input == self.plan && n@ == name@ && p == parameters,
    {
        Self::wrap(LogicalPlan::Hint { input: self.plan.clone(), name: owned(name), parameters })
    }

    /// Marks this DataFrame for a broadcast join: a `broadcast` hint without parameters.
    pub fn broadcast(&self) -> (df: DataFrame)
        ensures
            *df.plan matches LogicalPlan::Hint { input, name: n, parameters: p }
                && input == self.plan && n@ == "broadcast"@ && p@.len() == 0,
    {
        self.hint("broadcast", Vec::new())
    }

    /// Renames all columns, in order.
    pub fn to_df(&self, column_names: Vec<&str>) -> (df: DataFrame)
        ensures
            *df.plan matches LogicalPlan::ToDF { input, column_names: c }
                && input == self.plan && strings_view(c@) == column_names@.map_values(|s: &str| s@),
    {
        let c = strings_of(&column_names);
        Self::wrap(LogicalPlan::ToDF { input: self.plan.clone(), column_names: c })
    }

    /// Same as `to_df`.
    pub fn to_schema(&self, column_names: Vec<&str>) -> (df: DataFrame)
        ensures
            *df.plan matches LogicalPlan::ToDF { input, column_names: c }
                && input == self.plan && strings_view(c@) == column_names@.map_values(|s: &str| s@),
    {
        self.to_df(column_names)
    }

    /// This DataFrame under the alias `alias`.
    pub fn alias(&self, alias: &str) -> (df: DataFrame)
        ensures
            *df.plan matches LogicalPlan::SubqueryAlias { input, alias: a } && input == self.plan && a@ == alias@,
    {
        Self::wrap(LogicalPlan::SubqueryAlias { input: self.plan.clone(), alias: owned(alias) })
    }

    /// Same as `alias`.
    pub fn as_table(&self, alias: &str) -> (df: DataFrame)
        ensures
            *df.plan matches LogicalPlan::SubqueryAlias { input, alias: a } && input == self.plan && a@ == alias@,
    {
        self.alias(alias)
    }

    /// A sample of about `fraction` of the rows, without replacement: the
    /// bounds are 0 and `fraction`.
    pub fn sample(&self, fraction: Float64, seed: Option<i64>) -> (df: DataFrame)
        ensures
            *df.plan matches LogicalPlan::Sample { input, lower_bound, upper_bound, with_replacement, seed: s }
                && input == self.plan && lower_bound@ == (0u64, "0"@) && upper_bound == fraction
                && !with_replacement && s == seed,
    {
        Self::wrap(LogicalPlan::Sample {
            input: self.plan.clone(),
            lower_bound: Float64 { bits: 0, text: owned("0") },
            upper_bound: fraction,
            with_replacement: false,
            seed,
        })
    }

    /// An event-time watermark on `time_column`.
    pub fn with_watermark(&self, time_column: &str, delay_threshold: &str) -> (df: DataFrame)
        ensures
            *df.plan matches LogicalPlan::WithWatermark { input, time_column: t, delay_threshold: d }
                && input == self.plan && t@ == time_column@ && d@ == delay_threshold@,
    {
        Self::wrap(LogicalPlan::WithWatermark {
            input: self.plan.clone(),
            time_column: owned(time_column),
            delay_threshold: owned(delay_threshold),
        })
    }

    /// Unpivots from wide to long format, with the named id and value columns.
    pub fn melt(&self, id_vars: Vec<&str>, value_vars: Option<Vec<&str>>, var_name: &str, value_name: &str) -> (df: DataFrame)
        ensures
            *df.plan matches LogicalPlan::Unpivot { input, ids, values, variable_column_name, value_column_name }
                && input == self.plan
                && ids@.len() == id_vars@.len()
                && (forall|i: int| 0 <= i < id_vars@.len() ==> is_column_named(#[trigger] ids@[i], id_vars@[i]@))
                && (values is Some <==> value_vars is Some)
                && (values matches Some(vs) ==> value_vars matches Some(names) && vs@.len() == names@.len()
                    && forall|i: int| 0 <= i < names@.len() ==> is_column_named(#[trigger] vs@[i], names@[i]@))
                && variable_column_name@ == var_name@ && value_column_name@ == value_name@,
    {
        let ids = columns_of(&id_vars);
        let vals = match value_vars {
            Some(v) => Some(columns_of(&v)),
            None => None,
        };
        Self::wrap(LogicalPlan::Unpivot {
            input: self.plan.clone(),
            ids,
            values: vals,
            variable_column_name: owned(var_name),
            value_column_name: owned(value_name),
        })
    }

    /// Unpivots from wide to long format.
    pub fn unpivot(&self, ids: Vec<Column>, values: Option<Vec<Column>>, variable_column_name: &str, value_column_name: &str) -> (df: DataFrame)
        ensures
            *df.plan matches LogicalPlan::Unpivot { input, ids: i, values: v, variable_column_name: a, value_column_name: b }
                && input == self.plan && i == ids && v == values && a@ == variable_column_name@ && b@ == value_column_name@,
    {
        Self::wrap(LogicalPlan::Unpivot {
            input: self.plan.clone(),
            ids,
            values,
            variable_column_name: owned(variable_column_name),
            value_column_name: owned(value_column_name),
        })
    }

    /// Collects the metrics `exprs` under `name`.
    pub fn observe(&self, name: &str, exprs: Vec<Expression>) -> (df: DataFrame)
        ensures
            *df.plan matches LogicalPlan::Observe { input, name: n, exprs: e } && input == self.plan && n@ == name@ && e == exprs,
    {
        Self::wrap(LogicalPlan::Observe { input: self.plan.clone(), name: owned(name), exprs })
    }

    /// An aggregation over all rows (no grouping).
    pub fn agg(&self, expressions: Vec<Expression>) -> (df: DataFrame)
        ensures
            *df.plan matches LogicalPlan::Aggregate { input, group_type, grouping_expressions, aggregate_expressions, pivot_col, pivot_values, grouping_sets }
                && input == self.plan && group_type == AggregateGroupType::GroupBy && grouping_expressions@.len() == 0
                && aggregate_expressions == expressions && pivot_col is None && pivot_values@.len() == 0
                && grouping_sets@.len() == 0,
    {
        Self::wrap(LogicalPlan::Aggregate {
            input: self.plan.clone(),
            group_type: AggregateGroupType::GroupBy,
            grouping_expressions: Vec::new(),
            aggregate_expressions: expressions,
            pivot_col: None,
            pivot_values: Vec::new(),
            grouping_sets: Vec::new(),
        })
    }

    /// Whether `other` has the same plan, judged by the plans' debug text.
    pub fn same_semantics(&self, other: &DataFrame) -> (r: bool)
        ensures
            r == (plan_debug(*self.plan) == plan_debug(*other.plan)),
    {
        let a = plan_debug_string(&self.plan);
        let b = plan_debug_string(&other.plan);
        a == b
    }

    /// A writer of this DataFrame, with nothing set yet.
    pub fn write(&self) -> (w: DataFrameWriter)
        ensures
            w.input_plan == self.plan,
            w.format is None,
            w.mode == SaveMode::ErrorIfExists,
            w.options@ == Map::<Seq<char>, Seq<char>>::empty(),
            w.partition_cols@.len() == 0,
            w.cluster_cols@.len() == 0,
            w.bucket_cols@.len() == 0,
            w.sort_cols@.len() == 0,
            w.num_buckets is None,
    {
        DataFrameWriter::new(self)
    }

    /// A v2 writer of this DataFrame to `table`, with nothing else set.
    pub fn write_to(&self, table: &str) -> (w: DataFrameWriterV2)
        ensures
            w.input_plan == self.plan,
            w.table_name@ == table@,
            w.provider is None,
            w.options@ == Map::<Seq<char>, Seq<char>>::empty(),
            w.table_properties@ == Map::<Seq<char>, Seq<char>>::empty(),
            w.partition_cols@.len() == 0,
            w.cluster_cols@.len() == 0,
    {
        DataFrameWriterV2::new(self, table)
    }

    /// A MERGE INTO `target_table` of this DataFrame on `condition`, with no
    /// clauses yet.
    pub fn merge_into(&self, target_table: &str, condition: Column) -> (w: MergeIntoWriter)
        ensures
            w.source_plan == self.plan,
            w.target_table@ == target_table@,
            w.condition == condition,
            !w.schema_evolution,
            w.matched_actions@.len() == 0,
            w.not_matched_actions@.len() == 0,
            w.not_matched_by_source_actions@.len() == 0,
    {
        MergeIntoWriter::new(self, target_table, condition)
    }

    /// The aggregate whose one row holds the number of rows: `count(1)` over
    /// the whole DataFrame, as the row count is asked of the server.
    pub fn count_aggregate(&self) -> (df: DataFrame)
        ensures
            *df.plan matches LogicalPlan::Aggregate { input, group_type, grouping_expressions, aggregate_expressions, pivot_col, pivot_values, grouping_sets }
                && input == self.plan && group_type == AggregateGroupType::GroupBy && grouping_expressions@.len() == 0
                && aggregate_expressions@.len() == 1
                && is_call(aggregate_expressions@[0], "count"@, seq![Expression::Literal(LiteralExpression::Integer(1))])
                && pivot_col is None && pivot_values@.len() == 0 && grouping_sets@.len() == 0,
    {
        let c = crate::functions::count(Column::new(Expression::Literal(LiteralExpression::integer(1))));
        let mut es: Vec<Expression> = Vec::new();
        es.push(c.expr);
        self.agg(es)
    }

    /// Selects the named columns (each text taken as a column name).
    pub fn select_expr(&self, exprs: Vec<&str>) -> (df: DataFrame)
        ensures
            *df.plan matches LogicalPlan::Project { input, columns }
                && input == self.plan && columns@.len() == exprs@.len()
                && forall|i: int| 0 <= i < exprs@.len() ==> is_column_named(#[trigger] columns@[i], exprs@[i]@),
    {
        let cols = columns_of(&exprs);
        self.select(cols)
    }

    /// Fills missing values in the named columns (all columns when none are
    /// named) with `value`.
    pub fn fillna(&self, value: i64, subset: Option<Vec<&str>>) -> (df: DataFrame)
        ensures
            *df.plan matches LogicalPlan::NAFill { input, fill_value, columns }
                && input == self.plan && fill_value == Value::Long(value)
                && strings_view(columns@) == match subset {
                    Some(v) => v@.map_values(|s: &str| s@),
                    None => Seq::empty(),
                },
    {
        let columns = subset_strings(subset);
        Self::wrap(LogicalPlan::NAFill { input: self.plan.clone(), fill_value: Value::Long(value), columns })
    }

    /// Drops rows with missing values: `how` defaults to `"any"`, `thresh`
    /// is the minimum number of non-null values a row must have.
    pub fn dropna(&self, how: Option<&str>, thresh: Option<i32>, subset: Option<Vec<&str>>) -> (df: DataFrame)
        ensures
            *df.plan matches LogicalPlan::NADrop { input, how: h, min_non_null, columns }
                && input == self.plan && min_non_null == thresh
                && h@ == match how {
                    Some(x) => x@,
                    None => "any"@,
                }
                && strings_view(columns@) == match subset {
                    Some(v) => v@.map_values(|s: &str| s@),
                    None => Seq::empty(),
                },
    {
        let h = match how {
            Some(x) => owned(x),
            None => owned("any"),
        };
        let columns = subset_strings(subset);
        Self::wrap(LogicalPlan::NADrop { input: self.plan.clone(), how: h, min_non_null: thresh, columns })
    }

    /// Replaces values in the named columns (all columns when none are named).
    pub fn replace(&self, to_replace: Vec<(ReplaceValue, ReplaceValue)>, subset: Option<Vec<&str>>) -> (df: DataFrame)
        ensures
            *df.plan matches LogicalPlan::NAReplace { input, replacements, columns }
                && input == self.plan && replacements == to_replace
                && strings_view(columns@) == match subset {
                    Some(v) => v@.map_values(|s: &str| s@),
                    None => Seq::empty(),
                },
    {
        let columns = subset_strings(subset);
        Self::wrap(LogicalPlan::NAReplace { input: self.plan.clone(), replacements: to_replace, columns })
    }

    /// Basic statistics of the named columns.
    pub fn describe(&self, columns: Vec<&str>) -> (df: DataFrame)
        ensures
            *df.plan matches LogicalPlan::Describe { input, columns: c }
                && input == self.plan && strings_view(c@) == columns@.map_values(|s: &str| s@),
    {
        let c = strings_of(&columns);
        Self::wrap(LogicalPlan::Describe { input: self.plan.clone(), columns: c })
    }

    /// The named summary statistics.
    pub fn summary(&self, percentiles: Vec<&str>) -> (df: DataFrame)
        ensures
            *df.plan matches LogicalPlan::Summary { input, percentiles: p }
                && input == self.plan && strings_view(p@) == percentiles@.map_values(|s: &str| s@),
    {
        let p = strings_of(&percentiles);
        Self::wrap(LogicalPlan::Summary { input: self.plan.clone(), percentiles: p })
    }

    /// The columns whose names match the regular expression `col_name`.
    pub fn col_regex(&self, col_name: &str) -> (df: DataFrame)
        ensures
            *df.plan matches LogicalPlan::ColRegex { input, col_name: c } && input == self.plan && c@ == col_name@,
    {
        Self::wrap(LogicalPlan::ColRegex { input: self.plan.clone(), col_name: owned(col_name) })
    }

    /// The rows of both DataFrames side by side.
    pub fn zip(&self, other: &DataFrame) -> (df: DataFrame)
        ensures
            *df.plan == (LogicalPlan::Zip { left: self.plan, right: other.plan }),
    {
        Self::wrap(LogicalPlan::Zip { left: self.plan.clone(), right: other.plan.clone() })
    }

    /// This DataFrame, unchanged: the schema is not applied.
    pub fn to(&self, _schema: DataType) -> (df: DataFrame)
        ensures
            df.plan == self.plan,
    {
        DataFrame { plan: self.plan.clone() }
    }

    /// Whether the plan is local data.
    pub fn is_local(&self) -> (b: bool)
        ensures
            b == (*self.plan is LocalRelation),
    {
        match &*self.plan {
            LogicalPlan::LocalRelation { .. } => true,
            _ => false,
        }
    }

    /// Whether the plan is a streaming read.
    pub fn is_streaming(&self) -> (b: bool)
        ensures
            b == (*self.plan matches LogicalPlan::Read { is_streaming, .. } && is_streaming),
    {
        match &*self.plan {
            LogicalPlan::Read { is_streaming, .. } => *is_streaming,
            _ => false,
        }
    }

    /// The storage level reported for a DataFrame.
    pub fn storage_level(&self) -> (s: &'static str)
        ensures
            s@ == "MEMORY_AND_DISK"@,
    {
        "MEMORY_AND_DISK"
    }

    /// The request relation of this DataFrame: its plan as a message, with the
    /// visited nodes numbered from `counter`.
    pub fn build_relation(&self, counter: &mut PlanIdCounter) -> (r: Relation)
        requires
            old(counter).next + count_rel(plan_rel(*self.plan)) <= i64::MAX,
        ensures
            assign_rel(plan_rel(*self.plan), old(counter).next as int) == (r@, final(counter).next as int),
    {
        let mut r = self.plan.to_proto();
        assign_plan_ids(&mut r, counter);
        r
    }
}

/// The count a count aggregate answered: no row means 0, otherwise the
/// first value of the first row, which must be an integer.
pub open spec fn count_answer(rows: Seq<Row>) -> Option<i64> {
    if rows.len() == 0 {
        Some(0)
    } else if rows[0].value_seq().len() == 0 {
        None
    } else {
        int_value(rows[0].value_seq()[0])
    }
}

/// The number of rows the answer of [`DataFrame::count_aggregate`] holds.
pub fn count_from_rows(rows: &Vec<Row>) -> (r: Result<i64, ConnectError>)
    ensures
        match r {
            Ok(n) => count_answer(rows@) == Some(n),
            Err(e) => count_answer(rows@) is None
                && e.message@ == "count() aggregate returned a non-integer value"@,
        },
{
    if rows.len() == 0 {
        return Ok(0);
    }
    match rows[0].get(0) {
        Some(v) => match v.as_i64() {
            Some(n) => Ok(n),
            None => Err(ConnectError { message: owned("count() aggregate returned a non-integer value") }),
        },
        None => Err(ConnectError { message: owned("count() aggregate returned a non-integer value") }),
    }
}

/// The field names of a struct schema.
pub open spec fn schema_field_names(fields: Seq<StructField>) -> Seq<Seq<char>> {
    fields.map_values(|f: StructField| f.name@)
}

/// The column names of a schema, which must be a struct type.
pub fn column_names(schema: &DataType) -> (r: Result<Vec<String>, ConnectError>)
    ensures
        match r {
            Ok(names) => schema matches DataType::Struct { fields }
                && strings_view(names@) == schema_field_names(fields@),
            Err(e) => !(schema is Struct) && e.message@ == "Schema is not a struct type"@,
        },
{
    match schema {
        DataType::Struct { fields } => {
            let mut names: Vec<String> = Vec::new();
            let mut i: usize = 0;
            while i < fields.len()
                invariant
                    i <= fields@.len(),
                    strings_view(names@) == schema_field_names(fields@.take(i as int)),
                decreases fields@.len() - i,
            {
                let n = owned(fields[i].name.as_str());
                let ghost before = names@;
                names.push(n);
                proof {
                    assert(strings_view(names@) =~= strings_view(before).push(fields@[i as int].name@));
                    assert(fields@.take(i as int + 1) =~= fields@.take(i as int).push(fields@[i as int]));
                }
                i = i + 1;
                assert(strings_view(names@) =~= schema_field_names(fields@.take(i as int)));
            }
            assert(fields@.take(fields@.len() as int) =~= fields@);
            Ok(names)
        },
        _ => Err(ConnectError { message: owned("Schema is not a struct type") }),
    }
}

/// The (name, type) pairs of a struct schema: each field's name and the
/// short name of its type.
pub open spec fn schema_dtypes(fields: Seq<StructField>) -> Seq<(Seq<char>, Seq<char>)> {
    fields.map_values(|f: StructField| (f.name@, type_simple_string(f.data_type@)))
}

/// The column names and type names of a schema, which must be a struct type.
pub fn dtypes_of(schema: &DataType) -> (r: Result<Vec<(String, String)>, ConnectError>)
    ensures
        match r {
            Ok(pairs) => schema matches DataType::Struct { fields }
                && pairs@.map_values(|p: (String, String)| (p.0@, p.1@)) == schema_dtypes(fields@),
            Err(e) => !(schema is Struct) && e.message@ == "Schema is not a struct type"@,
        },
{
    match schema {
        DataType::Struct { fields } => {
            let mut pairs: Vec<(String, String)> = Vec::new();
            let mut i: usize = 0;
            while i < fields.len()
                invariant
                    i <= fields@.len(),
                    pairs@.map_values(|p: (String, String)| (p.0@, p.1@)) == schema_dtypes(fields@.take(i as int)),
                decreases fields@.len() - i,
            {
                let t = fields[i].data_type.simple_string();
                let n = owned(fields[i].name.as_str());
                let ghost before = pairs@;
                pairs.push((n, t));
                proof {
                    assert(pairs@.map_values(|p: (String, String)| (p.0@, p.1@)) =~= before.map_values(|p: (String, String)| (p.0@, p.1@)).push((fields@[i as int].name@, type_simple_string(fields@[i as int].data_type@))));
                    assert(fields@.take(i as int + 1) =~= fields@.take(i as int).push(fields@[i as int]));
                }
                i = i + 1;
                assert(pairs@.map_values(|p: (String, String)| (p.0@, p.1@)) =~= schema_dtypes(fields@.take(i as int)));
            }
            assert(fields@.take(fields@.len() as int) =~= fields@);
            Ok(pairs)
        },
        _ => Err(ConnectError { message: owned("Schema is not a struct type") }),
    }
}

/// The single value of a one-row, one-column answer: the first value of the
/// first row, if there is one.
pub fn scalar_from_rows(rows: &Vec<Row>) -> (r: Option<&Value>)
    ensures
        match r {
            Some(v) => first_value(rows@) == Some(*v),
            None => first_value(rows@) is None,
        },
{
    if rows.len() == 0 {
        None
    } else {
        rows[0].get(0)
    }
}

} // verus!

