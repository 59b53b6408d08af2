//! Grouped data, statistics and missing-value helpers: the plans that
//! `groupBy(...).agg(...)`, `df.stat` and `df.na` build.

use vstd::prelude::*;
use std::rc::Rc;
use crate::column::{Column, col};
use crate::dataframe::{DataFrame, is_column_named};
use crate::expression::{Expression, LiteralExpression, UnresolvedFunction};
use crate::plan::{AggregateGroupType, LogicalPlan, ReplaceValue};
use crate::row::Value;
use crate::text::{owned, strings_view};
use crate::types::Float64;

verus! {

/// The literal of a boolean, integer, double or string pivot value: the
/// value's own kind, with narrow integers widened to int; none for the
/// other kinds of value.
pub open spec fn value_literal(v: Value) -> Option<LiteralExpression> {
    match v {
        Value::Bool(b) => Some(LiteralExpression::Boolean(b)),
        Value::Byte(x) => Some(LiteralExpression::Integer(x as i32)),
        Value::Short(x) => Some(LiteralExpression::Integer(x as i32)),
        Value::Integer(x) => Some(LiteralExpression::Integer(x)),
        Value::Long(x) => Some(LiteralExpression::Long(x)),
        Value::Double(x) => Some(LiteralExpression::Double(x)),
        Value::String(s) => Some(LiteralExpression::String(s)),
        _ => None,
    }
}

/// The literal expression of a pivot value that is not a single-precision
/// float (those are widened to doubles first): see `value_literal`; the
/// other kinds give a string literal of the value's `Debug` text.
pub fn value_to_lit_expr(v: Value) -> (e: Expression)
    requires
        !(v is Float),
    ensures
        match value_literal(v) {
            Some(l) => e == Expression::Literal(l),
            None => e matches Expression::Literal(LiteralExpression::String(s)) && s@ == crate::debug_text::value_debug(v),
        },
{
    let lit = match v {
        Value::Bool(b) => LiteralExpression::Boolean(b),
        Value::Byte(x) => LiteralExpression::Integer(x as i32),
        Value::Short(x) => LiteralExpression::Integer(x as i32),
        Value::Integer(x) => LiteralExpression::Integer(x),
        Value::Long(x) => LiteralExpression::Long(x),
        Value::Double(x) => LiteralExpression::Double(x),
        Value::String(s) => LiteralExpression::String(s),
        other => LiteralExpression::String(crate::debug_text::value_debug_string(&other)),
    };
    Expression::Literal(lit)
}

/// Grouped data: a DataFrame's plan with grouping columns, ready to aggregate.
#[derive(Debug)]
pub struct GroupedData {
    pub plan: Rc<LogicalPlan>,
    pub group_cols: Vec<Column>,
    pub group_type: AggregateGroupType,
    pub pivot_col: Option<Expression>,
    pub pivot_values: Vec<Expression>,
    pub grouping_sets: Vec<Vec<Column>>,
}

/// `plan` aggregates the groups of `g`: its input, group type, grouping
/// expressions, pivot and grouping sets are those of `g`.
pub open spec fn aggregates_groups_of(plan: LogicalPlan, g: GroupedData) -> bool {
    plan matches LogicalPlan::Aggregate { input, group_type, grouping_expressions, pivot_col, pivot_values, grouping_sets, .. }
        && input == g.plan && group_type == g.group_type
        && grouping_expressions@ == column_exprs(g.group_cols@)
        && pivot_col == g.pivot_col && pivot_values == g.pivot_values
        && grouping_sets@.len() == g.grouping_sets@.len()
        && forall|i: int| 0 <= i < grouping_sets@.len() ==> (#[trigger] grouping_sets@[i])@ == column_exprs(g.grouping_sets@[i]@)
}

/// The expressions of a list of columns.
pub open spec fn column_exprs(s: Seq<Column>) -> Seq<Expression> {
    s.map_values(|c: Column| c.expr)
}

pub(crate) fn take_exprs(cols: Vec<Column>) -> (r: Vec<Expression>)
    ensures
        r@ == column_exprs(cols@),
{
    let ghost orig = cols@;
    let mut r: Vec<Expression> = Vec::new();
    let mut rest = cols;
    assert(rest@ =~= orig.skip(0));
    while rest.len() > 0
        invariant
            r@.len() + rest@.len() == orig.len(),
            rest@ == orig.skip(r@.len() as int),
            r@ == column_exprs(orig.take(r@.len() as int)),
        decreases rest@.len(),
    {
        let ghost k = r@.len() as int;
        let c = rest.remove(0);
        r.push(c.expr);
        assert(rest@ =~= orig.skip(k + 1));
        assert(r@ =~= column_exprs(orig.take(k + 1)));
    }
    assert(orig.take(orig.len() as int) =~= orig);
    r
}

fn take_expr_sets(sets: Vec<Vec<Column>>) -> (r: Vec<Vec<Expression>>)
    ensures
        r@.len() == sets@.len(),
        forall|i: int| 0 <= i < sets@.len() ==> (#[trigger] r@[i])@ == column_exprs(sets@[i]@),
{
    let ghost orig = sets@;
    let mut r: Vec<Vec<Expression>> = Vec::new();
    let mut rest = sets;
    assert(rest@ =~= orig.skip(0));
    while rest.len() > 0
        invariant
            r@.len() + rest@.len() == orig.len(),
            rest@ == orig.skip(r@.len() as int),
            forall|i: int| 0 <= i < r@.len() ==> (#[trigger] r@[i])@ == column_exprs(orig[i]@),
        decreases rest@.len(),
    {
        let ghost k = r@.len() as int;
        let set = rest.remove(0);
        r.push(take_exprs(set));
        assert(rest@ =~= orig.skip(k + 1));
    }
    r
}

fn call(name: &str, arg: Expression) -> (e: Expression)
    ensures
        e matches Expression::UnresolvedFunction(f) && f.name@ == name@ && f.args@ == seq![arg] && !f.is_distinct,
{
    let mut args: Vec<Expression> = Vec::new();
    args.push(arg);
    Expression::UnresolvedFunction(UnresolvedFunction::new(name, args))
}

/// `e` is `count(1)`.
pub open spec fn is_count_one(e: Expression) -> bool {
    e matches Expression::UnresolvedFunction(f) && f.name@ == "count"@ && !f.is_distinct
        && f.args@ == seq![Expression::Literal(LiteralExpression::Integer(1))]
}

/// `e` is `name(c)` for a free reference to the column `c`.
pub open spec fn is_call_of_column(e: Expression, name: Seq<char>, c: Seq<char>) -> bool {
    e matches Expression::UnresolvedFunction(f) && f.name@ == name && !f.is_distinct
        && f.args@.len() == 1 && is_column_named(Column { expr: f.args@[0] }, c)
}

fn calls_on_columns(name: &str, columns: &Vec<&str>) -> (r: Vec<Expression>)
    ensures
        r@.len() == columns@.len(),
        forall|i: int| 0 <= i < columns@.len() ==> is_call_of_column(#[trigger] r@[i], name@, columns@[i]@),
{
    let mut r: Vec<Expression> = Vec::new();
    let mut i: usize = 0;
    while i < columns.len()
        invariant
            i <= columns@.len(),
            r@.len() == i,
            forall|j: int| 0 <= j < i ==> is_call_of_column(#[trigger] r@[j], name@, columns@[j]@),
        decreases columns@.len() - i,
    {
        let c = col(columns[i]);
        r.push(call(name, c.expr));
        i = i + 1;
    }
    r
}

impl GroupedData {
    /// `df` grouped by `group_cols` in the way `group_type` says.
    pub fn new(df: &DataFrame, group_cols: Vec<Column>, group_type: AggregateGroupType) -> (g: GroupedData)
        ensures
            g.plan == df.plan,
            g.group_cols == group_cols,
            g.group_type == group_type,
            g.pivot_col is None,
            g.pivot_values@.len() == 0,
            g.grouping_sets@.len() == 0,
    {
        GroupedData {
            plan: df.plan.clone(),
            group_cols,
            group_type,
            pivot_col: None,
            pivot_values: Vec::new(),
            grouping_sets: Vec::new(),
        }
    }

    /// Pivots on `pivot_col`; `values` are the explicit pivot values as
    /// literal expressions (none lets the server find the distinct values).
    pub fn pivot(self, pivot_col: Column, values: Option<Vec<Expression>>) -> (g: GroupedData)
        ensures
            g.plan == self.plan,
            g.group_cols == self.group_cols,
            g.group_type == AggregateGroupType::Pivot,
            g.pivot_col == Some(pivot_col.expr),
            g.pivot_values@ == match values {
                Some(v) => v@,
                None => Seq::empty(),
            },
            g.grouping_sets@.len() == 0,
    {
        let vals = match values {
            Some(v) => v,
            None => Vec::new(),
        };
        GroupedData {
            plan: self.plan,
            group_cols: self.group_cols,
            group_type: AggregateGroupType::Pivot,
            pivot_col: Some(pivot_col.expr),
            pivot_values: vals,
            grouping_sets: Vec::new(),
        }
    }

    /// Aggregates each group with `expressions`.
    pub fn agg(self, expressions: Vec<Expression>) -> (df: DataFrame)
        ensures
            aggregates_groups_of(*df.plan, self),
            *df.plan matches LogicalPlan::Aggregate { aggregate_expressions, .. } && aggregate_expressions == expressions,
    {
        let grouping = take_exprs(self.group_cols);
        let sets = take_expr_sets(self.grouping_sets);
        DataFrame::new(LogicalPlan::Aggregate {
            input: self.plan,
            group_type: self.group_type,
            grouping_expressions: grouping,
            aggregate_expressions: expressions,
            pivot_col: self.pivot_col,
            pivot_values: self.pivot_values,
            grouping_sets: sets,
        })
    }

    /// The number of rows of each group: `count(1)`.
    pub fn count(self) -> (df: DataFrame)
        ensures
            aggregates_groups_of(*df.plan, self),
            *df.plan matches LogicalPlan::Aggregate { aggregate_expressions, .. }
                && aggregate_expressions@.len() == 1
                && is_count_one(aggregate_expressions@[0]),
    {
        let mut exprs: Vec<Expression> = Vec::new();
        exprs.push(call("count", Expression::Literal(LiteralExpression::Integer(1))));
        self.agg(exprs)
    }

    fn agg_each(self, name: &str, columns: Vec<&str>) -> (df: DataFrame)
        ensures
            aggregates_groups_of(*df.plan, self),
            *df.plan matches LogicalPlan::Aggregate { aggregate_expressions, .. }
                && aggregate_expressions@.len() == columns@.len()
                && forall|i: int| 0 <= i < columns@.len() ==> is_call_of_column(#[trigger] aggregate_expressions@[i], name@, columns@[i]@),
    {
        let exprs = calls_on_columns(name, &columns);
        self.agg(exprs)
    }

    /// The sum of each named column per group.
    pub fn sum(self, columns: Vec<&str>) -> (df: DataFrame)
        ensures
            aggregates_groups_of(*df.plan, self),
            *df.plan matches LogicalPlan::Aggregate { aggregate_expressions, .. }
                && aggregate_expressions@.len() == columns@.len()
                && forall|i: int| 0 <= i < columns@.len() ==> is_call_of_column(#[trigger] aggregate_expressions@[i], "sum"@, columns@[i]@),
    {
        self.agg_each("sum", columns)
    }

    /// The average of each named column per group.
    pub fn avg(self, columns: Vec<&str>) -> (df: DataFrame)
        ensures
            aggregates_groups_of(*df.plan, self),
            *df.plan matches LogicalPlan::Aggregate { aggregate_expressions, .. }
                && aggregate_expressions@.len() == columns@.len()
                && forall|i: int| 0 <= i < columns@.len() ==> is_call_of_column(#[trigger] aggregate_expressions@[i], "avg"@, columns@[i]@),
    {
        self.agg_each("avg", columns)
    }

    /// Same as `avg`.
    pub fn mean(self, columns: Vec<&str>) -> (df: DataFrame)
        ensures
            aggregates_groups_of(*df.plan, self),
            *df.plan matches LogicalPlan::Aggregate { aggregate_expressions, .. }
                && aggregate_expressions@.len() == columns@.len()
                && forall|i: int| 0 <= i < columns@.len() ==> is_call_of_column(#[trigger] aggregate_expressions@[i], "avg"@, columns@[i]@),
    {
        self.avg(columns)
    }

    /// The minimum of each named column per group.
    pub fn min(self, columns: Vec<&str>) -> (df: DataFrame)
        ensures
            aggregates_groups_of(*df.plan, self),
            *df.plan matches LogicalPlan::Aggregate { aggregate_expressions, .. }
                && aggregate_expressions@.len() == columns@.len()
                && forall|i: int| 0 <= i < columns@.len() ==> is_call_of_column(#[trigger] aggregate_expressions@[i], "min"@, columns@[i]@),
    {
        self.agg_each("min", columns)
    }

    /// The maximum of each named column per group.
    pub fn max(self, columns: Vec<&str>) -> (df: DataFrame)
        ensures
            aggregates_groups_of(*df.plan, self),
            *df.plan matches LogicalPlan::Aggregate { aggregate_expressions, .. }
                && aggregate_expressions@.len() == columns@.len()
                && forall|i: int| 0 <= i < columns@.len() ==> is_call_of_column(#[trigger] aggregate_expressions@[i], "max"@, columns@[i]@),
    {
        self.agg_each("max", columns)
    }
}

impl DataFrame {
    /// Groups by `group_cols`.
    pub fn group_by(&self, group_cols: Vec<Column>) -> (g: GroupedData)
        ensures
            g.plan == self.plan,
            g.group_cols == group_cols,
            g.group_type == AggregateGroupType::GroupBy,
            g.pivot_col is None,
            g.pivot_values@.len() == 0,
            g.grouping_sets@.len() == 0,
    {
        GroupedData::new(self, group_cols, AggregateGroupType::GroupBy)
    }

    /// Groups by `group_cols` with rollup.
    pub fn rollup(&self, group_cols: Vec<Column>) -> (g: GroupedData)
        ensures
            g.plan == self.plan,
            g.group_cols == group_cols,
            g.group_type == AggregateGroupType::Rollup,
            g.pivot_col is None,
            g.pivot_values@.len() == 0,
            g.grouping_sets@.len() == 0,
    {
        GroupedData::new(self, group_cols, AggregateGroupType::Rollup)
    }

    /// Groups by `group_cols` as a cube.
    pub fn cube(&self, group_cols: Vec<Column>) -> (g: GroupedData)
        ensures
            g.plan == self.plan,
            g.group_cols == group_cols,
            g.group_type == AggregateGroupType::Cube,
            g.pivot_col is None,
            g.pivot_values@.len() == 0,
            g.grouping_sets@.len() == 0,
    {
        GroupedData::new(self, group_cols, AggregateGroupType::Cube)
    }

    /// Groups by all the columns of all the sets, in order, as one plain
    /// grouping.
    pub fn grouping_sets(&self, group_cols: Vec<Vec<Column>>) -> (g: GroupedData)
        ensures
            g.plan == self.plan,
            g.group_cols@ == group_cols@.map_values(|s: Vec<Column>| s@).flatten(),
            g.group_type == AggregateGroupType::GroupBy,
            g.pivot_col is None,
            g.pivot_values@.len() == 0,
            g.grouping_sets@.len() == 0,
    {
        let ghost sets = group_cols@.map_values(|s: Vec<Column>| s@);
        let mut all: Vec<Column> = Vec::new();
        let mut rest = group_cols;
        let ghost orig = rest@;
        assert(rest@ =~= orig.skip(0));
        let ghost mut k: int = 0;
        while rest.len() > 0
            invariant
                0 <= k <= orig.len(),
                rest@ == orig.skip(k),
                sets == orig.map_values(|s: Vec<Column>| s@),
                all@ == sets.take(k).flatten(),
            decreases rest@.len(),
        {
            let mut set = rest.remove(0);
            let ghost s = set@;
            all.append(&mut set);
            proof {
                assert(sets.take(k + 1).drop_last() =~= sets.take(k));
                assert(sets.take(k + 1).last() == s);
                vstd::seq_lib::lemma_flatten_concat(sets.take(k), seq![s]);
                assert(seq![s].drop_first() =~= Seq::<Seq<Column>>::empty());
                assert(Seq::<Seq<Column>>::empty().flatten() =~= Seq::<Column>::empty());
                assert(seq![s].flatten() == seq![s].first() + seq![s].drop_first().flatten());
                assert(seq![s].flatten() =~= s);
                assert(sets.take(k) + seq![s] =~= sets.take(k + 1));
                k = k + 1;
                assert(rest@ =~= orig.skip(k));
            }
        }
        assert(sets.take(k) =~= sets);
        GroupedData::new(self, all, AggregateGroupType::GroupBy)
    }

    /// The statistics functions of this DataFrame.
    pub fn stat(&self) -> (s: StatFunctions)
        ensures
            s.plan == self.plan,
    {
        StatFunctions::new(self)
    }
}

/// Statistics over a DataFrame.
#[derive(Debug)]
pub struct StatFunctions {
    pub plan: Rc<LogicalPlan>,
}

impl StatFunctions {
    /// Statistics of `df`.
    pub fn new(df: &DataFrame) -> (s: StatFunctions)
        ensures
            s.plan == df.plan,
    {
        StatFunctions { plan: df.plan.clone() }
    }

    /// The cross-tabulation of two columns.
    pub fn crosstab(&self, col1: &str, col2: &str) -> (df: DataFrame)
        ensures
            *df.plan matches LogicalPlan::StatCrosstab { input, col1: a, col2: b } && input == self.plan && a@ == col1@ && b@ == col2@,
    {
        DataFrame::new(LogicalPlan::StatCrosstab { input: self.plan.clone(), col1: owned(col1), col2: owned(col2) })
    }

    /// The items of the named columns more frequent than `support`.
    pub fn freq_items(&self, columns: Vec<&str>, support: Float64) -> (df: DataFrame)
        ensures
            *df.plan matches LogicalPlan::StatFreqItems { input, columns: c, support: s }
                && input == self.plan && strings_view(c@) == columns@.map_values(|x: &str| x@) && s == support,
    {
        let c = crate::dataframe::strings_of(&columns);
        DataFrame::new(LogicalPlan::StatFreqItems { input: self.plan.clone(), columns: c, support })
    }

    /// Approximate quantiles of the named columns.
    pub fn approx_quantile(&self, columns: Vec<&str>, probabilities: Vec<Float64>, relative_error: Float64) -> (df: DataFrame)
        ensures
            *df.plan matches LogicalPlan::StatApproxQuantile { input, columns: c, probabilities: p, relative_error: e }
                && input == self.plan && strings_view(c@) == columns@.map_values(|x: &str| x@) && p == probabilities && e == relative_error,
    {
        let c = crate::dataframe::strings_of(&columns);
        DataFrame::new(LogicalPlan::StatApproxQuantile { input: self.plan.clone(), columns: c, probabilities, relative_error })
    }

    /// The correlation of two columns, as a plan (its single value is the answer).
    pub fn corr(&self, col1: &str, col2: &str) -> (df: DataFrame)
        ensures
            *df.plan matches LogicalPlan::StatCorr { input, col1: a, col2: b } && input == self.plan && a@ == col1@ && b@ == col2@,
    {
        DataFrame::new(LogicalPlan::StatCorr { input: self.plan.clone(), col1: owned(col1), col2: owned(col2) })
    }

    /// The covariance of two columns, as a plan (its single value is the answer).
    pub fn cov(&self, col1: &str, col2: &str) -> (df: DataFrame)
        ensures
            *df.plan matches LogicalPlan::StatCov { input, col1: a, col2: b } && input == self.plan && a@ == col1@ && b@ == col2@,
    {
        DataFrame::new(LogicalPlan::StatCov { input: self.plan.clone(), col1: owned(col1), col2: owned(col2) })
    }

    /// A stratified sample by the values of `col`.
    pub fn sample_by(&self, col: &str, fractions: Vec<(Expression, Float64)>, seed: Option<i64>) -> (df: DataFrame)
        ensures
            *df.plan matches LogicalPlan::StatSampleBy { input, col: c, fractions: f, seed: s }
                && input == self.plan && c@ == col@ && f == fractions && s == seed,
    {
        DataFrame::new(LogicalPlan::StatSampleBy { input: self.plan.clone(), col: owned(col), fractions, seed })
    }
}

/// Missing-value handling over a DataFrame.
#[derive(Debug)]
pub struct NaFunctions {
    pub df: DataFrame,
}

impl NaFunctions {
    /// Missing-value handling of `df`.
    pub fn new(df: DataFrame) -> (n: NaFunctions)
        ensures
            n.df == df,
    {
        NaFunctions { df }
    }

    /// Same as `DataFrame::dropna`.
    pub fn drop(&self, how: Option<&str>, thresh: Option<i32>, subset: Option<Vec<&str>>) -> (df: DataFrame)
        ensures
            *df.plan matches LogicalPlan::NADrop { input, how: h, min_non_null, columns }
                && input == self.df.plan && min_non_null == thresh
                && h@ == match how {
                    Some(x) => x@,
                    None => "any"@,
                }
                && strings_view(columns@) == match subset {
                    Some(v) => v@.map_values(|s: &str| s@),
                    None => Seq::empty(),
                },
    {
        self.df.dropna(how, thresh, subset)
    }

    /// Same as `DataFrame::fillna`.
    pub fn fill(&self, value: i64, subset: Option<Vec<&str>>) -> (df: DataFrame)
        ensures
            *df.plan matches LogicalPlan::NAFill { input, fill_value, columns }
                && input == self.df.plan && fill_value == Value::Long(value)
                && strings_view(columns@) == match subset {
                    Some(v) => v@.map_values(|s: &str| s@),
                    None => Seq::empty(),
                },
    {
        self.df.fillna(value, subset)
    }

    /// Same as `DataFrame::replace`.
    pub fn replace(&self, to_replace: Vec<(ReplaceValue, ReplaceValue)>, subset: Option<Vec<&str>>) -> (df: DataFrame)
        ensures
            *df.plan matches LogicalPlan::NAReplace { input, replacements, columns }
                && input == self.df.plan && replacements == to_replace
                && strings_view(columns@) == match subset {
                    Some(v) => v@.map_values(|s: &str| s@),
                    None => Seq::empty(),
                },
    {
        self.df.replace(to_replace, subset)
    }
}

} // verus!
