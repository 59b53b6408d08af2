//! SQL functions: each builds the column of a call of a server-side SQL
//! function, with the call's name and arguments stated in its contract.
//!
//! A few builders keep their camelCase names (`approxCountDistinct`,
//! `bitwiseNOT`, `shiftLeft`, ...), the spelling the SQL API uses.
#![allow(non_snake_case)]

use vstd::prelude::*;
use crate::column::{Column, is_call, is_sort, is_string_literal};
use crate::dataframe::DataFrame;
use crate::expression::{CallFunctionWrapper, ColumnReference, Expression, LambdaFunction,
    LiteralExpression, NullOrdering, UnresolvedFunction, UnresolvedNamedLambdaVariable,
    LambdaVarCounter, index_after, lambda_var, lambda_var_name, next_lambda_var_index};
use crate::group::{column_exprs, take_exprs};
use crate::plan::LogicalPlan;
use crate::text::owned;
use crate::types::DataType;

verus! {

// ---------------------------------------------------------------------------
// Call shapes
// ---------------------------------------------------------------------------

/// `e` is a DISTINCT call of `name` with exactly `args`.
pub open spec fn is_distinct_call(e: Expression, name: Seq<char>, args: Seq<Expression>) -> bool {
    e matches Expression::UnresolvedFunction(f) && f.name@ == name && f.args@ == args && f.is_distinct
}

/// `e` is a call of `name` with `n` arguments, DISTINCT as `distinct` says.
pub open spec fn is_call_of(e: Expression, name: Seq<char>, distinct: bool, n: nat) -> bool {
    e matches Expression::UnresolvedFunction(f) && f.name@ == name && f.is_distinct == distinct
        && f.args@.len() == n
}

/// The `i`-th argument of the call `e`.
pub open spec fn call_arg(e: Expression, i: int) -> Expression {
    match e {
        Expression::UnresolvedFunction(f) => f.args@[i],
        _ => e,
    }
}

/// `e` is the decimal literal 0 of precision 10 and scale 0.
pub open spec fn is_zero_decimal(e: Expression) -> bool {
    e matches Expression::Literal(LiteralExpression::Decimal { value, precision, scale })
        && value@ == "0"@ && precision == 10 && scale == 0
}

fn func(name: &str, args: Vec<Expression>) -> (c: Column)
    ensures
        is_call(c.expr, name@, args@),
{
    Column::new(Expression::UnresolvedFunction(UnresolvedFunction::new(name, args)))
}

fn func_distinct(name: &str, args: Vec<Expression>) -> (c: Column)
    ensures
        is_distinct_call(c.expr, name@, args@),
{
    Column::new(Expression::UnresolvedFunction(UnresolvedFunction::new_distinct(name, args)))
}

// ---------------------------------------------------------------------------
// Columns, literals and direct calls
// ---------------------------------------------------------------------------

/// `name` ends in `.*`.
pub open spec fn is_qualified_star(name: Seq<char>) -> bool {
    name.len() >= 2 && name[name.len() - 2] == '.' && name[name.len() - 1] == '*'
}

/// The column `name`: `*` is the star over all columns, `t.*` the star over
/// the columns of `t`, any other name a reference to that column.
pub fn col(name: &str) -> (c: Column)
    ensures
        name@ == seq!['*'] ==> c.expr == Expression::UnresolvedStar(None),
        name@ != seq!['*'] && is_qualified_star(name@) ==>
            (c.expr matches Expression::UnresolvedStar(Some(t)) && t@ == name@),
        name@ != seq!['*'] && !is_qualified_star(name@) ==>
            (c.expr matches Expression::ColumnReference(r) && r.name@ == name@ && r.plan_id is None
                && !r.is_metadata_column),
{
    let n = name.unicode_len();
    if n == 1 && name.get_char(0) == '*' {
        assert(name@ =~= seq!['*']);
        Column::new(Expression::UnresolvedStar(None))
    } else if n >= 2 && name.get_char(n - 2) == '.' && name.get_char(n - 1) == '*' {
        Column::new(Expression::UnresolvedStar(Some(owned(name))))
    } else {
        Column::new(Expression::ColumnReference(ColumnReference::new(name)))
    }
}

/// The same as [`col`].
pub fn column(name: &str) -> (c: Column)
    ensures
        name@ == seq!['*'] ==> c.expr == Expression::UnresolvedStar(None),
        name@ != seq!['*'] && is_qualified_star(name@) ==>
            (c.expr matches Expression::UnresolvedStar(Some(t)) && t@ == name@),
        name@ != seq!['*'] && !is_qualified_star(name@) ==>
            (c.expr matches Expression::ColumnReference(r) && r.name@ == name@ && r.plan_id is None
                && !r.is_metadata_column),
{
    col(name)
}

/// A column used as a literal: the column itself.
pub fn lit(col: Column) -> (c: Column)
    ensures
        c == col,
{
    col
}

/// The raw SQL expression `expr_str`.
pub fn expr(expr_str: &str) -> (c: Column)
    ensures
        c.expr matches Expression::SQLExpression(s) && s@ == expr_str@,
{
    Column::new(Expression::SQLExpression(owned(expr_str)))
}

/// The target column of a cast.
pub fn cast(_col: Column, to_col: Column) -> (c: Column)
    ensures
        c == to_col,
{
    to_col
}

/// A direct call of `name` with the given columns as arguments.
pub fn call_function(name: &str, args: Vec<Column>) -> (c: Column)
    ensures
        c.expr matches Expression::CallFunction(w) && w.function_name@ == name@
            && w.arguments@ == column_exprs(args@),
{
    Column::new(Expression::CallFunction(Box::new(CallFunctionWrapper::new(name, take_exprs(args)))))
}

/// A call of the user-defined function `name` with the given columns.
pub fn call_udf(name: &str, args: Vec<Column>) -> (c: Column)
    ensures
        is_call(c.expr, name@, column_exprs(args@)),
{
    func(name, take_exprs(args))
}

/// `col` ascending, nulls first.
pub fn asc(col: Column) -> (c: Column)
    ensures
        is_sort(c.expr, col.expr, true, NullOrdering::First),
{
    col.asc()
}

/// `col` ascending, nulls first.
pub fn asc_nulls_first(col: Column) -> (c: Column)
    ensures
        is_sort(c.expr, col.expr, true, NullOrdering::First),
{
    col.asc_nulls_first()
}

/// `col` ascending, nulls last.
pub fn asc_nulls_last(col: Column) -> (c: Column)
    ensures
        is_sort(c.expr, col.expr, true, NullOrdering::Last),
{
    col.asc_nulls_last()
}

/// `col` descending, nulls last.
pub fn desc(col: Column) -> (c: Column)
    ensures
        is_sort(c.expr, col.expr, false, NullOrdering::Last),
{
    col.desc()
}

/// `col` descending, nulls first.
pub fn desc_nulls_first(col: Column) -> (c: Column)
    ensures
        is_sort(c.expr, col.expr, false, NullOrdering::First),
{
    col.desc_nulls_first()
}

/// `col` descending, nulls last.
pub fn desc_nulls_last(col: Column) -> (c: Column)
    ensures
        is_sort(c.expr, col.expr, false, NullOrdering::Last),
{
    col.desc_nulls_last()
}

/// Marks `df` for a broadcast join: the `broadcast` hint over its plan.
pub fn broadcast(df: DataFrame) -> (r: DataFrame)
    ensures
        *r.plan matches LogicalPlan::Hint { input, name: n, parameters: p }
            && input == df.plan && n@ == "broadcast"@ && p@.len() == 0,
{
    df.broadcast()
}

/// `variant_delete(v, paths...)`.
pub fn variant_delete(v: Column, paths: Vec<Column>) -> (c: Column)
    ensures
        is_call(c.expr, "variant_delete"@, seq![v.expr] + column_exprs(paths@)),
{
    let mut args: Vec<Expression> = Vec::new();
    args.push(v.expr);
    let mut rest = take_exprs(paths);
    let ghost first = args@;
    let ghost tail = rest@;
    args.append(&mut rest);
    assert(args@ =~= seq![v.expr] + column_exprs(paths@));
    func("variant_delete", args)
}

// ---------------------------------------------------------------------------
// Higher-order functions
// ---------------------------------------------------------------------------

/// `vars` are the columns of the lambda variables `args`, in order.
pub open spec fn are_lambda_vars(vars: Seq<Column>, args: Seq<UnresolvedNamedLambdaVariable>) -> bool {
    &&& vars.len() == args.len()
    &&& forall|i: int| 0 <= i < vars.len() ==>
        ((#[trigger] vars[i]).expr matches Expression::UnresolvedNamedLambdaVariable(v)
            && v.name_parts@ == args[i].name_parts@)
}

/// `args` are `n` lambda variables with the successive indices from `start`.
pub open spec fn lambda_args_from(args: Seq<UnresolvedNamedLambdaVariable>, start: u32, n: nat) -> bool {
    &&& args.len() == n
    &&& forall|i: int| 0 <= i < n ==>
        (#[trigger] args[i]).name_parts@ == lambda_var_name(index_after(start, i as nat))
}

/// `e` is the lambda over `n` fresh variables (indices from `start`) whose
/// body is what `f` gives for the columns of those variables.
pub open spec fn is_lambda_of<F: FnOnce(Vec<Column>) -> Column>(e: Expression, f: F, start: u32, n: nat) -> bool {
    &&& e matches Expression::LambdaFunction(l)
    &&& lambda_args_from(l.arguments@, start, n)
    &&& exists|vars: Vec<Column>| are_lambda_vars(vars@, l.arguments@)
        && #[trigger] f.ensures((vars,), Column { expr: l.function })
}

/// The lambda over `num_args` fresh variables with the body `closure` builds.
fn make_lambda<F: FnOnce(Vec<Column>) -> Column>(num_args: usize, closure: F, counter: &mut LambdaVarCounter) -> (e: Expression)
    requires
        forall|v: Vec<Column>| #[trigger] closure.requires((v,)),
    ensures
        is_lambda_of(e, closure, old(counter).next, num_args as nat),
        final(counter).next == index_after(old(counter).next, num_args as nat),
{
    let ghost start = counter.next;
    let mut vars: Vec<Column> = Vec::new();
    let mut arg_vars: Vec<UnresolvedNamedLambdaVariable> = Vec::new();
    let mut k: usize = 0;
    while k < num_args
        invariant
            k <= num_args,
            counter.next == index_after(start, k as nat),
            lambda_args_from(arg_vars@, start, k as nat),
            are_lambda_vars(vars@, arg_vars@),
        decreases num_args - k,
    {
        let idx = next_lambda_var_index(counter);
        let v1 = lambda_var(idx);
        let v2 = lambda_var(idx);
        vars.push(Column::new(Expression::UnresolvedNamedLambdaVariable(v1)));
        arg_vars.push(v2);
        k = k + 1;
        proof {
            assert forall|i: int| 0 <= i < k implies
                (#[trigger] arg_vars@[i]).name_parts@ == lambda_var_name(index_after(start, i as nat)) by {
                if i == k - 1 {
                    assert(index_after(start, (k - 1) as nat) == idx);
                }
            }
        }
    }
    let ghost args_view = arg_vars@;
    let ghost vars_copy = vars;
    let body = closure(vars);
    let l = LambdaFunction::new(body.expr, arg_vars);
    proof {
        assert(body == Column { expr: l.function });
        assert(are_lambda_vars(vars_copy@, l.arguments@));
    }
    Expression::LambdaFunction(Box::new(l))
}

/// `transform(col, x -> f(x))`.
pub fn transform<F: FnOnce(Vec<Column>) -> Column>(col: Column, f: F, counter: &mut LambdaVarCounter) -> (c: Column)
    requires
        forall|v: Vec<Column>| #[trigger] f.requires((v,)),
    ensures
        is_call_of(c.expr, "transform"@, false, 2),
        call_arg(c.expr, 0) == col.expr,
        is_lambda_of(call_arg(c.expr, 1), f, old(counter).next, 1),
        final(counter).next == index_after(old(counter).next, 1),
{
    let lambda = make_lambda(1, f, counter);
    let mut args: Vec<Expression> = Vec::new();
    args.push(col.expr);
    args.push(lambda);
    func("transform", args)
}

/// `transform(col, (x, i) -> f(x, i))`: the lambda also sees the index.
pub fn transform_idx<F: FnOnce(Vec<Column>) -> Column>(col: Column, f: F, counter: &mut LambdaVarCounter) -> (c: Column)
    requires
        forall|v: Vec<Column>| #[trigger] f.requires((v,)),
    ensures
        is_call_of(c.expr, "transform"@, false, 2),
        call_arg(c.expr, 0) == col.expr,
        is_lambda_of(call_arg(c.expr, 1), f, old(counter).next, 2),
        final(counter).next == index_after(old(counter).next, 2),
{
    let lambda = make_lambda(2, f, counter);
    let mut args: Vec<Expression> = Vec::new();
    args.push(col.expr);
    args.push(lambda);
    func("transform", args)
}

/// `filter(col, x -> f(x))`.
pub fn filter<F: FnOnce(Vec<Column>) -> Column>(col: Column, f: F, counter: &mut LambdaVarCounter) -> (c: Column)
    requires
        forall|v: Vec<Column>| #[trigger] f.requires((v,)),
    ensures
        is_call_of(c.expr, "filter"@, false, 2),
        call_arg(c.expr, 0) == col.expr,
        is_lambda_of(call_arg(c.expr, 1), f, old(counter).next, 1),
        final(counter).next == index_after(old(counter).next, 1),
{
    let lambda = make_lambda(1, f, counter);
    let mut args: Vec<Expression> = Vec::new();
    args.push(col.expr);
    args.push(lambda);
    func("filter", args)
}

/// `exists(col, x -> f(x))`: whether some element satisfies the predicate.
pub fn array_exists<F: FnOnce(Vec<Column>) -> Column>(col: Column, f: F, counter: &mut LambdaVarCounter) -> (c: Column)
    requires
        forall|v: Vec<Column>| #[trigger] f.requires((v,)),
    ensures
        is_call_of(c.expr, "exists"@, false, 2),
        call_arg(c.expr, 0) == col.expr,
        is_lambda_of(call_arg(c.expr, 1), f, old(counter).next, 1),
        final(counter).next == index_after(old(counter).next, 1),
{
    let lambda = make_lambda(1, f, counter);
    let mut args: Vec<Expression> = Vec::new();
    args.push(col.expr);
    args.push(lambda);
    func("exists", args)
}

/// `forall(col, x -> f(x))`: whether every element satisfies the predicate.
pub fn array_forall<F: FnOnce(Vec<Column>) -> Column>(col: Column, f: F, counter: &mut LambdaVarCounter) -> (c: Column)
    requires
        forall|v: Vec<Column>| #[trigger] f.requires((v,)),
    ensures
        is_call_of(c.expr, "forall"@, false, 2),
        call_arg(c.expr, 0) == col.expr,
        is_lambda_of(call_arg(c.expr, 1), f, old(counter).next, 1),
        final(counter).next == index_after(old(counter).next, 1),
{
    let lambda = make_lambda(1, f, counter);
    let mut args: Vec<Expression> = Vec::new();
    args.push(col.expr);
    args.push(lambda);
    func("forall", args)
}

/// `aggregate(col, init, (acc, x) -> f(acc, x))`.
pub fn aggregate<F: FnOnce(Vec<Column>) -> Column>(col: Column, init: Column, f: F, counter: &mut LambdaVarCounter) -> (c: Column)
    requires
        forall|v: Vec<Column>| #[trigger] f.requires((v,)),
    ensures
        is_call_of(c.expr, "aggregate"@, false, 3),
        call_arg(c.expr, 0) == col.expr,
        call_arg(c.expr, 1) == init.expr,
        is_lambda_of(call_arg(c.expr, 2), f, old(counter).next, 2),
        final(counter).next == index_after(old(counter).next, 2),
{
    let lambda = make_lambda(2, f, counter);
    let mut args: Vec<Expression> = Vec::new();
    args.push(col.expr);
    args.push(init.expr);
    args.push(lambda);
    func("aggregate", args)
}

/// `aggregate(col, init, (acc, x) -> merge(acc, x), acc -> finish(acc))`.
pub fn aggregate_with_finish<F: FnOnce(Vec<Column>) -> Column, G: FnOnce(Vec<Column>) -> Column>(
    col: Column,
    init: Column,
    merge_f: F,
    finish_f: G,
    counter: &mut LambdaVarCounter,
) -> (c: Column)
    requires
        forall|v: Vec<Column>| #[trigger] merge_f.requires((v,)),
        forall|v: Vec<Column>| #[trigger] finish_f.requires((v,)),
    ensures
        is_call_of(c.expr, "aggregate"@, false, 4),
        call_arg(c.expr, 0) == col.expr,
        call_arg(c.expr, 1) == init.expr,
        is_lambda_of(call_arg(c.expr, 2), merge_f, old(counter).next, 2),
        is_lambda_of(call_arg(c.expr, 3), finish_f, index_after(old(counter).next, 2), 1),
        final(counter).next == index_after(index_after(old(counter).next, 2), 1),
{
    let merge_lambda = make_lambda(2, merge_f, counter);
    let finish_lambda = make_lambda(1, finish_f, counter);
    let mut args: Vec<Expression> = Vec::new();
    args.push(col.expr);
    args.push(init.expr);
    args.push(merge_lambda);
    args.push(finish_lambda);
    func("aggregate", args)
}

/// `zip_with(col1, col2, (x, y) -> f(x, y))`.
pub fn zip_with<F: FnOnce(Vec<Column>) -> Column>(col1: Column, col2: Column, f: F, counter: &mut LambdaVarCounter) -> (c: Column)
    requires
        forall|v: Vec<Column>| #[trigger] f.requires((v,)),
    ensures
        is_call_of(c.expr, "zip_with"@, false, 3),
        call_arg(c.expr, 0) == col1.expr,
        call_arg(c.expr, 1) == col2.expr,
        is_lambda_of(call_arg(c.expr, 2), f, old(counter).next, 2),
        final(counter).next == index_after(old(counter).next, 2),
{
    let lambda = make_lambda(2, f, counter);
    let mut args: Vec<Expression> = Vec::new();
    args.push(col1.expr);
    args.push(col2.expr);
    args.push(lambda);
    func("zip_with", args)
}

/// `transform_keys(col, (k, v) -> f(k, v))`.
pub fn transform_keys<F: FnOnce(Vec<Column>) -> Column>(col: Column, f: F, counter: &mut LambdaVarCounter) -> (c: Column)
    requires
        forall|v: Vec<Column>| #[trigger] f.requires((v,)),
    ensures
        is_call_of(c.expr, "transform_keys"@, false, 2),
        call_arg(c.expr, 0) == col.expr,
        is_lambda_of(call_arg(c.expr, 1), f, old(counter).next, 2),
        final(counter).next == index_after(old(counter).next, 2),
{
    let lambda = make_lambda(2, f, counter);
    let mut args: Vec<Expression> = Vec::new();
    args.push(col.expr);
    args.push(lambda);
    func("transform_keys", args)
}

/// `transform_values(col, (k, v) -> f(k, v))`.
pub fn transform_values<F: FnOnce(Vec<Column>) -> Column>(col: Column, f: F, counter: &mut LambdaVarCounter) -> (c: Column)
    requires
        forall|v: Vec<Column>| #[trigger] f.requires((v,)),
    ensures
        is_call_of(c.expr, "transform_values"@, false, 2),
        call_arg(c.expr, 0) == col.expr,
        is_lambda_of(call_arg(c.expr, 1), f, old(counter).next, 2),
        final(counter).next == index_after(old(counter).next, 2),
{
    let lambda = make_lambda(2, f, counter);
    let mut args: Vec<Expression> = Vec::new();
    args.push(col.expr);
    args.push(lambda);
    func("transform_values", args)
}

/// `map_filter(col, (k, v) -> f(k, v))`.
pub fn map_filter<F: FnOnce(Vec<Column>) -> Column>(col: Column, f: F, counter: &mut LambdaVarCounter) -> (c: Column)
    requires
        forall|v: Vec<Column>| #[trigger] f.requires((v,)),
    ensures
        is_call_of(c.expr, "map_filter"@, false, 2),
        call_arg(c.expr, 0) == col.expr,
        is_lambda_of(call_arg(c.expr, 1), f, old(counter).next, 2),
        final(counter).next == index_after(old(counter).next, 2),
{
    let lambda = make_lambda(2, f, counter);
    let mut args: Vec<Expression> = Vec::new();
    args.push(col.expr);
    args.push(lambda);
    func("map_filter", args)
}

/// `map_zip_with(col1, col2, (k, v1, v2) -> f(k, v1, v2))`.
pub fn map_zip_with<F: FnOnce(Vec<Column>) -> Column>(col1: Column, col2: Column, f: F, counter: &mut LambdaVarCounter) -> (c: Column)
    requires
        forall|v: Vec<Column>| #[trigger] f.requires((v,)),
    ensures
        is_call_of(c.expr, "map_zip_with"@, false, 3),
        call_arg(c.expr, 0) == col1.expr,
        call_arg(c.expr, 1) == col2.expr,
        is_lambda_of(call_arg(c.expr, 2), f, old(counter).next, 3),
        final(counter).next == index_after(old(counter).next, 3),
{
    let lambda = make_lambda(3, f, counter);
    let mut args: Vec<Expression> = Vec::new();
    args.push(col1.expr);
    args.push(col2.expr);
    args.push(lambda);
    func("map_zip_with", args)
}

/// The same as [`aggregate`].
pub fn reduce<F: FnOnce(Vec<Column>) -> Column>(col: Column, init: Column, f: F, counter: &mut LambdaVarCounter) -> (c: Column)
    requires
        forall|v: Vec<Column>| #[trigger] f.requires((v,)),
    ensures
        is_call_of(c.expr, "aggregate"@, false, 3),
        call_arg(c.expr, 0) == col.expr,
        call_arg(c.expr, 1) == init.expr,
        is_lambda_of(call_arg(c.expr, 2), f, old(counter).next, 2),
        final(counter).next == index_after(old(counter).next, 2),
{
    aggregate(col, init, f, counter)
}

// ---------------------------------------------------------------------------
// Calls of named SQL functions
// ---------------------------------------------------------------------------

/// The SQL function `array` of all the given columns, in order.
pub fn array(cols: Vec<Column>) -> (c: Column)
    ensures
        is_call(c.expr, "array"@, column_exprs(cols@)),
{
    func("array", take_exprs(cols))
}

/// The SQL function `concat` of all the given columns, in order.
pub fn concat(cols: Vec<Column>) -> (c: Column)
    ensures
        is_call(c.expr, "concat"@, column_exprs(cols@)),
{
    func("concat", take_exprs(cols))
}

/// The SQL function `coalesce` of all the given columns, in order.
pub fn coalesce(cols: Vec<Column>) -> (c: Column)
    ensures
        is_call(c.expr, "coalesce"@, column_exprs(cols@)),
{
    func("coalesce", take_exprs(cols))
}

/// The SQL function `arrays_zip` of all the given columns, in order.
pub fn arrays_zip(cols: Vec<Column>) -> (c: Column)
    ensures
        is_call(c.expr, "arrays_zip"@, column_exprs(cols@)),
{
    func("arrays_zip", take_exprs(cols))
}

/// The SQL function `map` of all the given columns, in order.
pub fn create_map(cols: Vec<Column>) -> (c: Column)
    ensures
        is_call(c.expr, "map"@, column_exprs(cols@)),
{
    func("map", take_exprs(cols))
}

/// The SQL function `window`, called with the arguments listed in the contract.
pub fn window(col: Column, window_duration: &str) -> (c: Column)
    ensures
        is_call_of(c.expr, "window"@, false, 2),
        call_arg(c.expr, 0) == col.expr,
        is_string_literal(call_arg(c.expr, 1), window_duration@),
{
    let mut args: Vec<Expression> = Vec::new();
    args.push(col.expr);
    args.push(Expression::Literal(LiteralExpression::string(window_duration)));
    func("window", args)
}

/// The SQL function `window`, called with the arguments listed in the contract.
pub fn window_with_slide_and_start(col: Column, window_duration: &str, slide_duration: &str, start_time: &str) -> (c: Column)
    ensures
        is_call_of(c.expr, "window"@, false, 4),
        call_arg(c.expr, 0) == col.expr,
        is_string_literal(call_arg(c.expr, 1), window_duration@),
        is_string_literal(call_arg(c.expr, 2), slide_duration@),
        is_string_literal(call_arg(c.expr, 3), start_time@),
{
    let mut args: Vec<Expression> = Vec::new();
    args.push(col.expr);
    args.push(Expression::Literal(LiteralExpression::string(window_duration)));
    args.push(Expression::Literal(LiteralExpression::string(slide_duration)));
    args.push(Expression::Literal(LiteralExpression::string(start_time)));
    func("window", args)
}

/// The SQL function `cume_dist`, called with no arguments.
pub fn cume_dist() -> (c: Column)
    ensures
        is_call(c.expr, "cume_dist"@, seq![]),
{
    let args: Vec<Expression> = Vec::new();
    func("cume_dist", args)
}

/// The SQL function `curdate`, called with no arguments.
pub fn curdate() -> (c: Column)
    ensures
        is_call(c.expr, "curdate"@, seq![]),
{
    let args: Vec<Expression> = Vec::new();
    func("curdate", args)
}

/// The SQL function `current_catalog`, called with no arguments.
pub fn current_catalog() -> (c: Column)
    ensures
        is_call(c.expr, "current_catalog"@, seq![]),
{
    let args: Vec<Expression> = Vec::new();
    func("current_catalog", args)
}

/// The SQL function `current_database`, called with no arguments.
pub fn current_database() -> (c: Column)
    ensures
        is_call(c.expr, "current_database"@, seq![]),
{
    let args: Vec<Expression> = Vec::new();
    func("current_database", args)
}

/// The SQL function `current_date`, called with no arguments.
pub fn current_date() -> (c: Column)
    ensures
        is_call(c.expr, "current_date"@, seq![]),
{
    let args: Vec<Expression> = Vec::new();
    func("current_date", args)
}

/// The SQL function `current_schema`, called with no arguments.
pub fn current_schema() -> (c: Column)
    ensures
        is_call(c.expr, "current_schema"@, seq![]),
{
    let args: Vec<Expression> = Vec::new();
    func("current_schema", args)
}

/// The SQL function `current_timestamp`, called with no arguments.
pub fn current_timestamp() -> (c: Column)
    ensures
        is_call(c.expr, "current_timestamp"@, seq![]),
{
    let args: Vec<Expression> = Vec::new();
    func("current_timestamp", args)
}

/// The SQL function `current_timezone`, called with no arguments.
pub fn current_timezone() -> (c: Column)
    ensures
        is_call(c.expr, "current_timezone"@, seq![]),
{
    let args: Vec<Expression> = Vec::new();
    func("current_timezone", args)
}

/// The SQL function `current_user`, called with no arguments.
pub fn current_user() -> (c: Column)
    ensures
        is_call(c.expr, "current_user"@, seq![]),
{
    let args: Vec<Expression> = Vec::new();
    func("current_user", args)
}

/// The SQL function `dense_rank`, called with no arguments.
pub fn dense_rank() -> (c: Column)
    ensures
        is_call(c.expr, "dense_rank"@, seq![]),
{
    let args: Vec<Expression> = Vec::new();
    func("dense_rank", args)
}

/// The SQL function `e`, called with no arguments.
pub fn e() -> (c: Column)
    ensures
        is_call(c.expr, "e"@, seq![]),
{
    let args: Vec<Expression> = Vec::new();
    func("e", args)
}

/// The SQL function `elt` of all the given columns, in order.
pub fn elt(cols: Vec<Column>) -> (c: Column)
    ensures
        is_call(c.expr, "elt"@, column_exprs(cols@)),
{
    func("elt", take_exprs(cols))
}

/// The SQL function `grouping_id` of all the given columns, in order.
pub fn grouping_id(cols: Vec<Column>) -> (c: Column)
    ensures
        is_call(c.expr, "grouping_id"@, column_exprs(cols@)),
{
    func("grouping_id", take_exprs(cols))
}

/// The SQL function `hash` of all the given columns, in order.
pub fn hash(cols: Vec<Column>) -> (c: Column)
    ensures
        is_call(c.expr, "hash"@, column_exprs(cols@)),
{
    func("hash", take_exprs(cols))
}

/// The SQL function `input_file_block_length`, called with no arguments.
pub fn input_file_block_length() -> (c: Column)
    ensures
        is_call(c.expr, "input_file_block_length"@, seq![]),
{
    let args: Vec<Expression> = Vec::new();
    func("input_file_block_length", args)
}

/// The SQL function `input_file_block_start`, called with no arguments.
pub fn input_file_block_start() -> (c: Column)
    ensures
        is_call(c.expr, "input_file_block_start"@, seq![]),
{
    let args: Vec<Expression> = Vec::new();
    func("input_file_block_start", args)
}

/// The SQL function `input_file_name`, called with no arguments.
pub fn input_file_name() -> (c: Column)
    ensures
        is_call(c.expr, "input_file_name"@, seq![]),
{
    let args: Vec<Expression> = Vec::new();
    func("input_file_name", args)
}

/// The SQL function `java_method` of all the given columns, in order.
pub fn java_method(cols: Vec<Column>) -> (c: Column)
    ensures
        is_call(c.expr, "java_method"@, column_exprs(cols@)),
{
    func("java_method", take_exprs(cols))
}

/// The SQL function `localtimestamp`, called with no arguments.
pub fn localtimestamp() -> (c: Column)
    ensures
        is_call(c.expr, "localtimestamp"@, seq![]),
{
    let args: Vec<Expression> = Vec::new();
    func("localtimestamp", args)
}

/// The SQL function `make_dt_interval`, called with the arguments listed in the contract.
pub fn make_dt_interval() -> (c: Column)
    ensures
        is_call_of(c.expr, "make_dt_interval"@, false, 4),
        call_arg(c.expr, 0) == Expression::Literal(LiteralExpression::Integer(0)),
        call_arg(c.expr, 1) == Expression::Literal(LiteralExpression::Integer(0)),
        call_arg(c.expr, 2) == Expression::Literal(LiteralExpression::Integer(0)),
        is_zero_decimal(call_arg(c.expr, 3)),
{
    let mut args: Vec<Expression> = Vec::new();
    args.push(Expression::Literal(LiteralExpression::Integer(0)));
    args.push(Expression::Literal(LiteralExpression::Integer(0)));
    args.push(Expression::Literal(LiteralExpression::Integer(0)));
    args.push(Expression::Literal(LiteralExpression::Decimal { value: owned("0"), precision: 10, scale: 0 }));
    func("make_dt_interval", args)
}

/// The SQL function `make_interval`, called with the arguments listed in the contract.
pub fn make_interval() -> (c: Column)
    ensures
        is_call_of(c.expr, "make_interval"@, false, 7),
        call_arg(c.expr, 0) == Expression::Literal(LiteralExpression::Integer(0)),
        call_arg(c.expr, 1) == Expression::Literal(LiteralExpression::Integer(0)),
        call_arg(c.expr, 2) == Expression::Literal(LiteralExpression::Integer(0)),
        call_arg(c.expr, 3) == Expression::Literal(LiteralExpression::Integer(0)),
        call_arg(c.expr, 4) == Expression::Literal(LiteralExpression::Integer(0)),
        call_arg(c.expr, 5) == Expression::Literal(LiteralExpression::Integer(0)),
        is_zero_decimal(call_arg(c.expr, 6)),
{
    let mut args: Vec<Expression> = Vec::new();
    args.push(Expression::Literal(LiteralExpression::Integer(0)));
    args.push(Expression::Literal(LiteralExpression::Integer(0)));
    args.push(Expression::Literal(LiteralExpression::Integer(0)));
    args.push(Expression::Literal(LiteralExpression::Integer(0)));
    args.push(Expression::Literal(LiteralExpression::Integer(0)));
    args.push(Expression::Literal(LiteralExpression::Integer(0)));
    args.push(Expression::Literal(LiteralExpression::Decimal { value: owned("0"), precision: 10, scale: 0 }));
    func("make_interval", args)
}

/// The SQL function `make_ym_interval`, called with the arguments listed in the contract.
pub fn make_ym_interval() -> (c: Column)
    ensures
        is_call(c.expr, "make_ym_interval"@, seq![Expression::Literal(LiteralExpression::Integer(0)), Expression::Literal(LiteralExpression::Integer(0))]),
{
    let mut args: Vec<Expression> = Vec::new();
    args.push(Expression::Literal(LiteralExpression::Integer(0)));
    args.push(Expression::Literal(LiteralExpression::Integer(0)));
    assert(args@ =~= seq![Expression::Literal(LiteralExpression::Integer(0)), Expression::Literal(LiteralExpression::Integer(0))]);
    func("make_ym_interval", args)
}

/// The SQL function `map_concat` of all the given columns, in order.
pub fn map_concat(cols: Vec<Column>) -> (c: Column)
    ensures
        is_call(c.expr, "map_concat"@, column_exprs(cols@)),
{
    func("map_concat", take_exprs(cols))
}

/// The SQL function `monotonically_increasing_id`, called with no arguments.
pub fn monotonically_increasing_id() -> (c: Column)
    ensures
        is_call(c.expr, "monotonically_increasing_id"@, seq![]),
{
    let args: Vec<Expression> = Vec::new();
    func("monotonically_increasing_id", args)
}

/// The SQL function `named_struct` of all the given columns, in order.
pub fn named_struct(cols: Vec<Column>) -> (c: Column)
    ensures
        is_call(c.expr, "named_struct"@, column_exprs(cols@)),
{
    func("named_struct", take_exprs(cols))
}

/// The SQL function `now`, called with no arguments.
pub fn now() -> (c: Column)
    ensures
        is_call(c.expr, "now"@, seq![]),
{
    let args: Vec<Expression> = Vec::new();
    func("now", args)
}

/// The SQL function `percent_rank`, called with no arguments.
pub fn percent_rank() -> (c: Column)
    ensures
        is_call(c.expr, "percent_rank"@, seq![]),
{
    let args: Vec<Expression> = Vec::new();
    func("percent_rank", args)
}

/// The SQL function `pi`, called with no arguments.
pub fn pi() -> (c: Column)
    ensures
        is_call(c.expr, "pi"@, seq![]),
{
    let args: Vec<Expression> = Vec::new();
    func("pi", args)
}

/// The SQL function `rand`, called with the arguments listed in the contract.
pub fn rand() -> (c: Column)
    ensures
        is_call(c.expr, "rand"@, seq![Expression::Literal(LiteralExpression::Long(2371029763967735218))]),
{
    let mut args: Vec<Expression> = Vec::new();
    args.push(Expression::Literal(LiteralExpression::Long(2371029763967735218)));
    assert(args@ =~= seq![Expression::Literal(LiteralExpression::Long(2371029763967735218))]);
    func("rand", args)
}

/// The SQL function `randn`, called with the arguments listed in the contract.
pub fn randn() -> (c: Column)
    ensures
        is_call(c.expr, "randn"@, seq![Expression::Literal(LiteralExpression::Long(2561831801369089374))]),
{
    let mut args: Vec<Expression> = Vec::new();
    args.push(Expression::Literal(LiteralExpression::Long(2561831801369089374)));
    assert(args@ =~= seq![Expression::Literal(LiteralExpression::Long(2561831801369089374))]);
    func("randn", args)
}

/// The SQL function `rank`, called with no arguments.
pub fn rank() -> (c: Column)
    ensures
        is_call(c.expr, "rank"@, seq![]),
{
    let args: Vec<Expression> = Vec::new();
    func("rank", args)
}

/// The SQL function `reflect` of all the given columns, in order.
pub fn reflect(cols: Vec<Column>) -> (c: Column)
    ensures
        is_call(c.expr, "reflect"@, column_exprs(cols@)),
{
    func("reflect", take_exprs(cols))
}

/// The SQL function `row_number`, called with no arguments.
pub fn row_number() -> (c: Column)
    ensures
        is_call(c.expr, "row_number"@, seq![]),
{
    let args: Vec<Expression> = Vec::new();
    func("row_number", args)
}

/// The SQL function `session_user`, called with no arguments.
pub fn session_user() -> (c: Column)
    ensures
        is_call(c.expr, "session_user"@, seq![]),
{
    let args: Vec<Expression> = Vec::new();
    func("session_user", args)
}

/// The SQL function `spark_partition_id`, called with no arguments.
pub fn spark_partition_id() -> (c: Column)
    ensures
        is_call(c.expr, "spark_partition_id"@, seq![]),
{
    let args: Vec<Expression> = Vec::new();
    func("spark_partition_id", args)
}

/// The SQL function `stack` of all the given columns, in order.
pub fn stack(cols: Vec<Column>) -> (c: Column)
    ensures
        is_call(c.expr, "stack"@, column_exprs(cols@)),
{
    func("stack", take_exprs(cols))
}

/// The SQL function `struct` of all the given columns, in order.
pub fn struct_(cols: Vec<Column>) -> (c: Column)
    ensures
        is_call(c.expr, "struct"@, column_exprs(cols@)),
{
    func("struct", take_exprs(cols))
}

/// The SQL function `try_make_interval`, called with the arguments listed in the contract.
pub fn try_make_interval() -> (c: Column)
    ensures
        is_call_of(c.expr, "try_make_interval"@, false, 7),
        call_arg(c.expr, 0) == Expression::Literal(LiteralExpression::Integer(0)),
        call_arg(c.expr, 1) == Expression::Literal(LiteralExpression::Integer(0)),
        call_arg(c.expr, 2) == Expression::Literal(LiteralExpression::Integer(0)),
        call_arg(c.expr, 3) == Expression::Literal(LiteralExpression::Integer(0)),
        call_arg(c.expr, 4) == Expression::Literal(LiteralExpression::Integer(0)),
        call_arg(c.expr, 5) == Expression::Literal(LiteralExpression::Integer(0)),
        is_zero_decimal(call_arg(c.expr, 6)),
{
    let mut args: Vec<Expression> = Vec::new();
    args.push(Expression::Literal(LiteralExpression::Integer(0)));
    args.push(Expression::Literal(LiteralExpression::Integer(0)));
    args.push(Expression::Literal(LiteralExpression::Integer(0)));
    args.push(Expression::Literal(LiteralExpression::Integer(0)));
    args.push(Expression::Literal(LiteralExpression::Integer(0)));
    args.push(Expression::Literal(LiteralExpression::Integer(0)));
    args.push(Expression::Literal(LiteralExpression::Decimal { value: owned("0"), precision: 10, scale: 0 }));
    func("try_make_interval", args)
}

/// The SQL function `try_reflect` of all the given columns, in order.
pub fn try_reflect(cols: Vec<Column>) -> (c: Column)
    ensures
        is_call(c.expr, "try_reflect"@, column_exprs(cols@)),
{
    func("try_reflect", take_exprs(cols))
}

/// The SQL function `unix_timestamp`, called with no arguments.
pub fn unix_timestamp() -> (c: Column)
    ensures
        is_call(c.expr, "unix_timestamp"@, seq![]),
{
    let args: Vec<Expression> = Vec::new();
    func("unix_timestamp", args)
}

/// The SQL function `user`, called with no arguments.
pub fn user() -> (c: Column)
    ensures
        is_call(c.expr, "user"@, seq![]),
{
    let args: Vec<Expression> = Vec::new();
    func("user", args)
}

/// The SQL function `version`, called with no arguments.
pub fn version() -> (c: Column)
    ensures
        is_call(c.expr, "version"@, seq![]),
{
    let args: Vec<Expression> = Vec::new();
    func("version", args)
}

/// The SQL function `xxhash64` of all the given columns, in order.
pub fn xxhash64(cols: Vec<Column>) -> (c: Column)
    ensures
        is_call(c.expr, "xxhash64"@, column_exprs(cols@)),
{
    func("xxhash64", take_exprs(cols))
}

/// The SQL function `abs` of `col1`.
pub fn abs(col1: Column) -> (c: Column)
    ensures
        is_call(c.expr, "abs"@, seq![col1.expr]),
{
    let mut args: Vec<Expression> = Vec::new();
    args.push(col1.expr);
    assert(args@ =~= seq![col1.expr]);
    func("abs", args)
}

/// The SQL function `acos` of `col1`.
pub fn acos(col1: Column) -> (c: Column)
    ensures
        is_call(c.expr, "acos"@, seq![col1.expr]),
{
    let mut args: Vec<Expression> = Vec::new();
    args.push(col1.expr);
    assert(args@ =~= seq![col1.expr]);
    func("acos", args)
}

/// The SQL function `acosh` of `col1`.
pub fn acosh(col1: Column) -> (c: Column)
    ensures
        is_call(c.expr, "acosh"@, seq![col1.expr]),
{
    let mut args: Vec<Expression> = Vec::new();
    args.push(col1.expr);
    assert(args@ =~= seq![col1.expr]);
    func("acosh", args)
}

/// The SQL function `any_value` of `col1`.
pub fn any_value(col1: Column) -> (c: Column)
    ensures
        is_call(c.expr, "any_value"@, seq![col1.expr]),
{
    let mut args: Vec<Expression> = Vec::new();
    args.push(col1.expr);
    assert(args@ =~= seq![col1.expr]);
    func("any_value", args)
}

/// The SQL function `approx_count_distinct` of `col1`.
pub fn approxCountDistinct(col1: Column) -> (c: Column)
    ensures
        is_call(c.expr, "approx_count_distinct"@, seq![col1.expr]),
{
    let mut args: Vec<Expression> = Vec::new();
    args.push(col1.expr);
    assert(args@ =~= seq![col1.expr]);
    func("approx_count_distinct", args)
}

/// The SQL function `approx_count_distinct` of `col1`.
pub fn approx_count_distinct(col1: Column) -> (c: Column)
    ensures
        is_call(c.expr, "approx_count_distinct"@, seq![col1.expr]),
{
    let mut args: Vec<Expression> = Vec::new();
    args.push(col1.expr);
    assert(args@ =~= seq![col1.expr]);
    func("approx_count_distinct", args)
}

/// The SQL function `approx_count_distinct` of `col1`, `rsd`, in this order.
pub fn approx_count_distinct_rsd(col1: Column, rsd: Column) -> (c: Column)
    ensures
        is_call(c.expr, "approx_count_distinct"@, seq![col1.expr, rsd.expr]),
{
    let mut args: Vec<Expression> = Vec::new();
    args.push(col1.expr);
    args.push(rsd.expr);
    assert(args@ =~= seq![col1.expr, rsd.expr]);
    func("approx_count_distinct", args)
}

/// The SQL function `array_agg` of `col1`.
pub fn array_agg(col1: Column) -> (c: Column)
    ensures
        is_call(c.expr, "array_agg"@, seq![col1.expr]),
{
    let mut args: Vec<Expression> = Vec::new();
    args.push(col1.expr);
    assert(args@ =~= seq![col1.expr]);
    func("array_agg", args)
}

/// The SQL function `array_compact` of `col1`.
pub fn array_compact(col1: Column) -> (c: Column)
    ensures
        is_call(c.expr, "array_compact"@, seq![col1.expr]),
{
    let mut args: Vec<Expression> = Vec::new();
    args.push(col1.expr);
    assert(args@ =~= seq![col1.expr]);
    func("array_compact", args)
}

/// The SQL function `array_distinct` of `col1`.
pub fn array_distinct(col1: Column) -> (c: Column)
    ensures
        is_call(c.expr, "array_distinct"@, seq![col1.expr]),
{
    let mut args: Vec<Expression> = Vec::new();
    args.push(col1.expr);
    assert(args@ =~= seq![col1.expr]);
    func("array_distinct", args)
}

/// The SQL function `array_max` of `col1`.
pub fn array_max(col1: Column) -> (c: Column)
    ensures
        is_call(c.expr, "array_max"@, seq![col1.expr]),
{
    let mut args: Vec<Expression> = Vec::new();
    args.push(col1.expr);
    assert(args@ =~= seq![col1.expr]);
    func("array_max", args)
}

/// The SQL function `array_min` of `col1`.
pub fn array_min(col1: Column) -> (c: Column)
    ensures
        is_call(c.expr, "array_min"@, seq![col1.expr]),
{
    let mut args: Vec<Expression> = Vec::new();
    args.push(col1.expr);
    assert(args@ =~= seq![col1.expr]);
    func("array_min", args)
}

/// The SQL function `array_size` of `col1`.
pub fn array_size(col1: Column) -> (c: Column)
    ensures
        is_call(c.expr, "array_size"@, seq![col1.expr]),
{
    let mut args: Vec<Expression> = Vec::new();
    args.push(col1.expr);
    assert(args@ =~= seq![col1.expr]);
    func("array_size", args)
}

/// The SQL function `array_sort` of `col1`.
pub fn array_sort(col1: Column) -> (c: Column)
    ensures
        is_call(c.expr, "array_sort"@, seq![col1.expr]),
{
    let mut args: Vec<Expression> = Vec::new();
    args.push(col1.expr);
    assert(args@ =~= seq![col1.expr]);
    func("array_sort", args)
}

/// The SQL function `ascii` of `col1`.
pub fn ascii(col1: Column) -> (c: Column)
    ensures
        is_call(c.expr, "ascii"@, seq![col1.expr]),
{
    let mut args: Vec<Expression> = Vec::new();
    args.push(col1.expr);
    assert(args@ =~= seq![col1.expr]);
    func("ascii", args)
}

/// The SQL function `asin` of `col1`.
pub fn asin(col1: Column) -> (c: Column)
    ensures
        is_call(c.expr, "asin"@, seq![col1.expr]),
{
    let mut args: Vec<Expression> = Vec::new();
    args.push(col1.expr);
    assert(args@ =~= seq![col1.expr]);
    func("asin", args)
}

/// The SQL function `asinh` of `col1`.
pub fn asinh(col1: Column) -> (c: Column)
    ensures
        is_call(c.expr, "asinh"@, seq![col1.expr]),
{
    let mut args: Vec<Expression> = Vec::new();
    args.push(col1.expr);
    assert(args@ =~= seq![col1.expr]);
    func("asinh", args)
}

/// The SQL function `assert_true` of `col1`.
pub fn assert_true(col1: Column) -> (c: Column)
    ensures
        is_call(c.expr, "assert_true"@, seq![col1.expr]),
{
    let mut args: Vec<Expression> = Vec::new();
    args.push(col1.expr);
    assert(args@ =~= seq![col1.expr]);
    func("assert_true", args)
}

/// The SQL function `atan` of `col1`.
pub fn atan(col1: Column) -> (c: Column)
    ensures
        is_call(c.expr, "atan"@, seq![col1.expr]),
{
    let mut args: Vec<Expression> = Vec::new();
    args.push(col1.expr);
    assert(args@ =~= seq![col1.expr]);
    func("atan", args)
}

/// The SQL function `atanh` of `col1`.
pub fn atanh(col1: Column) -> (c: Column)
    ensures
        is_call(c.expr, "atanh"@, seq![col1.expr]),
{
    let mut args: Vec<Expression> = Vec::new();
    args.push(col1.expr);
    assert(args@ =~= seq![col1.expr]);
    func("atanh", args)
}

/// The SQL function `avg` of `col1`.
pub fn avg(col1: Column) -> (c: Column)
    ensures
        is_call(c.expr, "avg"@, seq![col1.expr]),
{
    let mut args: Vec<Expression> = Vec::new();
    args.push(col1.expr);
    assert(args@ =~= seq![col1.expr]);
    func("avg", args)
}

/// The SQL function `base64` of `col1`.
pub fn base64(col1: Column) -> (c: Column)
    ensures
        is_call(c.expr, "base64"@, seq![col1.expr]),
{
    let mut args: Vec<Expression> = Vec::new();
    args.push(col1.expr);
    assert(args@ =~= seq![col1.expr]);
    func("base64", args)
}

/// The SQL function `bin` of `col1`.
pub fn bin(col1: Column) -> (c: Column)
    ensures
        is_call(c.expr, "bin"@, seq![col1.expr]),
{
    let mut args: Vec<Expression> = Vec::new();
    args.push(col1.expr);
    assert(args@ =~= seq![col1.expr]);
    func("bin", args)
}

/// The SQL function `bit_and` of `col1`.
pub fn bit_and(col1: Column) -> (c: Column)
    ensures
        is_call(c.expr, "bit_and"@, seq![col1.expr]),
{
    let mut args: Vec<Expression> = Vec::new();
    args.push(col1.expr);
    assert(args@ =~= seq![col1.expr]);
    func("bit_and", args)
}

/// The SQL function `bit_count` of `col1`.
pub fn bit_count(col1: Column) -> (c: Column)
    ensures
        is_call(c.expr, "bit_count"@, seq![col1.expr]),
{
    let mut args: Vec<Expression> = Vec::new();
    args.push(col1.expr);
    assert(args@ =~= seq![col1.expr]);
    func("bit_count", args)
}

/// The SQL function `bit_length` of `col1`.
pub fn bit_length(col1: Column) -> (c: Column)
    ensures
        is_call(c.expr, "bit_length"@, seq![col1.expr]),
{
    let mut args: Vec<Expression> = Vec::new();
    args.push(col1.expr);
    assert(args@ =~= seq![col1.expr]);
    func("bit_length", args)
}

/// The SQL function `bit_or` of `col1`.
pub fn bit_or(col1: Column) -> (c: Column)
    ensures
        is_call(c.expr, "bit_or"@, seq![col1.expr]),
{
    let mut args: Vec<Expression> = Vec::new();
    args.push(col1.expr);
    assert(args@ =~= seq![col1.expr]);
    func("bit_or", args)
}

/// The SQL function `bit_xor` of `col1`.
pub fn bit_xor(col1: Column) -> (c: Column)
    ensures
        is_call(c.expr, "bit_xor"@, seq![col1.expr]),
{
    let mut args: Vec<Expression> = Vec::new();
    args.push(col1.expr);
    assert(args@ =~= seq![col1.expr]);
    func("bit_xor", args)
}

/// The SQL function `bitmap_bit_position` of `col1`.
pub fn bitmap_bit_position(col1: Column) -> (c: Column)
    ensures
        is_call(c.expr, "bitmap_bit_position"@, seq![col1.expr]),
{
    let mut args: Vec<Expression> = Vec::new();
    args.push(col1.expr);
    assert(args@ =~= seq![col1.expr]);
    func("bitmap_bit_position", args)
}

/// The SQL function `bitmap_bucket_number` of `col1`.
pub fn bitmap_bucket_number(col1: Column) -> (c: Column)
    ensures
        is_call(c.expr, "bitmap_bucket_number"@, seq![col1.expr]),
{
    let mut args: Vec<Expression> = Vec::new();
    args.push(col1.expr);
    assert(args@ =~= seq![col1.expr]);
    func("bitmap_bucket_number", args)
}

/// The SQL function `bitmap_construct_agg` of `col1`.
pub fn bitmap_construct_agg(col1: Column) -> (c: Column)
    ensures
        is_call(c.expr, "bitmap_construct_agg"@, seq![col1.expr]),
{
    let mut args: Vec<Expression> = Vec::new();
    args.push(col1.expr);
    assert(args@ =~= seq![col1.expr]);
    func("bitmap_construct_agg", args)
}

/// The SQL function `bitmap_count` of `col1`.
pub fn bitmap_count(col1: Column) -> (c: Column)
    ensures
        is_call(c.expr, "bitmap_count"@, seq![col1.expr]),
{
    let mut args: Vec<Expression> = Vec::new();
    args.push(col1.expr);
    assert(args@ =~= seq![col1.expr]);
    func("bitmap_count", args)
}

/// The SQL function `bitmap_or_agg` of `col1`.
pub fn bitmap_or_agg(col1: Column) -> (c: Column)
    ensures
        is_call(c.expr, "bitmap_or_agg"@, seq![col1.expr]),
{
    let mut args: Vec<Expression> = Vec::new();
    args.push(col1.expr);
    assert(args@ =~= seq![col1.expr]);
    func("bitmap_or_agg", args)
}

/// The SQL function `~` of `col1`.
pub fn bitwiseNOT(col1: Column) -> (c: Column)
    ensures
        is_call(c.expr, "~"@, seq![col1.expr]),
{
    let mut args: Vec<Expression> = Vec::new();
    args.push(col1.expr);
    assert(args@ =~= seq![col1.expr]);
    func("~", args)
}

/// The SQL function `~` of `col1`.
pub fn bitwise_not(col1: Column) -> (c: Column)
    ensures
        is_call(c.expr, "~"@, seq![col1.expr]),
{
    let mut args: Vec<Expression> = Vec::new();
    args.push(col1.expr);
    assert(args@ =~= seq![col1.expr]);
    func("~", args)
}

/// The SQL function `bool_and` of `col1`.
pub fn bool_and(col1: Column) -> (c: Column)
    ensures
        is_call(c.expr, "bool_and"@, seq![col1.expr]),
{
    let mut args: Vec<Expression> = Vec::new();
    args.push(col1.expr);
    assert(args@ =~= seq![col1.expr]);
    func("bool_and", args)
}

/// The SQL function `bool_or` of `col1`.
pub fn bool_or(col1: Column) -> (c: Column)
    ensures
        is_call(c.expr, "bool_or"@, seq![col1.expr]),
{
    let mut args: Vec<Expression> = Vec::new();
    args.push(col1.expr);
    assert(args@ =~= seq![col1.expr]);
    func("bool_or", args)
}

/// The SQL function `bround` of `col1`.
pub fn bround(col1: Column) -> (c: Column)
    ensures
        is_call(c.expr, "bround"@, seq![col1.expr]),
{
    let mut args: Vec<Expression> = Vec::new();
    args.push(col1.expr);
    assert(args@ =~= seq![col1.expr]);
    func("bround", args)
}

/// The SQL function `bround` of `col1`, `scale`, in this order.
pub fn bround_scale(col1: Column, scale: Column) -> (c: Column)
    ensures
        is_call(c.expr, "bround"@, seq![col1.expr, scale.expr]),
{
    let mut args: Vec<Expression> = Vec::new();
    args.push(col1.expr);
    args.push(scale.expr);
    assert(args@ =~= seq![col1.expr, scale.expr]);
    func("bround", args)
}

/// The SQL function `btrim` of `col1`.
pub fn btrim(col1: Column) -> (c: Column)
    ensures
        is_call(c.expr, "btrim"@, seq![col1.expr]),
{
    let mut args: Vec<Expression> = Vec::new();
    args.push(col1.expr);
    assert(args@ =~= seq![col1.expr]);
    func("btrim", args)
}

/// The SQL function `cardinality` of `col1`.
pub fn cardinality(col1: Column) -> (c: Column)
    ensures
        is_call(c.expr, "cardinality"@, seq![col1.expr]),
{
    let mut args: Vec<Expression> = Vec::new();
    args.push(col1.expr);
    assert(args@ =~= seq![col1.expr]);
    func("cardinality", args)
}

/// The SQL function `cbrt` of `col1`.
pub fn cbrt(col1: Column) -> (c: Column)
    ensures
        is_call(c.expr, "cbrt"@, seq![col1.expr]),
{
    let mut args: Vec<Expression> = Vec::new();
    args.push(col1.expr);
    assert(args@ =~= seq![col1.expr]);
    func("cbrt", args)
}

/// The SQL function `ceil` of `col1`.
pub fn ceil(col1: Column) -> (c: Column)
    ensures
        is_call(c.expr, "ceil"@, seq![col1.expr]),
{
    let mut args: Vec<Expression> = Vec::new();
    args.push(col1.expr);
    assert(args@ =~= seq![col1.expr]);
    func("ceil", args)
}

/// The SQL function `ceil` of `col1`, `scale`, in this order.
pub fn ceil_scale(col1: Column, scale: Column) -> (c: Column)
    ensures
        is_call(c.expr, "ceil"@, seq![col1.expr, scale.expr]),
{
    let mut args: Vec<Expression> = Vec::new();
    args.push(col1.expr);
    args.push(scale.expr);
    assert(args@ =~= seq![col1.expr, scale.expr]);
    func("ceil", args)
}

/// The SQL function `ceiling` of `col1`.
pub fn ceiling(col1: Column) -> (c: Column)
    ensures
        is_call(c.expr, "ceiling"@, seq![col1.expr]),
{
    let mut args: Vec<Expression> = Vec::new();
    args.push(col1.expr);
    assert(args@ =~= seq![col1.expr]);
    func("ceiling", args)
}

/// The SQL function `char` of `col1`.
pub fn char(col1: Column) -> (c: Column)
    ensures
        is_call(c.expr, "char"@, seq![col1.expr]),
{
    let mut args: Vec<Expression> = Vec::new();
    args.push(col1.expr);
    assert(args@ =~= seq![col1.expr]);
    func("char", args)
}

/// The SQL function `char_length` of `col1`.
pub fn char_length(col1: Column) -> (c: Column)
    ensures
        is_call(c.expr, "char_length"@, seq![col1.expr]),
{
    let mut args: Vec<Expression> = Vec::new();
    args.push(col1.expr);
    assert(args@ =~= seq![col1.expr]);
    func("char_length", args)
}

/// The SQL function `character_length` of `col1`.
pub fn character_length(col1: Column) -> (c: Column)
    ensures
        is_call(c.expr, "character_length"@, seq![col1.expr]),
{
    let mut args: Vec<Expression> = Vec::new();
    args.push(col1.expr);
    assert(args@ =~= seq![col1.expr]);
    func("character_length", args)
}

/// The SQL function `collation` of `col1`.
pub fn collation(col1: Column) -> (c: Column)
    ensures
        is_call(c.expr, "collation"@, seq![col1.expr]),
{
    let mut args: Vec<Expression> = Vec::new();
    args.push(col1.expr);
    assert(args@ =~= seq![col1.expr]);
    func("collation", args)
}

/// The SQL function `collect_list` of `col1`.
pub fn collect_list(col1: Column) -> (c: Column)
    ensures
        is_call(c.expr, "collect_list"@, seq![col1.expr]),
{
    let mut args: Vec<Expression> = Vec::new();
    args.push(col1.expr);
    assert(args@ =~= seq![col1.expr]);
    func("collect_list", args)
}

/// The SQL function `collect_set` of `col1`.
pub fn collect_set(col1: Column) -> (c: Column)
    ensures
        is_call(c.expr, "collect_set"@, seq![col1.expr]),
{
    let mut args: Vec<Expression> = Vec::new();
    args.push(col1.expr);
    assert(args@ =~= seq![col1.expr]);
    func("collect_set", args)
}

/// The SQL function `concat_ws` of all the given columns, in order.
pub fn concat_ws(cols: Vec<Column>) -> (c: Column)
    ensures
        is_call(c.expr, "concat_ws"@, column_exprs(cols@)),
{
    func("concat_ws", take_exprs(cols))
}

/// The SQL function `cos` of `col1`.
pub fn cos(col1: Column) -> (c: Column)
    ensures
        is_call(c.expr, "cos"@, seq![col1.expr]),
{
    let mut args: Vec<Expression> = Vec::new();
    args.push(col1.expr);
    assert(args@ =~= seq![col1.expr]);
    func("cos", args)
}

/// The SQL function `cosh` of `col1`.
pub fn cosh(col1: Column) -> (c: Column)
    ensures
        is_call(c.expr, "cosh"@, seq![col1.expr]),
{
    let mut args: Vec<Expression> = Vec::new();
    args.push(col1.expr);
    assert(args@ =~= seq![col1.expr]);
    func("cosh", args)
}

/// The SQL function `cot` of `col1`.
pub fn cot(col1: Column) -> (c: Column)
    ensures
        is_call(c.expr, "cot"@, seq![col1.expr]),
{
    let mut args: Vec<Expression> = Vec::new();
    args.push(col1.expr);
    assert(args@ =~= seq![col1.expr]);
    func("cot", args)
}

/// The SQL function `count` of `col1`.
pub fn count(col1: Column) -> (c: Column)
    ensures
        is_call(c.expr, "count"@, seq![col1.expr]),
{
    let mut args: Vec<Expression> = Vec::new();
    args.push(col1.expr);
    assert(args@ =~= seq![col1.expr]);
    func("count", args)
}

/// The DISTINCT aggregate `count` of `col1`.
pub fn countDistinct(col1: Column) -> (c: Column)
    ensures
        is_distinct_call(c.expr, "count"@, seq![col1.expr]),
{
    let mut args: Vec<Expression> = Vec::new();
    args.push(col1.expr);
    assert(args@ =~= seq![col1.expr]);
    func_distinct("count", args)
}

/// The DISTINCT aggregate `count` of `col1`.
pub fn count_distinct(col1: Column) -> (c: Column)
    ensures
        is_distinct_call(c.expr, "count"@, seq![col1.expr]),
{
    let mut args: Vec<Expression> = Vec::new();
    args.push(col1.expr);
    assert(args@ =~= seq![col1.expr]);
    func_distinct("count", args)
}

/// The SQL function `count_if` of `col1`.
pub fn count_if(col1: Column) -> (c: Column)
    ensures
        is_call(c.expr, "count_if"@, seq![col1.expr]),
{
    let mut args: Vec<Expression> = Vec::new();
    args.push(col1.expr);
    assert(args@ =~= seq![col1.expr]);
    func("count_if", args)
}

/// The SQL function `crc32` of `col1`.
pub fn crc32(col1: Column) -> (c: Column)
    ensures
        is_call(c.expr, "crc32"@, seq![col1.expr]),
{
    let mut args: Vec<Expression> = Vec::new();
    args.push(col1.expr);
    assert(args@ =~= seq![col1.expr]);
    func("crc32", args)
}

/// The SQL function `csc` of `col1`.
pub fn csc(col1: Column) -> (c: Column)
    ensures
        is_call(c.expr, "csc"@, seq![col1.expr]),
{
    let mut args: Vec<Expression> = Vec::new();
    args.push(col1.expr);
    assert(args@ =~= seq![col1.expr]);
    func("csc", args)
}

/// The SQL function `date_from_unix_date` of `col1`.
pub fn date_from_unix_date(col1: Column) -> (c: Column)
    ensures
        is_call(c.expr, "date_from_unix_date"@, seq![col1.expr]),
{
    let mut args: Vec<Expression> = Vec::new();
    args.push(col1.expr);
    assert(args@ =~= seq![col1.expr]);
    func("date_from_unix_date", args)
}

/// The SQL function `day` of `col1`.
pub fn day(col1: Column) -> (c: Column)
    ensures
        is_call(c.expr, "day"@, seq![col1.expr]),
{
    let mut args: Vec<Expression> = Vec::new();
    args.push(col1.expr);
    assert(args@ =~= seq![col1.expr]);
    func("day", args)
}

/// The SQL function `dayname` of `col1`.
pub fn dayname(col1: Column) -> (c: Column)
    ensures
        is_call(c.expr, "dayname"@, seq![col1.expr]),
{
    let mut args: Vec<Expression> = Vec::new();
    args.push(col1.expr);
    assert(args@ =~= seq![col1.expr]);
    func("dayname", args)
}

/// The SQL function `dayofmonth` of `col1`.
pub fn dayofmonth(col1: Column) -> (c: Column)
    ensures
        is_call(c.expr, "dayofmonth"@, seq![col1.expr]),
{
    let mut args: Vec<Expression> = Vec::new();
    args.push(col1.expr);
    assert(args@ =~= seq![col1.expr]);
    func("dayofmonth", args)
}

/// The SQL function `dayofweek` of `col1`.
pub fn dayofweek(col1: Column) -> (c: Column)
    ensures
        is_call(c.expr, "dayofweek"@, seq![col1.expr]),
{
    let mut args: Vec<Expression> = Vec::new();
    args.push(col1.expr);
    assert(args@ =~= seq![col1.expr]);
    func("dayofweek", args)
}

/// The SQL function `dayofyear` of `col1`.
pub fn dayofyear(col1: Column) -> (c: Column)
    ensures
        is_call(c.expr, "dayofyear"@, seq![col1.expr]),
{
    let mut args: Vec<Expression> = Vec::new();
    args.push(col1.expr);
    assert(args@ =~= seq![col1.expr]);
    func("dayofyear", args)
}

/// The SQL function `days` of `col1`.
pub fn days(col1: Column) -> (c: Column)
    ensures
        is_call(c.expr, "days"@, seq![col1.expr]),
{
    let mut args: Vec<Expression> = Vec::new();
    args.push(col1.expr);
    assert(args@ =~= seq![col1.expr]);
    func("days", args)
}

/// The SQL function `degrees` of `col1`.
pub fn degrees(col1: Column) -> (c: Column)
    ensures
        is_call(c.expr, "degrees"@, seq![col1.expr]),
{
    let mut args: Vec<Expression> = Vec::new();
    args.push(col1.expr);
    assert(args@ =~= seq![col1.expr]);
    func("degrees", args)
}

/// The SQL function `every` of `col1`.
pub fn every(col1: Column) -> (c: Column)
    ensures
        is_call(c.expr, "every"@, seq![col1.expr]),
{
    let mut args: Vec<Expression> = Vec::new();
    args.push(col1.expr);
    assert(args@ =~= seq![col1.expr]);
    func("every", args)
}

/// The SQL function `exp` of `col1`.
pub fn exp(col1: Column) -> (c: Column)
    ensures
        is_call(c.expr, "exp"@, seq![col1.expr]),
{
    let mut args: Vec<Expression> = Vec::new();
    args.push(col1.expr);
    assert(args@ =~= seq![col1.expr]);
    func("exp", args)
}

/// The SQL function `explode` of `col1`.
pub fn explode(col1: Column) -> (c: Column)
    ensures
        is_call(c.expr, "explode"@, seq![col1.expr]),
{
    let mut args: Vec<Expression> = Vec::new();
    args.push(col1.expr);
    assert(args@ =~= seq![col1.expr]);
    func("explode", args)
}

/// The SQL function `explode_outer` of `col1`.
pub fn explode_outer(col1: Column) -> (c: Column)
    ensures
        is_call(c.expr, "explode_outer"@, seq![col1.expr]),
{
    let mut args: Vec<Expression> = Vec::new();
    args.push(col1.expr);
    assert(args@ =~= seq![col1.expr]);
    func("explode_outer", args)
}

/// The SQL function `expm1` of `col1`.
pub fn expm1(col1: Column) -> (c: Column)
    ensures
        is_call(c.expr, "expm1"@, seq![col1.expr]),
{
    let mut args: Vec<Expression> = Vec::new();
    args.push(col1.expr);
    assert(args@ =~= seq![col1.expr]);
    func("expm1", args)
}

/// The SQL function `factorial` of `col1`.
pub fn factorial(col1: Column) -> (c: Column)
    ensures
        is_call(c.expr, "factorial"@, seq![col1.expr]),
{
    let mut args: Vec<Expression> = Vec::new();
    args.push(col1.expr);
    assert(args@ =~= seq![col1.expr]);
    func("factorial", args)
}

/// The SQL function `first`, called with the arguments listed in the contract.
pub fn first(col1: Column) -> (c: Column)
    ensures
        is_call(c.expr, "first"@, seq![col1.expr, Expression::Literal(LiteralExpression::Boolean(false))]),
{
    let mut args: Vec<Expression> = Vec::new();
    args.push(col1.expr);
    args.push(Expression::Literal(LiteralExpression::Boolean(false)));
    assert(args@ =~= seq![col1.expr, Expression::Literal(LiteralExpression::Boolean(false))]);
    func("first", args)
}

/// The SQL function `first_value` of `col1`.
pub fn first_value(col1: Column) -> (c: Column)
    ensures
        is_call(c.expr, "first_value"@, seq![col1.expr]),
{
    let mut args: Vec<Expression> = Vec::new();
    args.push(col1.expr);
    assert(args@ =~= seq![col1.expr]);
    func("first_value", args)
}

/// The SQL function `flatten` of `col1`.
pub fn flatten(col1: Column) -> (c: Column)
    ensures
        is_call(c.expr, "flatten"@, seq![col1.expr]),
{
    let mut args: Vec<Expression> = Vec::new();
    args.push(col1.expr);
    assert(args@ =~= seq![col1.expr]);
    func("flatten", args)
}

/// The SQL function `floor` of `col1`.
pub fn floor(col1: Column) -> (c: Column)
    ensures
        is_call(c.expr, "floor"@, seq![col1.expr]),
{
    let mut args: Vec<Expression> = Vec::new();
    args.push(col1.expr);
    assert(args@ =~= seq![col1.expr]);
    func("floor", args)
}

/// The SQL function `floor` of `col1`, `scale`, in this order.
pub fn floor_scale(col1: Column, scale: Column) -> (c: Column)
    ensures
        is_call(c.expr, "floor"@, seq![col1.expr, scale.expr]),
{
    let mut args: Vec<Expression> = Vec::new();
    args.push(col1.expr);
    args.push(scale.expr);
    assert(args@ =~= seq![col1.expr, scale.expr]);
    func("floor", args)
}

/// The SQL function `format_string` of all the given columns, in order.
pub fn format_string(cols: Vec<Column>) -> (c: Column)
    ensures
        is_call(c.expr, "format_string"@, column_exprs(cols@)),
{
    func("format_string", take_exprs(cols))
}

/// The SQL function `from_unixtime`, called with the arguments listed in the contract.
pub fn from_unixtime(col1: Column) -> (c: Column)
    ensures
        is_call_of(c.expr, "from_unixtime"@, false, 2),
        call_arg(c.expr, 0) == col1.expr,
        is_string_literal(call_arg(c.expr, 1), "yyyy-MM-dd HH:mm:ss"@),
{
    let mut args: Vec<Expression> = Vec::new();
    args.push(col1.expr);
    args.push(Expression::Literal(LiteralExpression::string("yyyy-MM-dd HH:mm:ss")));
    func("from_unixtime", args)
}

/// The SQL function `grouping` of `col1`.
pub fn grouping(col1: Column) -> (c: Column)
    ensures
        is_call(c.expr, "grouping"@, seq![col1.expr]),
{
    let mut args: Vec<Expression> = Vec::new();
    args.push(col1.expr);
    assert(args@ =~= seq![col1.expr]);
    func("grouping", args)
}

/// The SQL function `hex` of `col1`.
pub fn hex(col1: Column) -> (c: Column)
    ensures
        is_call(c.expr, "hex"@, seq![col1.expr]),
{
    let mut args: Vec<Expression> = Vec::new();
    args.push(col1.expr);
    assert(args@ =~= seq![col1.expr]);
    func("hex", args)
}

/// The SQL function `hll_sketch_agg` of `col1`.
pub fn hll_sketch_agg(col1: Column) -> (c: Column)
    ensures
        is_call(c.expr, "hll_sketch_agg"@, seq![col1.expr]),
{
    let mut args: Vec<Expression> = Vec::new();
    args.push(col1.expr);
    assert(args@ =~= seq![col1.expr]);
    func("hll_sketch_agg", args)
}

/// The SQL function `hll_sketch_estimate` of `col1`.
pub fn hll_sketch_estimate(col1: Column) -> (c: Column)
    ensures
        is_call(c.expr, "hll_sketch_estimate"@, seq![col1.expr]),
{
    let mut args: Vec<Expression> = Vec::new();
    args.push(col1.expr);
    assert(args@ =~= seq![col1.expr]);
    func("hll_sketch_estimate", args)
}

/// The SQL function `hll_union_agg` of `col1`.
pub fn hll_union_agg(col1: Column) -> (c: Column)
    ensures
        is_call(c.expr, "hll_union_agg"@, seq![col1.expr]),
{
    let mut args: Vec<Expression> = Vec::new();
    args.push(col1.expr);
    assert(args@ =~= seq![col1.expr]);
    func("hll_union_agg", args)
}

/// The SQL function `hour` of `col1`.
pub fn hour(col1: Column) -> (c: Column)
    ensures
        is_call(c.expr, "hour"@, seq![col1.expr]),
{
    let mut args: Vec<Expression> = Vec::new();
    args.push(col1.expr);
    assert(args@ =~= seq![col1.expr]);
    func("hour", args)
}

/// The SQL function `hours` of `col1`.
pub fn hours(col1: Column) -> (c: Column)
    ensures
        is_call(c.expr, "hours"@, seq![col1.expr]),
{
    let mut args: Vec<Expression> = Vec::new();
    args.push(col1.expr);
    assert(args@ =~= seq![col1.expr]);
    func("hours", args)
}

/// The SQL function `initcap` of `col1`.
pub fn initcap(col1: Column) -> (c: Column)
    ensures
        is_call(c.expr, "initcap"@, seq![col1.expr]),
{
    let mut args: Vec<Expression> = Vec::new();
    args.push(col1.expr);
    assert(args@ =~= seq![col1.expr]);
    func("initcap", args)
}

/// The SQL function `inline` of `col1`.
pub fn inline(col1: Column) -> (c: Column)
    ensures
        is_call(c.expr, "inline"@, seq![col1.expr]),
{
    let mut args: Vec<Expression> = Vec::new();
    args.push(col1.expr);
    assert(args@ =~= seq![col1.expr]);
    func("inline", args)
}

/// The SQL function `inline_outer` of `col1`.
pub fn inline_outer(col1: Column) -> (c: Column)
    ensures
        is_call(c.expr, "inline_outer"@, seq![col1.expr]),
{
    let mut args: Vec<Expression> = Vec::new();
    args.push(col1.expr);
    assert(args@ =~= seq![col1.expr]);
    func("inline_outer", args)
}

/// The SQL function `is_valid_utf8` of `col1`.
pub fn is_valid_utf8(col1: Column) -> (c: Column)
    ensures
        is_call(c.expr, "is_valid_utf8"@, seq![col1.expr]),
{
    let mut args: Vec<Expression> = Vec::new();
    args.push(col1.expr);
    assert(args@ =~= seq![col1.expr]);
    func("is_valid_utf8", args)
}

/// The SQL function `is_variant_null` of `col1`.
pub fn is_variant_null(col1: Column) -> (c: Column)
    ensures
        is_call(c.expr, "is_variant_null"@, seq![col1.expr]),
{
    let mut args: Vec<Expression> = Vec::new();
    args.push(col1.expr);
    assert(args@ =~= seq![col1.expr]);
    func("is_variant_null", args)
}

/// The SQL function `isnan` of `col1`.
pub fn isnan(col1: Column) -> (c: Column)
    ensures
        is_call(c.expr, "isnan"@, seq![col1.expr]),
{
    let mut args: Vec<Expression> = Vec::new();
    args.push(col1.expr);
    assert(args@ =~= seq![col1.expr]);
    func("isnan", args)
}

/// The SQL function `isnotnull` of `col1`.
pub fn isnotnull(col1: Column) -> (c: Column)
    ensures
        is_call(c.expr, "isnotnull"@, seq![col1.expr]),
{
    let mut args: Vec<Expression> = Vec::new();
    args.push(col1.expr);
    assert(args@ =~= seq![col1.expr]);
    func("isnotnull", args)
}

/// The SQL function `isnull` of `col1`.
pub fn isnull(col1: Column) -> (c: Column)
    ensures
        is_call(c.expr, "isnull"@, seq![col1.expr]),
{
    let mut args: Vec<Expression> = Vec::new();
    args.push(col1.expr);
    assert(args@ =~= seq![col1.expr]);
    func("isnull", args)
}

/// The SQL function `json_array_length` of `col1`.
pub fn json_array_length(col1: Column) -> (c: Column)
    ensures
        is_call(c.expr, "json_array_length"@, seq![col1.expr]),
{
    let mut args: Vec<Expression> = Vec::new();
    args.push(col1.expr);
    assert(args@ =~= seq![col1.expr]);
    func("json_array_length", args)
}

/// The SQL function `json_object_keys` of `col1`.
pub fn json_object_keys(col1: Column) -> (c: Column)
    ensures
        is_call(c.expr, "json_object_keys"@, seq![col1.expr]),
{
    let mut args: Vec<Expression> = Vec::new();
    args.push(col1.expr);
    assert(args@ =~= seq![col1.expr]);
    func("json_object_keys", args)
}

/// The SQL function `kurtosis` of `col1`.
pub fn kurtosis(col1: Column) -> (c: Column)
    ensures
        is_call(c.expr, "kurtosis"@, seq![col1.expr]),
{
    let mut args: Vec<Expression> = Vec::new();
    args.push(col1.expr);
    assert(args@ =~= seq![col1.expr]);
    func("kurtosis", args)
}

/// The SQL function `lag`, called with the arguments listed in the contract.
pub fn lag(col1: Column) -> (c: Column)
    ensures
        is_call(c.expr, "lag"@, seq![col1.expr, Expression::Literal(LiteralExpression::Integer(1))]),
{
    let mut args: Vec<Expression> = Vec::new();
    args.push(col1.expr);
    args.push(Expression::Literal(LiteralExpression::Integer(1)));
    assert(args@ =~= seq![col1.expr, Expression::Literal(LiteralExpression::Integer(1))]);
    func("lag", args)
}

/// The SQL function `last`, called with the arguments listed in the contract.
pub fn last(col1: Column) -> (c: Column)
    ensures
        is_call(c.expr, "last"@, seq![col1.expr, Expression::Literal(LiteralExpression::Boolean(false))]),
{
    let mut args: Vec<Expression> = Vec::new();
    args.push(col1.expr);
    args.push(Expression::Literal(LiteralExpression::Boolean(false)));
    assert(args@ =~= seq![col1.expr, Expression::Literal(LiteralExpression::Boolean(false))]);
    func("last", args)
}

/// The SQL function `last_day` of `col1`.
pub fn last_day(col1: Column) -> (c: Column)
    ensures
        is_call(c.expr, "last_day"@, seq![col1.expr]),
{
    let mut args: Vec<Expression> = Vec::new();
    args.push(col1.expr);
    assert(args@ =~= seq![col1.expr]);
    func("last_day", args)
}

/// The SQL function `last_value` of `col1`.
pub fn last_value(col1: Column) -> (c: Column)
    ensures
        is_call(c.expr, "last_value"@, seq![col1.expr]),
{
    let mut args: Vec<Expression> = Vec::new();
    args.push(col1.expr);
    assert(args@ =~= seq![col1.expr]);
    func("last_value", args)
}

/// The SQL function `lcase` of `col1`.
pub fn lcase(col1: Column) -> (c: Column)
    ensures
        is_call(c.expr, "lcase"@, seq![col1.expr]),
{
    let mut args: Vec<Expression> = Vec::new();
    args.push(col1.expr);
    assert(args@ =~= seq![col1.expr]);
    func("lcase", args)
}

/// The SQL function `lead`, called with the arguments listed in the contract.
pub fn lead(col1: Column) -> (c: Column)
    ensures
        is_call(c.expr, "lead"@, seq![col1.expr, Expression::Literal(LiteralExpression::Integer(1))]),
{
    let mut args: Vec<Expression> = Vec::new();
    args.push(col1.expr);
    args.push(Expression::Literal(LiteralExpression::Integer(1)));
    assert(args@ =~= seq![col1.expr, Expression::Literal(LiteralExpression::Integer(1))]);
    func("lead", args)
}

/// The SQL function `length` of `col1`.
pub fn length(col1: Column) -> (c: Column)
    ensures
        is_call(c.expr, "length"@, seq![col1.expr]),
{
    let mut args: Vec<Expression> = Vec::new();
    args.push(col1.expr);
    assert(args@ =~= seq![col1.expr]);
    func("length", args)
}

/// The SQL function `listagg` of `col1`.
pub fn listagg(col1: Column) -> (c: Column)
    ensures
        is_call(c.expr, "listagg"@, seq![col1.expr]),
{
    let mut args: Vec<Expression> = Vec::new();
    args.push(col1.expr);
    assert(args@ =~= seq![col1.expr]);
    func("listagg", args)
}

/// The DISTINCT aggregate `listagg` of `col1`.
pub fn listagg_distinct(col1: Column) -> (c: Column)
    ensures
        is_distinct_call(c.expr, "listagg"@, seq![col1.expr]),
{
    let mut args: Vec<Expression> = Vec::new();
    args.push(col1.expr);
    assert(args@ =~= seq![col1.expr]);
    func_distinct("listagg", args)
}

/// The SQL function `ln` of `col1`.
pub fn ln(col1: Column) -> (c: Column)
    ensures
        is_call(c.expr, "ln"@, seq![col1.expr]),
{
    let mut args: Vec<Expression> = Vec::new();
    args.push(col1.expr);
    assert(args@ =~= seq![col1.expr]);
    func("ln", args)
}

/// The SQL function `ln` of `col1`.
pub fn log(col1: Column) -> (c: Column)
    ensures
        is_call(c.expr, "ln"@, seq![col1.expr]),
{
    let mut args: Vec<Expression> = Vec::new();
    args.push(col1.expr);
    assert(args@ =~= seq![col1.expr]);
    func("ln", args)
}

/// The SQL function `log10` of `col1`.
pub fn log10(col1: Column) -> (c: Column)
    ensures
        is_call(c.expr, "log10"@, seq![col1.expr]),
{
    let mut args: Vec<Expression> = Vec::new();
    args.push(col1.expr);
    assert(args@ =~= seq![col1.expr]);
    func("log10", args)
}

/// The SQL function `log1p` of `col1`.
pub fn log1p(col1: Column) -> (c: Column)
    ensures
        is_call(c.expr, "log1p"@, seq![col1.expr]),
{
    let mut args: Vec<Expression> = Vec::new();
    args.push(col1.expr);
    assert(args@ =~= seq![col1.expr]);
    func("log1p", args)
}

/// The SQL function `log2` of `col1`.
pub fn log2(col1: Column) -> (c: Column)
    ensures
        is_call(c.expr, "log2"@, seq![col1.expr]),
{
    let mut args: Vec<Expression> = Vec::new();
    args.push(col1.expr);
    assert(args@ =~= seq![col1.expr]);
    func("log2", args)
}

/// The SQL function `lower` of `col1`.
pub fn lower(col1: Column) -> (c: Column)
    ensures
        is_call(c.expr, "lower"@, seq![col1.expr]),
{
    let mut args: Vec<Expression> = Vec::new();
    args.push(col1.expr);
    assert(args@ =~= seq![col1.expr]);
    func("lower", args)
}

/// The SQL function `ltrim` of `col1`.
pub fn ltrim(col1: Column) -> (c: Column)
    ensures
        is_call(c.expr, "ltrim"@, seq![col1.expr]),
{
    let mut args: Vec<Expression> = Vec::new();
    args.push(col1.expr);
    assert(args@ =~= seq![col1.expr]);
    func("ltrim", args)
}

/// The SQL function `ltrim` of `col1`, `trim`, in this order.
pub fn ltrim_with(col1: Column, trim: Column) -> (c: Column)
    ensures
        is_call(c.expr, "ltrim"@, seq![trim.expr, col1.expr]),
{
    let mut args: Vec<Expression> = Vec::new();
    args.push(trim.expr);
    args.push(col1.expr);
    assert(args@ =~= seq![trim.expr, col1.expr]);
    func("ltrim", args)
}

/// The SQL function `make_valid_utf8` of `col1`.
pub fn make_valid_utf8(col1: Column) -> (c: Column)
    ensures
        is_call(c.expr, "make_valid_utf8"@, seq![col1.expr]),
{
    let mut args: Vec<Expression> = Vec::new();
    args.push(col1.expr);
    assert(args@ =~= seq![col1.expr]);
    func("make_valid_utf8", args)
}

/// The SQL function `map_entries` of `col1`.
pub fn map_entries(col1: Column) -> (c: Column)
    ensures
        is_call(c.expr, "map_entries"@, seq![col1.expr]),
{
    let mut args: Vec<Expression> = Vec::new();
    args.push(col1.expr);
    assert(args@ =~= seq![col1.expr]);
    func("map_entries", args)
}

/// The SQL function `map_from_entries` of `col1`.
pub fn map_from_entries(col1: Column) -> (c: Column)
    ensures
        is_call(c.expr, "map_from_entries"@, seq![col1.expr]),
{
    let mut args: Vec<Expression> = Vec::new();
    args.push(col1.expr);
    assert(args@ =~= seq![col1.expr]);
    func("map_from_entries", args)
}

/// The SQL function `map_keys` of `col1`.
pub fn map_keys(col1: Column) -> (c: Column)
    ensures
        is_call(c.expr, "map_keys"@, seq![col1.expr]),
{
    let mut args: Vec<Expression> = Vec::new();
    args.push(col1.expr);
    assert(args@ =~= seq![col1.expr]);
    func("map_keys", args)
}

/// The SQL function `map_values` of `col1`.
pub fn map_values(col1: Column) -> (c: Column)
    ensures
        is_call(c.expr, "map_values"@, seq![col1.expr]),
{
    let mut args: Vec<Expression> = Vec::new();
    args.push(col1.expr);
    assert(args@ =~= seq![col1.expr]);
    func("map_values", args)
}

/// The SQL function `mask`, called with the arguments listed in the contract.
pub fn mask(col1: Column) -> (c: Column)
    ensures
        is_call_of(c.expr, "mask"@, false, 5),
        call_arg(c.expr, 0) == col1.expr,
        is_string_literal(call_arg(c.expr, 1), "X"@),
        is_string_literal(call_arg(c.expr, 2), "x"@),
        is_string_literal(call_arg(c.expr, 3), "n"@),
        call_arg(c.expr, 4) == Expression::Literal(LiteralExpression::Null(DataType::Null)),
{
    let mut args: Vec<Expression> = Vec::new();
    args.push(col1.expr);
    args.push(Expression::Literal(LiteralExpression::string("X")));
    args.push(Expression::Literal(LiteralExpression::string("x")));
    args.push(Expression::Literal(LiteralExpression::string("n")));
    args.push(Expression::Literal(LiteralExpression::Null(DataType::Null)));
    func("mask", args)
}

/// The SQL function `max` of `col1`.
pub fn max(col1: Column) -> (c: Column)
    ensures
        is_call(c.expr, "max"@, seq![col1.expr]),
{
    let mut args: Vec<Expression> = Vec::new();
    args.push(col1.expr);
    assert(args@ =~= seq![col1.expr]);
    func("max", args)
}

/// The SQL function `md5` of `col1`.
pub fn md5(col1: Column) -> (c: Column)
    ensures
        is_call(c.expr, "md5"@, seq![col1.expr]),
{
    let mut args: Vec<Expression> = Vec::new();
    args.push(col1.expr);
    assert(args@ =~= seq![col1.expr]);
    func("md5", args)
}

/// The SQL function `avg` of `col1`.
pub fn mean(col1: Column) -> (c: Column)
    ensures
        is_call(c.expr, "avg"@, seq![col1.expr]),
{
    let mut args: Vec<Expression> = Vec::new();
    args.push(col1.expr);
    assert(args@ =~= seq![col1.expr]);
    func("avg", args)
}

/// The SQL function `median` of `col1`.
pub fn median(col1: Column) -> (c: Column)
    ensures
        is_call(c.expr, "median"@, seq![col1.expr]),
{
    let mut args: Vec<Expression> = Vec::new();
    args.push(col1.expr);
    assert(args@ =~= seq![col1.expr]);
    func("median", args)
}

/// The SQL function `min` of `col1`.
pub fn min(col1: Column) -> (c: Column)
    ensures
        is_call(c.expr, "min"@, seq![col1.expr]),
{
    let mut args: Vec<Expression> = Vec::new();
    args.push(col1.expr);
    assert(args@ =~= seq![col1.expr]);
    func("min", args)
}

/// The SQL function `minute` of `col1`.
pub fn minute(col1: Column) -> (c: Column)
    ensures
        is_call(c.expr, "minute"@, seq![col1.expr]),
{
    let mut args: Vec<Expression> = Vec::new();
    args.push(col1.expr);
    assert(args@ =~= seq![col1.expr]);
    func("minute", args)
}

/// The SQL function `mode`, called with the arguments listed in the contract.
pub fn mode(col1: Column) -> (c: Column)
    ensures
        is_call(c.expr, "mode"@, seq![col1.expr, Expression::Literal(LiteralExpression::Boolean(false))]),
{
    let mut args: Vec<Expression> = Vec::new();
    args.push(col1.expr);
    args.push(Expression::Literal(LiteralExpression::Boolean(false)));
    assert(args@ =~= seq![col1.expr, Expression::Literal(LiteralExpression::Boolean(false))]);
    func("mode", args)
}

/// The SQL function `month` of `col1`.
pub fn month(col1: Column) -> (c: Column)
    ensures
        is_call(c.expr, "month"@, seq![col1.expr]),
{
    let mut args: Vec<Expression> = Vec::new();
    args.push(col1.expr);
    assert(args@ =~= seq![col1.expr]);
    func("month", args)
}

/// The SQL function `monthname` of `col1`.
pub fn monthname(col1: Column) -> (c: Column)
    ensures
        is_call(c.expr, "monthname"@, seq![col1.expr]),
{
    let mut args: Vec<Expression> = Vec::new();
    args.push(col1.expr);
    assert(args@ =~= seq![col1.expr]);
    func("monthname", args)
}

/// The SQL function `months` of `col1`.
pub fn months(col1: Column) -> (c: Column)
    ensures
        is_call(c.expr, "months"@, seq![col1.expr]),
{
    let mut args: Vec<Expression> = Vec::new();
    args.push(col1.expr);
    assert(args@ =~= seq![col1.expr]);
    func("months", args)
}

/// The SQL function `negative` of `col1`.
pub fn negate(col1: Column) -> (c: Column)
    ensures
        is_call(c.expr, "negative"@, seq![col1.expr]),
{
    let mut args: Vec<Expression> = Vec::new();
    args.push(col1.expr);
    assert(args@ =~= seq![col1.expr]);
    func("negative", args)
}

/// The SQL function `negative` of `col1`.
pub fn negative(col1: Column) -> (c: Column)
    ensures
        is_call(c.expr, "negative"@, seq![col1.expr]),
{
    let mut args: Vec<Expression> = Vec::new();
    args.push(col1.expr);
    assert(args@ =~= seq![col1.expr]);
    func("negative", args)
}

/// The SQL function `ntile` of `col1`.
pub fn ntile(col1: Column) -> (c: Column)
    ensures
        is_call(c.expr, "ntile"@, seq![col1.expr]),
{
    let mut args: Vec<Expression> = Vec::new();
    args.push(col1.expr);
    assert(args@ =~= seq![col1.expr]);
    func("ntile", args)
}

/// The SQL function `nullifzero` of `col1`.
pub fn nullifzero(col1: Column) -> (c: Column)
    ensures
        is_call(c.expr, "nullifzero"@, seq![col1.expr]),
{
    let mut args: Vec<Expression> = Vec::new();
    args.push(col1.expr);
    assert(args@ =~= seq![col1.expr]);
    func("nullifzero", args)
}

/// The SQL function `octet_length` of `col1`.
pub fn octet_length(col1: Column) -> (c: Column)
    ensures
        is_call(c.expr, "octet_length"@, seq![col1.expr]),
{
    let mut args: Vec<Expression> = Vec::new();
    args.push(col1.expr);
    assert(args@ =~= seq![col1.expr]);
    func("octet_length", args)
}

/// The SQL function `parse_json` of `col1`.
pub fn parse_json(col1: Column) -> (c: Column)
    ensures
        is_call(c.expr, "parse_json"@, seq![col1.expr]),
{
    let mut args: Vec<Expression> = Vec::new();
    args.push(col1.expr);
    assert(args@ =~= seq![col1.expr]);
    func("parse_json", args)
}

/// The SQL function `posexplode` of `col1`.
pub fn posexplode(col1: Column) -> (c: Column)
    ensures
        is_call(c.expr, "posexplode"@, seq![col1.expr]),
{
    let mut args: Vec<Expression> = Vec::new();
    args.push(col1.expr);
    assert(args@ =~= seq![col1.expr]);
    func("posexplode", args)
}

/// The SQL function `posexplode_outer` of `col1`.
pub fn posexplode_outer(col1: Column) -> (c: Column)
    ensures
        is_call(c.expr, "posexplode_outer"@, seq![col1.expr]),
{
    let mut args: Vec<Expression> = Vec::new();
    args.push(col1.expr);
    assert(args@ =~= seq![col1.expr]);
    func("posexplode_outer", args)
}

/// The SQL function `positive` of `col1`.
pub fn positive(col1: Column) -> (c: Column)
    ensures
        is_call(c.expr, "positive"@, seq![col1.expr]),
{
    let mut args: Vec<Expression> = Vec::new();
    args.push(col1.expr);
    assert(args@ =~= seq![col1.expr]);
    func("positive", args)
}

/// The SQL function `printf` of `col1`.
pub fn printf(col1: Column) -> (c: Column)
    ensures
        is_call(c.expr, "printf"@, seq![col1.expr]),
{
    let mut args: Vec<Expression> = Vec::new();
    args.push(col1.expr);
    assert(args@ =~= seq![col1.expr]);
    func("printf", args)
}

/// The SQL function `product` of `col1`.
pub fn product(col1: Column) -> (c: Column)
    ensures
        is_call(c.expr, "product"@, seq![col1.expr]),
{
    let mut args: Vec<Expression> = Vec::new();
    args.push(col1.expr);
    assert(args@ =~= seq![col1.expr]);
    func("product", args)
}

/// The SQL function `quarter` of `col1`.
pub fn quarter(col1: Column) -> (c: Column)
    ensures
        is_call(c.expr, "quarter"@, seq![col1.expr]),
{
    let mut args: Vec<Expression> = Vec::new();
    args.push(col1.expr);
    assert(args@ =~= seq![col1.expr]);
    func("quarter", args)
}

/// The SQL function `radians` of `col1`.
pub fn radians(col1: Column) -> (c: Column)
    ensures
        is_call(c.expr, "radians"@, seq![col1.expr]),
{
    let mut args: Vec<Expression> = Vec::new();
    args.push(col1.expr);
    assert(args@ =~= seq![col1.expr]);
    func("radians", args)
}

/// The SQL function `raise_error` of `col1`.
pub fn raise_error(col1: Column) -> (c: Column)
    ensures
        is_call(c.expr, "raise_error"@, seq![col1.expr]),
{
    let mut args: Vec<Expression> = Vec::new();
    args.push(col1.expr);
    assert(args@ =~= seq![col1.expr]);
    func("raise_error", args)
}

/// The SQL function `randstr`, called with the arguments listed in the contract.
pub fn randstr(col1: Column) -> (c: Column)
    ensures
        is_call(c.expr, "randstr"@, seq![col1.expr, Expression::Literal(LiteralExpression::Long(1000462829105445681))]),
{
    let mut args: Vec<Expression> = Vec::new();
    args.push(col1.expr);
    args.push(Expression::Literal(LiteralExpression::Long(1000462829105445681)));
    assert(args@ =~= seq![col1.expr, Expression::Literal(LiteralExpression::Long(1000462829105445681))]);
    func("randstr", args)
}

/// The SQL function `reverse` of `col1`.
pub fn reverse(col1: Column) -> (c: Column)
    ensures
        is_call(c.expr, "reverse"@, seq![col1.expr]),
{
    let mut args: Vec<Expression> = Vec::new();
    args.push(col1.expr);
    assert(args@ =~= seq![col1.expr]);
    func("reverse", args)
}

/// The SQL function `rint` of `col1`.
pub fn rint(col1: Column) -> (c: Column)
    ensures
        is_call(c.expr, "rint"@, seq![col1.expr]),
{
    let mut args: Vec<Expression> = Vec::new();
    args.push(col1.expr);
    assert(args@ =~= seq![col1.expr]);
    func("rint", args)
}

/// The SQL function `round` of `col1`.
pub fn round(col1: Column) -> (c: Column)
    ensures
        is_call(c.expr, "round"@, seq![col1.expr]),
{
    let mut args: Vec<Expression> = Vec::new();
    args.push(col1.expr);
    assert(args@ =~= seq![col1.expr]);
    func("round", args)
}

/// The SQL function `round` of `col1`, `scale`, in this order.
pub fn round_scale(col1: Column, scale: Column) -> (c: Column)
    ensures
        is_call(c.expr, "round"@, seq![col1.expr, scale.expr]),
{
    let mut args: Vec<Expression> = Vec::new();
    args.push(col1.expr);
    args.push(scale.expr);
    assert(args@ =~= seq![col1.expr, scale.expr]);
    func("round", args)
}

/// The SQL function `rtrim` of `col1`.
pub fn rtrim(col1: Column) -> (c: Column)
    ensures
        is_call(c.expr, "rtrim"@, seq![col1.expr]),
{
    let mut args: Vec<Expression> = Vec::new();
    args.push(col1.expr);
    assert(args@ =~= seq![col1.expr]);
    func("rtrim", args)
}

/// The SQL function `rtrim` of `col1`, `trim`, in this order.
pub fn rtrim_with(col1: Column, trim: Column) -> (c: Column)
    ensures
        is_call(c.expr, "rtrim"@, seq![trim.expr, col1.expr]),
{
    let mut args: Vec<Expression> = Vec::new();
    args.push(trim.expr);
    args.push(col1.expr);
    assert(args@ =~= seq![trim.expr, col1.expr]);
    func("rtrim", args)
}

/// The SQL function `schema_of_csv` of `col1`.
pub fn schema_of_csv(col1: Column) -> (c: Column)
    ensures
        is_call(c.expr, "schema_of_csv"@, seq![col1.expr]),
{
    let mut args: Vec<Expression> = Vec::new();
    args.push(col1.expr);
    assert(args@ =~= seq![col1.expr]);
    func("schema_of_csv", args)
}

/// The SQL function `schema_of_json` of `col1`.
pub fn schema_of_json(col1: Column) -> (c: Column)
    ensures
        is_call(c.expr, "schema_of_json"@, seq![col1.expr]),
{
    let mut args: Vec<Expression> = Vec::new();
    args.push(col1.expr);
    assert(args@ =~= seq![col1.expr]);
    func("schema_of_json", args)
}

/// The SQL function `schema_of_variant` of `col1`.
pub fn schema_of_variant(col1: Column) -> (c: Column)
    ensures
        is_call(c.expr, "schema_of_variant"@, seq![col1.expr]),
{
    let mut args: Vec<Expression> = Vec::new();
    args.push(col1.expr);
    assert(args@ =~= seq![col1.expr]);
    func("schema_of_variant", args)
}

/// The SQL function `schema_of_variant_agg` of `col1`.
pub fn schema_of_variant_agg(col1: Column) -> (c: Column)
    ensures
        is_call(c.expr, "schema_of_variant_agg"@, seq![col1.expr]),
{
    let mut args: Vec<Expression> = Vec::new();
    args.push(col1.expr);
    assert(args@ =~= seq![col1.expr]);
    func("schema_of_variant_agg", args)
}

/// The SQL function `schema_of_xml` of `col1`.
pub fn schema_of_xml(col1: Column) -> (c: Column)
    ensures
        is_call(c.expr, "schema_of_xml"@, seq![col1.expr]),
{
    let mut args: Vec<Expression> = Vec::new();
    args.push(col1.expr);
    assert(args@ =~= seq![col1.expr]);
    func("schema_of_xml", args)
}

/// The SQL function `sec` of `col1`.
pub fn sec(col1: Column) -> (c: Column)
    ensures
        is_call(c.expr, "sec"@, seq![col1.expr]),
{
    let mut args: Vec<Expression> = Vec::new();
    args.push(col1.expr);
    assert(args@ =~= seq![col1.expr]);
    func("sec", args)
}

/// The SQL function `second` of `col1`.
pub fn second(col1: Column) -> (c: Column)
    ensures
        is_call(c.expr, "second"@, seq![col1.expr]),
{
    let mut args: Vec<Expression> = Vec::new();
    args.push(col1.expr);
    assert(args@ =~= seq![col1.expr]);
    func("second", args)
}

/// The SQL function `sentences`, called with the arguments listed in the contract.
pub fn sentences(col1: Column) -> (c: Column)
    ensures
        is_call_of(c.expr, "sentences"@, false, 3),
        call_arg(c.expr, 0) == col1.expr,
        is_string_literal(call_arg(c.expr, 1), ""@),
        is_string_literal(call_arg(c.expr, 2), ""@),
{
    let mut args: Vec<Expression> = Vec::new();
    args.push(col1.expr);
    args.push(Expression::Literal(LiteralExpression::string("")));
    args.push(Expression::Literal(LiteralExpression::string("")));
    func("sentences", args)
}

/// The SQL function `sha` of `col1`.
pub fn sha(col1: Column) -> (c: Column)
    ensures
        is_call(c.expr, "sha"@, seq![col1.expr]),
{
    let mut args: Vec<Expression> = Vec::new();
    args.push(col1.expr);
    assert(args@ =~= seq![col1.expr]);
    func("sha", args)
}

/// The SQL function `sha1` of `col1`.
pub fn sha1(col1: Column) -> (c: Column)
    ensures
        is_call(c.expr, "sha1"@, seq![col1.expr]),
{
    let mut args: Vec<Expression> = Vec::new();
    args.push(col1.expr);
    assert(args@ =~= seq![col1.expr]);
    func("sha1", args)
}

/// The SQL function `shuffle`, called with the arguments listed in the contract.
pub fn shuffle(col1: Column) -> (c: Column)
    ensures
        is_call(c.expr, "shuffle"@, seq![col1.expr, Expression::Literal(LiteralExpression::Long(1810822539051918711))]),
{
    let mut args: Vec<Expression> = Vec::new();
    args.push(col1.expr);
    args.push(Expression::Literal(LiteralExpression::Long(1810822539051918711)));
    assert(args@ =~= seq![col1.expr, Expression::Literal(LiteralExpression::Long(1810822539051918711))]);
    func("shuffle", args)
}

/// The SQL function `sign` of `col1`.
pub fn sign(col1: Column) -> (c: Column)
    ensures
        is_call(c.expr, "sign"@, seq![col1.expr]),
{
    let mut args: Vec<Expression> = Vec::new();
    args.push(col1.expr);
    assert(args@ =~= seq![col1.expr]);
    func("sign", args)
}

/// The SQL function `signum` of `col1`.
pub fn signum(col1: Column) -> (c: Column)
    ensures
        is_call(c.expr, "signum"@, seq![col1.expr]),
{
    let mut args: Vec<Expression> = Vec::new();
    args.push(col1.expr);
    assert(args@ =~= seq![col1.expr]);
    func("signum", args)
}

/// The SQL function `sin` of `col1`.
pub fn sin(col1: Column) -> (c: Column)
    ensures
        is_call(c.expr, "sin"@, seq![col1.expr]),
{
    let mut args: Vec<Expression> = Vec::new();
    args.push(col1.expr);
    assert(args@ =~= seq![col1.expr]);
    func("sin", args)
}

/// The SQL function `sinh` of `col1`.
pub fn sinh(col1: Column) -> (c: Column)
    ensures
        is_call(c.expr, "sinh"@, seq![col1.expr]),
{
    let mut args: Vec<Expression> = Vec::new();
    args.push(col1.expr);
    assert(args@ =~= seq![col1.expr]);
    func("sinh", args)
}

/// The SQL function `size` of `col1`.
pub fn size(col1: Column) -> (c: Column)
    ensures
        is_call(c.expr, "size"@, seq![col1.expr]),
{
    let mut args: Vec<Expression> = Vec::new();
    args.push(col1.expr);
    assert(args@ =~= seq![col1.expr]);
    func("size", args)
}

/// The SQL function `skewness` of `col1`.
pub fn skewness(col1: Column) -> (c: Column)
    ensures
        is_call(c.expr, "skewness"@, seq![col1.expr]),
{
    let mut args: Vec<Expression> = Vec::new();
    args.push(col1.expr);
    assert(args@ =~= seq![col1.expr]);
    func("skewness", args)
}

/// The SQL function `some` of `col1`.
pub fn some(col1: Column) -> (c: Column)
    ensures
        is_call(c.expr, "some"@, seq![col1.expr]),
{
    let mut args: Vec<Expression> = Vec::new();
    args.push(col1.expr);
    assert(args@ =~= seq![col1.expr]);
    func("some", args)
}

/// The SQL function `sort_array`, called with the arguments listed in the contract.
pub fn sort_array(col1: Column) -> (c: Column)
    ensures
        is_call(c.expr, "sort_array"@, seq![col1.expr, Expression::Literal(LiteralExpression::Boolean(true))]),
{
    let mut args: Vec<Expression> = Vec::new();
    args.push(col1.expr);
    args.push(Expression::Literal(LiteralExpression::Boolean(true)));
    assert(args@ =~= seq![col1.expr, Expression::Literal(LiteralExpression::Boolean(true))]);
    func("sort_array", args)
}

/// The SQL function `soundex` of `col1`.
pub fn soundex(col1: Column) -> (c: Column)
    ensures
        is_call(c.expr, "soundex"@, seq![col1.expr]),
{
    let mut args: Vec<Expression> = Vec::new();
    args.push(col1.expr);
    assert(args@ =~= seq![col1.expr]);
    func("soundex", args)
}

/// The SQL function `sqrt` of `col1`.
pub fn sqrt(col1: Column) -> (c: Column)
    ensures
        is_call(c.expr, "sqrt"@, seq![col1.expr]),
{
    let mut args: Vec<Expression> = Vec::new();
    args.push(col1.expr);
    assert(args@ =~= seq![col1.expr]);
    func("sqrt", args)
}

/// The SQL function `std` of `col1`.
pub fn std_dev(col1: Column) -> (c: Column)
    ensures
        is_call(c.expr, "std"@, seq![col1.expr]),
{
    let mut args: Vec<Expression> = Vec::new();
    args.push(col1.expr);
    assert(args@ =~= seq![col1.expr]);
    func("std", args)
}

/// The SQL function `stddev` of `col1`.
pub fn stddev(col1: Column) -> (c: Column)
    ensures
        is_call(c.expr, "stddev"@, seq![col1.expr]),
{
    let mut args: Vec<Expression> = Vec::new();
    args.push(col1.expr);
    assert(args@ =~= seq![col1.expr]);
    func("stddev", args)
}

/// The SQL function `stddev_pop` of `col1`.
pub fn stddev_pop(col1: Column) -> (c: Column)
    ensures
        is_call(c.expr, "stddev_pop"@, seq![col1.expr]),
{
    let mut args: Vec<Expression> = Vec::new();
    args.push(col1.expr);
    assert(args@ =~= seq![col1.expr]);
    func("stddev_pop", args)
}

/// The SQL function `stddev_samp` of `col1`.
pub fn stddev_samp(col1: Column) -> (c: Column)
    ensures
        is_call(c.expr, "stddev_samp"@, seq![col1.expr]),
{
    let mut args: Vec<Expression> = Vec::new();
    args.push(col1.expr);
    assert(args@ =~= seq![col1.expr]);
    func("stddev_samp", args)
}

/// The SQL function `str_to_map`, called with the arguments listed in the contract.
pub fn str_to_map(col1: Column) -> (c: Column)
    ensures
        is_call_of(c.expr, "str_to_map"@, false, 3),
        call_arg(c.expr, 0) == col1.expr,
        is_string_literal(call_arg(c.expr, 1), ","@),
        is_string_literal(call_arg(c.expr, 2), ":"@),
{
    let mut args: Vec<Expression> = Vec::new();
    args.push(col1.expr);
    args.push(Expression::Literal(LiteralExpression::string(",")));
    args.push(Expression::Literal(LiteralExpression::string(":")));
    func("str_to_map", args)
}

/// The SQL function `string_agg` of `col1`.
pub fn string_agg(col1: Column) -> (c: Column)
    ensures
        is_call(c.expr, "string_agg"@, seq![col1.expr]),
{
    let mut args: Vec<Expression> = Vec::new();
    args.push(col1.expr);
    assert(args@ =~= seq![col1.expr]);
    func("string_agg", args)
}

/// The DISTINCT aggregate `string_agg` of `col1`.
pub fn string_agg_distinct(col1: Column) -> (c: Column)
    ensures
        is_distinct_call(c.expr, "string_agg"@, seq![col1.expr]),
{
    let mut args: Vec<Expression> = Vec::new();
    args.push(col1.expr);
    assert(args@ =~= seq![col1.expr]);
    func_distinct("string_agg", args)
}

/// The SQL function `sum` of `col1`.
pub fn sum(col1: Column) -> (c: Column)
    ensures
        is_call(c.expr, "sum"@, seq![col1.expr]),
{
    let mut args: Vec<Expression> = Vec::new();
    args.push(col1.expr);
    assert(args@ =~= seq![col1.expr]);
    func("sum", args)
}

/// The DISTINCT aggregate `sum` of `col1`.
pub fn sumDistinct(col1: Column) -> (c: Column)
    ensures
        is_distinct_call(c.expr, "sum"@, seq![col1.expr]),
{
    let mut args: Vec<Expression> = Vec::new();
    args.push(col1.expr);
    assert(args@ =~= seq![col1.expr]);
    func_distinct("sum", args)
}

/// The DISTINCT aggregate `sum` of `col1`.
pub fn sum_distinct(col1: Column) -> (c: Column)
    ensures
        is_distinct_call(c.expr, "sum"@, seq![col1.expr]),
{
    let mut args: Vec<Expression> = Vec::new();
    args.push(col1.expr);
    assert(args@ =~= seq![col1.expr]);
    func_distinct("sum", args)
}

/// The SQL function `tan` of `col1`.
pub fn tan(col1: Column) -> (c: Column)
    ensures
        is_call(c.expr, "tan"@, seq![col1.expr]),
{
    let mut args: Vec<Expression> = Vec::new();
    args.push(col1.expr);
    assert(args@ =~= seq![col1.expr]);
    func("tan", args)
}

/// The SQL function `tanh` of `col1`.
pub fn tanh(col1: Column) -> (c: Column)
    ensures
        is_call(c.expr, "tanh"@, seq![col1.expr]),
{
    let mut args: Vec<Expression> = Vec::new();
    args.push(col1.expr);
    assert(args@ =~= seq![col1.expr]);
    func("tanh", args)
}

/// The SQL function `timestamp_micros` of `col1`.
pub fn timestamp_micros(col1: Column) -> (c: Column)
    ensures
        is_call(c.expr, "timestamp_micros"@, seq![col1.expr]),
{
    let mut args: Vec<Expression> = Vec::new();
    args.push(col1.expr);
    assert(args@ =~= seq![col1.expr]);
    func("timestamp_micros", args)
}

/// The SQL function `timestamp_millis` of `col1`.
pub fn timestamp_millis(col1: Column) -> (c: Column)
    ensures
        is_call(c.expr, "timestamp_millis"@, seq![col1.expr]),
{
    let mut args: Vec<Expression> = Vec::new();
    args.push(col1.expr);
    assert(args@ =~= seq![col1.expr]);
    func("timestamp_millis", args)
}

/// The SQL function `timestamp_seconds` of `col1`.
pub fn timestamp_seconds(col1: Column) -> (c: Column)
    ensures
        is_call(c.expr, "timestamp_seconds"@, seq![col1.expr]),
{
    let mut args: Vec<Expression> = Vec::new();
    args.push(col1.expr);
    assert(args@ =~= seq![col1.expr]);
    func("timestamp_seconds", args)
}

/// The SQL function `degrees` of `col1`.
pub fn toDegrees(col1: Column) -> (c: Column)
    ensures
        is_call(c.expr, "degrees"@, seq![col1.expr]),
{
    let mut args: Vec<Expression> = Vec::new();
    args.push(col1.expr);
    assert(args@ =~= seq![col1.expr]);
    func("degrees", args)
}

/// The SQL function `radians` of `col1`.
pub fn toRadians(col1: Column) -> (c: Column)
    ensures
        is_call(c.expr, "radians"@, seq![col1.expr]),
{
    let mut args: Vec<Expression> = Vec::new();
    args.push(col1.expr);
    assert(args@ =~= seq![col1.expr]);
    func("radians", args)
}

/// The SQL function `to_binary` of `col1`.
pub fn to_binary(col1: Column) -> (c: Column)
    ensures
        is_call(c.expr, "to_binary"@, seq![col1.expr]),
{
    let mut args: Vec<Expression> = Vec::new();
    args.push(col1.expr);
    assert(args@ =~= seq![col1.expr]);
    func("to_binary", args)
}

/// The SQL function `to_binary` of `col1`, `format`, in this order.
pub fn to_binary_format(col1: Column, format: Column) -> (c: Column)
    ensures
        is_call(c.expr, "to_binary"@, seq![col1.expr, format.expr]),
{
    let mut args: Vec<Expression> = Vec::new();
    args.push(col1.expr);
    args.push(format.expr);
    assert(args@ =~= seq![col1.expr, format.expr]);
    func("to_binary", args)
}

/// The SQL function `to_csv` of `col1`.
pub fn to_csv(col1: Column) -> (c: Column)
    ensures
        is_call(c.expr, "to_csv"@, seq![col1.expr]),
{
    let mut args: Vec<Expression> = Vec::new();
    args.push(col1.expr);
    assert(args@ =~= seq![col1.expr]);
    func("to_csv", args)
}

/// The SQL function `to_date` of `col1`.
pub fn to_date(col1: Column) -> (c: Column)
    ensures
        is_call(c.expr, "to_date"@, seq![col1.expr]),
{
    let mut args: Vec<Expression> = Vec::new();
    args.push(col1.expr);
    assert(args@ =~= seq![col1.expr]);
    func("to_date", args)
}

/// The SQL function `to_json` of `col1`.
pub fn to_json(col1: Column) -> (c: Column)
    ensures
        is_call(c.expr, "to_json"@, seq![col1.expr]),
{
    let mut args: Vec<Expression> = Vec::new();
    args.push(col1.expr);
    assert(args@ =~= seq![col1.expr]);
    func("to_json", args)
}

/// The SQL function `to_timestamp` of `col1`.
pub fn to_timestamp(col1: Column) -> (c: Column)
    ensures
        is_call(c.expr, "to_timestamp"@, seq![col1.expr]),
{
    let mut args: Vec<Expression> = Vec::new();
    args.push(col1.expr);
    assert(args@ =~= seq![col1.expr]);
    func("to_timestamp", args)
}

/// The SQL function `to_timestamp_ltz` of `col1`.
pub fn to_timestamp_ltz(col1: Column) -> (c: Column)
    ensures
        is_call(c.expr, "to_timestamp_ltz"@, seq![col1.expr]),
{
    let mut args: Vec<Expression> = Vec::new();
    args.push(col1.expr);
    assert(args@ =~= seq![col1.expr]);
    func("to_timestamp_ltz", args)
}

/// The SQL function `to_timestamp_ntz` of `col1`.
pub fn to_timestamp_ntz(col1: Column) -> (c: Column)
    ensures
        is_call(c.expr, "to_timestamp_ntz"@, seq![col1.expr]),
{
    let mut args: Vec<Expression> = Vec::new();
    args.push(col1.expr);
    assert(args@ =~= seq![col1.expr]);
    func("to_timestamp_ntz", args)
}

/// The SQL function `to_unix_timestamp` of `col1`.
pub fn to_unix_timestamp(col1: Column) -> (c: Column)
    ensures
        is_call(c.expr, "to_unix_timestamp"@, seq![col1.expr]),
{
    let mut args: Vec<Expression> = Vec::new();
    args.push(col1.expr);
    assert(args@ =~= seq![col1.expr]);
    func("to_unix_timestamp", args)
}

/// The SQL function `to_variant_object` of `col1`.
pub fn to_variant_object(col1: Column) -> (c: Column)
    ensures
        is_call(c.expr, "to_variant_object"@, seq![col1.expr]),
{
    let mut args: Vec<Expression> = Vec::new();
    args.push(col1.expr);
    assert(args@ =~= seq![col1.expr]);
    func("to_variant_object", args)
}

/// The SQL function `to_xml` of `col1`.
pub fn to_xml(col1: Column) -> (c: Column)
    ensures
        is_call(c.expr, "to_xml"@, seq![col1.expr]),
{
    let mut args: Vec<Expression> = Vec::new();
    args.push(col1.expr);
    assert(args@ =~= seq![col1.expr]);
    func("to_xml", args)
}

/// The SQL function `trim` of `col1`.
pub fn trim(col1: Column) -> (c: Column)
    ensures
        is_call(c.expr, "trim"@, seq![col1.expr]),
{
    let mut args: Vec<Expression> = Vec::new();
    args.push(col1.expr);
    assert(args@ =~= seq![col1.expr]);
    func("trim", args)
}

/// The SQL function `trim` of `col1`, `trim`, in this order.
pub fn trim_with(col1: Column, trim: Column) -> (c: Column)
    ensures
        is_call(c.expr, "trim"@, seq![trim.expr, col1.expr]),
{
    let mut args: Vec<Expression> = Vec::new();
    args.push(trim.expr);
    args.push(col1.expr);
    assert(args@ =~= seq![trim.expr, col1.expr]);
    func("trim", args)
}

/// The SQL function `try_avg` of `col1`.
pub fn try_avg(col1: Column) -> (c: Column)
    ensures
        is_call(c.expr, "try_avg"@, seq![col1.expr]),
{
    let mut args: Vec<Expression> = Vec::new();
    args.push(col1.expr);
    assert(args@ =~= seq![col1.expr]);
    func("try_avg", args)
}

/// The SQL function `try_parse_json` of `col1`.
pub fn try_parse_json(col1: Column) -> (c: Column)
    ensures
        is_call(c.expr, "try_parse_json"@, seq![col1.expr]),
{
    let mut args: Vec<Expression> = Vec::new();
    args.push(col1.expr);
    assert(args@ =~= seq![col1.expr]);
    func("try_parse_json", args)
}

/// The SQL function `try_sum` of `col1`.
pub fn try_sum(col1: Column) -> (c: Column)
    ensures
        is_call(c.expr, "try_sum"@, seq![col1.expr]),
{
    let mut args: Vec<Expression> = Vec::new();
    args.push(col1.expr);
    assert(args@ =~= seq![col1.expr]);
    func("try_sum", args)
}

/// The SQL function `try_to_binary` of `col1`.
pub fn try_to_binary(col1: Column) -> (c: Column)
    ensures
        is_call(c.expr, "try_to_binary"@, seq![col1.expr]),
{
    let mut args: Vec<Expression> = Vec::new();
    args.push(col1.expr);
    assert(args@ =~= seq![col1.expr]);
    func("try_to_binary", args)
}

/// The SQL function `try_to_timestamp` of `col1`.
pub fn try_to_timestamp(col1: Column) -> (c: Column)
    ensures
        is_call(c.expr, "try_to_timestamp"@, seq![col1.expr]),
{
    let mut args: Vec<Expression> = Vec::new();
    args.push(col1.expr);
    assert(args@ =~= seq![col1.expr]);
    func("try_to_timestamp", args)
}

/// The SQL function `try_url_decode` of `col1`.
pub fn try_url_decode(col1: Column) -> (c: Column)
    ensures
        is_call(c.expr, "try_url_decode"@, seq![col1.expr]),
{
    let mut args: Vec<Expression> = Vec::new();
    args.push(col1.expr);
    assert(args@ =~= seq![col1.expr]);
    func("try_url_decode", args)
}

/// The SQL function `try_validate_utf8` of `col1`.
pub fn try_validate_utf8(col1: Column) -> (c: Column)
    ensures
        is_call(c.expr, "try_validate_utf8"@, seq![col1.expr]),
{
    let mut args: Vec<Expression> = Vec::new();
    args.push(col1.expr);
    assert(args@ =~= seq![col1.expr]);
    func("try_validate_utf8", args)
}

/// The SQL function `typeof` of `col1`.
pub fn typeof_(col1: Column) -> (c: Column)
    ensures
        is_call(c.expr, "typeof"@, seq![col1.expr]),
{
    let mut args: Vec<Expression> = Vec::new();
    args.push(col1.expr);
    assert(args@ =~= seq![col1.expr]);
    func("typeof", args)
}

/// The SQL function `ucase` of `col1`.
pub fn ucase(col1: Column) -> (c: Column)
    ensures
        is_call(c.expr, "ucase"@, seq![col1.expr]),
{
    let mut args: Vec<Expression> = Vec::new();
    args.push(col1.expr);
    assert(args@ =~= seq![col1.expr]);
    func("ucase", args)
}

/// The SQL function `unbase64` of `col1`.
pub fn unbase64(col1: Column) -> (c: Column)
    ensures
        is_call(c.expr, "unbase64"@, seq![col1.expr]),
{
    let mut args: Vec<Expression> = Vec::new();
    args.push(col1.expr);
    assert(args@ =~= seq![col1.expr]);
    func("unbase64", args)
}

/// The SQL function `unhex` of `col1`.
pub fn unhex(col1: Column) -> (c: Column)
    ensures
        is_call(c.expr, "unhex"@, seq![col1.expr]),
{
    let mut args: Vec<Expression> = Vec::new();
    args.push(col1.expr);
    assert(args@ =~= seq![col1.expr]);
    func("unhex", args)
}

/// The SQL function `unix_date` of `col1`.
pub fn unix_date(col1: Column) -> (c: Column)
    ensures
        is_call(c.expr, "unix_date"@, seq![col1.expr]),
{
    let mut args: Vec<Expression> = Vec::new();
    args.push(col1.expr);
    assert(args@ =~= seq![col1.expr]);
    func("unix_date", args)
}

/// The SQL function `unix_micros` of `col1`.
pub fn unix_micros(col1: Column) -> (c: Column)
    ensures
        is_call(c.expr, "unix_micros"@, seq![col1.expr]),
{
    let mut args: Vec<Expression> = Vec::new();
    args.push(col1.expr);
    assert(args@ =~= seq![col1.expr]);
    func("unix_micros", args)
}

/// The SQL function `unix_millis` of `col1`.
pub fn unix_millis(col1: Column) -> (c: Column)
    ensures
        is_call(c.expr, "unix_millis"@, seq![col1.expr]),
{
    let mut args: Vec<Expression> = Vec::new();
    args.push(col1.expr);
    assert(args@ =~= seq![col1.expr]);
    func("unix_millis", args)
}

/// The SQL function `unix_seconds` of `col1`.
pub fn unix_seconds(col1: Column) -> (c: Column)
    ensures
        is_call(c.expr, "unix_seconds"@, seq![col1.expr]),
{
    let mut args: Vec<Expression> = Vec::new();
    args.push(col1.expr);
    assert(args@ =~= seq![col1.expr]);
    func("unix_seconds", args)
}

/// The SQL function `unwrap_udt` of `col1`.
pub fn unwrap_udt(col1: Column) -> (c: Column)
    ensures
        is_call(c.expr, "unwrap_udt"@, seq![col1.expr]),
{
    let mut args: Vec<Expression> = Vec::new();
    args.push(col1.expr);
    assert(args@ =~= seq![col1.expr]);
    func("unwrap_udt", args)
}

/// The SQL function `upper` of `col1`.
pub fn upper(col1: Column) -> (c: Column)
    ensures
        is_call(c.expr, "upper"@, seq![col1.expr]),
{
    let mut args: Vec<Expression> = Vec::new();
    args.push(col1.expr);
    assert(args@ =~= seq![col1.expr]);
    func("upper", args)
}

/// The SQL function `url_decode` of `col1`.
pub fn url_decode(col1: Column) -> (c: Column)
    ensures
        is_call(c.expr, "url_decode"@, seq![col1.expr]),
{
    let mut args: Vec<Expression> = Vec::new();
    args.push(col1.expr);
    assert(args@ =~= seq![col1.expr]);
    func("url_decode", args)
}

/// The SQL function `url_encode` of `col1`.
pub fn url_encode(col1: Column) -> (c: Column)
    ensures
        is_call(c.expr, "url_encode"@, seq![col1.expr]),
{
    let mut args: Vec<Expression> = Vec::new();
    args.push(col1.expr);
    assert(args@ =~= seq![col1.expr]);
    func("url_encode", args)
}

/// The SQL function `validate_utf8` of `col1`.
pub fn validate_utf8(col1: Column) -> (c: Column)
    ensures
        is_call(c.expr, "validate_utf8"@, seq![col1.expr]),
{
    let mut args: Vec<Expression> = Vec::new();
    args.push(col1.expr);
    assert(args@ =~= seq![col1.expr]);
    func("validate_utf8", args)
}

/// The SQL function `var_pop` of `col1`.
pub fn var_pop(col1: Column) -> (c: Column)
    ensures
        is_call(c.expr, "var_pop"@, seq![col1.expr]),
{
    let mut args: Vec<Expression> = Vec::new();
    args.push(col1.expr);
    assert(args@ =~= seq![col1.expr]);
    func("var_pop", args)
}

/// The SQL function `var_samp` of `col1`.
pub fn var_samp(col1: Column) -> (c: Column)
    ensures
        is_call(c.expr, "var_samp"@, seq![col1.expr]),
{
    let mut args: Vec<Expression> = Vec::new();
    args.push(col1.expr);
    assert(args@ =~= seq![col1.expr]);
    func("var_samp", args)
}

/// The SQL function `variance` of `col1`.
pub fn variance(col1: Column) -> (c: Column)
    ensures
        is_call(c.expr, "variance"@, seq![col1.expr]),
{
    let mut args: Vec<Expression> = Vec::new();
    args.push(col1.expr);
    assert(args@ =~= seq![col1.expr]);
    func("variance", args)
}

/// The SQL function `weekday` of `col1`.
pub fn weekday(col1: Column) -> (c: Column)
    ensures
        is_call(c.expr, "weekday"@, seq![col1.expr]),
{
    let mut args: Vec<Expression> = Vec::new();
    args.push(col1.expr);
    assert(args@ =~= seq![col1.expr]);
    func("weekday", args)
}

/// The SQL function `weekofyear` of `col1`.
pub fn weekofyear(col1: Column) -> (c: Column)
    ensures
        is_call(c.expr, "weekofyear"@, seq![col1.expr]),
{
    let mut args: Vec<Expression> = Vec::new();
    args.push(col1.expr);
    assert(args@ =~= seq![col1.expr]);
    func("weekofyear", args)
}

/// The SQL function `window_time` of `col1`.
pub fn window_time(col1: Column) -> (c: Column)
    ensures
        is_call(c.expr, "window_time"@, seq![col1.expr]),
{
    let mut args: Vec<Expression> = Vec::new();
    args.push(col1.expr);
    assert(args@ =~= seq![col1.expr]);
    func("window_time", args)
}

/// The SQL function `year` of `col1`.
pub fn year(col1: Column) -> (c: Column)
    ensures
        is_call(c.expr, "year"@, seq![col1.expr]),
{
    let mut args: Vec<Expression> = Vec::new();
    args.push(col1.expr);
    assert(args@ =~= seq![col1.expr]);
    func("year", args)
}

/// The SQL function `years` of `col1`.
pub fn years(col1: Column) -> (c: Column)
    ensures
        is_call(c.expr, "years"@, seq![col1.expr]),
{
    let mut args: Vec<Expression> = Vec::new();
    args.push(col1.expr);
    assert(args@ =~= seq![col1.expr]);
    func("years", args)
}

/// The SQL function `zeroifnull` of `col1`.
pub fn zeroifnull(col1: Column) -> (c: Column)
    ensures
        is_call(c.expr, "zeroifnull"@, seq![col1.expr]),
{
    let mut args: Vec<Expression> = Vec::new();
    args.push(col1.expr);
    assert(args@ =~= seq![col1.expr]);
    func("zeroifnull", args)
}

/// The SQL function `add_months` of `col1`, `col2`, in this order.
pub fn add_months(col1: Column, col2: Column) -> (c: Column)
    ensures
        is_call(c.expr, "add_months"@, seq![col1.expr, col2.expr]),
{
    let mut args: Vec<Expression> = Vec::new();
    args.push(col1.expr);
    args.push(col2.expr);
    assert(args@ =~= seq![col1.expr, col2.expr]);
    func("add_months", args)
}

/// The SQL function `aes_decrypt`, called with the arguments listed in the contract.
pub fn aes_decrypt(col1: Column, col2: Column) -> (c: Column)
    ensures
        is_call_of(c.expr, "aes_decrypt"@, false, 5),
        call_arg(c.expr, 0) == col1.expr,
        call_arg(c.expr, 1) == col2.expr,
        is_string_literal(call_arg(c.expr, 2), "GCM"@),
        is_string_literal(call_arg(c.expr, 3), "DEFAULT"@),
        is_string_literal(call_arg(c.expr, 4), ""@),
{
    let mut args: Vec<Expression> = Vec::new();
    args.push(col1.expr);
    args.push(col2.expr);
    args.push(Expression::Literal(LiteralExpression::string("GCM")));
    args.push(Expression::Literal(LiteralExpression::string("DEFAULT")));
    args.push(Expression::Literal(LiteralExpression::string("")));
    func("aes_decrypt", args)
}

/// The SQL function `aes_encrypt`, called with the arguments listed in the contract.
pub fn aes_encrypt(col1: Column, col2: Column) -> (c: Column)
    ensures
        is_call_of(c.expr, "aes_encrypt"@, false, 6),
        call_arg(c.expr, 0) == col1.expr,
        call_arg(c.expr, 1) == col2.expr,
        is_string_literal(call_arg(c.expr, 2), "GCM"@),
        is_string_literal(call_arg(c.expr, 3), "DEFAULT"@),
        is_string_literal(call_arg(c.expr, 4), ""@),
        is_string_literal(call_arg(c.expr, 5), ""@),
{
    let mut args: Vec<Expression> = Vec::new();
    args.push(col1.expr);
    args.push(col2.expr);
    args.push(Expression::Literal(LiteralExpression::string("GCM")));
    args.push(Expression::Literal(LiteralExpression::string("DEFAULT")));
    args.push(Expression::Literal(LiteralExpression::string("")));
    args.push(Expression::Literal(LiteralExpression::string("")));
    func("aes_encrypt", args)
}

/// The SQL function `approx_percentile`, called with the arguments listed in the contract.
pub fn approx_percentile(col1: Column, col2: Column) -> (c: Column)
    ensures
        is_call(c.expr, "approx_percentile"@, seq![col1.expr, col2.expr, Expression::Literal(LiteralExpression::Integer(10000))]),
{
    let mut args: Vec<Expression> = Vec::new();
    args.push(col1.expr);
    args.push(col2.expr);
    args.push(Expression::Literal(LiteralExpression::Integer(10000)));
    assert(args@ =~= seq![col1.expr, col2.expr, Expression::Literal(LiteralExpression::Integer(10000))]);
    func("approx_percentile", args)
}

/// The SQL function `array_append` of `col1`, `col2`, in this order.
pub fn array_append(col1: Column, col2: Column) -> (c: Column)
    ensures
        is_call(c.expr, "array_append"@, seq![col1.expr, col2.expr]),
{
    let mut args: Vec<Expression> = Vec::new();
    args.push(col1.expr);
    args.push(col2.expr);
    assert(args@ =~= seq![col1.expr, col2.expr]);
    func("array_append", args)
}

/// The SQL function `array_contains` of `col1`, `col2`, in this order.
pub fn array_contains(col1: Column, col2: Column) -> (c: Column)
    ensures
        is_call(c.expr, "array_contains"@, seq![col1.expr, col2.expr]),
{
    let mut args: Vec<Expression> = Vec::new();
    args.push(col1.expr);
    args.push(col2.expr);
    assert(args@ =~= seq![col1.expr, col2.expr]);
    func("array_contains", args)
}

/// The SQL function `array_except` of `col1`, `col2`, in this order.
pub fn array_except(col1: Column, col2: Column) -> (c: Column)
    ensures
        is_call(c.expr, "array_except"@, seq![col1.expr, col2.expr]),
{
    let mut args: Vec<Expression> = Vec::new();
    args.push(col1.expr);
    args.push(col2.expr);
    assert(args@ =~= seq![col1.expr, col2.expr]);
    func("array_except", args)
}

/// The SQL function `array_intersect` of `col1`, `col2`, in this order.
pub fn array_intersect(col1: Column, col2: Column) -> (c: Column)
    ensures
        is_call(c.expr, "array_intersect"@, seq![col1.expr, col2.expr]),
{
    let mut args: Vec<Expression> = Vec::new();
    args.push(col1.expr);
    args.push(col2.expr);
    assert(args@ =~= seq![col1.expr, col2.expr]);
    func("array_intersect", args)
}

/// The SQL function `array_join` of `col1`, `col2`, in this order.
pub fn array_join(col1: Column, col2: Column) -> (c: Column)
    ensures
        is_call(c.expr, "array_join"@, seq![col1.expr, col2.expr]),
{
    let mut args: Vec<Expression> = Vec::new();
    args.push(col1.expr);
    args.push(col2.expr);
    assert(args@ =~= seq![col1.expr, col2.expr]);
    func("array_join", args)
}

/// The SQL function `array_position` of `col1`, `col2`, in this order.
pub fn array_position(col1: Column, col2: Column) -> (c: Column)
    ensures
        is_call(c.expr, "array_position"@, seq![col1.expr, col2.expr]),
{
    let mut args: Vec<Expression> = Vec::new();
    args.push(col1.expr);
    args.push(col2.expr);
    assert(args@ =~= seq![col1.expr, col2.expr]);
    func("array_position", args)
}

/// The SQL function `array_prepend` of `col1`, `col2`, in this order.
pub fn array_prepend(col1: Column, col2: Column) -> (c: Column)
    ensures
        is_call(c.expr, "array_prepend"@, seq![col1.expr, col2.expr]),
{
    let mut args: Vec<Expression> = Vec::new();
    args.push(col1.expr);
    args.push(col2.expr);
    assert(args@ =~= seq![col1.expr, col2.expr]);
    func("array_prepend", args)
}

/// The SQL function `array_remove` of `col1`, `col2`, in this order.
pub fn array_remove(col1: Column, col2: Column) -> (c: Column)
    ensures
        is_call(c.expr, "array_remove"@, seq![col1.expr, col2.expr]),
{
    let mut args: Vec<Expression> = Vec::new();
    args.push(col1.expr);
    args.push(col2.expr);
    assert(args@ =~= seq![col1.expr, col2.expr]);
    func("array_remove", args)
}

/// The SQL function `array_repeat` of `col1`, `col2`, in this order.
pub fn array_repeat(col1: Column, col2: Column) -> (c: Column)
    ensures
        is_call(c.expr, "array_repeat"@, seq![col1.expr, col2.expr]),
{
    let mut args: Vec<Expression> = Vec::new();
    args.push(col1.expr);
    args.push(col2.expr);
    assert(args@ =~= seq![col1.expr, col2.expr]);
    func("array_repeat", args)
}

/// The SQL function `array_union` of `col1`, `col2`, in this order.
pub fn array_union(col1: Column, col2: Column) -> (c: Column)
    ensures
        is_call(c.expr, "array_union"@, seq![col1.expr, col2.expr]),
{
    let mut args: Vec<Expression> = Vec::new();
    args.push(col1.expr);
    args.push(col2.expr);
    assert(args@ =~= seq![col1.expr, col2.expr]);
    func("array_union", args)
}

/// The SQL function `arrays_overlap` of `col1`, `col2`, in this order.
pub fn arrays_overlap(col1: Column, col2: Column) -> (c: Column)
    ensures
        is_call(c.expr, "arrays_overlap"@, seq![col1.expr, col2.expr]),
{
    let mut args: Vec<Expression> = Vec::new();
    args.push(col1.expr);
    args.push(col2.expr);
    assert(args@ =~= seq![col1.expr, col2.expr]);
    func("arrays_overlap", args)
}

/// The SQL function `atan2` of `col1`, `col2`, in this order.
pub fn atan2(col1: Column, col2: Column) -> (c: Column)
    ensures
        is_call(c.expr, "atan2"@, seq![col1.expr, col2.expr]),
{
    let mut args: Vec<Expression> = Vec::new();
    args.push(col1.expr);
    args.push(col2.expr);
    assert(args@ =~= seq![col1.expr, col2.expr]);
    func("atan2", args)
}

/// The SQL function `bit_get` of `col1`, `col2`, in this order.
pub fn bit_get(col1: Column, col2: Column) -> (c: Column)
    ensures
        is_call(c.expr, "bit_get"@, seq![col1.expr, col2.expr]),
{
    let mut args: Vec<Expression> = Vec::new();
    args.push(col1.expr);
    args.push(col2.expr);
    assert(args@ =~= seq![col1.expr, col2.expr]);
    func("bit_get", args)
}

/// The SQL function `bucket` of `col1`, `col2`, in this order.
pub fn bucket(col1: Column, col2: Column) -> (c: Column)
    ensures
        is_call(c.expr, "bucket"@, seq![col1.expr, col2.expr]),
{
    let mut args: Vec<Expression> = Vec::new();
    args.push(col1.expr);
    args.push(col2.expr);
    assert(args@ =~= seq![col1.expr, col2.expr]);
    func("bucket", args)
}

/// The SQL function `collate` of `col1`, `col2`, in this order.
pub fn collate(col1: Column, col2: Column) -> (c: Column)
    ensures
        is_call(c.expr, "collate"@, seq![col1.expr, col2.expr]),
{
    let mut args: Vec<Expression> = Vec::new();
    args.push(col1.expr);
    args.push(col2.expr);
    assert(args@ =~= seq![col1.expr, col2.expr]);
    func("collate", args)
}

/// The SQL function `contains` of `col1`, `col2`, in this order.
pub fn contains(col1: Column, col2: Column) -> (c: Column)
    ensures
        is_call(c.expr, "contains"@, seq![col1.expr, col2.expr]),
{
    let mut args: Vec<Expression> = Vec::new();
    args.push(col1.expr);
    args.push(col2.expr);
    assert(args@ =~= seq![col1.expr, col2.expr]);
    func("contains", args)
}

/// The SQL function `corr` of `col1`, `col2`, in this order.
pub fn corr(col1: Column, col2: Column) -> (c: Column)
    ensures
        is_call(c.expr, "corr"@, seq![col1.expr, col2.expr]),
{
    let mut args: Vec<Expression> = Vec::new();
    args.push(col1.expr);
    args.push(col2.expr);
    assert(args@ =~= seq![col1.expr, col2.expr]);
    func("corr", args)
}

/// The SQL function `covar_pop` of `col1`, `col2`, in this order.
pub fn covar_pop(col1: Column, col2: Column) -> (c: Column)
    ensures
        is_call(c.expr, "covar_pop"@, seq![col1.expr, col2.expr]),
{
    let mut args: Vec<Expression> = Vec::new();
    args.push(col1.expr);
    args.push(col2.expr);
    assert(args@ =~= seq![col1.expr, col2.expr]);
    func("covar_pop", args)
}

/// The SQL function `covar_samp` of `col1`, `col2`, in this order.
pub fn covar_samp(col1: Column, col2: Column) -> (c: Column)
    ensures
        is_call(c.expr, "covar_samp"@, seq![col1.expr, col2.expr]),
{
    let mut args: Vec<Expression> = Vec::new();
    args.push(col1.expr);
    args.push(col2.expr);
    assert(args@ =~= seq![col1.expr, col2.expr]);
    func("covar_samp", args)
}

/// The SQL function `date_add` of `col1`, `col2`, in this order.
pub fn date_add(col1: Column, col2: Column) -> (c: Column)
    ensures
        is_call(c.expr, "date_add"@, seq![col1.expr, col2.expr]),
{
    let mut args: Vec<Expression> = Vec::new();
    args.push(col1.expr);
    args.push(col2.expr);
    assert(args@ =~= seq![col1.expr, col2.expr]);
    func("date_add", args)
}

/// The SQL function `date_diff` of `col1`, `col2`, in this order.
pub fn date_diff(col1: Column, col2: Column) -> (c: Column)
    ensures
        is_call(c.expr, "date_diff"@, seq![col1.expr, col2.expr]),
{
    let mut args: Vec<Expression> = Vec::new();
    args.push(col1.expr);
    args.push(col2.expr);
    assert(args@ =~= seq![col1.expr, col2.expr]);
    func("date_diff", args)
}

/// The SQL function `date_format` of `col1`, `col2`, in this order.
pub fn date_format(col1: Column, col2: Column) -> (c: Column)
    ensures
        is_call(c.expr, "date_format"@, seq![col1.expr, col2.expr]),
{
    let mut args: Vec<Expression> = Vec::new();
    args.push(col1.expr);
    args.push(col2.expr);
    assert(args@ =~= seq![col1.expr, col2.expr]);
    func("date_format", args)
}

/// The SQL function `date_part` of `col1`, `col2`, in this order.
pub fn date_part(col1: Column, col2: Column) -> (c: Column)
    ensures
        is_call(c.expr, "date_part"@, seq![col1.expr, col2.expr]),
{
    let mut args: Vec<Expression> = Vec::new();
    args.push(col1.expr);
    args.push(col2.expr);
    assert(args@ =~= seq![col1.expr, col2.expr]);
    func("date_part", args)
}

/// The SQL function `date_sub` of `col1`, `col2`, in this order.
pub fn date_sub(col1: Column, col2: Column) -> (c: Column)
    ensures
        is_call(c.expr, "date_sub"@, seq![col1.expr, col2.expr]),
{
    let mut args: Vec<Expression> = Vec::new();
    args.push(col1.expr);
    args.push(col2.expr);
    assert(args@ =~= seq![col1.expr, col2.expr]);
    func("date_sub", args)
}

/// The SQL function `date_trunc` of `col1`, `col2`, in this order.
pub fn date_trunc(col1: Column, col2: Column) -> (c: Column)
    ensures
        is_call(c.expr, "date_trunc"@, seq![col1.expr, col2.expr]),
{
    let mut args: Vec<Expression> = Vec::new();
    args.push(col1.expr);
    args.push(col2.expr);
    assert(args@ =~= seq![col1.expr, col2.expr]);
    func("date_trunc", args)
}

/// The SQL function `dateadd` of `col1`, `col2`, in this order.
pub fn dateadd(col1: Column, col2: Column) -> (c: Column)
    ensures
        is_call(c.expr, "dateadd"@, seq![col1.expr, col2.expr]),
{
    let mut args: Vec<Expression> = Vec::new();
    args.push(col1.expr);
    args.push(col2.expr);
    assert(args@ =~= seq![col1.expr, col2.expr]);
    func("dateadd", args)
}

/// The SQL function `datediff` of `col1`, `col2`, in this order.
pub fn datediff(col1: Column, col2: Column) -> (c: Column)
    ensures
        is_call(c.expr, "datediff"@, seq![col1.expr, col2.expr]),
{
    let mut args: Vec<Expression> = Vec::new();
    args.push(col1.expr);
    args.push(col2.expr);
    assert(args@ =~= seq![col1.expr, col2.expr]);
    func("datediff", args)
}

/// The SQL function `datepart` of `col1`, `col2`, in this order.
pub fn datepart(col1: Column, col2: Column) -> (c: Column)
    ensures
        is_call(c.expr, "datepart"@, seq![col1.expr, col2.expr]),
{
    let mut args: Vec<Expression> = Vec::new();
    args.push(col1.expr);
    args.push(col2.expr);
    assert(args@ =~= seq![col1.expr, col2.expr]);
    func("datepart", args)
}

/// The SQL function `decode` of `col1`, `col2`, in this order.
pub fn decode(col1: Column, col2: Column) -> (c: Column)
    ensures
        is_call(c.expr, "decode"@, seq![col1.expr, col2.expr]),
{
    let mut args: Vec<Expression> = Vec::new();
    args.push(col1.expr);
    args.push(col2.expr);
    assert(args@ =~= seq![col1.expr, col2.expr]);
    func("decode", args)
}

/// The SQL function `element_at` of `col1`, `col2`, in this order.
pub fn element_at(col1: Column, col2: Column) -> (c: Column)
    ensures
        is_call(c.expr, "element_at"@, seq![col1.expr, col2.expr]),
{
    let mut args: Vec<Expression> = Vec::new();
    args.push(col1.expr);
    args.push(col2.expr);
    assert(args@ =~= seq![col1.expr, col2.expr]);
    func("element_at", args)
}

/// The SQL function `encode` of `col1`, `col2`, in this order.
pub fn encode(col1: Column, col2: Column) -> (c: Column)
    ensures
        is_call(c.expr, "encode"@, seq![col1.expr, col2.expr]),
{
    let mut args: Vec<Expression> = Vec::new();
    args.push(col1.expr);
    args.push(col2.expr);
    assert(args@ =~= seq![col1.expr, col2.expr]);
    func("encode", args)
}

/// The SQL function `endswith` of `col1`, `col2`, in this order.
pub fn endswith(col1: Column, col2: Column) -> (c: Column)
    ensures
        is_call(c.expr, "endswith"@, seq![col1.expr, col2.expr]),
{
    let mut args: Vec<Expression> = Vec::new();
    args.push(col1.expr);
    args.push(col2.expr);
    assert(args@ =~= seq![col1.expr, col2.expr]);
    func("endswith", args)
}

/// The SQL function `equal_null` of `col1`, `col2`, in this order.
pub fn equal_null(col1: Column, col2: Column) -> (c: Column)
    ensures
        is_call(c.expr, "equal_null"@, seq![col1.expr, col2.expr]),
{
    let mut args: Vec<Expression> = Vec::new();
    args.push(col1.expr);
    args.push(col2.expr);
    assert(args@ =~= seq![col1.expr, col2.expr]);
    func("equal_null", args)
}

/// The SQL function `extract` of `col1`, `col2`, in this order.
pub fn extract(col1: Column, col2: Column) -> (c: Column)
    ensures
        is_call(c.expr, "extract"@, seq![col1.expr, col2.expr]),
{
    let mut args: Vec<Expression> = Vec::new();
    args.push(col1.expr);
    args.push(col2.expr);
    assert(args@ =~= seq![col1.expr, col2.expr]);
    func("extract", args)
}

/// The SQL function `find_in_set` of `col1`, `col2`, in this order.
pub fn find_in_set(col1: Column, col2: Column) -> (c: Column)
    ensures
        is_call(c.expr, "find_in_set"@, seq![col1.expr, col2.expr]),
{
    let mut args: Vec<Expression> = Vec::new();
    args.push(col1.expr);
    args.push(col2.expr);
    assert(args@ =~= seq![col1.expr, col2.expr]);
    func("find_in_set", args)
}

/// The SQL function `format_number` of `col1`, `col2`, in this order.
pub fn format_number(col1: Column, col2: Column) -> (c: Column)
    ensures
        is_call(c.expr, "format_number"@, seq![col1.expr, col2.expr]),
{
    let mut args: Vec<Expression> = Vec::new();
    args.push(col1.expr);
    args.push(col2.expr);
    assert(args@ =~= seq![col1.expr, col2.expr]);
    func("format_number", args)
}

/// The SQL function `from_csv` of `col1`, `col2`, in this order.
pub fn from_csv(col1: Column, col2: Column) -> (c: Column)
    ensures
        is_call(c.expr, "from_csv"@, seq![col1.expr, col2.expr]),
{
    let mut args: Vec<Expression> = Vec::new();
    args.push(col1.expr);
    args.push(col2.expr);
    assert(args@ =~= seq![col1.expr, col2.expr]);
    func("from_csv", args)
}

/// The SQL function `from_json` of `col1`, `col2`, in this order.
pub fn from_json(col1: Column, col2: Column) -> (c: Column)
    ensures
        is_call(c.expr, "from_json"@, seq![col1.expr, col2.expr]),
{
    let mut args: Vec<Expression> = Vec::new();
    args.push(col1.expr);
    args.push(col2.expr);
    assert(args@ =~= seq![col1.expr, col2.expr]);
    func("from_json", args)
}

/// The SQL function `from_utc_timestamp` of `col1`, `col2`, in this order.
pub fn from_utc_timestamp(col1: Column, col2: Column) -> (c: Column)
    ensures
        is_call(c.expr, "from_utc_timestamp"@, seq![col1.expr, col2.expr]),
{
    let mut args: Vec<Expression> = Vec::new();
    args.push(col1.expr);
    args.push(col2.expr);
    assert(args@ =~= seq![col1.expr, col2.expr]);
    func("from_utc_timestamp", args)
}

/// The SQL function `from_xml` of `col1`, `col2`, in this order.
pub fn from_xml(col1: Column, col2: Column) -> (c: Column)
    ensures
        is_call(c.expr, "from_xml"@, seq![col1.expr, col2.expr]),
{
    let mut args: Vec<Expression> = Vec::new();
    args.push(col1.expr);
    args.push(col2.expr);
    assert(args@ =~= seq![col1.expr, col2.expr]);
    func("from_xml", args)
}

/// The SQL function `get` of `col1`, `col2`, in this order.
pub fn get(col1: Column, col2: Column) -> (c: Column)
    ensures
        is_call(c.expr, "get"@, seq![col1.expr, col2.expr]),
{
    let mut args: Vec<Expression> = Vec::new();
    args.push(col1.expr);
    args.push(col2.expr);
    assert(args@ =~= seq![col1.expr, col2.expr]);
    func("get", args)
}

/// The SQL function `get_json_object` of `col1`, `col2`, in this order.
pub fn get_json_object(col1: Column, col2: Column) -> (c: Column)
    ensures
        is_call(c.expr, "get_json_object"@, seq![col1.expr, col2.expr]),
{
    let mut args: Vec<Expression> = Vec::new();
    args.push(col1.expr);
    args.push(col2.expr);
    assert(args@ =~= seq![col1.expr, col2.expr]);
    func("get_json_object", args)
}

/// The SQL function `getbit` of `col1`, `col2`, in this order.
pub fn getbit(col1: Column, col2: Column) -> (c: Column)
    ensures
        is_call(c.expr, "getbit"@, seq![col1.expr, col2.expr]),
{
    let mut args: Vec<Expression> = Vec::new();
    args.push(col1.expr);
    args.push(col2.expr);
    assert(args@ =~= seq![col1.expr, col2.expr]);
    func("getbit", args)
}

/// The SQL function `greatest` of `col1`, `col2`, in this order.
pub fn greatest(col1: Column, col2: Column) -> (c: Column)
    ensures
        is_call(c.expr, "greatest"@, seq![col1.expr, col2.expr]),
{
    let mut args: Vec<Expression> = Vec::new();
    args.push(col1.expr);
    args.push(col2.expr);
    assert(args@ =~= seq![col1.expr, col2.expr]);
    func("greatest", args)
}

/// The SQL function `histogram_numeric` of `col1`, `col2`, in this order.
pub fn histogram_numeric(col1: Column, col2: Column) -> (c: Column)
    ensures
        is_call(c.expr, "histogram_numeric"@, seq![col1.expr, col2.expr]),
{
    let mut args: Vec<Expression> = Vec::new();
    args.push(col1.expr);
    args.push(col2.expr);
    assert(args@ =~= seq![col1.expr, col2.expr]);
    func("histogram_numeric", args)
}

/// The SQL function `hll_union` of `col1`, `col2`, in this order.
pub fn hll_union(col1: Column, col2: Column) -> (c: Column)
    ensures
        is_call(c.expr, "hll_union"@, seq![col1.expr, col2.expr]),
{
    let mut args: Vec<Expression> = Vec::new();
    args.push(col1.expr);
    args.push(col2.expr);
    assert(args@ =~= seq![col1.expr, col2.expr]);
    func("hll_union", args)
}

/// The SQL function `hypot` of `col1`, `col2`, in this order.
pub fn hypot(col1: Column, col2: Column) -> (c: Column)
    ensures
        is_call(c.expr, "hypot"@, seq![col1.expr, col2.expr]),
{
    let mut args: Vec<Expression> = Vec::new();
    args.push(col1.expr);
    args.push(col2.expr);
    assert(args@ =~= seq![col1.expr, col2.expr]);
    func("hypot", args)
}

/// The SQL function `ifnull` of `col1`, `col2`, in this order.
pub fn ifnull(col1: Column, col2: Column) -> (c: Column)
    ensures
        is_call(c.expr, "ifnull"@, seq![col1.expr, col2.expr]),
{
    let mut args: Vec<Expression> = Vec::new();
    args.push(col1.expr);
    args.push(col2.expr);
    assert(args@ =~= seq![col1.expr, col2.expr]);
    func("ifnull", args)
}

/// The SQL function `ilike` of `col1`, `col2`, in this order.
pub fn ilike(col1: Column, col2: Column) -> (c: Column)
    ensures
        is_call(c.expr, "ilike"@, seq![col1.expr, col2.expr]),
{
    let mut args: Vec<Expression> = Vec::new();
    args.push(col1.expr);
    args.push(col2.expr);
    assert(args@ =~= seq![col1.expr, col2.expr]);
    func("ilike", args)
}

/// The SQL function `instr` of `col1`, `col2`, in this order.
pub fn instr(col1: Column, col2: Column) -> (c: Column)
    ensures
        is_call(c.expr, "instr"@, seq![col1.expr, col2.expr]),
{
    let mut args: Vec<Expression> = Vec::new();
    args.push(col1.expr);
    args.push(col2.expr);
    assert(args@ =~= seq![col1.expr, col2.expr]);
    func("instr", args)
}

/// The SQL function `json_tuple` of `col1`, `col2`, in this order.
pub fn json_tuple(col1: Column, col2: Column) -> (c: Column)
    ensures
        is_call(c.expr, "json_tuple"@, seq![col1.expr, col2.expr]),
{
    let mut args: Vec<Expression> = Vec::new();
    args.push(col1.expr);
    args.push(col2.expr);
    assert(args@ =~= seq![col1.expr, col2.expr]);
    func("json_tuple", args)
}

/// The SQL function `least` of `col1`, `col2`, in this order.
pub fn least(col1: Column, col2: Column) -> (c: Column)
    ensures
        is_call(c.expr, "least"@, seq![col1.expr, col2.expr]),
{
    let mut args: Vec<Expression> = Vec::new();
    args.push(col1.expr);
    args.push(col2.expr);
    assert(args@ =~= seq![col1.expr, col2.expr]);
    func("least", args)
}

/// The SQL function `left` of `col1`, `col2`, in this order.
pub fn left(col1: Column, col2: Column) -> (c: Column)
    ensures
        is_call(c.expr, "left"@, seq![col1.expr, col2.expr]),
{
    let mut args: Vec<Expression> = Vec::new();
    args.push(col1.expr);
    args.push(col2.expr);
    assert(args@ =~= seq![col1.expr, col2.expr]);
    func("left", args)
}

/// The SQL function `levenshtein` of `col1`, `col2`, in this order.
pub fn levenshtein(col1: Column, col2: Column) -> (c: Column)
    ensures
        is_call(c.expr, "levenshtein"@, seq![col1.expr, col2.expr]),
{
    let mut args: Vec<Expression> = Vec::new();
    args.push(col1.expr);
    args.push(col2.expr);
    assert(args@ =~= seq![col1.expr, col2.expr]);
    func("levenshtein", args)
}

/// The SQL function `like` of `col1`, `col2`, in this order.
pub fn like(col1: Column, col2: Column) -> (c: Column)
    ensures
        is_call(c.expr, "like"@, seq![col1.expr, col2.expr]),
{
    let mut args: Vec<Expression> = Vec::new();
    args.push(col1.expr);
    args.push(col2.expr);
    assert(args@ =~= seq![col1.expr, col2.expr]);
    func("like", args)
}

/// The SQL function `locate`, called with the arguments listed in the contract.
pub fn locate(col1: Column, col2: Column) -> (c: Column)
    ensures
        is_call(c.expr, "locate"@, seq![col1.expr, col2.expr, Expression::Literal(LiteralExpression::Integer(1))]),
{
    let mut args: Vec<Expression> = Vec::new();
    args.push(col1.expr);
    args.push(col2.expr);
    args.push(Expression::Literal(LiteralExpression::Integer(1)));
    assert(args@ =~= seq![col1.expr, col2.expr, Expression::Literal(LiteralExpression::Integer(1))]);
    func("locate", args)
}

/// The SQL function `map_contains_key` of `col1`, `col2`, in this order.
pub fn map_contains_key(col1: Column, col2: Column) -> (c: Column)
    ensures
        is_call(c.expr, "map_contains_key"@, seq![col1.expr, col2.expr]),
{
    let mut args: Vec<Expression> = Vec::new();
    args.push(col1.expr);
    args.push(col2.expr);
    assert(args@ =~= seq![col1.expr, col2.expr]);
    func("map_contains_key", args)
}

/// The SQL function `map_from_arrays` of `col1`, `col2`, in this order.
pub fn map_from_arrays(col1: Column, col2: Column) -> (c: Column)
    ensures
        is_call(c.expr, "map_from_arrays"@, seq![col1.expr, col2.expr]),
{
    let mut args: Vec<Expression> = Vec::new();
    args.push(col1.expr);
    args.push(col2.expr);
    assert(args@ =~= seq![col1.expr, col2.expr]);
    func("map_from_arrays", args)
}

/// The SQL function `max_by` of `col1`, `col2`, in this order.
pub fn max_by(col1: Column, col2: Column) -> (c: Column)
    ensures
        is_call(c.expr, "max_by"@, seq![col1.expr, col2.expr]),
{
    let mut args: Vec<Expression> = Vec::new();
    args.push(col1.expr);
    args.push(col2.expr);
    assert(args@ =~= seq![col1.expr, col2.expr]);
    func("max_by", args)
}

/// The SQL function `min_by` of `col1`, `col2`, in this order.
pub fn min_by(col1: Column, col2: Column) -> (c: Column)
    ensures
        is_call(c.expr, "min_by"@, seq![col1.expr, col2.expr]),
{
    let mut args: Vec<Expression> = Vec::new();
    args.push(col1.expr);
    args.push(col2.expr);
    assert(args@ =~= seq![col1.expr, col2.expr]);
    func("min_by", args)
}

/// The SQL function `months_between`, called with the arguments listed in the contract.
pub fn months_between(col1: Column, col2: Column) -> (c: Column)
    ensures
        is_call(c.expr, "months_between"@, seq![col1.expr, col2.expr, Expression::Literal(LiteralExpression::Boolean(true))]),
{
    let mut args: Vec<Expression> = Vec::new();
    args.push(col1.expr);
    args.push(col2.expr);
    args.push(Expression::Literal(LiteralExpression::Boolean(true)));
    assert(args@ =~= seq![col1.expr, col2.expr, Expression::Literal(LiteralExpression::Boolean(true))]);
    func("months_between", args)
}

/// The SQL function `nanvl` of `col1`, `col2`, in this order.
pub fn nanvl(col1: Column, col2: Column) -> (c: Column)
    ensures
        is_call(c.expr, "nanvl"@, seq![col1.expr, col2.expr]),
{
    let mut args: Vec<Expression> = Vec::new();
    args.push(col1.expr);
    args.push(col2.expr);
    assert(args@ =~= seq![col1.expr, col2.expr]);
    func("nanvl", args)
}

/// The SQL function `next_day` of `col1`, `col2`, in this order.
pub fn next_day(col1: Column, col2: Column) -> (c: Column)
    ensures
        is_call(c.expr, "next_day"@, seq![col1.expr, col2.expr]),
{
    let mut args: Vec<Expression> = Vec::new();
    args.push(col1.expr);
    args.push(col2.expr);
    assert(args@ =~= seq![col1.expr, col2.expr]);
    func("next_day", args)
}

/// The SQL function `nth_value`, called with the arguments listed in the contract.
pub fn nth_value(col1: Column, col2: Column) -> (c: Column)
    ensures
        is_call(c.expr, "nth_value"@, seq![col1.expr, col2.expr, Expression::Literal(LiteralExpression::Boolean(false))]),
{
    let mut args: Vec<Expression> = Vec::new();
    args.push(col1.expr);
    args.push(col2.expr);
    args.push(Expression::Literal(LiteralExpression::Boolean(false)));
    assert(args@ =~= seq![col1.expr, col2.expr, Expression::Literal(LiteralExpression::Boolean(false))]);
    func("nth_value", args)
}

/// The SQL function `nullif` of `col1`, `col2`, in this order.
pub fn nullif(col1: Column, col2: Column) -> (c: Column)
    ensures
        is_call(c.expr, "nullif"@, seq![col1.expr, col2.expr]),
{
    let mut args: Vec<Expression> = Vec::new();
    args.push(col1.expr);
    args.push(col2.expr);
    assert(args@ =~= seq![col1.expr, col2.expr]);
    func("nullif", args)
}

/// The SQL function `nvl` of `col1`, `col2`, in this order.
pub fn nvl(col1: Column, col2: Column) -> (c: Column)
    ensures
        is_call(c.expr, "nvl"@, seq![col1.expr, col2.expr]),
{
    let mut args: Vec<Expression> = Vec::new();
    args.push(col1.expr);
    args.push(col2.expr);
    assert(args@ =~= seq![col1.expr, col2.expr]);
    func("nvl", args)
}

/// The SQL function `parse_url` of `col1`, `col2`, in this order.
pub fn parse_url(col1: Column, col2: Column) -> (c: Column)
    ensures
        is_call(c.expr, "parse_url"@, seq![col1.expr, col2.expr]),
{
    let mut args: Vec<Expression> = Vec::new();
    args.push(col1.expr);
    args.push(col2.expr);
    assert(args@ =~= seq![col1.expr, col2.expr]);
    func("parse_url", args)
}

/// The SQL function `percentile`, called with the arguments listed in the contract.
pub fn percentile(col1: Column, col2: Column) -> (c: Column)
    ensures
        is_call(c.expr, "percentile"@, seq![col1.expr, col2.expr, Expression::Literal(LiteralExpression::Integer(1))]),
{
    let mut args: Vec<Expression> = Vec::new();
    args.push(col1.expr);
    args.push(col2.expr);
    args.push(Expression::Literal(LiteralExpression::Integer(1)));
    assert(args@ =~= seq![col1.expr, col2.expr, Expression::Literal(LiteralExpression::Integer(1))]);
    func("percentile", args)
}

/// The SQL function `percentile_approx`, called with the arguments listed in the contract.
pub fn percentile_approx(col1: Column, col2: Column) -> (c: Column)
    ensures
        is_call(c.expr, "percentile_approx"@, seq![col1.expr, col2.expr, Expression::Literal(LiteralExpression::Integer(10000))]),
{
    let mut args: Vec<Expression> = Vec::new();
    args.push(col1.expr);
    args.push(col2.expr);
    args.push(Expression::Literal(LiteralExpression::Integer(10000)));
    assert(args@ =~= seq![col1.expr, col2.expr, Expression::Literal(LiteralExpression::Integer(10000))]);
    func("percentile_approx", args)
}

/// The SQL function `pmod` of `col1`, `col2`, in this order.
pub fn pmod(col1: Column, col2: Column) -> (c: Column)
    ensures
        is_call(c.expr, "pmod"@, seq![col1.expr, col2.expr]),
{
    let mut args: Vec<Expression> = Vec::new();
    args.push(col1.expr);
    args.push(col2.expr);
    assert(args@ =~= seq![col1.expr, col2.expr]);
    func("pmod", args)
}

/// The SQL function `position` of `col1`, `col2`, in this order.
pub fn position(col1: Column, col2: Column) -> (c: Column)
    ensures
        is_call(c.expr, "position"@, seq![col1.expr, col2.expr]),
{
    let mut args: Vec<Expression> = Vec::new();
    args.push(col1.expr);
    args.push(col2.expr);
    assert(args@ =~= seq![col1.expr, col2.expr]);
    func("position", args)
}

/// The SQL function `power` of `col1`, `col2`, in this order.
pub fn pow(col1: Column, col2: Column) -> (c: Column)
    ensures
        is_call(c.expr, "power"@, seq![col1.expr, col2.expr]),
{
    let mut args: Vec<Expression> = Vec::new();
    args.push(col1.expr);
    args.push(col2.expr);
    assert(args@ =~= seq![col1.expr, col2.expr]);
    func("power", args)
}

/// The SQL function `power` of `col1`, `col2`, in this order.
pub fn power(col1: Column, col2: Column) -> (c: Column)
    ensures
        is_call(c.expr, "power"@, seq![col1.expr, col2.expr]),
{
    let mut args: Vec<Expression> = Vec::new();
    args.push(col1.expr);
    args.push(col2.expr);
    assert(args@ =~= seq![col1.expr, col2.expr]);
    func("power", args)
}

/// The SQL function `regexp` of `col1`, `col2`, in this order.
pub fn regexp(col1: Column, col2: Column) -> (c: Column)
    ensures
        is_call(c.expr, "regexp"@, seq![col1.expr, col2.expr]),
{
    let mut args: Vec<Expression> = Vec::new();
    args.push(col1.expr);
    args.push(col2.expr);
    assert(args@ =~= seq![col1.expr, col2.expr]);
    func("regexp", args)
}

/// The SQL function `regexp_count` of `col1`, `col2`, in this order.
pub fn regexp_count(col1: Column, col2: Column) -> (c: Column)
    ensures
        is_call(c.expr, "regexp_count"@, seq![col1.expr, col2.expr]),
{
    let mut args: Vec<Expression> = Vec::new();
    args.push(col1.expr);
    args.push(col2.expr);
    assert(args@ =~= seq![col1.expr, col2.expr]);
    func("regexp_count", args)
}

/// The SQL function `regexp_extract_all` of `col1`, `col2`, in this order.
pub fn regexp_extract_all(col1: Column, col2: Column) -> (c: Column)
    ensures
        is_call(c.expr, "regexp_extract_all"@, seq![col1.expr, col2.expr]),
{
    let mut args: Vec<Expression> = Vec::new();
    args.push(col1.expr);
    args.push(col2.expr);
    assert(args@ =~= seq![col1.expr, col2.expr]);
    func("regexp_extract_all", args)
}

/// The SQL function `regexp_instr` of `col1`, `col2`, in this order.
pub fn regexp_instr(col1: Column, col2: Column) -> (c: Column)
    ensures
        is_call(c.expr, "regexp_instr"@, seq![col1.expr, col2.expr]),
{
    let mut args: Vec<Expression> = Vec::new();
    args.push(col1.expr);
    args.push(col2.expr);
    assert(args@ =~= seq![col1.expr, col2.expr]);
    func("regexp_instr", args)
}

/// The SQL function `regexp_like` of `col1`, `col2`, in this order.
pub fn regexp_like(col1: Column, col2: Column) -> (c: Column)
    ensures
        is_call(c.expr, "regexp_like"@, seq![col1.expr, col2.expr]),
{
    let mut args: Vec<Expression> = Vec::new();
    args.push(col1.expr);
    args.push(col2.expr);
    assert(args@ =~= seq![col1.expr, col2.expr]);
    func("regexp_like", args)
}

/// The SQL function `regexp_substr` of `col1`, `col2`, in this order.
pub fn regexp_substr(col1: Column, col2: Column) -> (c: Column)
    ensures
        is_call(c.expr, "regexp_substr"@, seq![col1.expr, col2.expr]),
{
    let mut args: Vec<Expression> = Vec::new();
    args.push(col1.expr);
    args.push(col2.expr);
    assert(args@ =~= seq![col1.expr, col2.expr]);
    func("regexp_substr", args)
}

/// The SQL function `regr_avgx` of `col1`, `col2`, in this order.
pub fn regr_avgx(col1: Column, col2: Column) -> (c: Column)
    ensures
        is_call(c.expr, "regr_avgx"@, seq![col1.expr, col2.expr]),
{
    let mut args: Vec<Expression> = Vec::new();
    args.push(col1.expr);
    args.push(col2.expr);
    assert(args@ =~= seq![col1.expr, col2.expr]);
    func("regr_avgx", args)
}

/// The SQL function `regr_avgy` of `col1`, `col2`, in this order.
pub fn regr_avgy(col1: Column, col2: Column) -> (c: Column)
    ensures
        is_call(c.expr, "regr_avgy"@, seq![col1.expr, col2.expr]),
{
    let mut args: Vec<Expression> = Vec::new();
    args.push(col1.expr);
    args.push(col2.expr);
    assert(args@ =~= seq![col1.expr, col2.expr]);
    func("regr_avgy", args)
}

/// The SQL function `regr_count` of `col1`, `col2`, in this order.
pub fn regr_count(col1: Column, col2: Column) -> (c: Column)
    ensures
        is_call(c.expr, "regr_count"@, seq![col1.expr, col2.expr]),
{
    let mut args: Vec<Expression> = Vec::new();
    args.push(col1.expr);
    args.push(col2.expr);
    assert(args@ =~= seq![col1.expr, col2.expr]);
    func("regr_count", args)
}

/// The SQL function `regr_intercept` of `col1`, `col2`, in this order.
pub fn regr_intercept(col1: Column, col2: Column) -> (c: Column)
    ensures
        is_call(c.expr, "regr_intercept"@, seq![col1.expr, col2.expr]),
{
    let mut args: Vec<Expression> = Vec::new();
    args.push(col1.expr);
    args.push(col2.expr);
    assert(args@ =~= seq![col1.expr, col2.expr]);
    func("regr_intercept", args)
}

/// The SQL function `regr_r2` of `col1`, `col2`, in this order.
pub fn regr_r2(col1: Column, col2: Column) -> (c: Column)
    ensures
        is_call(c.expr, "regr_r2"@, seq![col1.expr, col2.expr]),
{
    let mut args: Vec<Expression> = Vec::new();
    args.push(col1.expr);
    args.push(col2.expr);
    assert(args@ =~= seq![col1.expr, col2.expr]);
    func("regr_r2", args)
}

/// The SQL function `regr_slope` of `col1`, `col2`, in this order.
pub fn regr_slope(col1: Column, col2: Column) -> (c: Column)
    ensures
        is_call(c.expr, "regr_slope"@, seq![col1.expr, col2.expr]),
{
    let mut args: Vec<Expression> = Vec::new();
    args.push(col1.expr);
    args.push(col2.expr);
    assert(args@ =~= seq![col1.expr, col2.expr]);
    func("regr_slope", args)
}

/// The SQL function `regr_sxx` of `col1`, `col2`, in this order.
pub fn regr_sxx(col1: Column, col2: Column) -> (c: Column)
    ensures
        is_call(c.expr, "regr_sxx"@, seq![col1.expr, col2.expr]),
{
    let mut args: Vec<Expression> = Vec::new();
    args.push(col1.expr);
    args.push(col2.expr);
    assert(args@ =~= seq![col1.expr, col2.expr]);
    func("regr_sxx", args)
}

/// The SQL function `regr_sxy` of `col1`, `col2`, in this order.
pub fn regr_sxy(col1: Column, col2: Column) -> (c: Column)
    ensures
        is_call(c.expr, "regr_sxy"@, seq![col1.expr, col2.expr]),
{
    let mut args: Vec<Expression> = Vec::new();
    args.push(col1.expr);
    args.push(col2.expr);
    assert(args@ =~= seq![col1.expr, col2.expr]);
    func("regr_sxy", args)
}

/// The SQL function `regr_syy` of `col1`, `col2`, in this order.
pub fn regr_syy(col1: Column, col2: Column) -> (c: Column)
    ensures
        is_call(c.expr, "regr_syy"@, seq![col1.expr, col2.expr]),
{
    let mut args: Vec<Expression> = Vec::new();
    args.push(col1.expr);
    args.push(col2.expr);
    assert(args@ =~= seq![col1.expr, col2.expr]);
    func("regr_syy", args)
}

/// The SQL function `repeat` of `col1`, `col2`, in this order.
pub fn repeat(col1: Column, col2: Column) -> (c: Column)
    ensures
        is_call(c.expr, "repeat"@, seq![col1.expr, col2.expr]),
{
    let mut args: Vec<Expression> = Vec::new();
    args.push(col1.expr);
    args.push(col2.expr);
    assert(args@ =~= seq![col1.expr, col2.expr]);
    func("repeat", args)
}

/// The SQL function `replace` of `col1`, `col2`, in this order.
pub fn replace(col1: Column, col2: Column) -> (c: Column)
    ensures
        is_call(c.expr, "replace"@, seq![col1.expr, col2.expr]),
{
    let mut args: Vec<Expression> = Vec::new();
    args.push(col1.expr);
    args.push(col2.expr);
    assert(args@ =~= seq![col1.expr, col2.expr]);
    func("replace", args)
}

/// The SQL function `right` of `col1`, `col2`, in this order.
pub fn right(col1: Column, col2: Column) -> (c: Column)
    ensures
        is_call(c.expr, "right"@, seq![col1.expr, col2.expr]),
{
    let mut args: Vec<Expression> = Vec::new();
    args.push(col1.expr);
    args.push(col2.expr);
    assert(args@ =~= seq![col1.expr, col2.expr]);
    func("right", args)
}

/// The SQL function `rlike` of `col1`, `col2`, in this order.
pub fn rlike(col1: Column, col2: Column) -> (c: Column)
    ensures
        is_call(c.expr, "rlike"@, seq![col1.expr, col2.expr]),
{
    let mut args: Vec<Expression> = Vec::new();
    args.push(col1.expr);
    args.push(col2.expr);
    assert(args@ =~= seq![col1.expr, col2.expr]);
    func("rlike", args)
}

/// The SQL function `sequence` of `col1`, `col2`, in this order.
pub fn sequence(col1: Column, col2: Column) -> (c: Column)
    ensures
        is_call(c.expr, "sequence"@, seq![col1.expr, col2.expr]),
{
    let mut args: Vec<Expression> = Vec::new();
    args.push(col1.expr);
    args.push(col2.expr);
    assert(args@ =~= seq![col1.expr, col2.expr]);
    func("sequence", args)
}

/// The SQL function `session_window` of `col1`, `col2`, in this order.
pub fn session_window(col1: Column, col2: Column) -> (c: Column)
    ensures
        is_call(c.expr, "session_window"@, seq![col1.expr, col2.expr]),
{
    let mut args: Vec<Expression> = Vec::new();
    args.push(col1.expr);
    args.push(col2.expr);
    assert(args@ =~= seq![col1.expr, col2.expr]);
    func("session_window", args)
}

/// The SQL function `shiftleft` of `col1`, `col2`, in this order.
pub fn shiftLeft(col1: Column, col2: Column) -> (c: Column)
    ensures
        is_call(c.expr, "shiftleft"@, seq![col1.expr, col2.expr]),
{
    let mut args: Vec<Expression> = Vec::new();
    args.push(col1.expr);
    args.push(col2.expr);
    assert(args@ =~= seq![col1.expr, col2.expr]);
    func("shiftleft", args)
}

/// The SQL function `shiftright` of `col1`, `col2`, in this order.
pub fn shiftRight(col1: Column, col2: Column) -> (c: Column)
    ensures
        is_call(c.expr, "shiftright"@, seq![col1.expr, col2.expr]),
{
    let mut args: Vec<Expression> = Vec::new();
    args.push(col1.expr);
    args.push(col2.expr);
    assert(args@ =~= seq![col1.expr, col2.expr]);
    func("shiftright", args)
}

/// The SQL function `shiftrightunsigned` of `col1`, `col2`, in this order.
pub fn shiftRightUnsigned(col1: Column, col2: Column) -> (c: Column)
    ensures
        is_call(c.expr, "shiftrightunsigned"@, seq![col1.expr, col2.expr]),
{
    let mut args: Vec<Expression> = Vec::new();
    args.push(col1.expr);
    args.push(col2.expr);
    assert(args@ =~= seq![col1.expr, col2.expr]);
    func("shiftrightunsigned", args)
}

/// The SQL function `shiftleft` of `col1`, `col2`, in this order.
pub fn shiftleft(col1: Column, col2: Column) -> (c: Column)
    ensures
        is_call(c.expr, "shiftleft"@, seq![col1.expr, col2.expr]),
{
    let mut args: Vec<Expression> = Vec::new();
    args.push(col1.expr);
    args.push(col2.expr);
    assert(args@ =~= seq![col1.expr, col2.expr]);
    func("shiftleft", args)
}

/// The SQL function `shiftright` of `col1`, `col2`, in this order.
pub fn shiftright(col1: Column, col2: Column) -> (c: Column)
    ensures
        is_call(c.expr, "shiftright"@, seq![col1.expr, col2.expr]),
{
    let mut args: Vec<Expression> = Vec::new();
    args.push(col1.expr);
    args.push(col2.expr);
    assert(args@ =~= seq![col1.expr, col2.expr]);
    func("shiftright", args)
}

/// The SQL function `shiftrightunsigned` of `col1`, `col2`, in this order.
pub fn shiftrightunsigned(col1: Column, col2: Column) -> (c: Column)
    ensures
        is_call(c.expr, "shiftrightunsigned"@, seq![col1.expr, col2.expr]),
{
    let mut args: Vec<Expression> = Vec::new();
    args.push(col1.expr);
    args.push(col2.expr);
    assert(args@ =~= seq![col1.expr, col2.expr]);
    func("shiftrightunsigned", args)
}

/// The SQL function `split`, called with the arguments listed in the contract.
pub fn split(col1: Column, col2: Column) -> (c: Column)
    ensures
        is_call(c.expr, "split"@, seq![col1.expr, col2.expr, Expression::Literal(LiteralExpression::Integer(-1i32))]),
{
    let mut args: Vec<Expression> = Vec::new();
    args.push(col1.expr);
    args.push(col2.expr);
    args.push(Expression::Literal(LiteralExpression::Integer(-1i32)));
    assert(args@ =~= seq![col1.expr, col2.expr, Expression::Literal(LiteralExpression::Integer(-1i32))]);
    func("split", args)
}

/// The SQL function `startswith` of `col1`, `col2`, in this order.
pub fn startswith(col1: Column, col2: Column) -> (c: Column)
    ensures
        is_call(c.expr, "startswith"@, seq![col1.expr, col2.expr]),
{
    let mut args: Vec<Expression> = Vec::new();
    args.push(col1.expr);
    args.push(col2.expr);
    assert(args@ =~= seq![col1.expr, col2.expr]);
    func("startswith", args)
}

/// The SQL function `substr` of `col1`, `col2`, in this order.
pub fn substr(col1: Column, col2: Column) -> (c: Column)
    ensures
        is_call(c.expr, "substr"@, seq![col1.expr, col2.expr]),
{
    let mut args: Vec<Expression> = Vec::new();
    args.push(col1.expr);
    args.push(col2.expr);
    assert(args@ =~= seq![col1.expr, col2.expr]);
    func("substr", args)
}

/// The SQL function `to_char` of `col1`, `col2`, in this order.
pub fn to_char(col1: Column, col2: Column) -> (c: Column)
    ensures
        is_call(c.expr, "to_char"@, seq![col1.expr, col2.expr]),
{
    let mut args: Vec<Expression> = Vec::new();
    args.push(col1.expr);
    args.push(col2.expr);
    assert(args@ =~= seq![col1.expr, col2.expr]);
    func("to_char", args)
}

/// The SQL function `to_number` of `col1`, `col2`, in this order.
pub fn to_number(col1: Column, col2: Column) -> (c: Column)
    ensures
        is_call(c.expr, "to_number"@, seq![col1.expr, col2.expr]),
{
    let mut args: Vec<Expression> = Vec::new();
    args.push(col1.expr);
    args.push(col2.expr);
    assert(args@ =~= seq![col1.expr, col2.expr]);
    func("to_number", args)
}

/// The SQL function `to_utc_timestamp` of `col1`, `col2`, in this order.
pub fn to_utc_timestamp(col1: Column, col2: Column) -> (c: Column)
    ensures
        is_call(c.expr, "to_utc_timestamp"@, seq![col1.expr, col2.expr]),
{
    let mut args: Vec<Expression> = Vec::new();
    args.push(col1.expr);
    args.push(col2.expr);
    assert(args@ =~= seq![col1.expr, col2.expr]);
    func("to_utc_timestamp", args)
}

/// The SQL function `to_varchar` of `col1`, `col2`, in this order.
pub fn to_varchar(col1: Column, col2: Column) -> (c: Column)
    ensures
        is_call(c.expr, "to_varchar"@, seq![col1.expr, col2.expr]),
{
    let mut args: Vec<Expression> = Vec::new();
    args.push(col1.expr);
    args.push(col2.expr);
    assert(args@ =~= seq![col1.expr, col2.expr]);
    func("to_varchar", args)
}

/// The SQL function `trunc` of `col1`, `col2`, in this order.
pub fn trunc(col1: Column, col2: Column) -> (c: Column)
    ensures
        is_call(c.expr, "trunc"@, seq![col1.expr, col2.expr]),
{
    let mut args: Vec<Expression> = Vec::new();
    args.push(col1.expr);
    args.push(col2.expr);
    assert(args@ =~= seq![col1.expr, col2.expr]);
    func("trunc", args)
}

/// The SQL function `try_add` of `col1`, `col2`, in this order.
pub fn try_add(col1: Column, col2: Column) -> (c: Column)
    ensures
        is_call(c.expr, "try_add"@, seq![col1.expr, col2.expr]),
{
    let mut args: Vec<Expression> = Vec::new();
    args.push(col1.expr);
    args.push(col2.expr);
    assert(args@ =~= seq![col1.expr, col2.expr]);
    func("try_add", args)
}

/// The SQL function `try_aes_decrypt`, called with the arguments listed in the contract.
pub fn try_aes_decrypt(col1: Column, col2: Column) -> (c: Column)
    ensures
        is_call_of(c.expr, "try_aes_decrypt"@, false, 5),
        call_arg(c.expr, 0) == col1.expr,
        call_arg(c.expr, 1) == col2.expr,
        is_string_literal(call_arg(c.expr, 2), "GCM"@),
        is_string_literal(call_arg(c.expr, 3), "DEFAULT"@),
        is_string_literal(call_arg(c.expr, 4), ""@),
{
    let mut args: Vec<Expression> = Vec::new();
    args.push(col1.expr);
    args.push(col2.expr);
    args.push(Expression::Literal(LiteralExpression::string("GCM")));
    args.push(Expression::Literal(LiteralExpression::string("DEFAULT")));
    args.push(Expression::Literal(LiteralExpression::string("")));
    func("try_aes_decrypt", args)
}

/// The SQL function `try_divide` of `col1`, `col2`, in this order.
pub fn try_divide(col1: Column, col2: Column) -> (c: Column)
    ensures
        is_call(c.expr, "try_divide"@, seq![col1.expr, col2.expr]),
{
    let mut args: Vec<Expression> = Vec::new();
    args.push(col1.expr);
    args.push(col2.expr);
    assert(args@ =~= seq![col1.expr, col2.expr]);
    func("try_divide", args)
}

/// The SQL function `try_element_at` of `col1`, `col2`, in this order.
pub fn try_element_at(col1: Column, col2: Column) -> (c: Column)
    ensures
        is_call(c.expr, "try_element_at"@, seq![col1.expr, col2.expr]),
{
    let mut args: Vec<Expression> = Vec::new();
    args.push(col1.expr);
    args.push(col2.expr);
    assert(args@ =~= seq![col1.expr, col2.expr]);
    func("try_element_at", args)
}

/// The SQL function `try_mod` of `col1`, `col2`, in this order.
pub fn try_mod(col1: Column, col2: Column) -> (c: Column)
    ensures
        is_call(c.expr, "try_mod"@, seq![col1.expr, col2.expr]),
{
    let mut args: Vec<Expression> = Vec::new();
    args.push(col1.expr);
    args.push(col2.expr);
    assert(args@ =~= seq![col1.expr, col2.expr]);
    func("try_mod", args)
}

/// The SQL function `try_multiply` of `col1`, `col2`, in this order.
pub fn try_multiply(col1: Column, col2: Column) -> (c: Column)
    ensures
        is_call(c.expr, "try_multiply"@, seq![col1.expr, col2.expr]),
{
    let mut args: Vec<Expression> = Vec::new();
    args.push(col1.expr);
    args.push(col2.expr);
    assert(args@ =~= seq![col1.expr, col2.expr]);
    func("try_multiply", args)
}

/// The SQL function `try_parse_url` of `col1`, `col2`, in this order.
pub fn try_parse_url(col1: Column, col2: Column) -> (c: Column)
    ensures
        is_call(c.expr, "try_parse_url"@, seq![col1.expr, col2.expr]),
{
    let mut args: Vec<Expression> = Vec::new();
    args.push(col1.expr);
    args.push(col2.expr);
    assert(args@ =~= seq![col1.expr, col2.expr]);
    func("try_parse_url", args)
}

/// The SQL function `try_subtract` of `col1`, `col2`, in this order.
pub fn try_subtract(col1: Column, col2: Column) -> (c: Column)
    ensures
        is_call(c.expr, "try_subtract"@, seq![col1.expr, col2.expr]),
{
    let mut args: Vec<Expression> = Vec::new();
    args.push(col1.expr);
    args.push(col2.expr);
    assert(args@ =~= seq![col1.expr, col2.expr]);
    func("try_subtract", args)
}

/// The SQL function `try_to_number` of `col1`, `col2`, in this order.
pub fn try_to_number(col1: Column, col2: Column) -> (c: Column)
    ensures
        is_call(c.expr, "try_to_number"@, seq![col1.expr, col2.expr]),
{
    let mut args: Vec<Expression> = Vec::new();
    args.push(col1.expr);
    args.push(col2.expr);
    assert(args@ =~= seq![col1.expr, col2.expr]);
    func("try_to_number", args)
}

/// The SQL function `uniform`, called with the arguments listed in the contract.
pub fn uniform(col1: Column, col2: Column) -> (c: Column)
    ensures
        is_call(c.expr, "uniform"@, seq![col1.expr, col2.expr, Expression::Literal(LiteralExpression::Long(1779860837174053365))]),
{
    let mut args: Vec<Expression> = Vec::new();
    args.push(col1.expr);
    args.push(col2.expr);
    args.push(Expression::Literal(LiteralExpression::Long(1779860837174053365)));
    assert(args@ =~= seq![col1.expr, col2.expr, Expression::Literal(LiteralExpression::Long(1779860837174053365))]);
    func("uniform", args)
}

/// The SQL function `when` of `col1`, `col2`, in this order.
pub fn when(col1: Column, col2: Column) -> (c: Column)
    ensures
        is_call(c.expr, "when"@, seq![col1.expr, col2.expr]),
{
    let mut args: Vec<Expression> = Vec::new();
    args.push(col1.expr);
    args.push(col2.expr);
    assert(args@ =~= seq![col1.expr, col2.expr]);
    func("when", args)
}

/// The SQL function `xpath` of `col1`, `col2`, in this order.
pub fn xpath(col1: Column, col2: Column) -> (c: Column)
    ensures
        is_call(c.expr, "xpath"@, seq![col1.expr, col2.expr]),
{
    let mut args: Vec<Expression> = Vec::new();
    args.push(col1.expr);
    args.push(col2.expr);
    assert(args@ =~= seq![col1.expr, col2.expr]);
    func("xpath", args)
}

/// The SQL function `xpath_boolean` of `col1`, `col2`, in this order.
pub fn xpath_boolean(col1: Column, col2: Column) -> (c: Column)
    ensures
        is_call(c.expr, "xpath_boolean"@, seq![col1.expr, col2.expr]),
{
    let mut args: Vec<Expression> = Vec::new();
    args.push(col1.expr);
    args.push(col2.expr);
    assert(args@ =~= seq![col1.expr, col2.expr]);
    func("xpath_boolean", args)
}

/// The SQL function `xpath_double` of `col1`, `col2`, in this order.
pub fn xpath_double(col1: Column, col2: Column) -> (c: Column)
    ensures
        is_call(c.expr, "xpath_double"@, seq![col1.expr, col2.expr]),
{
    let mut args: Vec<Expression> = Vec::new();
    args.push(col1.expr);
    args.push(col2.expr);
    assert(args@ =~= seq![col1.expr, col2.expr]);
    func("xpath_double", args)
}

/// The SQL function `xpath_float` of `col1`, `col2`, in this order.
pub fn xpath_float(col1: Column, col2: Column) -> (c: Column)
    ensures
        is_call(c.expr, "xpath_float"@, seq![col1.expr, col2.expr]),
{
    let mut args: Vec<Expression> = Vec::new();
    args.push(col1.expr);
    args.push(col2.expr);
    assert(args@ =~= seq![col1.expr, col2.expr]);
    func("xpath_float", args)
}

/// The SQL function `xpath_int` of `col1`, `col2`, in this order.
pub fn xpath_int(col1: Column, col2: Column) -> (c: Column)
    ensures
        is_call(c.expr, "xpath_int"@, seq![col1.expr, col2.expr]),
{
    let mut args: Vec<Expression> = Vec::new();
    args.push(col1.expr);
    args.push(col2.expr);
    assert(args@ =~= seq![col1.expr, col2.expr]);
    func("xpath_int", args)
}

/// The SQL function `xpath_long` of `col1`, `col2`, in this order.
pub fn xpath_long(col1: Column, col2: Column) -> (c: Column)
    ensures
        is_call(c.expr, "xpath_long"@, seq![col1.expr, col2.expr]),
{
    let mut args: Vec<Expression> = Vec::new();
    args.push(col1.expr);
    args.push(col2.expr);
    assert(args@ =~= seq![col1.expr, col2.expr]);
    func("xpath_long", args)
}

/// The SQL function `xpath_number` of `col1`, `col2`, in this order.
pub fn xpath_number(col1: Column, col2: Column) -> (c: Column)
    ensures
        is_call(c.expr, "xpath_number"@, seq![col1.expr, col2.expr]),
{
    let mut args: Vec<Expression> = Vec::new();
    args.push(col1.expr);
    args.push(col2.expr);
    assert(args@ =~= seq![col1.expr, col2.expr]);
    func("xpath_number", args)
}

/// The SQL function `xpath_short` of `col1`, `col2`, in this order.
pub fn xpath_short(col1: Column, col2: Column) -> (c: Column)
    ensures
        is_call(c.expr, "xpath_short"@, seq![col1.expr, col2.expr]),
{
    let mut args: Vec<Expression> = Vec::new();
    args.push(col1.expr);
    args.push(col2.expr);
    assert(args@ =~= seq![col1.expr, col2.expr]);
    func("xpath_short", args)
}

/// The SQL function `xpath_string` of `col1`, `col2`, in this order.
pub fn xpath_string(col1: Column, col2: Column) -> (c: Column)
    ensures
        is_call(c.expr, "xpath_string"@, seq![col1.expr, col2.expr]),
{
    let mut args: Vec<Expression> = Vec::new();
    args.push(col1.expr);
    args.push(col2.expr);
    assert(args@ =~= seq![col1.expr, col2.expr]);
    func("xpath_string", args)
}

/// The SQL function `array_insert` of `col1`, `col2`, `col3`, in this order.
pub fn array_insert(col1: Column, col2: Column, col3: Column) -> (c: Column)
    ensures
        is_call(c.expr, "array_insert"@, seq![col1.expr, col2.expr, col3.expr]),
{
    let mut args: Vec<Expression> = Vec::new();
    args.push(col1.expr);
    args.push(col2.expr);
    args.push(col3.expr);
    assert(args@ =~= seq![col1.expr, col2.expr, col3.expr]);
    func("array_insert", args)
}

/// The SQL function `conv` of `col1`, `col2`, `col3`, in this order.
pub fn conv(col1: Column, col2: Column, col3: Column) -> (c: Column)
    ensures
        is_call(c.expr, "conv"@, seq![col1.expr, col2.expr, col3.expr]),
{
    let mut args: Vec<Expression> = Vec::new();
    args.push(col1.expr);
    args.push(col2.expr);
    args.push(col3.expr);
    assert(args@ =~= seq![col1.expr, col2.expr, col3.expr]);
    func("conv", args)
}

/// The SQL function `convert_timezone` of `col1`, `col2`, `col3`, in this order.
pub fn convert_timezone(col1: Column, col2: Column, col3: Column) -> (c: Column)
    ensures
        is_call(c.expr, "convert_timezone"@, seq![col1.expr, col2.expr, col3.expr]),
{
    let mut args: Vec<Expression> = Vec::new();
    args.push(col1.expr);
    args.push(col2.expr);
    args.push(col3.expr);
    assert(args@ =~= seq![col1.expr, col2.expr, col3.expr]);
    func("convert_timezone", args)
}

/// The SQL function `count_min_sketch`, called with the arguments listed in the contract.
pub fn count_min_sketch(col1: Column, col2: Column, col3: Column) -> (c: Column)
    ensures
        is_call(c.expr, "count_min_sketch"@, seq![col1.expr, col2.expr, col3.expr, Expression::Literal(LiteralExpression::Long(9151685696388386553))]),
{
    let mut args: Vec<Expression> = Vec::new();
    args.push(col1.expr);
    args.push(col2.expr);
    args.push(col3.expr);
    args.push(Expression::Literal(LiteralExpression::Long(9151685696388386553)));
    assert(args@ =~= seq![col1.expr, col2.expr, col3.expr, Expression::Literal(LiteralExpression::Long(9151685696388386553))]);
    func("count_min_sketch", args)
}

/// The SQL function `lpad` of `col1`, `col2`, `col3`, in this order.
pub fn lpad(col1: Column, col2: Column, col3: Column) -> (c: Column)
    ensures
        is_call(c.expr, "lpad"@, seq![col1.expr, col2.expr, col3.expr]),
{
    let mut args: Vec<Expression> = Vec::new();
    args.push(col1.expr);
    args.push(col2.expr);
    args.push(col3.expr);
    assert(args@ =~= seq![col1.expr, col2.expr, col3.expr]);
    func("lpad", args)
}

/// The SQL function `make_date` of `col1`, `col2`, `col3`, in this order.
pub fn make_date(col1: Column, col2: Column, col3: Column) -> (c: Column)
    ensures
        is_call(c.expr, "make_date"@, seq![col1.expr, col2.expr, col3.expr]),
{
    let mut args: Vec<Expression> = Vec::new();
    args.push(col1.expr);
    args.push(col2.expr);
    args.push(col3.expr);
    assert(args@ =~= seq![col1.expr, col2.expr, col3.expr]);
    func("make_date", args)
}

/// The SQL function `nvl2` of `col1`, `col2`, `col3`, in this order.
pub fn nvl2(col1: Column, col2: Column, col3: Column) -> (c: Column)
    ensures
        is_call(c.expr, "nvl2"@, seq![col1.expr, col2.expr, col3.expr]),
{
    let mut args: Vec<Expression> = Vec::new();
    args.push(col1.expr);
    args.push(col2.expr);
    args.push(col3.expr);
    assert(args@ =~= seq![col1.expr, col2.expr, col3.expr]);
    func("nvl2", args)
}

/// The SQL function `overlay`, called with the arguments listed in the contract.
pub fn overlay(col1: Column, col2: Column, col3: Column) -> (c: Column)
    ensures
        is_call(c.expr, "overlay"@, seq![col1.expr, col2.expr, col3.expr, Expression::Literal(LiteralExpression::Integer(-1i32))]),
{
    let mut args: Vec<Expression> = Vec::new();
    args.push(col1.expr);
    args.push(col2.expr);
    args.push(col3.expr);
    args.push(Expression::Literal(LiteralExpression::Integer(-1i32)));
    assert(args@ =~= seq![col1.expr, col2.expr, col3.expr, Expression::Literal(LiteralExpression::Integer(-1i32))]);
    func("overlay", args)
}

/// The SQL function `regexp_extract` of `col1`, `col2`, `col3`, in this order.
pub fn regexp_extract(col1: Column, col2: Column, col3: Column) -> (c: Column)
    ensures
        is_call(c.expr, "regexp_extract"@, seq![col1.expr, col2.expr, col3.expr]),
{
    let mut args: Vec<Expression> = Vec::new();
    args.push(col1.expr);
    args.push(col2.expr);
    args.push(col3.expr);
    assert(args@ =~= seq![col1.expr, col2.expr, col3.expr]);
    func("regexp_extract", args)
}

/// The SQL function `regexp_replace` of `col1`, `col2`, `col3`, in this order.
pub fn regexp_replace(col1: Column, col2: Column, col3: Column) -> (c: Column)
    ensures
        is_call(c.expr, "regexp_replace"@, seq![col1.expr, col2.expr, col3.expr]),
{
    let mut args: Vec<Expression> = Vec::new();
    args.push(col1.expr);
    args.push(col2.expr);
    args.push(col3.expr);
    assert(args@ =~= seq![col1.expr, col2.expr, col3.expr]);
    func("regexp_replace", args)
}

/// The SQL function `rpad` of `col1`, `col2`, `col3`, in this order.
pub fn rpad(col1: Column, col2: Column, col3: Column) -> (c: Column)
    ensures
        is_call(c.expr, "rpad"@, seq![col1.expr, col2.expr, col3.expr]),
{
    let mut args: Vec<Expression> = Vec::new();
    args.push(col1.expr);
    args.push(col2.expr);
    args.push(col3.expr);
    assert(args@ =~= seq![col1.expr, col2.expr, col3.expr]);
    func("rpad", args)
}

/// The SQL function `slice` of `col1`, `col2`, `col3`, in this order.
pub fn slice(col1: Column, col2: Column, col3: Column) -> (c: Column)
    ensures
        is_call(c.expr, "slice"@, seq![col1.expr, col2.expr, col3.expr]),
{
    let mut args: Vec<Expression> = Vec::new();
    args.push(col1.expr);
    args.push(col2.expr);
    args.push(col3.expr);
    assert(args@ =~= seq![col1.expr, col2.expr, col3.expr]);
    func("slice", args)
}

/// The SQL function `split_part` of `col1`, `col2`, `col3`, in this order.
pub fn split_part(col1: Column, col2: Column, col3: Column) -> (c: Column)
    ensures
        is_call(c.expr, "split_part"@, seq![col1.expr, col2.expr, col3.expr]),
{
    let mut args: Vec<Expression> = Vec::new();
    args.push(col1.expr);
    args.push(col2.expr);
    args.push(col3.expr);
    assert(args@ =~= seq![col1.expr, col2.expr, col3.expr]);
    func("split_part", args)
}

/// The SQL function `substring` of `col1`, `col2`, `col3`, in this order.
pub fn substring(col1: Column, col2: Column, col3: Column) -> (c: Column)
    ensures
        is_call(c.expr, "substring"@, seq![col1.expr, col2.expr, col3.expr]),
{
    let mut args: Vec<Expression> = Vec::new();
    args.push(col1.expr);
    args.push(col2.expr);
    args.push(col3.expr);
    assert(args@ =~= seq![col1.expr, col2.expr, col3.expr]);
    func("substring", args)
}

/// The SQL function `substring_index` of `col1`, `col2`, `col3`, in this order.
pub fn substring_index(col1: Column, col2: Column, col3: Column) -> (c: Column)
    ensures
        is_call(c.expr, "substring_index"@, seq![col1.expr, col2.expr, col3.expr]),
{
    let mut args: Vec<Expression> = Vec::new();
    args.push(col1.expr);
    args.push(col2.expr);
    args.push(col3.expr);
    assert(args@ =~= seq![col1.expr, col2.expr, col3.expr]);
    func("substring_index", args)
}

/// The SQL function `timestampadd` of `col1`, `col2`, `col3`, in this order.
pub fn timestamp_add(col1: Column, col2: Column, col3: Column) -> (c: Column)
    ensures
        is_call(c.expr, "timestampadd"@, seq![col1.expr, col2.expr, col3.expr]),
{
    let mut args: Vec<Expression> = Vec::new();
    args.push(col1.expr);
    args.push(col2.expr);
    args.push(col3.expr);
    assert(args@ =~= seq![col1.expr, col2.expr, col3.expr]);
    func("timestampadd", args)
}

/// The SQL function `timestampdiff` of `col1`, `col2`, `col3`, in this order.
pub fn timestamp_diff(col1: Column, col2: Column, col3: Column) -> (c: Column)
    ensures
        is_call(c.expr, "timestampdiff"@, seq![col1.expr, col2.expr, col3.expr]),
{
    let mut args: Vec<Expression> = Vec::new();
    args.push(col1.expr);
    args.push(col2.expr);
    args.push(col3.expr);
    assert(args@ =~= seq![col1.expr, col2.expr, col3.expr]);
    func("timestampdiff", args)
}

/// The SQL function `translate` of `col1`, `col2`, `col3`, in this order.
pub fn translate(col1: Column, col2: Column, col3: Column) -> (c: Column)
    ensures
        is_call(c.expr, "translate"@, seq![col1.expr, col2.expr, col3.expr]),
{
    let mut args: Vec<Expression> = Vec::new();
    args.push(col1.expr);
    args.push(col2.expr);
    args.push(col3.expr);
    assert(args@ =~= seq![col1.expr, col2.expr, col3.expr]);
    func("translate", args)
}

/// The SQL function `try_variant_get` of `col1`, `col2`, `col3`, in this order.
pub fn try_variant_get(col1: Column, col2: Column, col3: Column) -> (c: Column)
    ensures
        is_call(c.expr, "try_variant_get"@, seq![col1.expr, col2.expr, col3.expr]),
{
    let mut args: Vec<Expression> = Vec::new();
    args.push(col1.expr);
    args.push(col2.expr);
    args.push(col3.expr);
    assert(args@ =~= seq![col1.expr, col2.expr, col3.expr]);
    func("try_variant_get", args)
}

/// The SQL function `variant_get` of `col1`, `col2`, `col3`, in this order.
pub fn variant_get(col1: Column, col2: Column, col3: Column) -> (c: Column)
    ensures
        is_call(c.expr, "variant_get"@, seq![col1.expr, col2.expr, col3.expr]),
{
    let mut args: Vec<Expression> = Vec::new();
    args.push(col1.expr);
    args.push(col2.expr);
    args.push(col3.expr);
    assert(args@ =~= seq![col1.expr, col2.expr, col3.expr]);
    func("variant_get", args)
}

/// The SQL function `width_bucket` of `col1`, `col2`, `col3`, `col4`, in this order.
pub fn width_bucket(col1: Column, col2: Column, col3: Column, col4: Column) -> (c: Column)
    ensures
        is_call(c.expr, "width_bucket"@, seq![col1.expr, col2.expr, col3.expr, col4.expr]),
{
    let mut args: Vec<Expression> = Vec::new();
    args.push(col1.expr);
    args.push(col2.expr);
    args.push(col3.expr);
    args.push(col4.expr);
    assert(args@ =~= seq![col1.expr, col2.expr, col3.expr, col4.expr]);
    func("width_bucket", args)
}

/// The SQL function `from_protobuf`, called with the arguments listed in the contract.
/// Decodes a binary protobuf message into a column using the specified message name.
pub fn from_protobuf(data: Column, messageName: &str) -> (c: Column)
    ensures
        is_call_of(c.expr, "from_protobuf"@, false, 2),
        call_arg(c.expr, 0) == data.expr,
        is_string_literal(call_arg(c.expr, 1), messageName@),
{
    let mut args: Vec<Expression> = Vec::new();
    args.push(data.expr);
    args.push(Expression::Literal(LiteralExpression::string(messageName)));
    func("from_protobuf", args)
}

/// The SQL function `from_protobuf`, called with the arguments listed in the contract.
/// Decodes a binary protobuf message into a column using the specified message name and descriptor.
pub fn from_protobuf_with_descriptor(data: Column, messageName: &str, binaryDescriptorSet: Vec<u8>) -> (c: Column)
    ensures
        is_call_of(c.expr, "from_protobuf"@, false, 3),
        call_arg(c.expr, 0) == data.expr,
        is_string_literal(call_arg(c.expr, 1), messageName@),
        call_arg(c.expr, 2) == Expression::Literal(LiteralExpression::Binary(binaryDescriptorSet)),
{
    let mut args: Vec<Expression> = Vec::new();
    args.push(data.expr);
    args.push(Expression::Literal(LiteralExpression::string(messageName)));
    args.push(Expression::Literal(LiteralExpression::Binary(binaryDescriptorSet)));
    func("from_protobuf", args)
}

/// The SQL function `from_protobuf`, called with the arguments listed in the contract.
/// Decodes a binary protobuf message into a column using the specified message name, descriptor, and options.
pub fn from_protobuf_with_descriptor_and_options(data: Column, messageName: &str, binaryDescriptorSet: Vec<u8>, options: Column) -> (c: Column)
    ensures
        is_call_of(c.expr, "from_protobuf"@, false, 4),
        call_arg(c.expr, 0) == data.expr,
        is_string_literal(call_arg(c.expr, 1), messageName@),
        call_arg(c.expr, 2) == Expression::Literal(LiteralExpression::Binary(binaryDescriptorSet)),
        call_arg(c.expr, 3) == options.expr,
{
    let mut args: Vec<Expression> = Vec::new();
    args.push(data.expr);
    args.push(Expression::Literal(LiteralExpression::string(messageName)));
    args.push(Expression::Literal(LiteralExpression::Binary(binaryDescriptorSet)));
    args.push(options.expr);
    func("from_protobuf", args)
}

/// The SQL function `from_protobuf`, called with the arguments listed in the contract.
/// Decodes a binary protobuf message into a column using the specified message name and options.
pub fn from_protobuf_with_options(data: Column, messageName: &str, options: Column) -> (c: Column)
    ensures
        is_call_of(c.expr, "from_protobuf"@, false, 3),
        call_arg(c.expr, 0) == data.expr,
        is_string_literal(call_arg(c.expr, 1), messageName@),
        call_arg(c.expr, 2) == options.expr,
{
    let mut args: Vec<Expression> = Vec::new();
    args.push(data.expr);
    args.push(Expression::Literal(LiteralExpression::string(messageName)));
    args.push(options.expr);
    func("from_protobuf", args)
}

/// The SQL function `to_protobuf`, called with the arguments listed in the contract.
/// Encodes a column into a binary protobuf message using the specified message name.
pub fn to_protobuf(data: Column, messageName: &str) -> (c: Column)
    ensures
        is_call_of(c.expr, "to_protobuf"@, false, 2),
        call_arg(c.expr, 0) == data.expr,
        is_string_literal(call_arg(c.expr, 1), messageName@),
{
    let mut args: Vec<Expression> = Vec::new();
    args.push(data.expr);
    args.push(Expression::Literal(LiteralExpression::string(messageName)));
    func("to_protobuf", args)
}

/// The SQL function `to_protobuf`, called with the arguments listed in the contract.
/// Encodes a column into a binary protobuf message using the specified message name and descriptor.
pub fn to_protobuf_with_descriptor(data: Column, messageName: &str, binaryDescriptorSet: Vec<u8>) -> (c: Column)
    ensures
        is_call_of(c.expr, "to_protobuf"@, false, 3),
        call_arg(c.expr, 0) == data.expr,
        is_string_literal(call_arg(c.expr, 1), messageName@),
        call_arg(c.expr, 2) == Expression::Literal(LiteralExpression::Binary(binaryDescriptorSet)),
{
    let mut args: Vec<Expression> = Vec::new();
    args.push(data.expr);
    args.push(Expression::Literal(LiteralExpression::string(messageName)));
    args.push(Expression::Literal(LiteralExpression::Binary(binaryDescriptorSet)));
    func("to_protobuf", args)
}

/// The SQL function `to_protobuf`, called with the arguments listed in the contract.
/// Encodes a column into a binary protobuf message using the specified message name, descriptor, and options.
pub fn to_protobuf_with_descriptor_and_options(data: Column, messageName: &str, binaryDescriptorSet: Vec<u8>, options: Column) -> (c: Column)
    ensures
        is_call_of(c.expr, "to_protobuf"@, false, 4),
        call_arg(c.expr, 0) == data.expr,
        is_string_literal(call_arg(c.expr, 1), messageName@),
        call_arg(c.expr, 2) == Expression::Literal(LiteralExpression::Binary(binaryDescriptorSet)),
        call_arg(c.expr, 3) == options.expr,
{
    let mut args: Vec<Expression> = Vec::new();
    args.push(data.expr);
    args.push(Expression::Literal(LiteralExpression::string(messageName)));
    args.push(Expression::Literal(LiteralExpression::Binary(binaryDescriptorSet)));
    args.push(options.expr);
    func("to_protobuf", args)
}

/// The SQL function `to_protobuf`, called with the arguments listed in the contract.
/// Encodes a column into a binary protobuf message using the specified message name and options.
pub fn to_protobuf_with_options(data: Column, messageName: &str, options: Column) -> (c: Column)
    ensures
        is_call_of(c.expr, "to_protobuf"@, false, 3),
        call_arg(c.expr, 0) == data.expr,
        is_string_literal(call_arg(c.expr, 1), messageName@),
        call_arg(c.expr, 2) == options.expr,
{
    let mut args: Vec<Expression> = Vec::new();
    args.push(data.expr);
    args.push(Expression::Literal(LiteralExpression::string(messageName)));
    args.push(options.expr);
    func("to_protobuf", args)
}

/// The SQL function `from_avro`, called with the arguments listed in the contract.
/// Decodes a column of binary avro data into a column using the specified JSON schema.
pub fn from_avro(data: Column, jsonFormatSchema: &str) -> (c: Column)
    ensures
        is_call_of(c.expr, "from_avro"@, false, 2),
        call_arg(c.expr, 0) == data.expr,
        is_string_literal(call_arg(c.expr, 1), jsonFormatSchema@),
{
    let mut args: Vec<Expression> = Vec::new();
    args.push(data.expr);
    args.push(Expression::Literal(LiteralExpression::string(jsonFormatSchema)));
    func("from_avro", args)
}

/// The SQL function `from_avro`, called with the arguments listed in the contract.
/// Decodes a column of binary avro data into a column using the specified JSON schema and options.
pub fn from_avro_with_options(data: Column, jsonFormatSchema: &str, options: Column) -> (c: Column)
    ensures
        is_call_of(c.expr, "from_avro"@, false, 3),
        call_arg(c.expr, 0) == data.expr,
        is_string_literal(call_arg(c.expr, 1), jsonFormatSchema@),
        call_arg(c.expr, 2) == options.expr,
{
    let mut args: Vec<Expression> = Vec::new();
    args.push(data.expr);
    args.push(Expression::Literal(LiteralExpression::string(jsonFormatSchema)));
    args.push(options.expr);
    func("from_avro", args)
}

/// The SQL function `to_avro` of `data`.
/// Encodes a column into a column of binary avro data.
pub fn to_avro(data: Column) -> (c: Column)
    ensures
        is_call(c.expr, "to_avro"@, seq![data.expr]),
{
    let mut args: Vec<Expression> = Vec::new();
    args.push(data.expr);
    assert(args@ =~= seq![data.expr]);
    func("to_avro", args)
}

/// The SQL function `to_avro`, called with the arguments listed in the contract.
/// Encodes a column into a column of binary avro data using the specified JSON schema.
pub fn to_avro_with_schema(data: Column, jsonFormatSchema: &str) -> (c: Column)
    ensures
        is_call_of(c.expr, "to_avro"@, false, 2),
        call_arg(c.expr, 0) == data.expr,
        is_string_literal(call_arg(c.expr, 1), jsonFormatSchema@),
{
    let mut args: Vec<Expression> = Vec::new();
    args.push(data.expr);
    args.push(Expression::Literal(LiteralExpression::string(jsonFormatSchema)));
    func("to_avro", args)
}

/// The SQL function `bitmap_and_agg` of `col`.
pub fn bitmap_and_agg(col: Column) -> (c: Column)
    ensures
        is_call(c.expr, "bitmap_and_agg"@, seq![col.expr]),
{
    let mut args: Vec<Expression> = Vec::new();
    args.push(col.expr);
    assert(args@ =~= seq![col.expr]);
    func("bitmap_and_agg", args)
}

/// The SQL function `chr` of `n`.
pub fn chr(n: Column) -> (c: Column)
    ensures
        is_call(c.expr, "chr"@, seq![n.expr]),
{
    let mut args: Vec<Expression> = Vec::new();
    args.push(n.expr);
    assert(args@ =~= seq![n.expr]);
    func("chr", args)
}

/// The SQL function `counter_diff` of `value`.
pub fn counter_diff(value: Column) -> (c: Column)
    ensures
        is_call(c.expr, "counter_diff"@, seq![value.expr]),
{
    let mut args: Vec<Expression> = Vec::new();
    args.push(value.expr);
    assert(args@ =~= seq![value.expr]);
    func("counter_diff", args)
}

/// The SQL function `current_path`, called with no arguments.
pub fn current_path() -> (c: Column)
    ensures
        is_call(c.expr, "current_path"@, seq![]),
{
    let args: Vec<Expression> = Vec::new();
    func("current_path", args)
}

/// The SQL function `current_time`, called with no arguments.
pub fn current_time() -> (c: Column)
    ensures
        is_call(c.expr, "current_time"@, seq![]),
{
    let args: Vec<Expression> = Vec::new();
    func("current_time", args)
}

/// The SQL function `hmac` of `key`, `message`, in this order.
pub fn hmac(key: Column, message: Column) -> (c: Column)
    ensures
        is_call(c.expr, "hmac"@, seq![key.expr, message.expr]),
{
    let mut args: Vec<Expression> = Vec::new();
    args.push(key.expr);
    args.push(message.expr);
    assert(args@ =~= seq![key.expr, message.expr]);
    func("hmac", args)
}

/// The SQL function `is_valid_variant` of `v`.
pub fn is_valid_variant(v: Column) -> (c: Column)
    ensures
        is_call(c.expr, "is_valid_variant"@, seq![v.expr]),
{
    let mut args: Vec<Expression> = Vec::new();
    args.push(v.expr);
    assert(args@ =~= seq![v.expr]);
    func("is_valid_variant", args)
}

/// The SQL function `jaro_winkler_similarity` of `left`, `right`, in this order.
pub fn jaro_winkler_similarity(left: Column, right: Column) -> (c: Column)
    ensures
        is_call(c.expr, "jaro_winkler_similarity"@, seq![left.expr, right.expr]),
{
    let mut args: Vec<Expression> = Vec::new();
    args.push(left.expr);
    args.push(right.expr);
    assert(args@ =~= seq![left.expr, right.expr]);
    func("jaro_winkler_similarity", args)
}

/// The SQL function `kll_merge_agg_bigint` of `col`.
pub fn kll_merge_agg_bigint(col: Column) -> (c: Column)
    ensures
        is_call(c.expr, "kll_merge_agg_bigint"@, seq![col.expr]),
{
    let mut args: Vec<Expression> = Vec::new();
    args.push(col.expr);
    assert(args@ =~= seq![col.expr]);
    func("kll_merge_agg_bigint", args)
}

/// The SQL function `kll_merge_agg_double` of `col`.
pub fn kll_merge_agg_double(col: Column) -> (c: Column)
    ensures
        is_call(c.expr, "kll_merge_agg_double"@, seq![col.expr]),
{
    let mut args: Vec<Expression> = Vec::new();
    args.push(col.expr);
    assert(args@ =~= seq![col.expr]);
    func("kll_merge_agg_double", args)
}

/// The SQL function `kll_merge_agg_float` of `col`.
pub fn kll_merge_agg_float(col: Column) -> (c: Column)
    ensures
        is_call(c.expr, "kll_merge_agg_float"@, seq![col.expr]),
{
    let mut args: Vec<Expression> = Vec::new();
    args.push(col.expr);
    assert(args@ =~= seq![col.expr]);
    func("kll_merge_agg_float", args)
}

/// The SQL function `kll_sketch_agg_bigint` of `col`.
pub fn kll_sketch_agg_bigint(col: Column) -> (c: Column)
    ensures
        is_call(c.expr, "kll_sketch_agg_bigint"@, seq![col.expr]),
{
    let mut args: Vec<Expression> = Vec::new();
    args.push(col.expr);
    assert(args@ =~= seq![col.expr]);
    func("kll_sketch_agg_bigint", args)
}

/// The SQL function `kll_sketch_agg_double` of `col`.
pub fn kll_sketch_agg_double(col: Column) -> (c: Column)
    ensures
        is_call(c.expr, "kll_sketch_agg_double"@, seq![col.expr]),
{
    let mut args: Vec<Expression> = Vec::new();
    args.push(col.expr);
    assert(args@ =~= seq![col.expr]);
    func("kll_sketch_agg_double", args)
}

/// The SQL function `kll_sketch_agg_float` of `col`.
pub fn kll_sketch_agg_float(col: Column) -> (c: Column)
    ensures
        is_call(c.expr, "kll_sketch_agg_float"@, seq![col.expr]),
{
    let mut args: Vec<Expression> = Vec::new();
    args.push(col.expr);
    assert(args@ =~= seq![col.expr]);
    func("kll_sketch_agg_float", args)
}

/// The SQL function `kll_sketch_get_n_bigint` of `col`.
pub fn kll_sketch_get_n_bigint(col: Column) -> (c: Column)
    ensures
        is_call(c.expr, "kll_sketch_get_n_bigint"@, seq![col.expr]),
{
    let mut args: Vec<Expression> = Vec::new();
    args.push(col.expr);
    assert(args@ =~= seq![col.expr]);
    func("kll_sketch_get_n_bigint", args)
}

/// The SQL function `kll_sketch_get_n_double` of `col`.
pub fn kll_sketch_get_n_double(col: Column) -> (c: Column)
    ensures
        is_call(c.expr, "kll_sketch_get_n_double"@, seq![col.expr]),
{
    let mut args: Vec<Expression> = Vec::new();
    args.push(col.expr);
    assert(args@ =~= seq![col.expr]);
    func("kll_sketch_get_n_double", args)
}

/// The SQL function `kll_sketch_get_n_float` of `col`.
pub fn kll_sketch_get_n_float(col: Column) -> (c: Column)
    ensures
        is_call(c.expr, "kll_sketch_get_n_float"@, seq![col.expr]),
{
    let mut args: Vec<Expression> = Vec::new();
    args.push(col.expr);
    assert(args@ =~= seq![col.expr]);
    func("kll_sketch_get_n_float", args)
}

/// The SQL function `kll_sketch_get_quantile_bigint` of `sketch`, `rank`, in this order.
pub fn kll_sketch_get_quantile_bigint(sketch: Column, rank: Column) -> (c: Column)
    ensures
        is_call(c.expr, "kll_sketch_get_quantile_bigint"@, seq![sketch.expr, rank.expr]),
{
    let mut args: Vec<Expression> = Vec::new();
    args.push(sketch.expr);
    args.push(rank.expr);
    assert(args@ =~= seq![sketch.expr, rank.expr]);
    func("kll_sketch_get_quantile_bigint", args)
}

/// The SQL function `kll_sketch_get_quantile_double` of `sketch`, `rank`, in this order.
pub fn kll_sketch_get_quantile_double(sketch: Column, rank: Column) -> (c: Column)
    ensures
        is_call(c.expr, "kll_sketch_get_quantile_double"@, seq![sketch.expr, rank.expr]),
{
    let mut args: Vec<Expression> = Vec::new();
    args.push(sketch.expr);
    args.push(rank.expr);
    assert(args@ =~= seq![sketch.expr, rank.expr]);
    func("kll_sketch_get_quantile_double", args)
}

/// The SQL function `kll_sketch_get_quantile_float` of `sketch`, `rank`, in this order.
pub fn kll_sketch_get_quantile_float(sketch: Column, rank: Column) -> (c: Column)
    ensures
        is_call(c.expr, "kll_sketch_get_quantile_float"@, seq![sketch.expr, rank.expr]),
{
    let mut args: Vec<Expression> = Vec::new();
    args.push(sketch.expr);
    args.push(rank.expr);
    assert(args@ =~= seq![sketch.expr, rank.expr]);
    func("kll_sketch_get_quantile_float", args)
}

/// The SQL function `kll_sketch_get_rank_bigint` of `sketch`, `quantile`, in this order.
pub fn kll_sketch_get_rank_bigint(sketch: Column, quantile: Column) -> (c: Column)
    ensures
        is_call(c.expr, "kll_sketch_get_rank_bigint"@, seq![sketch.expr, quantile.expr]),
{
    let mut args: Vec<Expression> = Vec::new();
    args.push(sketch.expr);
    args.push(quantile.expr);
    assert(args@ =~= seq![sketch.expr, quantile.expr]);
    func("kll_sketch_get_rank_bigint", args)
}

/// The SQL function `kll_sketch_get_rank_double` of `sketch`, `quantile`, in this order.
pub fn kll_sketch_get_rank_double(sketch: Column, quantile: Column) -> (c: Column)
    ensures
        is_call(c.expr, "kll_sketch_get_rank_double"@, seq![sketch.expr, quantile.expr]),
{
    let mut args: Vec<Expression> = Vec::new();
    args.push(sketch.expr);
    args.push(quantile.expr);
    assert(args@ =~= seq![sketch.expr, quantile.expr]);
    func("kll_sketch_get_rank_double", args)
}

/// The SQL function `kll_sketch_get_rank_float` of `sketch`, `quantile`, in this order.
pub fn kll_sketch_get_rank_float(sketch: Column, quantile: Column) -> (c: Column)
    ensures
        is_call(c.expr, "kll_sketch_get_rank_float"@, seq![sketch.expr, quantile.expr]),
{
    let mut args: Vec<Expression> = Vec::new();
    args.push(sketch.expr);
    args.push(quantile.expr);
    assert(args@ =~= seq![sketch.expr, quantile.expr]);
    func("kll_sketch_get_rank_float", args)
}

/// The SQL function `kll_sketch_merge_bigint` of `left`, `right`, in this order.
pub fn kll_sketch_merge_bigint(left: Column, right: Column) -> (c: Column)
    ensures
        is_call(c.expr, "kll_sketch_merge_bigint"@, seq![left.expr, right.expr]),
{
    let mut args: Vec<Expression> = Vec::new();
    args.push(left.expr);
    args.push(right.expr);
    assert(args@ =~= seq![left.expr, right.expr]);
    func("kll_sketch_merge_bigint", args)
}

/// The SQL function `kll_sketch_merge_double` of `left`, `right`, in this order.
pub fn kll_sketch_merge_double(left: Column, right: Column) -> (c: Column)
    ensures
        is_call(c.expr, "kll_sketch_merge_double"@, seq![left.expr, right.expr]),
{
    let mut args: Vec<Expression> = Vec::new();
    args.push(left.expr);
    args.push(right.expr);
    assert(args@ =~= seq![left.expr, right.expr]);
    func("kll_sketch_merge_double", args)
}

/// The SQL function `kll_sketch_merge_float` of `left`, `right`, in this order.
pub fn kll_sketch_merge_float(left: Column, right: Column) -> (c: Column)
    ensures
        is_call(c.expr, "kll_sketch_merge_float"@, seq![left.expr, right.expr]),
{
    let mut args: Vec<Expression> = Vec::new();
    args.push(left.expr);
    args.push(right.expr);
    assert(args@ =~= seq![left.expr, right.expr]);
    func("kll_sketch_merge_float", args)
}

/// The SQL function `kll_sketch_to_string_bigint` of `col`.
pub fn kll_sketch_to_string_bigint(col: Column) -> (c: Column)
    ensures
        is_call(c.expr, "kll_sketch_to_string_bigint"@, seq![col.expr]),
{
    let mut args: Vec<Expression> = Vec::new();
    args.push(col.expr);
    assert(args@ =~= seq![col.expr]);
    func("kll_sketch_to_string_bigint", args)
}

/// The SQL function `kll_sketch_to_string_double` of `col`.
pub fn kll_sketch_to_string_double(col: Column) -> (c: Column)
    ensures
        is_call(c.expr, "kll_sketch_to_string_double"@, seq![col.expr]),
{
    let mut args: Vec<Expression> = Vec::new();
    args.push(col.expr);
    assert(args@ =~= seq![col.expr]);
    func("kll_sketch_to_string_double", args)
}

/// The SQL function `kll_sketch_to_string_float` of `col`.
pub fn kll_sketch_to_string_float(col: Column) -> (c: Column)
    ensures
        is_call(c.expr, "kll_sketch_to_string_float"@, seq![col.expr]),
{
    let mut args: Vec<Expression> = Vec::new();
    args.push(col.expr);
    assert(args@ =~= seq![col.expr]);
    func("kll_sketch_to_string_float", args)
}

/// The SQL function `make_time` of `hour`, `minute`, `second`, in this order.
pub fn make_time(hour: Column, minute: Column, second: Column) -> (c: Column)
    ensures
        is_call(c.expr, "make_time"@, seq![hour.expr, minute.expr, second.expr]),
{
    let mut args: Vec<Expression> = Vec::new();
    args.push(hour.expr);
    args.push(minute.expr);
    args.push(second.expr);
    assert(args@ =~= seq![hour.expr, minute.expr, second.expr]);
    func("make_time", args)
}

/// The SQL function `make_timestamp` of `years`, `months`, `days`, `hours`, `mins`, `secs`, in this order.
pub fn make_timestamp(years: Column, months: Column, days: Column, hours: Column, mins: Column, secs: Column) -> (c: Column)
    ensures
        is_call(c.expr, "make_timestamp"@, seq![years.expr, months.expr, days.expr, hours.expr, mins.expr, secs.expr]),
{
    let mut args: Vec<Expression> = Vec::new();
    args.push(years.expr);
    args.push(months.expr);
    args.push(days.expr);
    args.push(hours.expr);
    args.push(mins.expr);
    args.push(secs.expr);
    assert(args@ =~= seq![years.expr, months.expr, days.expr, hours.expr, mins.expr, secs.expr]);
    func("make_timestamp", args)
}

/// The SQL function `make_timestamp_ltz` of `years`, `months`, `days`, `hours`, `mins`, `secs`, in this order.
pub fn make_timestamp_ltz(years: Column, months: Column, days: Column, hours: Column, mins: Column, secs: Column) -> (c: Column)
    ensures
        is_call(c.expr, "make_timestamp_ltz"@, seq![years.expr, months.expr, days.expr, hours.expr, mins.expr, secs.expr]),
{
    let mut args: Vec<Expression> = Vec::new();
    args.push(years.expr);
    args.push(months.expr);
    args.push(days.expr);
    args.push(hours.expr);
    args.push(mins.expr);
    args.push(secs.expr);
    assert(args@ =~= seq![years.expr, months.expr, days.expr, hours.expr, mins.expr, secs.expr]);
    func("make_timestamp_ltz", args)
}

/// The SQL function `make_timestamp_ntz` of `years`, `months`, `days`, `hours`, `mins`, `secs`, in this order.
pub fn make_timestamp_ntz(years: Column, months: Column, days: Column, hours: Column, mins: Column, secs: Column) -> (c: Column)
    ensures
        is_call(c.expr, "make_timestamp_ntz"@, seq![years.expr, months.expr, days.expr, hours.expr, mins.expr, secs.expr]),
{
    let mut args: Vec<Expression> = Vec::new();
    args.push(years.expr);
    args.push(months.expr);
    args.push(days.expr);
    args.push(hours.expr);
    args.push(mins.expr);
    args.push(secs.expr);
    assert(args@ =~= seq![years.expr, months.expr, days.expr, hours.expr, mins.expr, secs.expr]);
    func("make_timestamp_ntz", args)
}

/// The SQL function `quote` of `col`.
pub fn quote(col: Column) -> (c: Column)
    ensures
        is_call(c.expr, "quote"@, seq![col.expr]),
{
    let mut args: Vec<Expression> = Vec::new();
    args.push(col.expr);
    assert(args@ =~= seq![col.expr]);
    func("quote", args)
}

/// The SQL function `sha2`, called with the arguments listed in the contract.
pub fn sha2(col: Column, numbits: i32) -> (c: Column)
    ensures
        is_call(c.expr, "sha2"@, seq![col.expr, Expression::Literal(LiteralExpression::Integer(numbits))]),
{
    let mut args: Vec<Expression> = Vec::new();
    args.push(col.expr);
    args.push(Expression::Literal(LiteralExpression::Integer(numbits)));
    assert(args@ =~= seq![col.expr, Expression::Literal(LiteralExpression::Integer(numbits))]);
    func("sha2", args)
}

/// The SQL function `st_asbinary` of `geo`.
pub fn st_asbinary(geo: Column) -> (c: Column)
    ensures
        is_call(c.expr, "st_asbinary"@, seq![geo.expr]),
{
    let mut args: Vec<Expression> = Vec::new();
    args.push(geo.expr);
    assert(args@ =~= seq![geo.expr]);
    func("st_asbinary", args)
}

/// The SQL function `st_geogfromwkb` of `wkb`.
pub fn st_geogfromwkb(wkb: Column) -> (c: Column)
    ensures
        is_call(c.expr, "st_geogfromwkb"@, seq![wkb.expr]),
{
    let mut args: Vec<Expression> = Vec::new();
    args.push(wkb.expr);
    assert(args@ =~= seq![wkb.expr]);
    func("st_geogfromwkb", args)
}

/// The SQL function `st_geomfromwkb` of `wkb`.
pub fn st_geomfromwkb(wkb: Column) -> (c: Column)
    ensures
        is_call(c.expr, "st_geomfromwkb"@, seq![wkb.expr]),
{
    let mut args: Vec<Expression> = Vec::new();
    args.push(wkb.expr);
    assert(args@ =~= seq![wkb.expr]);
    func("st_geomfromwkb", args)
}

/// The SQL function `st_setsrid` of `geo`, `srid`, in this order.
pub fn st_setsrid(geo: Column, srid: Column) -> (c: Column)
    ensures
        is_call(c.expr, "st_setsrid"@, seq![geo.expr, srid.expr]),
{
    let mut args: Vec<Expression> = Vec::new();
    args.push(geo.expr);
    args.push(srid.expr);
    assert(args@ =~= seq![geo.expr, srid.expr]);
    func("st_setsrid", args)
}

/// The SQL function `st_srid` of `geo`.
pub fn st_srid(geo: Column) -> (c: Column)
    ensures
        is_call(c.expr, "st_srid"@, seq![geo.expr]),
{
    let mut args: Vec<Expression> = Vec::new();
    args.push(geo.expr);
    assert(args@ =~= seq![geo.expr]);
    func("st_srid", args)
}

/// The SQL function `theta_difference` of `col1`, `col2`, in this order.
pub fn theta_difference(col1: Column, col2: Column) -> (c: Column)
    ensures
        is_call(c.expr, "theta_difference"@, seq![col1.expr, col2.expr]),
{
    let mut args: Vec<Expression> = Vec::new();
    args.push(col1.expr);
    args.push(col2.expr);
    assert(args@ =~= seq![col1.expr, col2.expr]);
    func("theta_difference", args)
}

/// The SQL function `theta_intersection` of `col1`, `col2`, in this order.
pub fn theta_intersection(col1: Column, col2: Column) -> (c: Column)
    ensures
        is_call(c.expr, "theta_intersection"@, seq![col1.expr, col2.expr]),
{
    let mut args: Vec<Expression> = Vec::new();
    args.push(col1.expr);
    args.push(col2.expr);
    assert(args@ =~= seq![col1.expr, col2.expr]);
    func("theta_intersection", args)
}

/// The SQL function `theta_intersection_agg` of `col`.
pub fn theta_intersection_agg(col: Column) -> (c: Column)
    ensures
        is_call(c.expr, "theta_intersection_agg"@, seq![col.expr]),
{
    let mut args: Vec<Expression> = Vec::new();
    args.push(col.expr);
    assert(args@ =~= seq![col.expr]);
    func("theta_intersection_agg", args)
}

/// The SQL function `theta_sketch_agg` of `col`.
pub fn theta_sketch_agg(col: Column) -> (c: Column)
    ensures
        is_call(c.expr, "theta_sketch_agg"@, seq![col.expr]),
{
    let mut args: Vec<Expression> = Vec::new();
    args.push(col.expr);
    assert(args@ =~= seq![col.expr]);
    func("theta_sketch_agg", args)
}

/// The SQL function `theta_sketch_estimate` of `col`.
pub fn theta_sketch_estimate(col: Column) -> (c: Column)
    ensures
        is_call(c.expr, "theta_sketch_estimate"@, seq![col.expr]),
{
    let mut args: Vec<Expression> = Vec::new();
    args.push(col.expr);
    assert(args@ =~= seq![col.expr]);
    func("theta_sketch_estimate", args)
}

/// The SQL function `theta_union` of `col1`, `col2`, in this order.
pub fn theta_union(col1: Column, col2: Column) -> (c: Column)
    ensures
        is_call(c.expr, "theta_union"@, seq![col1.expr, col2.expr]),
{
    let mut args: Vec<Expression> = Vec::new();
    args.push(col1.expr);
    args.push(col2.expr);
    assert(args@ =~= seq![col1.expr, col2.expr]);
    func("theta_union", args)
}

/// The SQL function `theta_union_agg` of `col`.
pub fn theta_union_agg(col: Column) -> (c: Column)
    ensures
        is_call(c.expr, "theta_union_agg"@, seq![col.expr]),
{
    let mut args: Vec<Expression> = Vec::new();
    args.push(col.expr);
    assert(args@ =~= seq![col.expr]);
    func("theta_union_agg", args)
}

/// The SQL function `time_bucket` of `bucket_size`, `ts`, in this order.
pub fn time_bucket(bucket_size: Column, ts: Column) -> (c: Column)
    ensures
        is_call(c.expr, "time_bucket"@, seq![bucket_size.expr, ts.expr]),
{
    let mut args: Vec<Expression> = Vec::new();
    args.push(bucket_size.expr);
    args.push(ts.expr);
    assert(args@ =~= seq![bucket_size.expr, ts.expr]);
    func("time_bucket", args)
}

/// The SQL function `time_diff` of `unit`, `start`, `end`, in this order.
pub fn time_diff(unit: Column, start: Column, end: Column) -> (c: Column)
    ensures
        is_call(c.expr, "time_diff"@, seq![unit.expr, start.expr, end.expr]),
{
    let mut args: Vec<Expression> = Vec::new();
    args.push(unit.expr);
    args.push(start.expr);
    args.push(end.expr);
    assert(args@ =~= seq![unit.expr, start.expr, end.expr]);
    func("time_diff", args)
}

/// The SQL function `time_from_micros` of `col`.
pub fn time_from_micros(col: Column) -> (c: Column)
    ensures
        is_call(c.expr, "time_from_micros"@, seq![col.expr]),
{
    let mut args: Vec<Expression> = Vec::new();
    args.push(col.expr);
    assert(args@ =~= seq![col.expr]);
    func("time_from_micros", args)
}

/// The SQL function `time_from_millis` of `col`.
pub fn time_from_millis(col: Column) -> (c: Column)
    ensures
        is_call(c.expr, "time_from_millis"@, seq![col.expr]),
{
    let mut args: Vec<Expression> = Vec::new();
    args.push(col.expr);
    assert(args@ =~= seq![col.expr]);
    func("time_from_millis", args)
}

/// The SQL function `time_from_seconds` of `col`.
pub fn time_from_seconds(col: Column) -> (c: Column)
    ensures
        is_call(c.expr, "time_from_seconds"@, seq![col.expr]),
{
    let mut args: Vec<Expression> = Vec::new();
    args.push(col.expr);
    assert(args@ =~= seq![col.expr]);
    func("time_from_seconds", args)
}

/// The SQL function `time_to_micros` of `col`.
pub fn time_to_micros(col: Column) -> (c: Column)
    ensures
        is_call(c.expr, "time_to_micros"@, seq![col.expr]),
{
    let mut args: Vec<Expression> = Vec::new();
    args.push(col.expr);
    assert(args@ =~= seq![col.expr]);
    func("time_to_micros", args)
}

/// The SQL function `time_to_millis` of `col`.
pub fn time_to_millis(col: Column) -> (c: Column)
    ensures
        is_call(c.expr, "time_to_millis"@, seq![col.expr]),
{
    let mut args: Vec<Expression> = Vec::new();
    args.push(col.expr);
    assert(args@ =~= seq![col.expr]);
    func("time_to_millis", args)
}

/// The SQL function `time_to_seconds` of `col`.
pub fn time_to_seconds(col: Column) -> (c: Column)
    ensures
        is_call(c.expr, "time_to_seconds"@, seq![col.expr]),
{
    let mut args: Vec<Expression> = Vec::new();
    args.push(col.expr);
    assert(args@ =~= seq![col.expr]);
    func("time_to_seconds", args)
}

/// The SQL function `time_trunc` of `unit`, `time`, in this order.
pub fn time_trunc(unit: Column, time: Column) -> (c: Column)
    ensures
        is_call(c.expr, "time_trunc"@, seq![unit.expr, time.expr]),
{
    let mut args: Vec<Expression> = Vec::new();
    args.push(unit.expr);
    args.push(time.expr);
    assert(args@ =~= seq![unit.expr, time.expr]);
    func("time_trunc", args)
}

/// The SQL function `timestamp_nanos` of `col`.
pub fn timestamp_nanos(col: Column) -> (c: Column)
    ensures
        is_call(c.expr, "timestamp_nanos"@, seq![col.expr]),
{
    let mut args: Vec<Expression> = Vec::new();
    args.push(col.expr);
    assert(args@ =~= seq![col.expr]);
    func("timestamp_nanos", args)
}

/// The SQL function `to_time` of `str`.
pub fn to_time(str: Column) -> (c: Column)
    ensures
        is_call(c.expr, "to_time"@, seq![str.expr]),
{
    let mut args: Vec<Expression> = Vec::new();
    args.push(str.expr);
    assert(args@ =~= seq![str.expr]);
    func("to_time", args)
}

/// The SQL function `try_make_timestamp` of `years`, `months`, `days`, `hours`, `mins`, `secs`, in this order.
pub fn try_make_timestamp(years: Column, months: Column, days: Column, hours: Column, mins: Column, secs: Column) -> (c: Column)
    ensures
        is_call(c.expr, "try_make_timestamp"@, seq![years.expr, months.expr, days.expr, hours.expr, mins.expr, secs.expr]),
{
    let mut args: Vec<Expression> = Vec::new();
    args.push(years.expr);
    args.push(months.expr);
    args.push(days.expr);
    args.push(hours.expr);
    args.push(mins.expr);
    args.push(secs.expr);
    assert(args@ =~= seq![years.expr, months.expr, days.expr, hours.expr, mins.expr, secs.expr]);
    func("try_make_timestamp", args)
}

/// The SQL function `try_make_timestamp_ltz` of `years`, `months`, `days`, `hours`, `mins`, `secs`, in this order.
pub fn try_make_timestamp_ltz(years: Column, months: Column, days: Column, hours: Column, mins: Column, secs: Column) -> (c: Column)
    ensures
        is_call(c.expr, "try_make_timestamp_ltz"@, seq![years.expr, months.expr, days.expr, hours.expr, mins.expr, secs.expr]),
{
    let mut args: Vec<Expression> = Vec::new();
    args.push(years.expr);
    args.push(months.expr);
    args.push(days.expr);
    args.push(hours.expr);
    args.push(mins.expr);
    args.push(secs.expr);
    assert(args@ =~= seq![years.expr, months.expr, days.expr, hours.expr, mins.expr, secs.expr]);
    func("try_make_timestamp_ltz", args)
}

/// The SQL function `try_make_timestamp_ntz` of `years`, `months`, `days`, `hours`, `mins`, `secs`, in this order.
pub fn try_make_timestamp_ntz(years: Column, months: Column, days: Column, hours: Column, mins: Column, secs: Column) -> (c: Column)
    ensures
        is_call(c.expr, "try_make_timestamp_ntz"@, seq![years.expr, months.expr, days.expr, hours.expr, mins.expr, secs.expr]),
{
    let mut args: Vec<Expression> = Vec::new();
    args.push(years.expr);
    args.push(months.expr);
    args.push(days.expr);
    args.push(hours.expr);
    args.push(mins.expr);
    args.push(secs.expr);
    assert(args@ =~= seq![years.expr, months.expr, days.expr, hours.expr, mins.expr, secs.expr]);
    func("try_make_timestamp_ntz", args)
}

/// The SQL function `try_to_date` of `col`.
pub fn try_to_date(col: Column) -> (c: Column)
    ensures
        is_call(c.expr, "try_to_date"@, seq![col.expr]),
{
    let mut args: Vec<Expression> = Vec::new();
    args.push(col.expr);
    assert(args@ =~= seq![col.expr]);
    func("try_to_date", args)
}

/// The SQL function `try_to_time` of `str`.
pub fn try_to_time(str: Column) -> (c: Column)
    ensures
        is_call(c.expr, "try_to_time"@, seq![str.expr]),
{
    let mut args: Vec<Expression> = Vec::new();
    args.push(str.expr);
    assert(args@ =~= seq![str.expr]);
    func("try_to_time", args)
}

/// The SQL function `try_variant_array_append` of `v`, `path`, `value`, in this order.
pub fn try_variant_array_append(v: Column, path: Column, value: Column) -> (c: Column)
    ensures
        is_call(c.expr, "try_variant_array_append"@, seq![v.expr, path.expr, value.expr]),
{
    let mut args: Vec<Expression> = Vec::new();
    args.push(v.expr);
    args.push(path.expr);
    args.push(value.expr);
    assert(args@ =~= seq![v.expr, path.expr, value.expr]);
    func("try_variant_array_append", args)
}

/// The SQL function `try_variant_insert` of `v`, `path`, `value`, in this order.
pub fn try_variant_insert(v: Column, path: Column, value: Column) -> (c: Column)
    ensures
        is_call(c.expr, "try_variant_insert"@, seq![v.expr, path.expr, value.expr]),
{
    let mut args: Vec<Expression> = Vec::new();
    args.push(v.expr);
    args.push(path.expr);
    args.push(value.expr);
    assert(args@ =~= seq![v.expr, path.expr, value.expr]);
    func("try_variant_insert", args)
}

/// The SQL function `try_variant_set` of `v`, `path`, `value`, in this order.
pub fn try_variant_set(v: Column, path: Column, value: Column) -> (c: Column)
    ensures
        is_call(c.expr, "try_variant_set"@, seq![v.expr, path.expr, value.expr]),
{
    let mut args: Vec<Expression> = Vec::new();
    args.push(v.expr);
    args.push(path.expr);
    args.push(value.expr);
    assert(args@ =~= seq![v.expr, path.expr, value.expr]);
    func("try_variant_set", args)
}

/// The SQL function `unix_nanos` of `col`.
pub fn unix_nanos(col: Column) -> (c: Column)
    ensures
        is_call(c.expr, "unix_nanos"@, seq![col.expr]),
{
    let mut args: Vec<Expression> = Vec::new();
    args.push(col.expr);
    assert(args@ =~= seq![col.expr]);
    func("unix_nanos", args)
}

/// The SQL function `uuid`, called with the arguments listed in the contract.
pub fn uuid() -> (c: Column)
    ensures
        is_call(c.expr, "uuid"@, seq![Expression::Literal(LiteralExpression::Long(1214072022411175128))]),
{
    let mut args: Vec<Expression> = Vec::new();
    args.push(Expression::Literal(LiteralExpression::Long(1214072022411175128)));
    assert(args@ =~= seq![Expression::Literal(LiteralExpression::Long(1214072022411175128))]);
    func("uuid", args)
}

/// The SQL function `variant_array_append` of `v`, `path`, `value`, in this order.
pub fn variant_array_append(v: Column, path: Column, value: Column) -> (c: Column)
    ensures
        is_call(c.expr, "variant_array_append"@, seq![v.expr, path.expr, value.expr]),
{
    let mut args: Vec<Expression> = Vec::new();
    args.push(v.expr);
    args.push(path.expr);
    args.push(value.expr);
    assert(args@ =~= seq![v.expr, path.expr, value.expr]);
    func("variant_array_append", args)
}

/// The SQL function `variant_insert` of `v`, `path`, `value`, in this order.
pub fn variant_insert(v: Column, path: Column, value: Column) -> (c: Column)
    ensures
        is_call(c.expr, "variant_insert"@, seq![v.expr, path.expr, value.expr]),
{
    let mut args: Vec<Expression> = Vec::new();
    args.push(v.expr);
    args.push(path.expr);
    args.push(value.expr);
    assert(args@ =~= seq![v.expr, path.expr, value.expr]);
    func("variant_insert", args)
}

/// The SQL function `variant_set` of `v`, `path`, `value`, in this order.
pub fn variant_set(v: Column, path: Column, value: Column) -> (c: Column)
    ensures
        is_call(c.expr, "variant_set"@, seq![v.expr, path.expr, value.expr]),
{
    let mut args: Vec<Expression> = Vec::new();
    args.push(v.expr);
    args.push(path.expr);
    args.push(value.expr);
    assert(args@ =~= seq![v.expr, path.expr, value.expr]);
    func("variant_set", args)
}

/// The SQL function `vector_avg` of `col`.
pub fn vector_avg(col: Column) -> (c: Column)
    ensures
        is_call(c.expr, "vector_avg"@, seq![col.expr]),
{
    let mut args: Vec<Expression> = Vec::new();
    args.push(col.expr);
    assert(args@ =~= seq![col.expr]);
    func("vector_avg", args)
}

/// The SQL function `vector_cosine_similarity` of `left`, `right`, in this order.
pub fn vector_cosine_similarity(left: Column, right: Column) -> (c: Column)
    ensures
        is_call(c.expr, "vector_cosine_similarity"@, seq![left.expr, right.expr]),
{
    let mut args: Vec<Expression> = Vec::new();
    args.push(left.expr);
    args.push(right.expr);
    assert(args@ =~= seq![left.expr, right.expr]);
    func("vector_cosine_similarity", args)
}

/// The SQL function `vector_inner_product` of `left`, `right`, in this order.
pub fn vector_inner_product(left: Column, right: Column) -> (c: Column)
    ensures
        is_call(c.expr, "vector_inner_product"@, seq![left.expr, right.expr]),
{
    let mut args: Vec<Expression> = Vec::new();
    args.push(left.expr);
    args.push(right.expr);
    assert(args@ =~= seq![left.expr, right.expr]);
    func("vector_inner_product", args)
}

/// The SQL function `vector_l2_distance` of `left`, `right`, in this order.
pub fn vector_l2_distance(left: Column, right: Column) -> (c: Column)
    ensures
        is_call(c.expr, "vector_l2_distance"@, seq![left.expr, right.expr]),
{
    let mut args: Vec<Expression> = Vec::new();
    args.push(left.expr);
    args.push(right.expr);
    assert(args@ =~= seq![left.expr, right.expr]);
    func("vector_l2_distance", args)
}

/// The SQL function `vector_norm` of `vector`.
pub fn vector_norm(vector: Column) -> (c: Column)
    ensures
        is_call(c.expr, "vector_norm"@, seq![vector.expr]),
{
    let mut args: Vec<Expression> = Vec::new();
    args.push(vector.expr);
    assert(args@ =~= seq![vector.expr]);
    func("vector_norm", args)
}

/// The SQL function `vector_normalize` of `vector`.
pub fn vector_normalize(vector: Column) -> (c: Column)
    ensures
        is_call(c.expr, "vector_normalize"@, seq![vector.expr]),
{
    let mut args: Vec<Expression> = Vec::new();
    args.push(vector.expr);
    assert(args@ =~= seq![vector.expr]);
    func("vector_normalize", args)
}

/// The SQL function `vector_sum` of `col`.
pub fn vector_sum(col: Column) -> (c: Column)
    ensures
        is_call(c.expr, "vector_sum"@, seq![col.expr]),
{
    let mut args: Vec<Expression> = Vec::new();
    args.push(col.expr);
    assert(args@ =~= seq![col.expr]);
    func("vector_sum", args)
}

/// The SQL function `tuple_difference_double` of `col1`, `col2`, in this order.
pub fn tuple_difference_double(col1: Column, col2: Column) -> (c: Column)
    ensures
        is_call(c.expr, "tuple_difference_double"@, seq![col1.expr, col2.expr]),
{
    let mut args: Vec<Expression> = Vec::new();
    args.push(col1.expr);
    args.push(col2.expr);
    assert(args@ =~= seq![col1.expr, col2.expr]);
    func("tuple_difference_double", args)
}

/// The SQL function `tuple_difference_integer` of `col1`, `col2`, in this order.
pub fn tuple_difference_integer(col1: Column, col2: Column) -> (c: Column)
    ensures
        is_call(c.expr, "tuple_difference_integer"@, seq![col1.expr, col2.expr]),
{
    let mut args: Vec<Expression> = Vec::new();
    args.push(col1.expr);
    args.push(col2.expr);
    assert(args@ =~= seq![col1.expr, col2.expr]);
    func("tuple_difference_integer", args)
}

/// The SQL function `tuple_difference_theta_double` of `col1`, `col2`, in this order.
pub fn tuple_difference_theta_double(col1: Column, col2: Column) -> (c: Column)
    ensures
        is_call(c.expr, "tuple_difference_theta_double"@, seq![col1.expr, col2.expr]),
{
    let mut args: Vec<Expression> = Vec::new();
    args.push(col1.expr);
    args.push(col2.expr);
    assert(args@ =~= seq![col1.expr, col2.expr]);
    func("tuple_difference_theta_double", args)
}

/// The SQL function `tuple_difference_theta_integer` of `col1`, `col2`, in this order.
pub fn tuple_difference_theta_integer(col1: Column, col2: Column) -> (c: Column)
    ensures
        is_call(c.expr, "tuple_difference_theta_integer"@, seq![col1.expr, col2.expr]),
{
    let mut args: Vec<Expression> = Vec::new();
    args.push(col1.expr);
    args.push(col2.expr);
    assert(args@ =~= seq![col1.expr, col2.expr]);
    func("tuple_difference_theta_integer", args)
}

/// The SQL function `tuple_intersection_agg_double` of `col`.
pub fn tuple_intersection_agg_double(col: Column) -> (c: Column)
    ensures
        is_call(c.expr, "tuple_intersection_agg_double"@, seq![col.expr]),
{
    let mut args: Vec<Expression> = Vec::new();
    args.push(col.expr);
    assert(args@ =~= seq![col.expr]);
    func("tuple_intersection_agg_double", args)
}

/// The SQL function `tuple_intersection_agg_integer` of `col`.
pub fn tuple_intersection_agg_integer(col: Column) -> (c: Column)
    ensures
        is_call(c.expr, "tuple_intersection_agg_integer"@, seq![col.expr]),
{
    let mut args: Vec<Expression> = Vec::new();
    args.push(col.expr);
    assert(args@ =~= seq![col.expr]);
    func("tuple_intersection_agg_integer", args)
}

/// The SQL function `tuple_intersection_double` of `col1`, `col2`, in this order.
pub fn tuple_intersection_double(col1: Column, col2: Column) -> (c: Column)
    ensures
        is_call(c.expr, "tuple_intersection_double"@, seq![col1.expr, col2.expr]),
{
    let mut args: Vec<Expression> = Vec::new();
    args.push(col1.expr);
    args.push(col2.expr);
    assert(args@ =~= seq![col1.expr, col2.expr]);
    func("tuple_intersection_double", args)
}

/// The SQL function `tuple_intersection_integer` of `col1`, `col2`, in this order.
pub fn tuple_intersection_integer(col1: Column, col2: Column) -> (c: Column)
    ensures
        is_call(c.expr, "tuple_intersection_integer"@, seq![col1.expr, col2.expr]),
{
    let mut args: Vec<Expression> = Vec::new();
    args.push(col1.expr);
    args.push(col2.expr);
    assert(args@ =~= seq![col1.expr, col2.expr]);
    func("tuple_intersection_integer", args)
}

/// The SQL function `tuple_intersection_theta_double` of `col1`, `col2`, in this order.
pub fn tuple_intersection_theta_double(col1: Column, col2: Column) -> (c: Column)
    ensures
        is_call(c.expr, "tuple_intersection_theta_double"@, seq![col1.expr, col2.expr]),
{
    let mut args: Vec<Expression> = Vec::new();
    args.push(col1.expr);
    args.push(col2.expr);
    assert(args@ =~= seq![col1.expr, col2.expr]);
    func("tuple_intersection_theta_double", args)
}

/// The SQL function `tuple_intersection_theta_integer` of `col1`, `col2`, in this order.
pub fn tuple_intersection_theta_integer(col1: Column, col2: Column) -> (c: Column)
    ensures
        is_call(c.expr, "tuple_intersection_theta_integer"@, seq![col1.expr, col2.expr]),
{
    let mut args: Vec<Expression> = Vec::new();
    args.push(col1.expr);
    args.push(col2.expr);
    assert(args@ =~= seq![col1.expr, col2.expr]);
    func("tuple_intersection_theta_integer", args)
}

/// The SQL function `tuple_sketch_agg_double`, called with the arguments listed in the contract.
pub fn tuple_sketch_agg_double(key: Column, summary: Column) -> (c: Column)
    ensures
        is_call_of(c.expr, "tuple_sketch_agg_double"@, false, 4),
        call_arg(c.expr, 0) == key.expr,
        call_arg(c.expr, 1) == summary.expr,
        call_arg(c.expr, 2) == Expression::Literal(LiteralExpression::Integer(12)),
        is_string_literal(call_arg(c.expr, 3), "sum"@),
{
    let mut args: Vec<Expression> = Vec::new();
    args.push(key.expr);
    args.push(summary.expr);
    args.push(Expression::Literal(LiteralExpression::Integer(12)));
    args.push(Expression::Literal(LiteralExpression::string("sum")));
    func("tuple_sketch_agg_double", args)
}

/// The SQL function `tuple_sketch_agg_integer`, called with the arguments listed in the contract.
pub fn tuple_sketch_agg_integer(key: Column, summary: Column) -> (c: Column)
    ensures
        is_call_of(c.expr, "tuple_sketch_agg_integer"@, false, 4),
        call_arg(c.expr, 0) == key.expr,
        call_arg(c.expr, 1) == summary.expr,
        call_arg(c.expr, 2) == Expression::Literal(LiteralExpression::Integer(12)),
        is_string_literal(call_arg(c.expr, 3), "sum"@),
{
    let mut args: Vec<Expression> = Vec::new();
    args.push(key.expr);
    args.push(summary.expr);
    args.push(Expression::Literal(LiteralExpression::Integer(12)));
    args.push(Expression::Literal(LiteralExpression::string("sum")));
    func("tuple_sketch_agg_integer", args)
}

/// The SQL function `tuple_sketch_estimate_double` of `col`.
pub fn tuple_sketch_estimate_double(col: Column) -> (c: Column)
    ensures
        is_call(c.expr, "tuple_sketch_estimate_double"@, seq![col.expr]),
{
    let mut args: Vec<Expression> = Vec::new();
    args.push(col.expr);
    assert(args@ =~= seq![col.expr]);
    func("tuple_sketch_estimate_double", args)
}

/// The SQL function `tuple_sketch_estimate_integer` of `col`.
pub fn tuple_sketch_estimate_integer(col: Column) -> (c: Column)
    ensures
        is_call(c.expr, "tuple_sketch_estimate_integer"@, seq![col.expr]),
{
    let mut args: Vec<Expression> = Vec::new();
    args.push(col.expr);
    assert(args@ =~= seq![col.expr]);
    func("tuple_sketch_estimate_integer", args)
}

/// The SQL function `tuple_sketch_summary_double` of `col`.
pub fn tuple_sketch_summary_double(col: Column) -> (c: Column)
    ensures
        is_call(c.expr, "tuple_sketch_summary_double"@, seq![col.expr]),
{
    let mut args: Vec<Expression> = Vec::new();
    args.push(col.expr);
    assert(args@ =~= seq![col.expr]);
    func("tuple_sketch_summary_double", args)
}

/// The SQL function `tuple_sketch_summary_integer` of `col`.
pub fn tuple_sketch_summary_integer(col: Column) -> (c: Column)
    ensures
        is_call(c.expr, "tuple_sketch_summary_integer"@, seq![col.expr]),
{
    let mut args: Vec<Expression> = Vec::new();
    args.push(col.expr);
    assert(args@ =~= seq![col.expr]);
    func("tuple_sketch_summary_integer", args)
}

/// The SQL function `tuple_sketch_theta_double` of `col`.
pub fn tuple_sketch_theta_double(col: Column) -> (c: Column)
    ensures
        is_call(c.expr, "tuple_sketch_theta_double"@, seq![col.expr]),
{
    let mut args: Vec<Expression> = Vec::new();
    args.push(col.expr);
    assert(args@ =~= seq![col.expr]);
    func("tuple_sketch_theta_double", args)
}

/// The SQL function `tuple_sketch_theta_integer` of `col`.
pub fn tuple_sketch_theta_integer(col: Column) -> (c: Column)
    ensures
        is_call(c.expr, "tuple_sketch_theta_integer"@, seq![col.expr]),
{
    let mut args: Vec<Expression> = Vec::new();
    args.push(col.expr);
    assert(args@ =~= seq![col.expr]);
    func("tuple_sketch_theta_integer", args)
}

/// The SQL function `tuple_union_agg_double` of `col`.
pub fn tuple_union_agg_double(col: Column) -> (c: Column)
    ensures
        is_call(c.expr, "tuple_union_agg_double"@, seq![col.expr]),
{
    let mut args: Vec<Expression> = Vec::new();
    args.push(col.expr);
    assert(args@ =~= seq![col.expr]);
    func("tuple_union_agg_double", args)
}

/// The SQL function `tuple_union_agg_integer` of `col`.
pub fn tuple_union_agg_integer(col: Column) -> (c: Column)
    ensures
        is_call(c.expr, "tuple_union_agg_integer"@, seq![col.expr]),
{
    let mut args: Vec<Expression> = Vec::new();
    args.push(col.expr);
    assert(args@ =~= seq![col.expr]);
    func("tuple_union_agg_integer", args)
}

/// The SQL function `tuple_union_double` of `col1`, `col2`, in this order.
pub fn tuple_union_double(col1: Column, col2: Column) -> (c: Column)
    ensures
        is_call(c.expr, "tuple_union_double"@, seq![col1.expr, col2.expr]),
{
    let mut args: Vec<Expression> = Vec::new();
    args.push(col1.expr);
    args.push(col2.expr);
    assert(args@ =~= seq![col1.expr, col2.expr]);
    func("tuple_union_double", args)
}

/// The SQL function `tuple_union_integer` of `col1`, `col2`, in this order.
pub fn tuple_union_integer(col1: Column, col2: Column) -> (c: Column)
    ensures
        is_call(c.expr, "tuple_union_integer"@, seq![col1.expr, col2.expr]),
{
    let mut args: Vec<Expression> = Vec::new();
    args.push(col1.expr);
    args.push(col2.expr);
    assert(args@ =~= seq![col1.expr, col2.expr]);
    func("tuple_union_integer", args)
}

/// The SQL function `tuple_union_theta_double` of `col1`, `col2`, in this order.
pub fn tuple_union_theta_double(col1: Column, col2: Column) -> (c: Column)
    ensures
        is_call(c.expr, "tuple_union_theta_double"@, seq![col1.expr, col2.expr]),
{
    let mut args: Vec<Expression> = Vec::new();
    args.push(col1.expr);
    args.push(col2.expr);
    assert(args@ =~= seq![col1.expr, col2.expr]);
    func("tuple_union_theta_double", args)
}

/// The SQL function `tuple_union_theta_integer` of `col1`, `col2`, in this order.
pub fn tuple_union_theta_integer(col1: Column, col2: Column) -> (c: Column)
    ensures
        is_call(c.expr, "tuple_union_theta_integer"@, seq![col1.expr, col2.expr]),
{
    let mut args: Vec<Expression> = Vec::new();
    args.push(col1.expr);
    args.push(col2.expr);
    assert(args@ =~= seq![col1.expr, col2.expr]);
    func("tuple_union_theta_integer", args)
}

} // verus!
