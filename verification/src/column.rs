//! Columns: expressions composed by the builder methods of a DataFrame
//! column.

use vstd::prelude::*;
use crate::expression::{Alias, CaseWhen, Cast, CastEvalMode, CastTarget, ColumnReference,
    Expression, ExtractValue, FrameBoundary, LiteralExpression, NullOrdering, SortOrder,
    UnresolvedFunction, WindowExpressionWrapper, expr_to_msg};
use crate::proto;
use crate::text::strings_view;
use crate::types::{DataType, Float64};
use crate::window::{FrameBound, FrameType, WindowSpec};

verus! {

/// A column of a DataFrame, built from an expression.
#[derive(Debug)]
pub struct Column {
    pub expr: Expression,
}

/// `e` is a (non-distinct) call of `name` with exactly `args`.
pub open spec fn is_call(e: Expression, name: Seq<char>, args: Seq<Expression>) -> bool {
    e matches Expression::UnresolvedFunction(f) && f.name@ == name && f.args@ == args && !f.is_distinct
}

/// `e` is a string literal holding `s`.
pub open spec fn is_string_literal(e: Expression, s: Seq<char>) -> bool {
    e matches Expression::Literal(LiteralExpression::String(v)) && v@ == s
}

/// `e` is a (non-distinct) call of `name` with `first` and a string literal `s`.
pub open spec fn is_call_with_string(e: Expression, name: Seq<char>, first: Expression, s: Seq<char>) -> bool {
    &&& e matches Expression::UnresolvedFunction(f)
    &&& f.name@ == name
    &&& !f.is_distinct
    &&& f.args@.len() == 2
    &&& f.args@[0] == first
    &&& is_string_literal(f.args@[1], s)
}

/// `e` is the sort order of `child` with the given direction and null ordering.
pub open spec fn is_sort(e: Expression, child: Expression, ascending: bool, nulls: NullOrdering) -> bool {
    e == Expression::SortOrder(Box::new(SortOrder { child, ascending, null_ordering: nulls }))
}

/// The expression-level frame boundary of a window frame bound.
pub open spec fn frame_boundary_of(b: FrameBound) -> FrameBoundary {
    match b {
        FrameBound::UnboundedPreceding => FrameBoundary::UnboundedPreceding,
        FrameBound::Preceding(n) => FrameBoundary::Preceding(n),
        FrameBound::CurrentRow => FrameBoundary::CurrentRow,
        FrameBound::Following(n) => FrameBoundary::Following(n),
        FrameBound::UnboundedFollowing => FrameBoundary::UnboundedFollowing,
    }
}

/// The frame code of a frame type: 1 for rows, 2 for ranges.
pub open spec fn frame_type_code(t: FrameType) -> u32 {
    match t {
        FrameType::Row => 1,
        FrameType::Range => 2,
    }
}

/// Window frames go on the wire with the protocol's codes: row 1, range 2.
pub proof fn law_frame_type_wire_codes()
    ensures
        frame_type_code(FrameType::Row) == 1,
        frame_type_code(FrameType::Range) == 2,
{
}

fn boundary_of(b: FrameBound) -> (r: FrameBoundary)
    ensures
        r == frame_boundary_of(b),
{
    match b {
        FrameBound::UnboundedPreceding => FrameBoundary::UnboundedPreceding,
        FrameBound::Preceding(n) => FrameBoundary::Preceding(n),
        FrameBound::CurrentRow => FrameBoundary::CurrentRow,
        FrameBound::Following(n) => FrameBoundary::Following(n),
        FrameBound::UnboundedFollowing => FrameBoundary::UnboundedFollowing,
    }
}

fn call(name: &str, args: Vec<Expression>) -> (c: Column)
    ensures
        is_call(c.expr, name@, args@),
{
    Column { expr: Expression::UnresolvedFunction(UnresolvedFunction::new(name, args)) }
}

fn call1(name: &str, a: Expression) -> (c: Column)
    ensures
        is_call(c.expr, name@, seq![a]),
{
    let mut args: Vec<Expression> = Vec::new();
    args.push(a);
    call(name, args)
}

fn call2(name: &str, a: Expression, b: Expression) -> (c: Column)
    ensures
        is_call(c.expr, name@, seq![a, b]),
{
    let mut args: Vec<Expression> = Vec::new();
    args.push(a);
    args.push(b);
    assert(args@ =~= seq![a, b]);
    call(name, args)
}

fn call_with_string(name: &str, a: Expression, s: &str) -> (c: Column)
    ensures
        is_call_with_string(c.expr, name@, a, s@),
{
    call2(name, a, Expression::Literal(LiteralExpression::string(s)))
}

impl Column {
    /// A column over `expr`.
    pub fn new(expr: Expression) -> (c: Column)
        ensures
            c.expr == expr,
    {
        Column { expr }
    }

    /// The expression of this column.
    pub fn expression(&self) -> (e: &Expression)
        ensures
            *e == self.expr,
    {
        &self.expr
    }

    /// The message of this column's expression.
    pub fn to_proto(&self) -> (m: proto::Expression)
        ensures
            m@ == expr_to_msg(self.expr),
    {
        self.expr.to_proto()
    }

    /// `self AS name`.
    pub fn alias(self, name: &str) -> (c: Column)
        ensures
            c.expr matches Expression::Alias(a) && a.child == self.expr
                && strings_view(a.names@) == seq![name@] && a.metadata is None,
    {
        Column { expr: Expression::Alias(Box::new(Alias::new(self.expr, name))) }
    }

    /// Same as `alias`.
    pub fn name(self, name: &str) -> (c: Column)
        ensures
            c.expr matches Expression::Alias(a) && a.child == self.expr
                && strings_view(a.names@) == seq![name@] && a.metadata is None,
    {
        self.alias(name)
    }

    /// `CAST(self AS to_type)`.
    pub fn cast(self, to_type: DataType) -> (c: Column)
        ensures
            c.expr == Expression::Cast(Box::new(Cast { child: self.expr, target: CastTarget::Type(to_type), eval_mode: None })),
    {
        Column { expr: Expression::Cast(Box::new(Cast::new(self.expr, to_type))) }
    }

    /// Same as `cast`.
    pub fn astype(self, to_type: DataType) -> (c: Column)
        ensures
            c.expr == Expression::Cast(Box::new(Cast { child: self.expr, target: CastTarget::Type(to_type), eval_mode: None })),
    {
        self.cast(to_type)
    }

    /// A cast of `self` to the DDL type string `ddl_type`.
    pub fn cast_str(self, ddl_type: &str) -> (c: Column)
        ensures
            c.expr matches Expression::Cast(x) && x.child == self.expr && x.eval_mode is None
                && (x.target matches CastTarget::TypeStr(t) && t@ == ddl_type@),
    {
        Column { expr: Expression::Cast(Box::new(Cast::new_str(self.expr, ddl_type))) }
    }

    /// A TRY cast of `self` to `to_type`.
    pub fn try_cast(self, to_type: DataType) -> (c: Column)
        ensures
            c.expr == Expression::Cast(Box::new(Cast { child: self.expr, target: CastTarget::Type(to_type), eval_mode: Some(CastEvalMode::Try) })),
    {
        Column { expr: Expression::Cast(Box::new(Cast::new(self.expr, to_type).with_eval_mode(CastEvalMode::Try))) }
    }

    /// `isNull(self)`.
    pub fn is_null(self) -> (c: Column)
        ensures
            is_call(c.expr, "isNull"@, seq![self.expr]),
    {
        call1("isNull", self.expr)
    }

    /// `isNotNull(self)`.
    pub fn is_not_null(self) -> (c: Column)
        ensures
            is_call(c.expr, "isNotNull"@, seq![self.expr]),
    {
        call1("isNotNull", self.expr)
    }

    /// `substr(self, start, length)`.
    pub fn substr(self, start: Column, length: Column) -> (c: Column)
        ensures
            is_call(c.expr, "substr"@, seq![self.expr, start.expr, length.expr]),
    {
        let mut args: Vec<Expression> = Vec::new();
        args.push(self.expr);
        args.push(start.expr);
        args.push(length.expr);
        assert(args@ =~= seq![self.expr, start.expr, length.expr]);
        call("substr", args)
    }

    /// `like(self, pattern)`.
    pub fn like(self, pattern: &str) -> (c: Column)
        ensures
            is_call_with_string(c.expr, "like"@, self.expr, pattern@),
    {
        call_with_string("like", self.expr, pattern)
    }

    /// `rlike(self, pattern)`.
    pub fn rlike(self, pattern: &str) -> (c: Column)
        ensures
            is_call_with_string(c.expr, "rlike"@, self.expr, pattern@),
    {
        call_with_string("rlike", self.expr, pattern)
    }

    /// `contains(self, other)`.
    pub fn contains(self, other: Column) -> (c: Column)
        ensures
            is_call(c.expr, "contains"@, seq![self.expr, other.expr]),
    {
        call2("contains", self.expr, other.expr)
    }

    /// `startsWith(self, other)`.
    pub fn startswith(self, other: Column) -> (c: Column)
        ensures
            is_call(c.expr, "startsWith"@, seq![self.expr, other.expr]),
    {
        call2("startsWith", self.expr, other.expr)
    }

    /// `endsWith(self, other)`.
    pub fn endswith(self, other: Column) -> (c: Column)
        ensures
            is_call(c.expr, "endsWith"@, seq![self.expr, other.expr]),
    {
        call2("endsWith", self.expr, other.expr)
    }

    /// Ascending, nulls first.
    pub fn asc(self) -> (c: Column)
        ensures
            is_sort(c.expr, self.expr, true, NullOrdering::First),
    {
        self.asc_nulls_first()
    }

    /// Ascending, nulls first.
    pub fn asc_nulls_first(self) -> (c: Column)
        ensures
            is_sort(c.expr, self.expr, true, NullOrdering::First),
    {
        Column { expr: Expression::SortOrder(Box::new(SortOrder::asc_nulls_first(self.expr))) }
    }

    /// Ascending, nulls last.
    pub fn asc_nulls_last(self) -> (c: Column)
        ensures
            is_sort(c.expr, self.expr, true, NullOrdering::Last),
    {
        Column { expr: Expression::SortOrder(Box::new(SortOrder::asc_nulls_last(self.expr))) }
    }

    /// Descending, nulls last.
    pub fn desc(self) -> (c: Column)
        ensures
            is_sort(c.expr, self.expr, false, NullOrdering::Last),
    {
        self.desc_nulls_last()
    }

    /// Descending, nulls first.
    pub fn desc_nulls_first(self) -> (c: Column)
        ensures
            is_sort(c.expr, self.expr, false, NullOrdering::First),
    {
        Column { expr: Expression::SortOrder(Box::new(SortOrder::desc_nulls_first(self.expr))) }
    }

    /// Descending, nulls last.
    pub fn desc_nulls_last(self) -> (c: Column)
        ensures
            is_sort(c.expr, self.expr, false, NullOrdering::Last),
    {
        Column { expr: Expression::SortOrder(Box::new(SortOrder::desc_nulls_last(self.expr))) }
    }

    /// Adds the branch `WHEN condition THEN value`: to this CASE WHEN when it
    /// is one (keeping its branches and ELSE), otherwise to a new CASE WHEN
    /// that has only this branch.
    pub fn when(self, condition: Column, value: Column) -> (c: Column)
        ensures
            self.expr matches Expression::CaseWhen(old_cw) ==> (c.expr matches Expression::CaseWhen(cw)
                && cw.branches@ == old_cw.branches@.push((condition.expr, value.expr))
                && cw.else_expr == old_cw.else_expr),
            !(self.expr is CaseWhen) ==> (c.expr matches Expression::CaseWhen(cw)
                && cw.branches@ == seq![(condition.expr, value.expr)]
                && cw.else_expr is None),
    {
        match self.expr {
            Expression::CaseWhen(case_when) => {
                let CaseWhen { mut branches, else_expr } = *case_when;
                branches.push((condition.expr, value.expr));
                Column { expr: Expression::CaseWhen(Box::new(CaseWhen { branches, else_expr })) }
            },
            _ => {
                let mut branches: Vec<(Expression, Expression)> = Vec::new();
                branches.push((condition.expr, value.expr));
                Column { expr: Expression::CaseWhen(Box::new(CaseWhen { branches, else_expr: None })) }
            },
        }
    }

    /// Sets `value` as the ELSE of this CASE WHEN; any other column is
    /// returned unchanged.
    pub fn otherwise(self, value: Column) -> (c: Column)
        ensures
            self.expr matches Expression::CaseWhen(old_cw) ==> (c.expr matches Expression::CaseWhen(cw)
                && cw.branches == old_cw.branches
                && cw.else_expr == Some(Box::new(value.expr))),
            !(self.expr is CaseWhen) ==> c.expr == self.expr,
    {
        match self.expr {
            Expression::CaseWhen(case_when) => {
                let CaseWhen { branches, else_expr: _ } = *case_when;
                Column { expr: Expression::CaseWhen(Box::new(CaseWhen { branches, else_expr: Some(Box::new(value.expr)) })) }
            },
            other => Column { expr: other },
        }
    }

    /// Struct field access: `self[name]` with the field name as a string literal.
    pub fn get_field(self, name: &str) -> (c: Column)
        ensures
            c.expr matches Expression::UnresolvedExtractValue(ev) && ev.child == self.expr
                && is_string_literal(ev.extraction, name@),
    {
        let extraction = Expression::Literal(LiteralExpression::string(name));
        Column { expr: Expression::UnresolvedExtractValue(Box::new(ExtractValue::new(self.expr, extraction))) }
    }

    /// Map, array or struct extraction: `self[key]`.
    pub fn get_item(self, key: Column) -> (c: Column)
        ensures
            c.expr == Expression::UnresolvedExtractValue(Box::new(ExtractValue { child: self.expr, extraction: key.expr })),
    {
        Column { expr: Expression::UnresolvedExtractValue(Box::new(ExtractValue::new(self.expr, key.expr))) }
    }

    /// This column as a window function over `window_spec`: the window's
    /// partitioning and ordering are kept, and its frame has type code 1 for
    /// rows or 2 for ranges with both bounds carried over.
    pub fn over(self, window_spec: WindowSpec) -> (c: Column)
        ensures
            c.expr matches Expression::WindowExpression(w) && w.window_function == self.expr
                && w.partition_spec == window_spec.partition_spec
                && w.order_spec == window_spec.order_spec
                && (match window_spec.frame_spec {
                    None => w.frame_spec is None,
                    Some(f) => w.frame_spec == Some((frame_type_code(f.0), frame_boundary_of(f.1), frame_boundary_of(f.2))),
                }),
    {
        let WindowSpec { partition_spec, order_spec, frame_spec } = window_spec;
        let frame = match frame_spec {
            Some((frame_type, lower, upper)) => {
                let code: u32 = match frame_type {
                    FrameType::Row => 1,
                    FrameType::Range => 2,
                };
                Some((code, boundary_of(lower), boundary_of(upper)))
            },
            None => None,
        };
        let w = WindowExpressionWrapper::new(self.expr, partition_spec, order_spec, frame);
        Column { expr: Expression::WindowExpression(Box::new(w)) }
    }

    /// `self == other`.
    pub fn eq(self, other: Column) -> (c: Column)
        ensures
            is_call(c.expr, "=="@, seq![self.expr, other.expr]),
    {
        call2("==", self.expr, other.expr)
    }

    /// `not(self == other)`.
    pub fn ne(self, other: Column) -> (c: Column)
        ensures
            c.expr matches Expression::UnresolvedFunction(f) && f.name@ == "not"@ && !f.is_distinct
                && f.args@.len() == 1 && is_call(f.args@[0], "=="@, seq![self.expr, other.expr]),
    {
        let inner = call2("==", self.expr, other.expr);
        call1("not", inner.expr)
    }

    /// `self > other`.
    pub fn gt(self, other: Column) -> (c: Column)
        ensures
            is_call(c.expr, ">"@, seq![self.expr, other.expr]),
    {
        call2(">", self.expr, other.expr)
    }

    /// `self < other`.
    pub fn lt(self, other: Column) -> (c: Column)
        ensures
            is_call(c.expr, "<"@, seq![self.expr, other.expr]),
    {
        call2("<", self.expr, other.expr)
    }

    /// `self >= other`.
    pub fn ge(self, other: Column) -> (c: Column)
        ensures
            is_call(c.expr, ">="@, seq![self.expr, other.expr]),
    {
        call2(">=", self.expr, other.expr)
    }

    /// `self <= other`.
    pub fn le(self, other: Column) -> (c: Column)
        ensures
            is_call(c.expr, "<="@, seq![self.expr, other.expr]),
    {
        call2("<=", self.expr, other.expr)
    }

    /// `self + other`.
    pub fn add(self, other: Column) -> (c: Column)
        ensures
            is_call(c.expr, "+"@, seq![self.expr, other.expr]),
    {
        call2("+", self.expr, other.expr)
    }

    /// `self - other`.
    pub fn sub(self, other: Column) -> (c: Column)
        ensures
            is_call(c.expr, "-"@, seq![self.expr, other.expr]),
    {
        call2("-", self.expr, other.expr)
    }

    /// `self * other`.
    pub fn mul(self, other: Column) -> (c: Column)
        ensures
            is_call(c.expr, "*"@, seq![self.expr, other.expr]),
    {
        call2("*", self.expr, other.expr)
    }

    /// `self / other`.
    pub fn div(self, other: Column) -> (c: Column)
        ensures
            is_call(c.expr, "/"@, seq![self.expr, other.expr]),
    {
        call2("/", self.expr, other.expr)
    }

    /// `self % other`.
    pub fn modulo(self, other: Column) -> (c: Column)
        ensures
            is_call(c.expr, "%"@, seq![self.expr, other.expr]),
    {
        call2("%", self.expr, other.expr)
    }

    /// `self and other`.
    pub fn and(self, other: Column) -> (c: Column)
        ensures
            is_call(c.expr, "and"@, seq![self.expr, other.expr]),
    {
        call2("and", self.expr, other.expr)
    }

    /// `self or other`.
    pub fn or(self, other: Column) -> (c: Column)
        ensures
            is_call(c.expr, "or"@, seq![self.expr, other.expr]),
    {
        call2("or", self.expr, other.expr)
    }

    /// `not self`.
    pub fn not(self) -> (c: Column)
        ensures
            is_call(c.expr, "not"@, seq![self.expr]),
    {
        call1("not", self.expr)
    }

    /// `negative(self)`.
    pub fn neg(self) -> (c: Column)
        ensures
            is_call(c.expr, "negative"@, seq![self.expr]),
    {
        call1("negative", self.expr)
    }
}

/// A reference to the column `name`.
pub fn col(name: &str) -> (c: Column)
    ensures
        c.expr matches Expression::ColumnReference(r) && r.name@ == name@ && r.plan_id is None
            && !r.is_metadata_column,
{
    Column { expr: Expression::ColumnReference(ColumnReference::new(name)) }
}

/// The integer literal `value`: a 32-bit literal when the value fits in 32
/// bits (Spark's `IntegerType`), a 64-bit literal otherwise.
pub fn lit(value: i64) -> (c: Column)
    ensures
        i32::MIN <= value <= i32::MAX ==> c.expr == Expression::Literal(LiteralExpression::Integer(value as i32)),
        !(i32::MIN <= value <= i32::MAX) ==> c.expr == Expression::Literal(LiteralExpression::Long(value)),
{
    let l = if i32::MIN as i64 <= value && value <= i32::MAX as i64 {
        LiteralExpression::integer(value as i32)
    } else {
        LiteralExpression::long(value)
    };
    Column { expr: Expression::Literal(l) }
}

/// The string literal `value`.
pub fn lit_string(value: &str) -> (c: Column)
    ensures
        is_string_literal(c.expr, value@),
{
    Column { expr: Expression::Literal(LiteralExpression::string(value)) }
}

/// The double literal `value`.
pub fn lit_double(value: Float64) -> (c: Column)
    ensures
        c.expr == Expression::Literal(LiteralExpression::Double(value)),
{
    Column { expr: Expression::Literal(LiteralExpression::double(value)) }
}

/// The boolean literal `value`.
pub fn lit_boolean(value: bool) -> (c: Column)
    ensures
        c.expr == Expression::Literal(LiteralExpression::Boolean(value)),
{
    Column { expr: Expression::Literal(LiteralExpression::boolean(value)) }
}

/// Starts a CASE WHEN chain with the branch `WHEN condition THEN value`.
pub fn when(condition: Column, value: Column) -> (c: Column)
    ensures
        c.expr matches Expression::CaseWhen(cw) && cw.branches@ == seq![(condition.expr, value.expr)]
            && cw.else_expr is None,
{
    let mut branches: Vec<(Expression, Expression)> = Vec::new();
    branches.push((condition.expr, value.expr));
    Column { expr: Expression::CaseWhen(Box::new(CaseWhen::new(branches))) }
}

} // verus!
