//! The expression tree of column expressions, its text rendering (the form
//! a column's `repr` shows) and its conversion to protocol messages.

use vstd::prelude::*;
use crate::debug_text::{expr_debug, lambda_debug, lambda_var_debug, expr_debug_string, lambda_debug_string, lambda_var_debug_string};
use vstd::string::StringExecFns;
use crate::text::{int_text, nat_text, join, owned, push_nat_text, str_eq, lemma_nat_text_injective};
use crate::types::{DataType, Float32, Float64, type_simple_string};
use crate::proto;
use crate::proto::{ExpressionView, LiteralView, LiteralTypeView, SortOrderView, FrameBoundaryView, WindowFrameView, CastToTypeView, opt_string_view};
use crate::text::{strings_view, join_strings};

verus! {

/// A column expression.
#[derive(Debug)]
pub enum Expression {
    /// A constant value.
    Literal(LiteralExpression),
    /// A reference to a column by name.
    ColumnReference(ColumnReference),
    /// A call of a function by name.
    UnresolvedFunction(UnresolvedFunction),
    /// `*`, or a qualified star such as `t.*`.
    UnresolvedStar(Option<String>),
    /// An aliased expression.
    Alias(Box<Alias>),
    /// A cast.
    Cast(Box<Cast>),
    /// A child expression that evaluates to a partition id.
    DirectShufflePartitionId(Box<Expression>),
    /// A column reference by regular expression.
    UnresolvedRegex(String),
    /// A sort order.
    SortOrder(Box<SortOrder>),
    /// CASE WHEN ... THEN ... ELSE ... END.
    CaseWhen(Box<CaseWhen>),
    /// `col[key]` / field access.
    UnresolvedExtractValue(Box<ExtractValue>),
    /// Adding, replacing or dropping a struct field.
    UpdateFields(Box<UpdateFieldsExpr>),
    /// A raw SQL expression.
    SQLExpression(String),
    /// A direct function call.
    CallFunction(Box<CallFunctionWrapper>),
    /// A window function applied over a window.
    WindowExpression(Box<WindowExpressionWrapper>),
    /// A lambda function.
    LambdaFunction(Box<LambdaFunction>),
    /// A lambda variable.
    UnresolvedNamedLambdaVariable(UnresolvedNamedLambdaVariable),
}

/// A literal value.
#[derive(Debug)]
pub enum LiteralExpression {
    Null(DataType),
    Boolean(bool),
    Byte(i32),
    Short(i32),
    Integer(i32),
    Long(i64),
    Float(Float32),
    Double(Float64),
    Decimal { value: String, precision: i32, scale: i32 },
    String(String),
    Binary(Vec<u8>),
    Date(i32),
    Timestamp(i64),
    TimestampNtz(i64),
    Time { nano: i64, precision: i32 },
    Array { element_type: Box<DataType>, elements: Vec<LiteralExpression> },
}

/// A reference to a column by name.
#[derive(Debug)]
pub struct ColumnReference {
    /// The column name / unparsed identifier.
    pub name: String,
    /// The id of the plan this column is bound to; `None` for a free column.
    pub plan_id: Option<i64>,
    /// Whether this references a metadata column.
    pub is_metadata_column: bool,
}

/// `col[key]` / `getField`.
#[derive(Debug)]
pub struct ExtractValue {
    pub child: Expression,
    pub extraction: Expression,
}

/// Add/replace (`value_expression` is `Some`) or drop (`None`) a struct field.
#[derive(Debug)]
pub struct UpdateFieldsExpr {
    pub struct_expression: Expression,
    pub field_name: String,
    pub value_expression: Option<Expression>,
}

/// A function call with a name and arguments.
#[derive(Debug)]
pub struct UnresolvedFunction {
    pub name: String,
    pub args: Vec<Expression>,
    pub is_distinct: bool,
}

/// An aliased expression.
#[derive(Debug)]
pub struct Alias {
    pub child: Expression,
    pub names: Vec<String>,
    pub metadata: Option<String>,
}

/// A cast expression.
#[derive(Debug)]
pub struct Cast {
    pub child: Expression,
    pub target: CastTarget,
    pub eval_mode: Option<CastEvalMode>,
}

/// The cast target: a structured data type or a DDL type string.
#[derive(Debug)]
pub enum CastTarget {
    Type(DataType),
    TypeStr(String),
}

/// How a cast evaluates.
#[derive(Debug, Clone, Copy, PartialEq, Eq, Structural)]
pub enum CastEvalMode {
    Legacy,
    Ansi,
    Try,
}

/// A sort order expression.
#[derive(Debug)]
pub struct SortOrder {
    pub child: Expression,
    pub ascending: bool,
    pub null_ordering: NullOrdering,
}

/// Where nulls sort.
#[derive(Debug, Clone, Copy, PartialEq, Eq, Structural)]
pub enum NullOrdering {
    First,
    Last,
}

/// A CASE WHEN expression.
#[derive(Debug)]
pub struct CaseWhen {
    pub branches: Vec<(Expression, Expression)>,
    pub else_expr: Option<Box<Expression>>,
}

/// A direct call of a named function.
#[derive(Debug)]
pub struct CallFunctionWrapper {
    pub function_name: String,
    pub arguments: Vec<Expression>,
}

/// A window function with its OVER clause.
#[derive(Debug)]
pub struct WindowExpressionWrapper {
    pub window_function: Expression,
    pub partition_spec: Vec<Expression>,
    pub order_spec: Vec<SortOrder>,
    pub frame_spec: Option<(u32, FrameBoundary, FrameBoundary)>,
}

/// A boundary of a window frame.
#[derive(Debug, Clone, Copy, PartialEq, Eq, Structural)]
pub enum FrameBoundary {
    UnboundedPreceding,
    Preceding(i64),
    CurrentRow,
    Following(i64),
    UnboundedFollowing,
}

/// A lambda function with body and argument variables.
#[derive(Debug)]
pub struct LambdaFunction {
    pub function: Expression,
    pub arguments: Vec<UnresolvedNamedLambdaVariable>,
}

/// A lambda variable.
#[derive(Debug)]
pub struct UnresolvedNamedLambdaVariable {
    pub name_parts: String,
}

// ---------------------------------------------------------------------------
// Text rendering
// ---------------------------------------------------------------------------

/// The decimal texts of a list of bytes.
pub open spec fn byte_texts(s: Seq<u8>) -> Seq<Seq<char>> {
    s.map_values(|b: u8| nat_text(b as nat))
}

/// The text of a literal (its `repr`).
pub open spec fn literal_text(l: LiteralExpression) -> Seq<char>
    decreases l,
{
    match l {
        LiteralExpression::Null(_) => "NULL"@,
        LiteralExpression::Boolean(b) => if b { "true"@ } else { "false"@ },
        LiteralExpression::Byte(v) => int_text(v as int),
        LiteralExpression::Short(v) => int_text(v as int),
        LiteralExpression::Integer(v) => int_text(v as int),
        LiteralExpression::Long(v) => int_text(v as int),
        LiteralExpression::Float(f) => f.text@,
        LiteralExpression::Double(f) => f.text@,
        LiteralExpression::Decimal { value, .. } => value@,
        LiteralExpression::String(v) => v@,
        LiteralExpression::Binary(v) => "["@ + join(byte_texts(v@), ", "@) + "]"@,
        LiteralExpression::Date(v) => int_text(v as int),
        LiteralExpression::Timestamp(v) => int_text(v as int),
        LiteralExpression::TimestampNtz(v) => int_text(v as int),
        LiteralExpression::Time { nano, .. } => int_text(nano as int),
        LiteralExpression::Array { elements, .. } => "["@ + join(literal_texts(elements@), ", "@) + "]"@,
    }
}

pub open spec fn literal_texts(s: Seq<LiteralExpression>) -> Seq<Seq<char>>
    decreases s,
{
    Seq::new(s.len(), |i: int| if 0 <= i < s.len() { literal_text(s[i]) } else { Seq::empty() })
}

/// The binary operators that render infix.
pub open spec fn is_infix_op(n: Seq<char>) -> bool {
    ||| n == "+"@
    ||| n == "-"@
    ||| n == "*"@
    ||| n == "/"@
    ||| n == "%"@
    ||| n == "=="@
    ||| n == "!="@
    ||| n == "<"@
    ||| n == "<="@
    ||| n == ">"@
    ||| n == ">="@
    ||| n == "and"@
    ||| n == "or"@
    ||| n == "&"@
    ||| n == "|"@
    ||| n == "^"@
    ||| n == "<=>"@
}

/// The text of a function call: `(a op b)` for a binary operator, `(NOT a)`,
/// `(- a)` for negation, `name(a, b, ...)` otherwise.
pub open spec fn function_text(name: Seq<char>, args: Seq<Expression>) -> Seq<char>
    decreases args, 1int,
{
    if args.len() == 2 && is_infix_op(name) {
        "("@ + expr_text(args[0]) + " "@ + name + " "@ + expr_text(args[1]) + ")"@
    } else if args.len() == 1 && name == "not"@ {
        "(NOT "@ + expr_text(args[0]) + ")"@
    } else if args.len() == 1 && (name == "negative"@ || name == "negate"@) {
        "(- "@ + expr_text(args[0]) + ")"@
    } else {
        name + "("@ + join(expr_texts(args), ", "@) + ")"@
    }
}

pub open spec fn expr_texts(s: Seq<Expression>) -> Seq<Seq<char>>
    decreases s, 0int,
{
    Seq::new(s.len(), |i: int| if 0 <= i < s.len() { expr_text(s[i]) } else { Seq::empty() })
}

/// `WHEN c THEN v` for each branch.
pub open spec fn branch_texts(s: Seq<(Expression, Expression)>) -> Seq<Seq<char>>
    decreases s, 0int,
{
    Seq::new(
        s.len(),
        |i: int|
            if 0 <= i < s.len() {
                "WHEN "@ + expr_text(s[i].0) + " THEN "@ + expr_text(s[i].1)
            } else {
                Seq::empty()
            },
    )
}

/// The text of a sort order: `child ASC|DESC NULLS FIRST|LAST`.
pub open spec fn sort_text(s: SortOrder) -> Seq<char>
    decreases s, 0int,
{
    expr_text(s.child) + " "@ + (if s.ascending { "ASC"@ } else { "DESC"@ }) + " "@ + (match s.null_ordering {
        NullOrdering::First => "NULLS FIRST"@,
        NullOrdering::Last => "NULLS LAST"@,
    })
}

/// The text of a CASE WHEN: `CASE WHEN c THEN v ... [ELSE e] END`.
pub open spec fn case_when_text(c: CaseWhen) -> Seq<char>
    decreases c, 0int,
{
    join(
        seq!["CASE"@] + branch_texts(c.branches@) + (match c.else_expr {
            Some(e) => seq!["ELSE "@ + expr_text(*e)],
            None => Seq::empty(),
        }) + seq!["END"@],
        " "@,
    )
}

/// The text of a cast target.
pub open spec fn cast_target_text(t: CastTarget) -> Seq<char> {
    match t {
        CastTarget::Type(d) => type_simple_string(d@),
        CastTarget::TypeStr(s) => s@,
    }
}

/// The names of an alias: the single name, or `(a, b, ...)`.
pub open spec fn alias_names_text(names: Seq<String>) -> Seq<char> {
    if names.len() == 1 {
        names[0]@
    } else {
        "("@ + join(strings_view(names), ", "@) + ")"@
    }
}

/// The text of an expression (what a column's `repr` shows inside `Column<'...'>`).
pub open spec fn expr_text(e: Expression) -> Seq<char>
    decreases e, 0int,
{
    match e {
        Expression::Literal(l) => literal_text(l),
        Expression::ColumnReference(c) => c.name@,
        Expression::UnresolvedFunction(f) => function_text(f.name@, f.args@),
        Expression::UnresolvedStar(t) => match t {
            Some(s) => s@,
            None => "*"@,
        },
        Expression::Alias(a) => expr_text(a.child) + " AS "@ + alias_names_text(a.names@),
        Expression::Cast(c) => "CAST("@ + expr_text(c.child) + " AS "@ + cast_target_text(c.target) + ")"@,
        Expression::DirectShufflePartitionId(c) => "DIRECT_SHUFFLE_PARTITION_ID("@ + expr_text(*c) + ")"@,
        Expression::UnresolvedRegex(s) => s@,
        Expression::SortOrder(s) => sort_text(*s),
        Expression::CaseWhen(c) => case_when_text(*c),
        Expression::UnresolvedExtractValue(ev) => expr_text(ev.child) + "["@ + expr_text(ev.extraction) + "]"@,
        Expression::UpdateFields(uf) => match uf.value_expression {
            Some(v) => "update_field("@ + expr_text(uf.struct_expression) + ", "@ + uf.field_name@ + ", "@ + expr_text(v) + ")"@,
            None => "drop_field("@ + expr_text(uf.struct_expression) + ", "@ + uf.field_name@ + ")"@,
        },
        Expression::SQLExpression(s) => s@,
        Expression::CallFunction(_) => expr_debug(e),
        Expression::WindowExpression(_) => expr_debug(e),
        Expression::LambdaFunction(lf) => lambda_debug(*lf),
        Expression::UnresolvedNamedLambdaVariable(v) => lambda_var_debug(v),
    }
}

pub(crate) fn render_bytes(v: &Vec<u8>) -> (parts: Vec<String>)
    ensures
        strings_view(parts@) == byte_texts(v@),
{
    let mut parts: Vec<String> = Vec::new();
    let mut i: usize = 0;
    while i < v.len()
        invariant
            i <= v.len(),
            parts@.len() == i,
            forall|j: int| 0 <= j < i ==> #[trigger] parts@[j]@ == nat_text(v@[j] as nat),
        decreases v.len() - i,
    {
        let mut s = String::new();
        crate::text::push_nat_text(&mut s, v[i] as u64);
        assert(s@ =~= nat_text(v@[i as int] as nat));
        parts.push(s);
        i = i + 1;
    }
    assert(strings_view(parts@) =~= byte_texts(v@));
    parts
}

fn render_literals(v: &Vec<LiteralExpression>) -> (parts: Vec<String>)
    ensures
        strings_view(parts@) == literal_texts(v@),
    decreases v,
{
    let mut parts: Vec<String> = Vec::new();
    let mut i: usize = 0;
    while i < v.len()
        invariant
            i <= v.len(),
            parts@.len() == i,
            forall|j: int| 0 <= j < i ==> #[trigger] parts@[j]@ == literal_text(v@[j]),
        decreases v.len() - i,
    {
        proof {
            assert(decreases_to!(*v => v@[i as int]));
        }
        let s = v[i].render();
        parts.push(s);
        i = i + 1;
    }
    assert(strings_view(parts@) =~= literal_texts(v@));
    parts
}

impl LiteralExpression {
    /// The text of this literal (its `repr`).
    pub fn render(&self) -> (s: String)
        ensures
            s@ == literal_text(*self),
        decreases self,
    {
        proof {
            reveal_strlit("NULL");
            reveal_strlit("true");
            reveal_strlit("false");
            reveal_strlit("[");
            reveal_strlit("]");
            reveal_strlit(", ");
        }
        match self {
            LiteralExpression::Null(_) => owned("NULL"),
            LiteralExpression::Boolean(b) => if *b { owned("true") } else { owned("false") },
            LiteralExpression::Byte(v) => crate::text::int_to_text(*v as i64),
            LiteralExpression::Short(v) => crate::text::int_to_text(*v as i64),
            LiteralExpression::Integer(v) => crate::text::int_to_text(*v as i64),
            LiteralExpression::Long(v) => crate::text::int_to_text(*v),
            LiteralExpression::Float(f) => f.text.clone(),
            LiteralExpression::Double(f) => f.text.clone(),
            LiteralExpression::Decimal { value, .. } => value.clone(),
            LiteralExpression::String(v) => v.clone(),
            LiteralExpression::Binary(v) => {
                let parts = render_bytes(v);
                let inner = join_strings(&parts, ", ");
                let mut s = owned("[");
                s.append(inner.as_str());
                s.append("]");
                s
            },
            LiteralExpression::Date(v) => crate::text::int_to_text(*v as i64),
            LiteralExpression::Timestamp(v) => crate::text::int_to_text(*v),
            LiteralExpression::TimestampNtz(v) => crate::text::int_to_text(*v),
            LiteralExpression::Time { nano, .. } => crate::text::int_to_text(*nano),
            LiteralExpression::Array { elements, .. } => {
                let parts = render_literals(elements);
                let inner = join_strings(&parts, ", ");
                let mut s = owned("[");
                s.append(inner.as_str());
                s.append("]");
                s
            },
        }
    }
}

fn is_infix_name(n: &str) -> (r: bool)
    ensures
        r == is_infix_op(n@),
{
    str_eq(n, "+") || str_eq(n, "-") || str_eq(n, "*") || str_eq(n, "/") || str_eq(n, "%")
        || str_eq(n, "==") || str_eq(n, "!=") || str_eq(n, "<") || str_eq(n, "<=")
        || str_eq(n, ">") || str_eq(n, ">=") || str_eq(n, "and") || str_eq(n, "or")
        || str_eq(n, "&") || str_eq(n, "|") || str_eq(n, "^") || str_eq(n, "<=>")
}

fn render_all(v: &Vec<Expression>) -> (parts: Vec<String>)
    ensures
        strings_view(parts@) == expr_texts(v@),
    decreases v, 0int,
{
    let mut parts: Vec<String> = Vec::new();
    let mut i: usize = 0;
    while i < v.len()
        invariant
            i <= v.len(),
            parts@.len() == i,
            forall|j: int| 0 <= j < i ==> #[trigger] parts@[j]@ == expr_text(v@[j]),
        decreases v.len() - i,
    {
        proof {
            assert(decreases_to!(*v => v@[i as int]));
        }
        let s = v[i].render();
        parts.push(s);
        i = i + 1;
    }
    assert(strings_view(parts@) =~= expr_texts(v@));
    parts
}

fn render_branches(v: &Vec<(Expression, Expression)>) -> (parts: Vec<String>)
    ensures
        strings_view(parts@) == branch_texts(v@),
    decreases v, 0int,
{
    proof {
        reveal_strlit("WHEN ");
        reveal_strlit(" THEN ");
    }
    let mut parts: Vec<String> = Vec::new();
    let mut i: usize = 0;
    while i < v.len()
        invariant
            i <= v.len(),
            parts@.len() == i,
            forall|j: int| 0 <= j < i ==> #[trigger] parts@[j]@ == "WHEN "@ + expr_text(v@[j].0) + " THEN "@ + expr_text(v@[j].1),
        decreases v.len() - i,
    {
        proof {
            assert(decreases_to!(*v => v@[i as int]));
        }
        let (c, x) = &v[i];
        let mut s = owned("WHEN ");
        let cs = c.render();
        s.append(cs.as_str());
        s.append(" THEN ");
        let xs = x.render();
        s.append(xs.as_str());
        parts.push(s);
        i = i + 1;
    }
    assert(strings_view(parts@) =~= branch_texts(v@));
    parts
}

fn render_function(name: &String, args: &Vec<Expression>) -> (s: String)
    ensures
        s@ == function_text(name@, args@),
    decreases args, 1int,
{
    proof {
        reveal_strlit("(");
        reveal_strlit(")");
        reveal_strlit(" ");
        reveal_strlit("(NOT ");
        reveal_strlit("(- ");
        reveal_strlit(", ");
    }
    if args.len() == 2 && is_infix_name(name.as_str()) {
        proof {
            assert(decreases_to!(*args => args@[0]));
            assert(decreases_to!(*args => args@[1]));
        }
        let mut s = owned("(");
        let a = args[0].render();
        s.append(a.as_str());
        s.append(" ");
        s.append(name.as_str());
        s.append(" ");
        let b = args[1].render();
        s.append(b.as_str());
        s.append(")");
        return s;
    }
    if args.len() == 1 {
        proof {
            assert(decreases_to!(*args => args@[0]));
        }
        if str_eq(name.as_str(), "not") {
            let mut s = owned("(NOT ");
            let a = args[0].render();
            s.append(a.as_str());
            s.append(")");
            return s;
        }
        if str_eq(name.as_str(), "negative") || str_eq(name.as_str(), "negate") {
            let mut s = owned("(- ");
            let a = args[0].render();
            s.append(a.as_str());
            s.append(")");
            return s;
        }
    }
    let parts = render_all(args);
    let inner = join_strings(&parts, ", ");
    let mut s = name.clone();
    s.append("(");
    s.append(inner.as_str());
    s.append(")");
    s
}

impl Expression {
    /// The text of this expression, as a column's `repr` shows it: binary
    /// operators infix, `CAST(x AS t)`, `x AS y`, ...
    pub fn render(&self) -> (s: String)
        ensures
            s@ == expr_text(*self),
        decreases self, 0int,
    {
        proof {
            reveal_strlit("*");
            reveal_strlit(" AS ");
            reveal_strlit("(");
            reveal_strlit(")");
            reveal_strlit(", ");
            reveal_strlit("CAST(");
            reveal_strlit("DIRECT_SHUFFLE_PARTITION_ID(");
            reveal_strlit("[");
            reveal_strlit("]");
            reveal_strlit("update_field(");
            reveal_strlit("drop_field(");
        }
        match self {
            Expression::Literal(l) => l.render(),
            Expression::ColumnReference(c) => c.name.clone(),
            Expression::UnresolvedFunction(f) => render_function(&f.name, &f.args),
            Expression::UnresolvedStar(t) => match t {
                Some(x) => x.clone(),
                None => owned("*"),
            },
            Expression::Alias(a) => {
                let mut s = a.child.render();
                s.append(" AS ");
                if a.names.len() == 1 {
                    s.append(a.names[0].as_str());
                } else {
                    let inner = join_strings(&a.names, ", ");
                    s.append("(");
                    s.append(inner.as_str());
                    s.append(")");
                }
                s
            },
            Expression::Cast(c) => {
                let mut s = owned("CAST(");
                let cs = c.child.render();
                s.append(cs.as_str());
                s.append(" AS ");
                match &c.target {
                    CastTarget::Type(d) => {
                        let t = d.simple_string();
                        s.append(t.as_str());
                    },
                    CastTarget::TypeStr(t) => {
                        s.append(t.as_str());
                    },
                }
                s.append(")");
                s
            },
            Expression::DirectShufflePartitionId(c) => {
                let mut s = owned("DIRECT_SHUFFLE_PARTITION_ID(");
                let cs = c.render();
                s.append(cs.as_str());
                s.append(")");
                s
            },
            Expression::UnresolvedRegex(x) => x.clone(),
            Expression::SortOrder(so) => so.render(),
            Expression::CaseWhen(cw) => cw.render(),
            Expression::UnresolvedExtractValue(ev) => {
                let mut s = ev.child.render();
                s.append("[");
                let x = ev.extraction.render();
                s.append(x.as_str());
                s.append("]");
                s
            },
            Expression::UpdateFields(uf) => {
                match &uf.value_expression {
                    Some(v) => {
                        let mut s = owned("update_field(");
                        let a = uf.struct_expression.render();
                        s.append(a.as_str());
                        s.append(", ");
                        s.append(uf.field_name.as_str());
                        s.append(", ");
                        let b = v.render();
                        s.append(b.as_str());
                        s.append(")");
                        s
                    },
                    None => {
                        let mut s = owned("drop_field(");
                        let a = uf.struct_expression.render();
                        s.append(a.as_str());
                        s.append(", ");
                        s.append(uf.field_name.as_str());
                        s.append(")");
                        s
                    },
                }
            },
            Expression::SQLExpression(x) => x.clone(),
            Expression::CallFunction(_) => expr_debug_string(self),
            Expression::WindowExpression(_) => expr_debug_string(self),
            Expression::LambdaFunction(lf) => lambda_debug_string(lf),
            Expression::UnresolvedNamedLambdaVariable(v) => lambda_var_debug_string(v),
        }
    }
}

impl UnresolvedFunction {
    /// The text of this call: infix for binary operators, prefixed for
    /// `not`/negation, `name(args)` otherwise.
    pub fn render(&self) -> (s: String)
        ensures
            s@ == function_text(self.name@, self.args@),
    {
        render_function(&self.name, &self.args)
    }
}

impl SortOrder {
    /// The text of this sort order: `child ASC|DESC NULLS FIRST|LAST`.
    pub fn render(&self) -> (s: String)
        ensures
            s@ == sort_text(*self),
        decreases self, 0int,
    {
        proof {
            reveal_strlit(" ");
            reveal_strlit("ASC");
            reveal_strlit("DESC");
            reveal_strlit("NULLS FIRST");
            reveal_strlit("NULLS LAST");
        }
        let mut s = self.child.render();
        s.append(" ");
        if self.ascending {
            s.append("ASC");
        } else {
            s.append("DESC");
        }
        s.append(" ");
        match self.null_ordering {
            NullOrdering::First => s.append("NULLS FIRST"),
            NullOrdering::Last => s.append("NULLS LAST"),
        }
        s
    }
}

impl CaseWhen {
    /// The text of this CASE WHEN: `CASE WHEN c THEN v ... [ELSE e] END`.
    pub fn render(&self) -> (s: String)
        ensures
            s@ == case_when_text(*self),
        decreases self, 0int,
    {
        proof {
            reveal_strlit("CASE");
            reveal_strlit("ELSE ");
            reveal_strlit("END");
            reveal_strlit(" ");
        }
        let mut parts: Vec<String> = Vec::new();
        parts.push(owned("CASE"));
        let branches = render_branches(&self.branches);
        let ghost bt = strings_view(branches@);
        let mut i: usize = 0;
        while i < branches.len()
            invariant
                i <= branches.len(),
                bt == strings_view(branches@),
                strings_view(parts@) =~= seq!["CASE"@] + bt.take(i as int),
            decreases branches.len() - i,
        {
            let ghost before = strings_view(parts@);
            parts.push(branches[i].clone());
            proof {
                assert(strings_view(parts@) =~= before.push(bt[i as int]));
                assert(bt.take(i + 1) =~= bt.take(i as int).push(bt[i as int]));
            }
            i = i + 1;
        }
        assert(bt.take(branches.len() as int) =~= bt);
        let ghost before_else = strings_view(parts@);
        match &self.else_expr {
            Some(e) => {
                let mut x = owned("ELSE ");
                let es = e.render();
                x.append(es.as_str());
                parts.push(x);
            },
            None => {},
        }
        parts.push(owned("END"));
        let r = join_strings(&parts, " ");
        assert(strings_view(parts@) =~= seq!["CASE"@] + branch_texts(self.branches@) + (match self.else_expr {
            Some(e) => seq!["ELSE "@ + expr_text(*e)],
            None => Seq::empty(),
        }) + seq!["END"@]);
        r
    }
}

// ---------------------------------------------------------------------------
// Conversion to protocol messages
// ---------------------------------------------------------------------------

/// The literal message of a literal.
pub open spec fn literal_to_msg(l: LiteralExpression) -> LiteralView
    decreases l,
{
    LiteralView {
        literal_type: Some(
            match l {
                LiteralExpression::Null(d) => LiteralTypeView::Null(d@),
                LiteralExpression::Boolean(b) => LiteralTypeView::Boolean(b),
                LiteralExpression::Byte(v) => LiteralTypeView::Byte(v),
                LiteralExpression::Short(v) => LiteralTypeView::Short(v),
                LiteralExpression::Integer(v) => LiteralTypeView::Integer(v),
                LiteralExpression::Long(v) => LiteralTypeView::Long(v),
                LiteralExpression::Float(f) => LiteralTypeView::Float(f@),
                LiteralExpression::Double(f) => LiteralTypeView::Double(f@),
                LiteralExpression::Decimal { value, precision, scale } => LiteralTypeView::Decimal {
                    value: value@,
                    precision: Some(precision),
                    scale: Some(scale),
                },
                LiteralExpression::String(v) => LiteralTypeView::String(v@),
                LiteralExpression::Binary(v) => LiteralTypeView::Binary(v@),
                LiteralExpression::Date(v) => LiteralTypeView::Date(v),
                LiteralExpression::Timestamp(v) => LiteralTypeView::Timestamp(v),
                LiteralExpression::TimestampNtz(v) => LiteralTypeView::TimestampNtz(v),
                LiteralExpression::Time { nano, precision } => LiteralTypeView::Time {
                    nano,
                    precision: Some(precision),
                },
                LiteralExpression::Array { elements, .. } => LiteralTypeView::Array {
                    elements: literals_to_msgs(elements@),
                },
            },
        ),
    }
}

pub open spec fn literals_to_msgs(s: Seq<LiteralExpression>) -> Seq<LiteralView>
    decreases s,
{
    Seq::new(s.len(), |i: int| if 0 <= i < s.len() { literal_to_msg(s[i]) } else { arbitrary() })
}

/// The wire code of a cast evaluation mode (0 when unset).
pub open spec fn eval_mode_code(m: Option<CastEvalMode>) -> i32 {
    match m {
        None => 0,
        Some(CastEvalMode::Legacy) => 1,
        Some(CastEvalMode::Ansi) => 2,
        Some(CastEvalMode::Try) => 3,
    }
}

/// Cast evaluation modes go on the wire with the protocol's codes: none 0
/// (unspecified), legacy 1, ANSI 2, try 3.
pub proof fn law_eval_mode_wire_codes()
    ensures
        eval_mode_code(None) == 0,
        eval_mode_code(Some(CastEvalMode::Legacy)) == 1,
        eval_mode_code(Some(CastEvalMode::Ansi)) == 2,
        eval_mode_code(Some(CastEvalMode::Try)) == 3,
{
}

/// The message of a window frame boundary: both unbounded ends map to
/// `unbounded`, a row offset to a long literal holding the offset.
pub open spec fn boundary_to_msg(b: FrameBoundary) -> FrameBoundaryView {
    match b {
        FrameBoundary::UnboundedPreceding => FrameBoundaryView::Unbounded,
        FrameBoundary::UnboundedFollowing => FrameBoundaryView::Unbounded,
        FrameBoundary::CurrentRow => FrameBoundaryView::CurrentRow,
        FrameBoundary::Preceding(n) => FrameBoundaryView::Value(Box::new(ExpressionView::Literal(literal_to_msg(LiteralExpression::Long(n))))),
        FrameBoundary::Following(n) => FrameBoundaryView::Value(Box::new(ExpressionView::Literal(literal_to_msg(LiteralExpression::Long(n))))),
    }
}

/// The message of a sort order: direction 1 ascending / 2 descending,
/// null ordering 1 first / 2 last.
pub open spec fn sort_to_msg(s: SortOrder) -> SortOrderView
    decreases s, 0int,
{
    SortOrderView {
        child: Box::new(expr_to_msg(s.child)),
        direction: if s.ascending { 1 } else { 2 },
        null_ordering: match s.null_ordering {
            NullOrdering::First => 1,
            NullOrdering::Last => 2,
        },
    }
}

/// A sort order goes on the wire with direction 1 when ascending and 2 when
/// descending, and null ordering 1 for nulls first and 2 for nulls last; a
/// sort expression's message is that sort-order message.
pub proof fn law_sort_order_wire_codes(s: SortOrder)
    ensures
        sort_to_msg(s).direction == 1 <==> s.ascending,
        sort_to_msg(s).direction == 2 <==> !s.ascending,
        sort_to_msg(s).null_ordering == 1 <==> s.null_ordering == NullOrdering::First,
        sort_to_msg(s).null_ordering == 2 <==> s.null_ordering == NullOrdering::Last,
        expr_to_msg(Expression::SortOrder(Box::new(s))) == ExpressionView::SortOrder(sort_to_msg(s)),
{
}

pub open spec fn exprs_to_msgs(s: Seq<Expression>) -> Seq<ExpressionView>
    decreases s, 0int,
{
    Seq::new(s.len(), |i: int| if 0 <= i < s.len() { expr_to_msg(s[i]) } else { arbitrary() })
}

pub open spec fn sorts_to_msgs(s: Seq<SortOrder>) -> Seq<SortOrderView>
    decreases s, 0int,
{
    Seq::new(s.len(), |i: int| if 0 <= i < s.len() { sort_to_msg(s[i]) } else { arbitrary() })
}

/// The condition and value of each branch, in order.
pub open spec fn branch_args(s: Seq<(Expression, Expression)>) -> Seq<ExpressionView>
    decreases s, 0int,
{
    if s.len() == 0 {
        Seq::empty()
    } else {
        branch_args(s.drop_last()) + seq![expr_to_msg(s.last().0), expr_to_msg(s.last().1)]
    }
}

/// The arguments of the `when` call a CASE WHEN becomes: every branch's
/// condition and value, then the ELSE value if present.
pub open spec fn case_when_args(c: CaseWhen) -> Seq<ExpressionView>
    decreases c, 0int,
{
    branch_args(c.branches@) + match c.else_expr {
        Some(e) => seq![expr_to_msg(*e)],
        None => Seq::empty(),
    }
}

/// The names of a list of lambda variables.
pub open spec fn lambda_var_names(s: Seq<UnresolvedNamedLambdaVariable>) -> Seq<Seq<char>> {
    s.map_values(|v: UnresolvedNamedLambdaVariable| v.name_parts@)
}

/// The protocol message of an expression.
pub open spec fn expr_to_msg(e: Expression) -> ExpressionView
    decreases e, 0int,
{
    match e {
        Expression::Literal(l) => ExpressionView::Literal(literal_to_msg(l)),
        Expression::ColumnReference(c) => ExpressionView::UnresolvedAttribute {
            unparsed_identifier: c.name@,
            plan_id: c.plan_id,
            is_metadata_column: Some(c.is_metadata_column),
        },
        Expression::UnresolvedFunction(f) => ExpressionView::UnresolvedFunction {
            function_name: f.name@,
            arguments: exprs_to_msgs(f.args@),
            is_distinct: f.is_distinct,
        },
        Expression::UnresolvedStar(t) => ExpressionView::UnresolvedStar {
            unparsed_target: opt_string_view(t),
            plan_id: None,
        },
        Expression::Alias(a) => ExpressionView::Alias {
            expr: Box::new(expr_to_msg(a.child)),
            name: strings_view(a.names@),
            metadata: opt_string_view(a.metadata),
        },
        Expression::Cast(c) => ExpressionView::Cast {
            expr: Box::new(expr_to_msg(c.child)),
            cast_to_type: match c.target {
                CastTarget::Type(d) => CastToTypeView::Type(d@),
                CastTarget::TypeStr(t) => CastToTypeView::TypeStr(t@),
            },
            eval_mode: eval_mode_code(c.eval_mode),
        },
        Expression::DirectShufflePartitionId(c) => ExpressionView::DirectShufflePartitionId {
            child: Box::new(expr_to_msg(*c)),
        },
        Expression::UnresolvedRegex(x) => ExpressionView::UnresolvedRegex { col_name: x@, plan_id: None },
        Expression::SortOrder(so) => ExpressionView::SortOrder(sort_to_msg(*so)),
        Expression::CaseWhen(cw) => ExpressionView::UnresolvedFunction {
            function_name: "when"@,
            arguments: case_when_args(*cw),
            is_distinct: false,
        },
        Expression::UnresolvedExtractValue(ev) => ExpressionView::UnresolvedExtractValue {
            child: Box::new(expr_to_msg(ev.child)),
            extraction: Box::new(expr_to_msg(ev.extraction)),
        },
        Expression::UpdateFields(uf) => ExpressionView::UpdateFields {
            struct_expression: Box::new(expr_to_msg(uf.struct_expression)),
            field_name: uf.field_name@,
            value_expression: match uf.value_expression {
                Some(v) => Some(Box::new(expr_to_msg(v))),
                None => None,
            },
        },
        Expression::SQLExpression(x) => ExpressionView::ExpressionString { expression: x@ },
        Expression::CallFunction(cf) => ExpressionView::CallFunction {
            function_name: cf.function_name@,
            arguments: exprs_to_msgs(cf.arguments@),
        },
        Expression::WindowExpression(w) => ExpressionView::Window {
            window_function: Box::new(expr_to_msg(w.window_function)),
            partition_spec: exprs_to_msgs(w.partition_spec@),
            order_spec: sorts_to_msgs(w.order_spec@),
            frame_spec: match w.frame_spec {
                Some(f) => Some(WindowFrameView {
                    frame_type: f.0 as i32,
                    lower: boundary_to_msg(f.1),
                    upper: boundary_to_msg(f.2),
                }),
                None => None,
            },
        },
        Expression::LambdaFunction(lf) => ExpressionView::LambdaFunction {
            function: Box::new(expr_to_msg(lf.function)),
            arguments: lambda_var_names(lf.arguments@),
        },
        Expression::UnresolvedNamedLambdaVariable(v) => ExpressionView::UnresolvedNamedLambdaVariable {
            name_parts: seq![v.name_parts@],
        },
    }
}

pub(crate) fn copy_strings(v: &Vec<String>) -> (r: Vec<String>)
    ensures
        strings_view(r@) == strings_view(v@),
{
    let mut r: Vec<String> = Vec::new();
    let mut i: usize = 0;
    while i < v.len()
        invariant
            i <= v.len(),
            r@.len() == i,
            forall|j: int| 0 <= j < i ==> #[trigger] r@[j]@ == v@[j]@,
        decreases v.len() - i,
    {
        r.push(v[i].clone());
        i = i + 1;
    }
    assert(strings_view(r@) =~= strings_view(v@));
    r
}

pub(crate) fn copy_opt_string(s: &Option<String>) -> (r: Option<String>)
    ensures
        opt_string_view(r) == opt_string_view(*s),
{
    match s {
        Some(x) => Some(x.clone()),
        None => None,
    }
}

pub(crate) fn literals_to_proto(v: &Vec<LiteralExpression>) -> (r: Vec<proto::Literal>)
    ensures
        proto::literals_view(r@) == literals_to_msgs(v@),
    decreases v,
{
    let mut r: Vec<proto::Literal> = Vec::new();
    let mut i: usize = 0;
    while i < v.len()
        invariant
            i <= v.len(),
            r@.len() == i,
            forall|j: int| 0 <= j < i ==> #[trigger] r@[j]@ == literal_to_msg(v@[j]),
        decreases v.len() - i,
    {
        proof {
            assert(decreases_to!(*v => v@[i as int]));
        }
        let m = v[i].to_literal_msg();
        r.push(m);
        i = i + 1;
    }
    assert forall|j: int| 0 <= j < r@.len() implies #[trigger] proto::literals_view(r@)[j] == literals_to_msgs(v@)[j] by {
        assert(r@[j]@ == literal_to_msg(v@[j]));
    }
    assert(proto::literals_view(r@) =~= literals_to_msgs(v@));
    r
}

impl LiteralExpression {
    /// The literal message of this literal.
    pub fn to_literal_msg(&self) -> (m: proto::Literal)
        ensures
            m@ == literal_to_msg(*self),
        decreases self,
    {
        let t = match self {
            LiteralExpression::Null(d) => proto::LiteralType::Null(d.copy()),
            LiteralExpression::Boolean(b) => proto::LiteralType::Boolean(*b),
            LiteralExpression::Byte(v) => proto::LiteralType::Byte(*v),
            LiteralExpression::Short(v) => proto::LiteralType::Short(*v),
            LiteralExpression::Integer(v) => proto::LiteralType::Integer(*v),
            LiteralExpression::Long(v) => proto::LiteralType::Long(*v),
            LiteralExpression::Float(f) => proto::LiteralType::Float(f.copy()),
            LiteralExpression::Double(f) => proto::LiteralType::Double(f.copy()),
            LiteralExpression::Decimal { value, precision, scale } => proto::LiteralType::Decimal {
                value: value.clone(),
                precision: Some(*precision),
                scale: Some(*scale),
            },
            LiteralExpression::String(v) => proto::LiteralType::String(v.clone()),
            LiteralExpression::Binary(v) => proto::LiteralType::Binary(proto::bytes_copy_from_slice(v.as_slice())),
            LiteralExpression::Date(v) => proto::LiteralType::Date(*v),
            LiteralExpression::Timestamp(v) => proto::LiteralType::Timestamp(*v),
            LiteralExpression::TimestampNtz(v) => proto::LiteralType::TimestampNtz(*v),
            LiteralExpression::Time { nano, precision } => proto::LiteralType::Time {
                nano: *nano,
                precision: Some(*precision),
            },
            LiteralExpression::Array { elements, .. } => proto::LiteralType::Array {
                elements: literals_to_proto(elements),
            },
        };
        proto::Literal { literal_type: Some(t) }
    }

    /// The expression message of this literal.
    pub fn to_proto(&self) -> (m: proto::Expression)
        ensures
            m@ == ExpressionView::Literal(literal_to_msg(*self)),
    {
        proto::Expression::Literal(self.to_literal_msg())
    }
}

pub(crate) fn exprs_to_proto(v: &Vec<Expression>) -> (r: Vec<proto::Expression>)
    ensures
        proto::expr_msgs_view(r@) == exprs_to_msgs(v@),
    decreases v, 0int,
{
    let mut r: Vec<proto::Expression> = Vec::new();
    let mut i: usize = 0;
    while i < v.len()
        invariant
            i <= v.len(),
            r@.len() == i,
            forall|j: int| 0 <= j < i ==> #[trigger] r@[j]@ == expr_to_msg(v@[j]),
        decreases v.len() - i,
    {
        proof {
            assert(decreases_to!(*v => v@[i as int]));
        }
        let m = v[i].to_proto();
        r.push(m);
        i = i + 1;
    }
    assert forall|j: int| 0 <= j < r@.len() implies #[trigger] proto::expr_msgs_view(r@)[j] == exprs_to_msgs(v@)[j] by {
        assert(r@[j]@ == expr_to_msg(v@[j]));
    }
    assert(proto::expr_msgs_view(r@) =~= exprs_to_msgs(v@));
    r
}

pub(crate) fn sorts_to_proto(v: &Vec<SortOrder>) -> (r: Vec<proto::SortOrder>)
    ensures
        proto::sort_msgs_view(r@) == sorts_to_msgs(v@),
    decreases v, 0int,
{
    let mut r: Vec<proto::SortOrder> = Vec::new();
    let mut i: usize = 0;
    while i < v.len()
        invariant
            i <= v.len(),
            r@.len() == i,
            forall|j: int| 0 <= j < i ==> #[trigger] r@[j]@ == sort_to_msg(v@[j]),
        decreases v.len() - i,
    {
        proof {
            assert(decreases_to!(*v => v@[i as int]));
        }
        let m = v[i].to_proto_sort_order();
        r.push(m);
        i = i + 1;
    }
    assert forall|j: int| 0 <= j < r@.len() implies #[trigger] proto::sort_msgs_view(r@)[j] == sorts_to_msgs(v@)[j] by {
        assert(r@[j]@ == sort_to_msg(v@[j]));
    }
    assert(proto::sort_msgs_view(r@) =~= sorts_to_msgs(v@));
    r
}

fn branches_to_proto(v: &Vec<(Expression, Expression)>) -> (r: Vec<proto::Expression>)
    ensures
        proto::expr_msgs_view(r@) == branch_args(v@),
    decreases v, 0int,
{
    let mut r: Vec<proto::Expression> = Vec::new();
    let mut i: usize = 0;
    while i < v.len()
        invariant
            i <= v.len(),
            proto::expr_msgs_view(r@) == branch_args(v@.take(i as int)),
        decreases v.len() - i,
    {
        proof {
            assert(decreases_to!(*v => v@[i as int]));
        }
        let ghost before = proto::expr_msgs_view(r@);
        let (c, x) = &v[i];
        let cm = c.to_proto();
        let xm = x.to_proto();
        r.push(cm);
        r.push(xm);
        proof {
            assert(v@.take(i + 1).drop_last() =~= v@.take(i as int));
            assert(proto::expr_msgs_view(r@) =~= before + seq![expr_to_msg(v@[i as int].0), expr_to_msg(v@[i as int].1)]);
        }
        i = i + 1;
    }
    assert(v@.take(v.len() as int) =~= v@);
    r
}

fn to_proto_frame_boundary(b: &FrameBoundary) -> (m: proto::FrameBoundary)
    ensures
        proto::boundary_msg_view(m) == boundary_to_msg(*b),
{
    match b {
        FrameBoundary::UnboundedPreceding => proto::FrameBoundary::Unbounded,
        FrameBoundary::UnboundedFollowing => proto::FrameBoundary::Unbounded,
        FrameBoundary::CurrentRow => proto::FrameBoundary::CurrentRow,
        FrameBoundary::Preceding(n) => proto::FrameBoundary::Value(Box::new(LiteralExpression::Long(*n).to_proto())),
        FrameBoundary::Following(n) => proto::FrameBoundary::Value(Box::new(LiteralExpression::Long(*n).to_proto())),
    }
}

fn lambda_names(v: &Vec<UnresolvedNamedLambdaVariable>) -> (r: Vec<String>)
    ensures
        strings_view(r@) == lambda_var_names(v@),
{
    let mut r: Vec<String> = Vec::new();
    let mut i: usize = 0;
    while i < v.len()
        invariant
            i <= v.len(),
            r@.len() == i,
            forall|j: int| 0 <= j < i ==> #[trigger] r@[j]@ == v@[j].name_parts@,
        decreases v.len() - i,
    {
        r.push(v[i].name_parts.clone());
        i = i + 1;
    }
    assert(strings_view(r@) =~= lambda_var_names(v@));
    r
}

impl Expression {
    /// The protocol message of this expression.
    pub fn to_proto(&self) -> (m: proto::Expression)
        ensures
            m@ == expr_to_msg(*self),
        decreases self, 0int,
    {
        proof {
            reveal_strlit("when");
        }
        match self {
            Expression::Literal(l) => l.to_proto(),
            Expression::ColumnReference(c) => c.to_proto(),
            Expression::UnresolvedFunction(f) => proto::Expression::UnresolvedFunction {
                function_name: f.name.clone(),
                arguments: exprs_to_proto(&f.args),
                is_distinct: f.is_distinct,
            },
            Expression::UnresolvedStar(t) => proto::Expression::UnresolvedStar {
                unparsed_target: copy_opt_string(t),
                plan_id: None,
            },
            Expression::Alias(a) => {
                let inner = a.child.to_proto();
                proto::Expression::Alias {
                    expr: Box::new(inner),
                    name: copy_strings(&a.names),
                    metadata: copy_opt_string(&a.metadata),
                }
            },
            Expression::Cast(c) => {
                let inner = c.child.to_proto();
                let target = match &c.target {
                    CastTarget::Type(d) => proto::CastToType::Type(d.copy()),
                    CastTarget::TypeStr(t) => proto::CastToType::TypeStr(t.clone()),
                };
                let mode: i32 = match c.eval_mode {
                    None => 0,
                    Some(CastEvalMode::Legacy) => 1,
                    Some(CastEvalMode::Ansi) => 2,
                    Some(CastEvalMode::Try) => 3,
                };
                proto::Expression::Cast { expr: Box::new(inner), cast_to_type: target, eval_mode: mode }
            },
            Expression::DirectShufflePartitionId(c) => {
                let inner = c.to_proto();
                proto::Expression::DirectShufflePartitionId { child: Box::new(inner) }
            },
            Expression::UnresolvedRegex(x) => proto::Expression::UnresolvedRegex {
                col_name: x.clone(),
                plan_id: None,
            },
            Expression::SortOrder(so) => proto::Expression::SortOrder(so.to_proto_sort_order()),
            Expression::CaseWhen(cw) => cw.to_proto(),
            Expression::UnresolvedExtractValue(ev) => {
                let c = ev.child.to_proto();
                let x = ev.extraction.to_proto();
                proto::Expression::UnresolvedExtractValue { child: Box::new(c), extraction: Box::new(x) }
            },
            Expression::UpdateFields(uf) => {
                let se = uf.struct_expression.to_proto();
                let ve = match &uf.value_expression {
                    Some(v) => Some(Box::new(v.to_proto())),
                    None => None,
                };
                proto::Expression::UpdateFields {
                    struct_expression: Box::new(se),
                    field_name: uf.field_name.clone(),
                    value_expression: ve,
                }
            },
            Expression::SQLExpression(x) => proto::Expression::ExpressionString { expression: x.clone() },
            Expression::CallFunction(cf) => proto::Expression::CallFunction {
                function_name: cf.function_name.clone(),
                arguments: exprs_to_proto(&cf.arguments),
            },
            Expression::WindowExpression(w) => {
                let wf = w.window_function.to_proto();
                let ps = exprs_to_proto(&w.partition_spec);
                let os = sorts_to_proto(&w.order_spec);
                let fs = match &w.frame_spec {
                    Some((t, lo, up)) => Some(proto::WindowFrame {
                        frame_type: #[verifier::truncate] (*t as i32),
                        lower: to_proto_frame_boundary(lo),
                        upper: to_proto_frame_boundary(up),
                    }),
                    None => None,
                };
                proto::Expression::Window {
                    window_function: Box::new(wf),
                    partition_spec: ps,
                    order_spec: os,
                    frame_spec: fs,
                }
            },
            Expression::LambdaFunction(lf) => {
                let f = lf.function.to_proto();
                proto::Expression::LambdaFunction { function: Box::new(f), arguments: lambda_names(&lf.arguments) }
            },
            Expression::UnresolvedNamedLambdaVariable(v) => v.to_proto(),
        }
    }
}

impl ColumnReference {
    /// The unresolved-attribute message of this column reference.
    pub fn to_proto(&self) -> (m: proto::Expression)
        ensures
            m@ == expr_to_msg(Expression::ColumnReference(*self)),
    {
        proto::Expression::UnresolvedAttribute {
            unparsed_identifier: self.name.clone(),
            plan_id: self.plan_id,
            is_metadata_column: Some(self.is_metadata_column),
        }
    }
}

impl SortOrder {
    /// The sort-order message of this sort order.
    pub fn to_proto_sort_order(&self) -> (m: proto::SortOrder)
        ensures
            m@ == sort_to_msg(*self),
        decreases self, 0int,
    {
        let c = self.child.to_proto();
        proto::SortOrder {
            child: Box::new(c),
            direction: if self.ascending { 1 } else { 2 },
            null_ordering: match self.null_ordering {
                NullOrdering::First => 1,
                NullOrdering::Last => 2,
            },
        }
    }
}

impl UnresolvedNamedLambdaVariable {
    /// The lambda-variable message of this variable: one name part.
    pub fn to_proto(&self) -> (m: proto::Expression)
        ensures
            m@ == expr_to_msg(Expression::UnresolvedNamedLambdaVariable(*self)),
    {
        let mut parts: Vec<String> = Vec::new();
        parts.push(self.name_parts.clone());
        assert(strings_view(parts@) =~= seq![self.name_parts@]);
        proto::Expression::UnresolvedNamedLambdaVariable { name_parts: parts }
    }
}

// ---------------------------------------------------------------------------
// Constructors
// ---------------------------------------------------------------------------

impl LiteralExpression {
    /// A null literal of the given type.
    pub fn null(data_type: DataType) -> (r: LiteralExpression)
        ensures
            r == LiteralExpression::Null(data_type),
    {
        LiteralExpression::Null(data_type)
    }

    /// A 32-bit integer literal.
    pub fn integer(value: i32) -> (r: LiteralExpression)
        ensures
            r == LiteralExpression::Integer(value),
    {
        LiteralExpression::Integer(value)
    }

    /// A 64-bit integer literal.
    pub fn long(value: i64) -> (r: LiteralExpression)
        ensures
            r == LiteralExpression::Long(value),
    {
        LiteralExpression::Long(value)
    }

    /// A double literal.
    pub fn double(value: Float64) -> (r: LiteralExpression)
        ensures
            r == LiteralExpression::Double(value),
    {
        LiteralExpression::Double(value)
    }

    /// A string literal.
    pub fn string(value: &str) -> (r: LiteralExpression)
        ensures
            r matches LiteralExpression::String(s) && s@ == value@,
    {
        LiteralExpression::String(owned(value))
    }

    /// A boolean literal.
    pub fn boolean(value: bool) -> (r: LiteralExpression)
        ensures
            r == LiteralExpression::Boolean(value),
    {
        LiteralExpression::Boolean(value)
    }

    /// A binary literal.
    pub fn binary(value: Vec<u8>) -> (r: LiteralExpression)
        ensures
            r == LiteralExpression::Binary(value),
    {
        LiteralExpression::Binary(value)
    }
}

impl ColumnReference {
    /// A free reference to the column `name` (no plan id, not a metadata column).
    pub fn new(name: &str) -> (r: ColumnReference)
        ensures
            r.name@ == name@,
            r.plan_id == None::<i64>,
            !r.is_metadata_column,
    {
        ColumnReference { name: owned(name), plan_id: None, is_metadata_column: false }
    }

    /// This reference bound to the plan `plan_id`.
    pub fn with_plan_id(self, plan_id: i64) -> (r: ColumnReference)
        ensures
            r == (ColumnReference { plan_id: Some(plan_id), ..self }),
    {
        ColumnReference { plan_id: Some(plan_id), ..self }
    }

    /// This reference marked as a metadata column.
    pub fn metadata(self) -> (r: ColumnReference)
        ensures
            r == (ColumnReference { is_metadata_column: true, ..self }),
    {
        ColumnReference { is_metadata_column: true, ..self }
    }
}

impl ExtractValue {
    /// `child[extraction]`.
    pub fn new(child: Expression, extraction: Expression) -> (r: ExtractValue)
        ensures
            r == (ExtractValue { child, extraction }),
    {
        ExtractValue { child, extraction }
    }
}

impl UpdateFieldsExpr {
    /// Set (`Some`) or drop (`None`) the field `field_name` of a struct.
    pub fn new(struct_expression: Expression, field_name: &str, value_expression: Option<Expression>) -> (r: UpdateFieldsExpr)
        ensures
            r.struct_expression == struct_expression,
            r.field_name@ == field_name@,
            r.value_expression == value_expression,
    {
        UpdateFieldsExpr { struct_expression, field_name: owned(field_name), value_expression }
    }
}

impl UnresolvedFunction {
    /// A call of `name` with `args`.
    pub fn new(name: &str, args: Vec<Expression>) -> (r: UnresolvedFunction)
        ensures
            r.name@ == name@,
            r.args == args,
            !r.is_distinct,
    {
        UnresolvedFunction { name: owned(name), args, is_distinct: false }
    }

    /// A DISTINCT call of `name` with `args`.
    pub fn new_distinct(name: &str, args: Vec<Expression>) -> (r: UnresolvedFunction)
        ensures
            r.name@ == name@,
            r.args == args,
            r.is_distinct,
    {
        UnresolvedFunction { name: owned(name), args, is_distinct: true }
    }
}

impl Alias {
    /// `child AS name`.
    pub fn new(child: Expression, name: &str) -> (r: Alias)
        ensures
            r.child == child,
            strings_view(r.names@) == seq![name@],
            r.metadata == None::<String>,
    {
        let mut names: Vec<String> = Vec::new();
        names.push(owned(name));
        assert(strings_view(names@) =~= seq![name@]);
        Alias { child, names, metadata: None }
    }

    /// This alias with `metadata` attached.
    pub fn with_metadata(self, metadata: String) -> (r: Alias)
        ensures
            r == (Alias { metadata: Some(metadata), ..self }),
    {
        Alias { metadata: Some(metadata), ..self }
    }
}

impl Cast {
    /// A cast of `child` to `to_type`, with no evaluation mode.
    pub fn new(child: Expression, to_type: DataType) -> (r: Cast)
        ensures
            r == (Cast { child, target: CastTarget::Type(to_type), eval_mode: None }),
    {
        Cast { child, target: CastTarget::Type(to_type), eval_mode: None }
    }

    /// A cast of `child` to the DDL type string `type_str`.
    pub fn new_str(child: Expression, type_str: &str) -> (r: Cast)
        ensures
            r.child == child,
            r.target matches CastTarget::TypeStr(t) && t@ == type_str@,
            r.eval_mode == None::<CastEvalMode>,
    {
        Cast { child, target: CastTarget::TypeStr(owned(type_str)), eval_mode: None }
    }

    /// This cast with the evaluation mode `mode`.
    pub fn with_eval_mode(self, mode: CastEvalMode) -> (r: Cast)
        ensures
            r == (Cast { eval_mode: Some(mode), ..self }),
    {
        Cast { eval_mode: Some(mode), ..self }
    }
}

impl SortOrder {
    /// Ascending, nulls first.
    pub fn asc_nulls_first(child: Expression) -> (r: SortOrder)
        ensures
            r == (SortOrder { child, ascending: true, null_ordering: NullOrdering::First }),
    {
        SortOrder { child, ascending: true, null_ordering: NullOrdering::First }
    }

    /// Ascending, nulls last.
    pub fn asc_nulls_last(child: Expression) -> (r: SortOrder)
        ensures
            r == (SortOrder { child, ascending: true, null_ordering: NullOrdering::Last }),
    {
        SortOrder { child, ascending: true, null_ordering: NullOrdering::Last }
    }

    /// Descending, nulls first.
    pub fn desc_nulls_first(child: Expression) -> (r: SortOrder)
        ensures
            r == (SortOrder { child, ascending: false, null_ordering: NullOrdering::First }),
    {
        SortOrder { child, ascending: false, null_ordering: NullOrdering::First }
    }

    /// Descending, nulls last.
    pub fn desc_nulls_last(child: Expression) -> (r: SortOrder)
        ensures
            r == (SortOrder { child, ascending: false, null_ordering: NullOrdering::Last }),
    {
        SortOrder { child, ascending: false, null_ordering: NullOrdering::Last }
    }
}

impl CaseWhen {
    /// A CASE WHEN with `branches` and no ELSE.
    pub fn new(branches: Vec<(Expression, Expression)>) -> (r: CaseWhen)
        ensures
            r == (CaseWhen { branches, else_expr: None }),
    {
        CaseWhen { branches, else_expr: None }
    }

    /// This CASE WHEN with `else_expr` as its ELSE.
    pub fn with_else(self, else_expr: Expression) -> (r: CaseWhen)
        ensures
            r.branches == self.branches,
            r.else_expr == Some(Box::new(else_expr)),
    {
        CaseWhen { branches: self.branches, else_expr: Some(Box::new(else_expr)) }
    }

    /// The `when` call this CASE WHEN is sent as: every branch's condition and
    /// value in order, then the ELSE value if present.
    pub fn to_proto(&self) -> (m: proto::Expression)
        ensures
            m@ == (ExpressionView::UnresolvedFunction {
                function_name: "when"@,
                arguments: case_when_args(*self),
                is_distinct: false,
            }),
        decreases self, 0int,
    {
        proof {
            reveal_strlit("when");
        }
        let mut args = branches_to_proto(&self.branches);
        let ghost before = proto::expr_msgs_view(args@);
        match &self.else_expr {
            Some(e) => {
                let em = e.to_proto();
                args.push(em);
                assert(proto::expr_msgs_view(args@) =~= before + seq![expr_to_msg(**e)]);
            },
            None => {
                assert(before + Seq::<ExpressionView>::empty() =~= before);
            },
        }
        proto::Expression::UnresolvedFunction { function_name: owned("when"), arguments: args, is_distinct: false }
    }
}

impl CallFunctionWrapper {
    /// A direct call of `function_name` with `arguments`.
    pub fn new(function_name: &str, arguments: Vec<Expression>) -> (r: CallFunctionWrapper)
        ensures
            r.function_name@ == function_name@,
            r.arguments == arguments,
    {
        CallFunctionWrapper { function_name: owned(function_name), arguments }
    }
}

impl WindowExpressionWrapper {
    /// `window_function` over the given partitioning, ordering and frame.
    pub fn new(
        window_function: Expression,
        partition_spec: Vec<Expression>,
        order_spec: Vec<SortOrder>,
        frame_spec: Option<(u32, FrameBoundary, FrameBoundary)>,
    ) -> (r: WindowExpressionWrapper)
        ensures
            r == (WindowExpressionWrapper { window_function, partition_spec, order_spec, frame_spec }),
    {
        WindowExpressionWrapper { window_function, partition_spec, order_spec, frame_spec }
    }
}

impl LambdaFunction {
    /// A lambda with body `function` over `arguments`.
    pub fn new(function: Expression, arguments: Vec<UnresolvedNamedLambdaVariable>) -> (r: LambdaFunction)
        ensures
            r == (LambdaFunction { function, arguments }),
    {
        LambdaFunction { function, arguments }
    }
}

impl UnresolvedNamedLambdaVariable {
    /// The lambda variable `name_parts`.
    pub fn new(name_parts: &str) -> (r: UnresolvedNamedLambdaVariable)
        ensures
            r.name_parts@ == name_parts@,
    {
        UnresolvedNamedLambdaVariable { name_parts: owned(name_parts) }
    }
}

// ---------------------------------------------------------------------------
// Lambda variables
// ---------------------------------------------------------------------------

/// The source of fresh lambda-variable indices: each call of
/// `next_lambda_var_index` hands out the current index and moves on.
#[derive(Debug)]
pub struct LambdaVarCounter {
    pub next: u32,
}

impl LambdaVarCounter {
    /// A counter that starts at index 0.
    pub fn new() -> (c: LambdaVarCounter)
        ensures
            c.next == 0,
    {
        LambdaVarCounter { next: 0 }
    }
}

/// The index after `i`, wrapping to 0 after `u32::MAX`.
pub open spec fn next_index(i: u32) -> u32 {
    if i == u32::MAX { 0 } else { (i + 1) as u32 }
}

/// The index `count` steps after `start`.
pub open spec fn index_after(start: u32, count: nat) -> u32
    decreases count,
{
    if count == 0 { start } else { next_index(index_after(start, (count - 1) as nat)) }
}

/// The name of the lambda variable with index `i`: `x_` and its decimal text.
pub open spec fn lambda_var_name(i: u32) -> Seq<char> {
    seq!['x', '_'] + nat_text(i as nat)
}

/// The index `count` steps after `start` is `start + count`, modulo 2^32.
pub proof fn lemma_index_after(start: u32, count: nat)
    ensures
        index_after(start, count) as int == (start + count) % 0x1_0000_0000,
    decreases count,
{
    if count > 0 {
        lemma_index_after(start, (count - 1) as nat);
        let p = index_after(start, (count - 1) as nat) as int;
        let q = (start + count - 1) as int;
        assert(p == q % 0x1_0000_0000);
        assert((q + 1) % 0x1_0000_0000 == if q % 0x1_0000_0000 == 0xffff_ffff { 0 } else { q % 0x1_0000_0000 + 1 }) by (nonlinear_arith)
            requires q >= 0;
    }
}

/// Lambda variables handed out by fewer than 2^32 successive calls of
/// `next_lambda_var_index` have distinct indices and distinct names.
pub proof fn law_lambda_names_distinct(start: u32, i: nat, j: nat)
    requires
        i < j < 0x1_0000_0000,
    ensures
        index_after(start, i) != index_after(start, j),
        lambda_var_name(index_after(start, i)) != lambda_var_name(index_after(start, j)),
{
    lemma_index_after(start, i);
    lemma_index_after(start, j);
    let a = (start + i) as int;
    let b = (start + j) as int;
    assert(a % 0x1_0000_0000 != b % 0x1_0000_0000) by (nonlinear_arith)
        requires a >= 0, a < b, b - a < 0x1_0000_0000;
    let x = index_after(start, i);
    let y = index_after(start, j);
    if lambda_var_name(x) == lambda_var_name(y) {
        assert(nat_text(x as nat) =~= lambda_var_name(x).subrange(2, lambda_var_name(x).len() as int));
        assert(nat_text(y as nat) =~= lambda_var_name(y).subrange(2, lambda_var_name(y).len() as int));
        lemma_nat_text_injective(x as nat, y as nat);
    }
}

/// Hands out the counter's current index and advances it, wrapping after
/// `u32::MAX`.
pub fn next_lambda_var_index(counter: &mut LambdaVarCounter) -> (r: u32)
    ensures
        r == old(counter).next,
        final(counter).next == next_index(old(counter).next),
{
    let r = counter.next;
    if r == u32::MAX {
        counter.next = 0;
    } else {
        counter.next = r + 1;
    }
    r
}

/// The lambda variable with index `i`.
pub fn lambda_var(i: u32) -> (v: UnresolvedNamedLambdaVariable)
    ensures
        v.name_parts@ == lambda_var_name(i),
{
    let mut s = String::new();
    s.append("x_");
    proof {
        reveal_strlit("x_");
    }
    push_nat_text(&mut s, i as u64);
    assert(s@ =~= lambda_var_name(i));
    UnresolvedNamedLambdaVariable { name_parts: s }
}

} // verus!

