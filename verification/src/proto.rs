//! The request messages of the Spark Connect protocol that this library builds:
//! literals, expressions and (in `relation`) plan relations. Each message type
//! has a mathematical view in which strings are character sequences, lists are
//! sequences and byte buffers are byte sequences.

use vstd::prelude::*;
use crate::types::{DataType, DataTypeView, Float32, Float64};
use crate::text::strings_view;

verus! {

#[verifier::external_type_specification]
#[verifier::external_body]
pub struct ExBytes(bytes::Bytes);

/// The bytes held by a `bytes::Bytes` buffer.
pub uninterp spec fn bytes_content(b: bytes::Bytes) -> Seq<u8>;

/// `bytes::Bytes::copy_from_slice`: a new buffer holding a copy of `data`.
#[verifier::external_body]
pub fn bytes_copy_from_slice(data: &[u8]) -> (b: bytes::Bytes)
    ensures
        bytes_content(b) == data@,
{
    bytes::Bytes::copy_from_slice(data)
}

/// `bytes::Bytes::from(Vec<u8>)`: a buffer that takes over the vector's bytes.
#[verifier::external_body]
pub fn bytes_from_vec(data: Vec<u8>) -> (b: bytes::Bytes)
    ensures
        bytes_content(b) == data@,
{
    bytes::Bytes::from(data)
}

/// `bytes::Bytes::len`: the number of bytes in the buffer.
#[verifier::external_body]
pub fn bytes_len(b: &bytes::Bytes) -> (n: usize)
    ensures
        n == bytes_content(*b).len(),
{
    b.len()
}

/// `bytes::Bytes::clone`: another handle on the same bytes.
#[verifier::external_body]
pub fn bytes_clone(b: &bytes::Bytes) -> (r: bytes::Bytes)
    ensures
        bytes_content(r) == bytes_content(*b),
{
    b.clone()
}

/// The value carried by a `spark.connect.Expression.Literal`.
#[derive(Debug)]
pub enum LiteralType {
    Null(DataType),
    Boolean(bool),
    Byte(i32),
    Short(i32),
    Integer(i32),
    Long(i64),
    Float(Float32),
    Double(Float64),
    Decimal { value: String, precision: Option<i32>, scale: Option<i32> },
    String(String),
    Binary(bytes::Bytes),
    CalendarInterval { months: i32, days: i32, microseconds: i64 },
    YearMonthInterval(i32),
    DayTimeInterval(i64),
    Date(i32),
    Timestamp(i64),
    TimestampNtz(i64),
    Time { nano: i64, precision: Option<i32> },
    TimestampNtzNanos(i64),
    TimestampLtzNanos(i64),
    MapValue,
    Array { elements: Vec<Literal> },
    Struct,
    SpecializedArray,
}

/// `spark.connect.Expression.Literal`.
#[derive(Debug)]
pub struct Literal {
    pub literal_type: Option<LiteralType>,
}

pub enum LiteralTypeView {
    Null(DataTypeView),
    Boolean(bool),
    Byte(i32),
    Short(i32),
    Integer(i32),
    Long(i64),
    Float((u32, Seq<char>)),
    Double((u64, Seq<char>)),
    Decimal { value: Seq<char>, precision: Option<i32>, scale: Option<i32> },
    String(Seq<char>),
    Binary(Seq<u8>),
    CalendarInterval { months: i32, days: i32, microseconds: i64 },
    YearMonthInterval(i32),
    DayTimeInterval(i64),
    Date(i32),
    Timestamp(i64),
    TimestampNtz(i64),
    Time { nano: i64, precision: Option<i32> },
    TimestampNtzNanos(i64),
    TimestampLtzNanos(i64),
    MapValue,
    Array { elements: Seq<LiteralView> },
    Struct,
    SpecializedArray,
}

pub struct LiteralView {
    pub literal_type: Option<LiteralTypeView>,
}

pub open spec fn literal_view(l: Literal) -> LiteralView
    decreases l,
{
    LiteralView {
        literal_type: match l.literal_type {
            None => None,
            Some(t) => Some(literal_type_view(t)),
        },
    }
}

pub open spec fn literal_type_view(t: LiteralType) -> LiteralTypeView
    decreases t,
{
    match t {
        LiteralType::Null(d) => LiteralTypeView::Null(d@),
        LiteralType::Boolean(b) => LiteralTypeView::Boolean(b),
        LiteralType::Byte(v) => LiteralTypeView::Byte(v),
        LiteralType::Short(v) => LiteralTypeView::Short(v),
        LiteralType::Integer(v) => LiteralTypeView::Integer(v),
        LiteralType::Long(v) => LiteralTypeView::Long(v),
        LiteralType::Float(f) => LiteralTypeView::Float(f@),
        LiteralType::Double(f) => LiteralTypeView::Double(f@),
        LiteralType::Decimal { value, precision, scale } => LiteralTypeView::Decimal {
            value: value@,
            precision,
            scale,
        },
        LiteralType::String(s) => LiteralTypeView::String(s@),
        LiteralType::Binary(b) => LiteralTypeView::Binary(bytes_content(b)),
        LiteralType::CalendarInterval { months, days, microseconds } =>
            LiteralTypeView::CalendarInterval { months, days, microseconds },
        LiteralType::YearMonthInterval(v) => LiteralTypeView::YearMonthInterval(v),
        LiteralType::DayTimeInterval(v) => LiteralTypeView::DayTimeInterval(v),
        LiteralType::Date(v) => LiteralTypeView::Date(v),
        LiteralType::Timestamp(v) => LiteralTypeView::Timestamp(v),
        LiteralType::TimestampNtz(v) => LiteralTypeView::TimestampNtz(v),
        LiteralType::Time { nano, precision } => LiteralTypeView::Time { nano, precision },
        LiteralType::TimestampNtzNanos(v) => LiteralTypeView::TimestampNtzNanos(v),
        LiteralType::TimestampLtzNanos(v) => LiteralTypeView::TimestampLtzNanos(v),
        LiteralType::MapValue => LiteralTypeView::MapValue,
        LiteralType::Array { elements } => LiteralTypeView::Array {
            elements: literals_view(elements@),
        },
        LiteralType::Struct => LiteralTypeView::Struct,
        LiteralType::SpecializedArray => LiteralTypeView::SpecializedArray,
    }
}

pub open spec fn literals_view(s: Seq<Literal>) -> Seq<LiteralView>
    decreases s,
{
    Seq::new(s.len(), |i: int| if 0 <= i < s.len() { literal_view(s[i]) } else { arbitrary() })
}

impl View for Literal {
    type V = LiteralView;

    open spec fn view(&self) -> LiteralView {
        literal_view(*self)
    }
}

/// A copy of a literal: the same value.
pub fn copy_literal(l: &Literal) -> (r: Literal)
    ensures
        r@ == l@,
    decreases l,
{
    match &l.literal_type {
        None => Literal { literal_type: None },
        Some(t) => {
            let c = match t {
                LiteralType::Null(d) => LiteralType::Null(d.copy()),
                LiteralType::Boolean(b) => LiteralType::Boolean(*b),
                LiteralType::Byte(v) => LiteralType::Byte(*v),
                LiteralType::Short(v) => LiteralType::Short(*v),
                LiteralType::Integer(v) => LiteralType::Integer(*v),
                LiteralType::Long(v) => LiteralType::Long(*v),
                LiteralType::Float(f) => LiteralType::Float(f.copy()),
                LiteralType::Double(f) => LiteralType::Double(f.copy()),
                LiteralType::Decimal { value, precision, scale } =>
                    LiteralType::Decimal { value: value.clone(), precision: *precision, scale: *scale },
                LiteralType::String(s) => LiteralType::String(s.clone()),
                LiteralType::Binary(b) => LiteralType::Binary(bytes_clone(b)),
                LiteralType::CalendarInterval { months, days, microseconds } =>
                    LiteralType::CalendarInterval { months: *months, days: *days, microseconds: *microseconds },
                LiteralType::YearMonthInterval(v) => LiteralType::YearMonthInterval(*v),
                LiteralType::DayTimeInterval(v) => LiteralType::DayTimeInterval(*v),
                LiteralType::Date(v) => LiteralType::Date(*v),
                LiteralType::Timestamp(v) => LiteralType::Timestamp(*v),
                LiteralType::TimestampNtz(v) => LiteralType::TimestampNtz(*v),
                LiteralType::Time { nano, precision } => LiteralType::Time { nano: *nano, precision: *precision },
                LiteralType::TimestampNtzNanos(v) => LiteralType::TimestampNtzNanos(*v),
                LiteralType::TimestampLtzNanos(v) => LiteralType::TimestampLtzNanos(*v),
                LiteralType::MapValue => LiteralType::MapValue,
                LiteralType::Array { elements } => {
                    let mut out: Vec<Literal> = Vec::new();
                    let mut i: usize = 0;
                    while i < elements.len()
                        invariant
                            i <= elements@.len(),
                            out@.len() == i,
                            forall|j: int| 0 <= j < i ==> (#[trigger] out@[j])@ == elements@[j]@,
                            l.literal_type == Some(*t),
                            *t == (LiteralType::Array { elements: *elements }),
                        decreases elements@.len() - i,
                    {
                        proof {
                            let lt = l.literal_type;
                            let tt = *t;
                            assert(lt == Some(tt));
                            assert(decreases_to!(*l => lt));
                            assert(decreases_to!(lt => lt->0));
                            assert(tt matches LiteralType::Array { elements: es } && es == *elements);
                            assert(decreases_to!(tt => tt->elements));
                            assert(decreases_to!(*elements => elements@));
                            assert(decreases_to!(elements@ => elements@[i as int]));
                        }
                        let e = copy_literal(&elements[i]);
                        out.push(e);
                        i = i + 1;
                    }
                    assert(literals_view(out@) =~= literals_view(elements@));
                    LiteralType::Array { elements: out }
                },
                LiteralType::Struct => LiteralType::Struct,
                LiteralType::SpecializedArray => LiteralType::SpecializedArray,
            };
            Literal { literal_type: Some(c) }
        },
    }
}

/// `spark.connect.Expression.SortOrder`.
#[derive(Debug)]
pub struct SortOrder {
    pub child: Box<Expression>,
    /// 1 = ascending, 2 = descending.
    pub direction: i32,
    /// 1 = nulls first, 2 = nulls last.
    pub null_ordering: i32,
}

/// One end of a window frame (`WindowFrame.FrameBoundary`).
#[derive(Debug)]
pub enum FrameBoundary {
    CurrentRow,
    Unbounded,
    Value(Box<Expression>),
}

/// `spark.connect.Expression.Window.WindowFrame`.
#[derive(Debug)]
pub struct WindowFrame {
    pub frame_type: i32,
    pub lower: FrameBoundary,
    pub upper: FrameBoundary,
}

/// The target type of a cast (`Cast.cast_to_type`).
#[derive(Debug)]
pub enum CastToType {
    Type(DataType),
    TypeStr(String),
}

/// `spark.connect.Expression`.
#[derive(Debug)]
pub enum Expression {
    Literal(Literal),
    UnresolvedAttribute { unparsed_identifier: String, plan_id: Option<i64>, is_metadata_column: Option<bool> },
    UnresolvedFunction { function_name: String, arguments: Vec<Expression>, is_distinct: bool },
    UnresolvedStar { unparsed_target: Option<String>, plan_id: Option<i64> },
    Alias { expr: Box<Expression>, name: Vec<String>, metadata: Option<String> },
    Cast { expr: Box<Expression>, cast_to_type: CastToType, eval_mode: i32 },
    DirectShufflePartitionId { child: Box<Expression> },
    UnresolvedRegex { col_name: String, plan_id: Option<i64> },
    SortOrder(SortOrder),
    UnresolvedExtractValue { child: Box<Expression>, extraction: Box<Expression> },
    UpdateFields { struct_expression: Box<Expression>, field_name: String, value_expression: Option<Box<Expression>> },
    ExpressionString { expression: String },
    CallFunction { function_name: String, arguments: Vec<Expression> },
    Window { window_function: Box<Expression>, partition_spec: Vec<Expression>, order_spec: Vec<SortOrder>, frame_spec: Option<WindowFrame> },
    LambdaFunction { function: Box<Expression>, arguments: Vec<String> },
    UnresolvedNamedLambdaVariable { name_parts: Vec<String> },
}

pub struct SortOrderView {
    pub child: Box<ExpressionView>,
    pub direction: i32,
    pub null_ordering: i32,
}

pub enum FrameBoundaryView {
    CurrentRow,
    Unbounded,
    Value(Box<ExpressionView>),
}

pub struct WindowFrameView {
    pub frame_type: i32,
    pub lower: FrameBoundaryView,
    pub upper: FrameBoundaryView,
}

pub enum CastToTypeView {
    Type(DataTypeView),
    TypeStr(Seq<char>),
}

pub enum ExpressionView {
    Literal(LiteralView),
    UnresolvedAttribute { unparsed_identifier: Seq<char>, plan_id: Option<i64>, is_metadata_column: Option<bool> },
    UnresolvedFunction { function_name: Seq<char>, arguments: Seq<ExpressionView>, is_distinct: bool },
    UnresolvedStar { unparsed_target: Option<Seq<char>>, plan_id: Option<i64> },
    Alias { expr: Box<ExpressionView>, name: Seq<Seq<char>>, metadata: Option<Seq<char>> },
    Cast { expr: Box<ExpressionView>, cast_to_type: CastToTypeView, eval_mode: i32 },
    DirectShufflePartitionId { child: Box<ExpressionView> },
    UnresolvedRegex { col_name: Seq<char>, plan_id: Option<i64> },
    SortOrder(SortOrderView),
    UnresolvedExtractValue { child: Box<ExpressionView>, extraction: Box<ExpressionView> },
    UpdateFields { struct_expression: Box<ExpressionView>, field_name: Seq<char>, value_expression: Option<Box<ExpressionView>> },
    ExpressionString { expression: Seq<char> },
    CallFunction { function_name: Seq<char>, arguments: Seq<ExpressionView> },
    Window { window_function: Box<ExpressionView>, partition_spec: Seq<ExpressionView>, order_spec: Seq<SortOrderView>, frame_spec: Option<WindowFrameView> },
    LambdaFunction { function: Box<ExpressionView>, arguments: Seq<Seq<char>> },
    UnresolvedNamedLambdaVariable { name_parts: Seq<Seq<char>> },
}

pub open spec fn opt_string_view(s: Option<String>) -> Option<Seq<char>> {
    match s {
        Some(x) => Some(x@),
        None => None,
    }
}

pub open spec fn expr_msg_view(e: Expression) -> ExpressionView
    decreases e,
{
    match e {
        Expression::Literal(l) => ExpressionView::Literal(literal_view(l)),
        Expression::UnresolvedAttribute { unparsed_identifier, plan_id, is_metadata_column } =>
            ExpressionView::UnresolvedAttribute { unparsed_identifier: unparsed_identifier@, plan_id, is_metadata_column },
        Expression::UnresolvedFunction { function_name, arguments, is_distinct } =>
            ExpressionView::UnresolvedFunction {
                function_name: function_name@,
                arguments: expr_msgs_view(arguments@),
                is_distinct,
            },
        Expression::UnresolvedStar { unparsed_target, plan_id } =>
            ExpressionView::UnresolvedStar { unparsed_target: opt_string_view(unparsed_target), plan_id },
        Expression::Alias { expr, name, metadata } => ExpressionView::Alias {
            expr: Box::new(expr_msg_view(*expr)),
            name: strings_view(name@),
            metadata: opt_string_view(metadata),
        },
        Expression::Cast { expr, cast_to_type, eval_mode } => ExpressionView::Cast {
            expr: Box::new(expr_msg_view(*expr)),
            cast_to_type: match cast_to_type {
                CastToType::Type(d) => CastToTypeView::Type(d@),
                CastToType::TypeStr(s) => CastToTypeView::TypeStr(s@),
            },
            eval_mode,
        },
        Expression::DirectShufflePartitionId { child } =>
            ExpressionView::DirectShufflePartitionId { child: Box::new(expr_msg_view(*child)) },
        Expression::UnresolvedRegex { col_name, plan_id } =>
            ExpressionView::UnresolvedRegex { col_name: col_name@, plan_id },
        Expression::SortOrder(s) => ExpressionView::SortOrder(sort_msg_view(s)),
        Expression::UnresolvedExtractValue { child, extraction } => ExpressionView::UnresolvedExtractValue {
            child: Box::new(expr_msg_view(*child)),
            extraction: Box::new(expr_msg_view(*extraction)),
        },
        Expression::UpdateFields { struct_expression, field_name, value_expression } =>
            ExpressionView::UpdateFields {
                struct_expression: Box::new(expr_msg_view(*struct_expression)),
                field_name: field_name@,
                value_expression: match value_expression {
                    Some(v) => Some(Box::new(expr_msg_view(*v))),
                    None => None,
                },
            },
        Expression::ExpressionString { expression } =>
            ExpressionView::ExpressionString { expression: expression@ },
        Expression::CallFunction { function_name, arguments } => ExpressionView::CallFunction {
            function_name: function_name@,
            arguments: expr_msgs_view(arguments@),
        },
        Expression::Window { window_function, partition_spec, order_spec, frame_spec } =>
            ExpressionView::Window {
                window_function: Box::new(expr_msg_view(*window_function)),
                partition_spec: expr_msgs_view(partition_spec@),
                order_spec: sort_msgs_view(order_spec@),
                frame_spec: match frame_spec {
                    Some(f) => Some(WindowFrameView {
                        frame_type: f.frame_type,
                        lower: boundary_msg_view(f.lower),
                        upper: boundary_msg_view(f.upper),
                    }),
                    None => None,
                },
            },
        Expression::LambdaFunction { function, arguments } => ExpressionView::LambdaFunction {
            function: Box::new(expr_msg_view(*function)),
            arguments: strings_view(arguments@),
        },
        Expression::UnresolvedNamedLambdaVariable { name_parts } =>
            ExpressionView::UnresolvedNamedLambdaVariable { name_parts: strings_view(name_parts@) },
    }
}

pub open spec fn boundary_msg_view(b: FrameBoundary) -> FrameBoundaryView
    decreases b,
{
    match b {
        FrameBoundary::CurrentRow => FrameBoundaryView::CurrentRow,
        FrameBoundary::Unbounded => FrameBoundaryView::Unbounded,
        FrameBoundary::Value(e) => FrameBoundaryView::Value(Box::new(expr_msg_view(*e))),
    }
}

pub open spec fn sort_msg_view(s: SortOrder) -> SortOrderView
    decreases s,
{
    SortOrderView {
        child: Box::new(expr_msg_view(*s.child)),
        direction: s.direction,
        null_ordering: s.null_ordering,
    }
}

pub open spec fn expr_msgs_view(s: Seq<Expression>) -> Seq<ExpressionView>
    decreases s,
{
    Seq::new(s.len(), |i: int| if 0 <= i < s.len() { expr_msg_view(s[i]) } else { arbitrary() })
}

pub open spec fn sort_msgs_view(s: Seq<SortOrder>) -> Seq<SortOrderView>
    decreases s,
{
    Seq::new(s.len(), |i: int| if 0 <= i < s.len() { sort_msg_view(s[i]) } else { arbitrary() })
}

impl View for Expression {
    type V = ExpressionView;

    open spec fn view(&self) -> ExpressionView {
        expr_msg_view(*self)
    }
}

impl View for SortOrder {
    type V = SortOrderView;

    open spec fn view(&self) -> SortOrderView {
        sort_msg_view(*self)
    }
}

} // verus!
