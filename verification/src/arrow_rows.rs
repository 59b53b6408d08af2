//! Query results in the Arrow IPC stream format, decoded into rows. arrow
//! reads the stream and answers questions about each array (its kind, its
//! length, a value, a child); the library walks the arrays into cells and
//! turns every cell into a value (integer widening, time units, nested lists,
//! structs and maps).

use vstd::prelude::*;
use vstd::string::StrSliceExecFns;
use arrow::array::{Array, ArrayData, AsArray};
use arrow::datatypes::DataType as ArrowType;
use arrow::datatypes::TimeUnit as ArrowTimeUnit;
use arrow::datatypes::{Float64Type, Int64Type, UInt64Type};
use crate::catalog::ConnectError;
use crate::debug_text::{value_debug, value_debug_string, list_debug, quoted, bool_text, float_debug,
    bytes_debug, opt_debug, value_debugs, entry_debugs, pair_debugs};
use crate::row::{Row, Value};
use crate::text::{int_text, join, owned, strings_view};
use crate::types::{Float32, Float64};

verus! {

#[verifier::external_type_specification]
#[verifier::external_body]
pub struct ExArrayData(arrow::array::ArrayData);

/// The unit of an Arrow timestamp.
#[derive(Debug, Clone, Copy, PartialEq, Eq, Structural)]
pub enum TsUnit {
    Second,
    Millisecond,
    Microsecond,
    Nanosecond,
}

/// The kind of an Arrow array's data type, as far as rows read it: every
/// data type rows cannot hold is `Other`.
#[derive(Debug, Clone, Copy, PartialEq, Eq, Structural)]
pub enum ArrowTypeTag {
    Boolean,
    Int8,
    Int16,
    Int32,
    Int64,
    UInt8,
    UInt16,
    UInt32,
    UInt64,
    Float32,
    Float64,
    Decimal128,
    Utf8,
    LargeUtf8,
    Utf8View,
    Binary,
    LargeBinary,
    BinaryView,
    Date32,
    Date64,
    Timestamp(TsUnit),
    List,
    Mapping,
    Struct,
    Other,
}

/// One cell of an Arrow array, as the stream holds it.
#[derive(Debug)]
pub enum ArrowCell {
    Null,
    Bool(bool),
    Int8(i8),
    Int16(i16),
    Int32(i32),
    Int64(i64),
    UInt8(u8),
    UInt16(u16),
    UInt32(u32),
    UInt64(u64),
    Float32(Float32),
    /// A double, or a decimal that arrow cast to a double.
    Float64(Float64),
    Utf8(String),
    Binary(Vec<u8>),
    /// Days since the epoch.
    Date32(i32),
    /// Milliseconds since the epoch.
    Date64(i64),
    Timestamp(TsUnit, i64),
    List(Vec<ArrowCell>),
    /// A struct's fields by name, in order.
    Struct(Vec<(String, ArrowCell)>),
    /// A map's entries: key and value, in the stream's order.
    MapEntries(Vec<(ArrowCell, ArrowCell)>),
    /// A cell that has no value form; the message says why.
    Unsupported(String),
}

/// One record batch: its column names and its rows of cells.
#[derive(Debug)]
pub struct ArrowBatch {
    pub names: Vec<String>,
    pub rows: Vec<Vec<ArrowCell>>,
}

/// Why arrow's stream reader stopped: the stream's header could not be read
/// (`Open`), or a record batch could not be decoded (`Batch`); each with the
/// text of arrow's error.
#[derive(Debug)]
pub enum StreamFailure {
    Open(String),
    Batch(String),
}

// ---------------------------------------------------------------------------
// What arrow answers
// ---------------------------------------------------------------------------

/// The kind of `d`'s data type (`ArrayData::data_type`).
pub uninterp spec fn arrow_type(d: ArrayData) -> ArrowTypeTag;

/// `ArrayData::len`.
pub uninterp spec fn arrow_len(d: ArrayData) -> usize;

/// `ArrayData::offset`.
pub uninterp spec fn arrow_offset(d: ArrayData) -> usize;

/// `ArrayData::is_null` at index `i`.
pub uninterp spec fn arrow_is_null(d: ArrayData, i: int) -> bool;

/// The number of `ArrayData::child_data`.
pub uninterp spec fn arrow_child_count(d: ArrayData) -> usize;

/// The `k`-th of `ArrayData::child_data`.
pub uninterp spec fn arrow_child(d: ArrayData, k: int) -> ArrayData;

/// Entry `j` of a list array's `value_offsets`.
pub uninterp spec fn arrow_list_offset(d: ArrayData, j: int) -> i32;

/// Entry `j` of a map array's `value_offsets`.
pub uninterp spec fn arrow_map_offset(d: ArrayData, j: int) -> i32;

/// The name of a struct array's `k`-th field.
pub uninterp spec fn arrow_field_name(d: ArrayData, k: int) -> Seq<char>;

/// A boolean array's value at `i`.
pub uninterp spec fn arrow_bool_value(d: ArrayData, i: int) -> bool;

/// The value at `i` as arrow casts it to a 64-bit integer.
pub uninterp spec fn arrow_int_value(d: ArrayData, i: int) -> i64;

/// The value at `i` as arrow casts it to a 64-bit unsigned integer.
pub uninterp spec fn arrow_uint_value(d: ArrayData, i: int) -> u64;

/// A 32-bit float array's value at `i`: its bits and its text.
pub uninterp spec fn arrow_float_value(d: ArrayData, i: int) -> (u32, Seq<char>);

/// The value at `i` as arrow casts it to a double: its bits and its text.
pub uninterp spec fn arrow_double_value(d: ArrayData, i: int) -> (u64, Seq<char>);

/// The text at `i` as arrow casts it to a large string.
pub uninterp spec fn arrow_text_value(d: ArrayData, i: int) -> Seq<char>;

/// The bytes at `i` as arrow casts them to a large binary.
pub uninterp spec fn arrow_bytes_value(d: ArrayData, i: int) -> Seq<u8>;

/// What arrow's IPC `StreamReader` reads from `data`: the record batches
/// it yields (each as the data of a struct array, one field per column), up
/// to the first failure, and that failure (`true` for a stream whose header
/// cannot be read), if any.
pub uninterp spec fn arrow_ipc_read(data: Seq<u8>) -> (Seq<ArrayData>, Option<(bool, Seq<char>)>);

/// A failure as whether it came at opening, and its text.
pub open spec fn failure_view(f: Option<StreamFailure>) -> Option<(bool, Seq<char>)> {
    match f {
        Some(StreamFailure::Open(t)) => Some((true, t@)),
        Some(StreamFailure::Batch(t)) => Some((false, t@)),
        None => None,
    }
}

/// The kinds told apart by `numeric_type`: every other is `Other`.
pub open spec fn numeric_part(t: ArrowTypeTag) -> ArrowTypeTag {
    match t {
        ArrowTypeTag::Boolean | ArrowTypeTag::Int8 | ArrowTypeTag::Int16 | ArrowTypeTag::Int32
        | ArrowTypeTag::Int64 | ArrowTypeTag::UInt8 | ArrowTypeTag::UInt16 | ArrowTypeTag::UInt32
        | ArrowTypeTag::UInt64 => t,
        _ => ArrowTypeTag::Other,
    }
}

/// The kinds told apart by `byte_type`: every other is `Other`.
pub open spec fn byte_part(t: ArrowTypeTag) -> ArrowTypeTag {
    match t {
        ArrowTypeTag::Float32 | ArrowTypeTag::Float64 | ArrowTypeTag::Decimal128 | ArrowTypeTag::Utf8
        | ArrowTypeTag::LargeUtf8 | ArrowTypeTag::Utf8View | ArrowTypeTag::Binary
        | ArrowTypeTag::LargeBinary | ArrowTypeTag::BinaryView => t,
        _ => ArrowTypeTag::Other,
    }
}

/// The kinds told apart by `temporal_type`: every other is `Other`.
pub open spec fn temporal_part(t: ArrowTypeTag) -> ArrowTypeTag {
    match t {
        ArrowTypeTag::Date32 | ArrowTypeTag::Date64 | ArrowTypeTag::Timestamp(_) | ArrowTypeTag::List
        | ArrowTypeTag::Mapping | ArrowTypeTag::Struct => t,
        _ => ArrowTypeTag::Other,
    }
}

/// `ArrayData::data_type` for the boolean and integer kinds. The kinds are
/// told apart in three parts (this, `byte_type` and `temporal_type`), each
/// one arm per variant, all stating the one name `arrow_type`.
#[verifier::external_body]
fn numeric_type(d: &ArrayData) -> (r: ArrowTypeTag)
    ensures
        r == numeric_part(arrow_type(*d)),
{
    match d.data_type() {
        ArrowType::Boolean => ArrowTypeTag::Boolean,
        ArrowType::Int8 => ArrowTypeTag::Int8,
        ArrowType::Int16 => ArrowTypeTag::Int16,
        ArrowType::Int32 => ArrowTypeTag::Int32,
        ArrowType::Int64 => ArrowTypeTag::Int64,
        ArrowType::UInt8 => ArrowTypeTag::UInt8,
        ArrowType::UInt16 => ArrowTypeTag::UInt16,
        ArrowType::UInt32 => ArrowTypeTag::UInt32,
        ArrowType::UInt64 => ArrowTypeTag::UInt64,
        _ => ArrowTypeTag::Other,
    }
}

/// `ArrayData::data_type` for the float, decimal, string and binary kinds.
#[verifier::external_body]
fn byte_type(d: &ArrayData) -> (r: ArrowTypeTag)
    ensures
        r == byte_part(arrow_type(*d)),
{
    match d.data_type() {
        ArrowType::Float32 => ArrowTypeTag::Float32,
        ArrowType::Float64 => ArrowTypeTag::Float64,
        ArrowType::Decimal128(_, _) => ArrowTypeTag::Decimal128,
        ArrowType::Utf8 => ArrowTypeTag::Utf8,
        ArrowType::LargeUtf8 => ArrowTypeTag::LargeUtf8,
        ArrowType::Utf8View => ArrowTypeTag::Utf8View,
        ArrowType::Binary => ArrowTypeTag::Binary,
        ArrowType::LargeBinary => ArrowTypeTag::LargeBinary,
        ArrowType::BinaryView => ArrowTypeTag::BinaryView,
        _ => ArrowTypeTag::Other,
    }
}

/// `ArrayData::data_type` for the date, timestamp and nested kinds.
#[verifier::external_body]
fn temporal_type(d: &ArrayData) -> (r: ArrowTypeTag)
    ensures
        r == temporal_part(arrow_type(*d)),
{
    match d.data_type() {
        ArrowType::Date32 => ArrowTypeTag::Date32,
        ArrowType::Date64 => ArrowTypeTag::Date64,
        ArrowType::Timestamp(ArrowTimeUnit::Second, _) => ArrowTypeTag::Timestamp(TsUnit::Second),
        ArrowType::Timestamp(ArrowTimeUnit::Millisecond, _) => ArrowTypeTag::Timestamp(TsUnit::Millisecond),
        ArrowType::Timestamp(ArrowTimeUnit::Microsecond, _) => ArrowTypeTag::Timestamp(TsUnit::Microsecond),
        ArrowType::Timestamp(ArrowTimeUnit::Nanosecond, _) => ArrowTypeTag::Timestamp(TsUnit::Nanosecond),
        ArrowType::List(_) => ArrowTypeTag::List,
        ArrowType::Map(_, _) => ArrowTypeTag::Mapping,
        ArrowType::Struct(_) => ArrowTypeTag::Struct,
        _ => ArrowTypeTag::Other,
    }
}

/// The debug text of `d`'s data type (`format!("{:?}", d.data_type())`).
/// Nothing is stated of it: a field's metadata is a hash map, printed in
/// the order the process walks it.
#[verifier::external_body]
fn type_text(d: &ArrayData) -> String {
    format!("{:?}", d.data_type())
}

/// `ArrayData::len`.
#[verifier::external_body]
fn array_len(d: &ArrayData) -> (r: usize)
    ensures
        r == arrow_len(*d),
{
    d.len()
}

/// `ArrayData::offset`.
#[verifier::external_body]
fn array_offset(d: &ArrayData) -> (r: usize)
    ensures
        r == arrow_offset(*d),
{
    d.offset()
}

/// `ArrayData::is_null`, which reads the null buffer at `i` (and asserts `i`
/// is in range).
#[verifier::external_body]
fn is_null_at(d: &ArrayData, i: usize) -> (r: bool)
    requires
        i < arrow_len(*d),
    ensures
        r == arrow_is_null(*d, i as int),
{
    d.is_null(i)
}

/// The number of `ArrayData::child_data`.
#[verifier::external_body]
fn child_count(d: &ArrayData) -> (r: usize)
    ensures
        r == arrow_child_count(*d),
{
    d.child_data().len()
}

/// A copy of the `k`-th of `ArrayData::child_data`.
#[verifier::external_body]
fn child_at(d: &ArrayData, k: usize) -> (r: ArrayData)
    requires
        k < arrow_child_count(*d),
    ensures
        r == arrow_child(*d, k as int),
{
    d.child_data()[k].clone()
}

/// Entry `j` of `ListArray::value_offsets` (one more entry than rows).
#[verifier::external_body]
fn list_offset(d: &ArrayData, j: usize) -> (r: i32)
    requires
        arrow_type(*d) == ArrowTypeTag::List,
        j <= arrow_len(*d),
    ensures
        r == arrow_list_offset(*d, j as int),
{
    arrow::array::ListArray::from(d.clone()).value_offsets()[j]
}

/// Entry `j` of `MapArray::value_offsets` (one more entry than rows).
#[verifier::external_body]
fn map_offset(d: &ArrayData, j: usize) -> (r: i32)
    requires
        arrow_type(*d) == ArrowTypeTag::Mapping,
        j <= arrow_len(*d),
    ensures
        r == arrow_map_offset(*d, j as int),
{
    arrow::array::MapArray::from(d.clone()).value_offsets()[j]
}

/// The name of the `k`-th field of a struct array's data type (a struct
/// type has as many fields as its array has children, which arrow checks
/// of every array it validates, as the stream reader does).
#[verifier::external_body]
fn field_name(d: &ArrayData, k: usize) -> (r: String)
    requires
        arrow_type(*d) == ArrowTypeTag::Struct,
        k < arrow_child_count(*d),
    ensures
        r@ == arrow_field_name(*d, k as int),
{
    match d.data_type() {
        ArrowType::Struct(fields) => fields[k].name().clone(),
        _ => String::new(),
    }
}

/// `BooleanArray::value` at `i`.
#[verifier::external_body]
fn bool_at(d: &ArrayData, i: usize) -> (r: bool)
    requires
        arrow_type(*d) == ArrowTypeTag::Boolean,
        i < arrow_len(*d),
    ensures
        r == arrow_bool_value(*d, i as int),
{
    arrow::array::BooleanArray::from(d.clone()).value(i)
}

/// The value at `i`, through arrow's cast kernel to `Int64`: a widening
/// for the signed integers, the day count of a `Date32`, and the raw count
/// of a `Date64` or a timestamp.
#[verifier::external_body]
fn int_at(d: &ArrayData, i: usize) -> (r: i64)
    requires
        arrow_type(*d) is Int8 || arrow_type(*d) is Int16 || arrow_type(*d) is Int32
            || arrow_type(*d) is Int64 || arrow_type(*d) is Date32 || arrow_type(*d) is Date64
            || arrow_type(*d) is Timestamp,
        i < arrow_len(*d),
    ensures
        r == arrow_int_value(*d, i as int),
{
    let one = arrow::array::make_array(d.clone()).slice(i, 1);
    arrow::compute::cast(&one, &ArrowType::Int64).unwrap().as_primitive::<Int64Type>().value(0)
}

/// The value at `i`, through arrow's cast kernel to `UInt64` (a widening
/// for the unsigned integers).
#[verifier::external_body]
fn uint_at(d: &ArrayData, i: usize) -> (r: u64)
    requires
        arrow_type(*d) is UInt8 || arrow_type(*d) is UInt16 || arrow_type(*d) is UInt32
            || arrow_type(*d) is UInt64,
        i < arrow_len(*d),
    ensures
        r == arrow_uint_value(*d, i as int),
{
    let one = arrow::array::make_array(d.clone()).slice(i, 1);
    arrow::compute::cast(&one, &ArrowType::UInt64).unwrap().as_primitive::<UInt64Type>().value(0)
}

/// `Float32Array::value` at `i`, as its bits and its text.
#[verifier::external_body]
fn float_at(d: &ArrayData, i: usize) -> (r: Float32)
    requires
        arrow_type(*d) == ArrowTypeTag::Float32,
        i < arrow_len(*d),
    ensures
        r@ == arrow_float_value(*d, i as int),
{
    let v = arrow::array::Float32Array::from(d.clone()).value(i);
    Float32 { bits: v.to_bits(), text: v.to_string() }
}

/// The value at `i`, through arrow's cast kernel to `Float64` (a decimal
/// rounds once to the nearest double), as its bits and its text.
#[verifier::external_body]
fn double_at(d: &ArrayData, i: usize) -> (r: Float64)
    requires
        arrow_type(*d) is Float64 || arrow_type(*d) is Decimal128,
        i < arrow_len(*d),
    ensures
        r@ == arrow_double_value(*d, i as int),
{
    let one = arrow::array::make_array(d.clone()).slice(i, 1);
    let v = arrow::compute::cast(&one, &ArrowType::Float64).unwrap().as_primitive::<Float64Type>().value(0);
    Float64 { bits: v.to_bits(), text: v.to_string() }
}

/// The text at `i`, through arrow's cast kernel to `LargeUtf8`.
#[verifier::external_body]
fn text_at(d: &ArrayData, i: usize) -> (r: String)
    requires
        arrow_type(*d) is Utf8 || arrow_type(*d) is LargeUtf8 || arrow_type(*d) is Utf8View,
        i < arrow_len(*d),
    ensures
        r@ == arrow_text_value(*d, i as int),
{
    let one = arrow::array::make_array(d.clone()).slice(i, 1);
    arrow::compute::cast(&one, &ArrowType::LargeUtf8).unwrap().as_string::<i64>().value(0).to_string()
}

/// The bytes at `i`, through arrow's cast kernel to `LargeBinary`.
#[verifier::external_body]
fn bytes_at(d: &ArrayData, i: usize) -> (r: Vec<u8>)
    requires
        arrow_type(*d) is Binary || arrow_type(*d) is LargeBinary || arrow_type(*d) is BinaryView,
        i < arrow_len(*d),
    ensures
        r@ == arrow_bytes_value(*d, i as int),
{
    let one = arrow::array::make_array(d.clone()).slice(i, 1);
    arrow::compute::cast(&one, &ArrowType::LargeBinary).unwrap().as_binary::<i64>().value(0).to_vec()
}

/// arrow's IPC `StreamReader` over `data`: the data of every record batch it
/// yields, as a struct array, up to the first error, and that error.
#[verifier::external_body]
fn ipc_read(data: &[u8]) -> (r: (Vec<ArrayData>, Option<StreamFailure>))
    ensures
        r.0@ == arrow_ipc_read(data@).0,
        failure_view(r.1) == arrow_ipc_read(data@).1,
        forall|j: int| 0 <= j < r.0@.len() ==> arrow_type(#[trigger] r.0@[j]) == ArrowTypeTag::Struct,
{
    let mut batches = Vec::new();
    let reader = match arrow::ipc::reader::StreamReader::try_new(std::io::Cursor::new(data), None) {
        Ok(reader) => reader,
        Err(e) => return (batches, Some(StreamFailure::Open(e.to_string()))),
    };
    for batch in reader {
        match batch {
            Ok(b) => batches.push(arrow::array::StructArray::from(b).into_data()),
            Err(e) => return (batches, Some(StreamFailure::Batch(e.to_string()))),
        }
    }
    (batches, None)
}

// ---------------------------------------------------------------------------
// The values cells become
// ---------------------------------------------------------------------------

/// The mathematical value of a row value: texts, bytes and lists become
/// sequences, floats their bits and text.
pub enum ValueView {
    Null,
    Bool(bool),
    Byte(i8),
    Short(i16),
    Integer(i32),
    Long(i64),
    Float((u32, Seq<char>)),
    Double((u64, Seq<char>)),
    String(Seq<char>),
    Binary(Seq<u8>),
    Date(i32),
    Timestamp(i64),
    Decimal { value: Seq<char>, precision: Option<i32>, scale: Option<i32> },
    List(Seq<ValueView>),
    MapValue(Seq<(Seq<char>, ValueView)>),
    Struct(Seq<(Seq<char>, ValueView)>),
}

/// The mathematical value of a row value.
pub open spec fn value_view(v: Value) -> ValueView
    decreases v, 1int,
{
    match v {
        Value::Null => ValueView::Null,
        Value::Bool(b) => ValueView::Bool(b),
        Value::Byte(x) => ValueView::Byte(x),
        Value::Short(x) => ValueView::Short(x),
        Value::Integer(x) => ValueView::Integer(x),
        Value::Long(x) => ValueView::Long(x),
        Value::Float(f) => ValueView::Float(f@),
        Value::Double(f) => ValueView::Double(f@),
        Value::String(s) => ValueView::String(s@),
        Value::Binary(b) => ValueView::Binary(b@),
        Value::Date(d) => ValueView::Date(d),
        Value::Timestamp(t) => ValueView::Timestamp(t),
        Value::Decimal { value, precision, scale } => ValueView::Decimal { value: value@, precision, scale },
        Value::List(items) => ValueView::List(value_views(items@)),
        Value::MapValue(es) => ValueView::MapValue(named_views(es@)),
        Value::Struct(fs) => ValueView::Struct(named_views(fs@)),
    }
}

/// The mathematical values of a list of values.
pub open spec fn value_views(s: Seq<Value>) -> Seq<ValueView>
    decreases s, 0int,
{
    Seq::new(s.len(), |i: int| if 0 <= i < s.len() { value_view(s[i]) } else { ValueView::Null })
}

/// The mathematical values of named values.
pub open spec fn named_views(s: Seq<(String, Value)>) -> Seq<(Seq<char>, ValueView)>
    decreases s, 0int,
{
    Seq::new(s.len(), |i: int| if 0 <= i < s.len() { (s[i].0@, value_view(s[i].1)) } else { (Seq::empty(), ValueView::Null) })
}

/// The debug text of a value, from its mathematical value (see `value_debug`).
pub open spec fn view_debug(w: ValueView) -> Seq<char>
    decreases w, 1int,
{
    match w {
        ValueView::Null => "Null"@,
        ValueView::Bool(b) => "Bool("@ + bool_text(b) + ")"@,
        ValueView::Byte(x) => "Byte("@ + int_text(x as int) + ")"@,
        ValueView::Short(x) => "Short("@ + int_text(x as int) + ")"@,
        ValueView::Integer(x) => "Integer("@ + int_text(x as int) + ")"@,
        ValueView::Long(x) => "Long("@ + int_text(x as int) + ")"@,
        ValueView::Float(f) => "Float("@ + float_debug(f.1) + ")"@,
        ValueView::Double(f) => "Double("@ + float_debug(f.1) + ")"@,
        ValueView::String(s) => "String("@ + quoted(s) + ")"@,
        ValueView::Binary(b) => "Binary("@ + bytes_debug(b) + ")"@,
        ValueView::Date(d) => "Date("@ + int_text(d as int) + ")"@,
        ValueView::Timestamp(t) => "Timestamp("@ + int_text(t as int) + ")"@,
        ValueView::Decimal { value, precision, scale } => "Decimal { value: "@ + quoted(value) + ", precision: "@
            + opt_debug(match precision { Some(p) => Some(int_text(p as int)), None => None }) + ", scale: "@
            + opt_debug(match scale { Some(p) => Some(int_text(p as int)), None => None }) + " }"@,
        ValueView::List(items) => "List("@ + list_debug(view_debugs(items)) + ")"@,
        ValueView::MapValue(es) => "Map({"@ + join(view_entry_debugs(es), ", "@) + "})"@,
        ValueView::Struct(fs) => "Struct("@ + list_debug(view_pair_debugs(fs)) + ")"@,
    }
}

pub open spec fn view_debugs(s: Seq<ValueView>) -> Seq<Seq<char>>
    decreases s, 0int,
{
    Seq::new(s.len(), |i: int| if 0 <= i < s.len() { view_debug(s[i]) } else { Seq::empty() })
}

pub open spec fn view_entry_debugs(s: Seq<(Seq<char>, ValueView)>) -> Seq<Seq<char>>
    decreases s, 0int,
{
    Seq::new(s.len(), |i: int| if 0 <= i < s.len() { quoted(s[i].0) + ": "@ + view_debug(s[i].1) } else { Seq::empty() })
}

pub open spec fn view_pair_debugs(s: Seq<(Seq<char>, ValueView)>) -> Seq<Seq<char>>
    decreases s, 0int,
{
    Seq::new(s.len(), |i: int| if 0 <= i < s.len() {
        "("@ + quoted(s[i].0) + ", "@ + view_debug(s[i].1) + ")"@
    } else {
        Seq::empty()
    })
}

/// A value's debug text depends on its mathematical value alone.
pub proof fn lemma_debug_view(v: Value)
    ensures
        value_debug(v) == view_debug(value_view(v)),
    decreases v,
{
    match v {
        Value::List(items) => {
            assert forall|i: int| 0 <= i < items@.len() implies value_debugs(items@)[i] == view_debugs(value_views(items@))[i] by {
                assert(decreases_to!(v => items@[i]));
                lemma_debug_view(items@[i]);
            }
            assert(value_debugs(items@) =~= view_debugs(value_views(items@)));
        },
        Value::MapValue(es) => {
            assert forall|i: int| 0 <= i < es@.len() implies entry_debugs(es@)[i] == view_entry_debugs(named_views(es@))[i] by {
                assert(decreases_to!(v => es@[i].1));
                lemma_debug_view(es@[i].1);
            }
            assert(entry_debugs(es@) =~= view_entry_debugs(named_views(es@)));
        },
        Value::Struct(fs) => {
            assert forall|i: int| 0 <= i < fs@.len() implies pair_debugs(fs@)[i] == view_pair_debugs(named_views(fs@))[i] by {
                assert(decreases_to!(v => fs@[i].1));
                lemma_debug_view(fs@[i].1);
            }
            assert(pair_debugs(fs@) =~= view_pair_debugs(named_views(fs@)));
        },
        _ => {},
    }
}

// ---------------------------------------------------------------------------
// Conversion of cells
// ---------------------------------------------------------------------------

/// `a / b` rounded toward zero, for `b > 0`.
pub open spec fn trunc_div(a: int, b: int) -> int {
    if a >= 0 { a / b } else { -((-a) / b) }
}

/// The microseconds of a timestamp of unit `u`, when they fit in an `i64`:
/// seconds times 1 000 000, milliseconds times 1 000, nanoseconds divided by
/// 1 000 (rounded toward zero).
pub open spec fn micros(u: TsUnit, t: i64) -> Option<i64> {
    match u {
        TsUnit::Second => if i64::MIN <= t * 1000000 <= i64::MAX { Some((t * 1000000) as i64) } else { None },
        TsUnit::Millisecond => if i64::MIN <= t * 1000 <= i64::MAX { Some((t * 1000) as i64) } else { None },
        TsUnit::Microsecond => Some(t),
        TsUnit::Nanosecond => Some(trunc_div(t as int, 1000) as i64),
    }
}

/// Timestamps become microseconds: seconds are multiplied by a million and
/// milliseconds by a thousand (exactly when the product fits in an `i64`),
/// microseconds stay, and nanoseconds are divided by a thousand, rounded
/// toward zero.
pub proof fn law_timestamp_micros(t: i64)
    ensures
        micros(TsUnit::Microsecond, t) == Some(t),
        micros(TsUnit::Millisecond, t) is Some <==> i64::MIN <= t * 1000 <= i64::MAX,
        micros(TsUnit::Millisecond, t) is Some ==> micros(TsUnit::Millisecond, t).unwrap() == t * 1000,
        micros(TsUnit::Second, t) is Some <==> i64::MIN <= t * 1000000 <= i64::MAX,
        micros(TsUnit::Second, t) is Some ==> micros(TsUnit::Second, t).unwrap() == t * 1000000,
        micros(TsUnit::Nanosecond, t) is Some,
        t >= 0 ==> 1000 * micros(TsUnit::Nanosecond, t).unwrap() <= t < 1000 * micros(TsUnit::Nanosecond, t).unwrap() + 1000,
        t < 0 ==> 1000 * micros(TsUnit::Nanosecond, t).unwrap() - 1000 < t <= 1000 * micros(TsUnit::Nanosecond, t).unwrap(),
{
}

/// A date in milliseconds becomes whole days since the epoch, rounded
/// toward zero.
pub proof fn law_date64_days(t: i64)
    ensures
        t >= 0 ==> 86400000 * trunc_div(t as int, 86400000) <= t < 86400000 * trunc_div(t as int, 86400000) + 86400000,
        t < 0 ==> 86400000 * trunc_div(t as int, 86400000) - 86400000 < t <= 86400000 * trunc_div(t as int, 86400000),
{
}

/// The text a map key becomes: a string as it is, any other value its
/// debug text.
pub open spec fn key_text(k: ValueView) -> Seq<char> {
    match k {
        ValueView::String(s) => s,
        _ => view_debug(k),
    }
}

/// `a` sorts before `b`: character by character by code point, a proper
/// prefix first (the order of their UTF-8 bytes).
pub open spec fn lex_lt(a: Seq<char>, b: Seq<char>) -> bool
    decreases a.len(),
{
    if a.len() == 0 {
        b.len() > 0
    } else if b.len() == 0 {
        false
    } else if a[0] != b[0] {
        (a[0] as int) < (b[0] as int)
    } else {
        lex_lt(a.drop_first(), b.drop_first())
    }
}

/// A sorted map's entries after setting `k` to `v`: an existing entry of
/// `k` is replaced, a new one goes in its sorted place.
pub open spec fn insert_sorted(m: Seq<(Seq<char>, ValueView)>, k: Seq<char>, v: ValueView) -> Seq<(Seq<char>, ValueView)>
    decreases m.len(),
{
    if m.len() == 0 {
        seq![(k, v)]
    } else if m[0].0 == k {
        seq![(k, v)] + m.drop_first()
    } else if lex_lt(k, m[0].0) {
        seq![(k, v)] + m
    } else {
        seq![m[0]] + insert_sorted(m.drop_first(), k, v)
    }
}

/// The entries of a map filled with `es` in turn: sorted by key, the last
/// value of each key kept.
pub open spec fn sorted_map(es: Seq<(Seq<char>, ValueView)>) -> Seq<(Seq<char>, ValueView)>
    decreases es.len(),
{
    if es.len() == 0 {
        Seq::empty()
    } else {
        insert_sorted(sorted_map(es.drop_last()), es.last().0, es.last().1)
    }
}

/// `r` with `d` in front, or the error of `r`.
pub open spec fn prepend<T>(d: Seq<T>, r: Result<Seq<T>, Seq<char>>) -> Result<Seq<T>, Seq<char>> {
    match r {
        Ok(x) => Ok(d + x),
        Err(e) => Err(e),
    }
}

/// The value a cell becomes, or the error of the first cell in it that has
/// no value form.
pub open spec fn cell_conv(c: ArrowCell) -> Result<ValueView, Seq<char>>
    decreases c, 1int,
{
    match c {
        ArrowCell::Null => Ok(ValueView::Null),
        ArrowCell::Bool(b) => Ok(ValueView::Bool(b)),
        ArrowCell::Int8(x) => Ok(ValueView::Byte(x)),
        ArrowCell::Int16(x) => Ok(ValueView::Short(x)),
        ArrowCell::Int32(x) => Ok(ValueView::Integer(x)),
        ArrowCell::Int64(x) => Ok(ValueView::Long(x)),
        ArrowCell::UInt8(x) => Ok(ValueView::Short(x as i16)),
        ArrowCell::UInt16(x) => Ok(ValueView::Integer(x as i32)),
        ArrowCell::UInt32(x) => Ok(ValueView::Long(x as i64)),
        ArrowCell::UInt64(x) => Ok(ValueView::Long(x as i64)),
        ArrowCell::Float32(f) => Ok(ValueView::Float(f@)),
        ArrowCell::Float64(f) => Ok(ValueView::Double(f@)),
        ArrowCell::Utf8(s) => Ok(ValueView::String(s@)),
        ArrowCell::Binary(b) => Ok(ValueView::Binary(b@)),
        ArrowCell::Date32(d) => Ok(ValueView::Date(d)),
        ArrowCell::Date64(t) => Ok(ValueView::Date(trunc_div(t as int, 86400000) as i32)),
        ArrowCell::Timestamp(u, t) => match micros(u, t) {
            Some(m) => Ok(ValueView::Timestamp(m)),
            None => Err("Arrow timestamp out of range"@),
        },
        ArrowCell::List(cs) => match conv_cells(cs@) {
            Ok(vs) => Ok(ValueView::List(vs)),
            Err(e) => Err(e),
        },
        ArrowCell::Struct(fields) => match conv_fields(fields@) {
            Ok(ps) => Ok(ValueView::Struct(ps)),
            Err(e) => Err(e),
        },
        ArrowCell::MapEntries(es) => match conv_entries(es@) {
            Ok(kvs) => Ok(ValueView::MapValue(sorted_map(kvs))),
            Err(e) => Err(e),
        },
        ArrowCell::Unsupported(message) => Err(message@),
    }
}

/// The values of a list of cells, in order, or the first error.
pub open spec fn conv_cells(s: Seq<ArrowCell>) -> Result<Seq<ValueView>, Seq<char>>
    decreases s, 0int,
{
    if s.len() == 0 {
        Ok(Seq::empty())
    } else {
        match cell_conv(s[0]) {
            Err(e) => Err(e),
            Ok(v) => prepend(seq![v], conv_cells(s.drop_first())),
        }
    }
}

/// The named values of a struct's fields, in order, or the first error.
pub open spec fn conv_fields(s: Seq<(String, ArrowCell)>) -> Result<Seq<(Seq<char>, ValueView)>, Seq<char>>
    decreases s, 0int,
{
    if s.len() == 0 {
        Ok(Seq::empty())
    } else {
        match cell_conv(s[0].1) {
            Err(e) => Err(e),
            Ok(v) => prepend(seq![(s[0].0@, v)], conv_fields(s.drop_first())),
        }
    }
}

/// The keyed values of a map's entries, in order (key, then value), or the
/// first error.
pub open spec fn conv_entries(s: Seq<(ArrowCell, ArrowCell)>) -> Result<Seq<(Seq<char>, ValueView)>, Seq<char>>
    decreases s, 0int,
{
    if s.len() == 0 {
        Ok(Seq::empty())
    } else {
        match cell_conv(s[0].0) {
            Err(e) => Err(e),
            Ok(k) => match cell_conv(s[0].1) {
                Err(e) => Err(e),
                Ok(v) => prepend(seq![(key_text(k), v)], conv_entries(s.drop_first())),
            },
        }
    }
}

proof fn lemma_lex_irreflexive(a: Seq<char>)
    ensures
        !lex_lt(a, a),
    decreases a.len(),
{
    if a.len() > 0 {
        lemma_lex_irreflexive(a.drop_first());
    }
}

proof fn lemma_lex_asymmetric(a: Seq<char>, b: Seq<char>)
    ensures
        lex_lt(a, b) ==> !lex_lt(b, a),
    decreases a.len(),
{
    if a.len() > 0 && b.len() > 0 && a[0] == b[0] {
        lemma_lex_asymmetric(a.drop_first(), b.drop_first());
    }
}

proof fn lemma_lex_total(a: Seq<char>, b: Seq<char>)
    ensures
        a != b ==> lex_lt(a, b) || lex_lt(b, a),
    decreases a.len(),
{
    if a.len() > 0 && b.len() > 0 && a[0] == b[0] {
        lemma_lex_total(a.drop_first(), b.drop_first());
        if a.drop_first() == b.drop_first() {
            assert(a =~= seq![a[0]] + a.drop_first());
            assert(b =~= seq![b[0]] + b.drop_first());
        }
    } else if a.len() == 0 && b.len() == 0 {
        assert(a =~= b);
    } else if a.len() > 0 && b.len() > 0 {
        assert((a[0] as int) != (b[0] as int));
    }
}

proof fn lemma_lex_transitive(a: Seq<char>, b: Seq<char>, c: Seq<char>)
    requires
        lex_lt(a, b),
        lex_lt(b, c),
    ensures
        lex_lt(a, c),
    decreases a.len(),
{
    if a.len() > 0 && b.len() > 0 && c.len() > 0 && a[0] == b[0] && b[0] == c[0] {
        lemma_lex_transitive(a.drop_first(), b.drop_first(), c.drop_first());
    }
}

/// The keys of a map's entries strictly increase.
pub open spec fn keys_sorted(m: Seq<(Seq<char>, ValueView)>) -> bool {
    forall|i: int, j: int| 0 <= i < j < m.len() ==> lex_lt(#[trigger] m[i].0, #[trigger] m[j].0)
}

proof fn lemma_insert_sorted_bounded(m: Seq<(Seq<char>, ValueView)>, k: Seq<char>, v: ValueView, lo: Seq<char>, has_lo: bool)
    requires
        keys_sorted(m),
        has_lo ==> lex_lt(lo, k),
        has_lo ==> forall|j: int| 0 <= j < m.len() ==> lex_lt(lo, #[trigger] m[j].0),
    ensures
        keys_sorted(insert_sorted(m, k, v)),
        has_lo ==> forall|i: int| 0 <= i < insert_sorted(m, k, v).len() ==> lex_lt(lo, #[trigger] insert_sorted(m, k, v)[i].0),
    decreases m.len(),
{
    let r = insert_sorted(m, k, v);
    if m.len() == 0 {
    } else if m[0].0 == k {
        assert forall|i: int, j: int| 0 <= i < j < r.len() implies lex_lt(#[trigger] r[i].0, #[trigger] r[j].0) by {
            assert(r[i].0 == m[i].0);
            assert(r[j].0 == m[j].0);
        }
        assert forall|i: int| 0 <= i < r.len() && has_lo implies lex_lt(lo, #[trigger] r[i].0) by {
            assert(r[i].0 == m[i].0);
        }
    } else if lex_lt(k, m[0].0) {
        assert forall|i: int, j: int| 0 <= i < j < r.len() implies lex_lt(#[trigger] r[i].0, #[trigger] r[j].0) by {
            if i == 0 {
                if j > 1 {
                    lemma_lex_transitive(k, m[0].0, m[j - 1].0);
                }
            } else {
                assert(r[i].0 == m[i - 1].0);
                assert(r[j].0 == m[j - 1].0);
            }
        }
    } else {
        lemma_lex_total(m[0].0, k);
        let rest = m.drop_first();
        assert forall|j: int| 0 <= j < rest.len() implies lex_lt(m[0].0, #[trigger] rest[j].0) by {
            assert(rest[j] == m[j + 1]);
        }
        assert(keys_sorted(rest)) by {
            assert forall|i: int, j: int| 0 <= i < j < rest.len() implies lex_lt(#[trigger] rest[i].0, #[trigger] rest[j].0) by {
                assert(rest[i] == m[i + 1]);
                assert(rest[j] == m[j + 1]);
            }
        }
        lemma_insert_sorted_bounded(rest, k, v, m[0].0, true);
        let t = insert_sorted(rest, k, v);
        assert(r == seq![m[0]] + t);
        assert forall|i: int, j: int| 0 <= i < j < r.len() implies lex_lt(#[trigger] r[i].0, #[trigger] r[j].0) by {
            if i == 0 {
                assert(r[j].0 == t[j - 1].0);
            } else {
                assert(r[i].0 == t[i - 1].0);
                assert(r[j].0 == t[j - 1].0);
            }
        }
        if has_lo {
            assert forall|i: int| 0 <= i < r.len() implies lex_lt(lo, #[trigger] r[i].0) by {
                if i > 0 {
                    assert(r[i].0 == t[i - 1].0);
                    lemma_lex_transitive(lo, m[0].0, t[i - 1].0);
                }
            }
        }
    }
}

/// The entries of a map read from Arrow are sorted by key, each key once:
/// the keys of `sorted_map(es)` strictly increase.
pub proof fn law_map_keys_sorted(es: Seq<(Seq<char>, ValueView)>)
    ensures
        keys_sorted(sorted_map(es)),
    decreases es.len(),
{
    if es.len() > 0 {
        law_map_keys_sorted(es.drop_last());
        lemma_insert_sorted_bounded(sorted_map(es.drop_last()), es.last().0, es.last().1, Seq::empty(), false);
    }
}

/// Inserting into a sorted map at the first entry whose key does not sort
/// before `k`.
proof fn lemma_insert_at(m: Seq<(Seq<char>, ValueView)>, k: Seq<char>, v: ValueView, p: int)
    requires
        0 <= p <= m.len(),
        forall|j: int| 0 <= j < p ==> lex_lt(#[trigger] m[j].0, k),
        p < m.len() ==> !lex_lt(m[p].0, k),
    ensures
        insert_sorted(m, k, v) == (if p < m.len() && m[p].0 == k { m.update(p, (k, v)) } else { m.insert(p, (k, v)) }),
    decreases p,
{
    if p == 0 {
        if m.len() == 0 {
            assert(m.insert(0, (k, v)) =~= seq![(k, v)]);
        } else if m[0].0 == k {
            assert(seq![(k, v)] + m.drop_first() =~= m.update(0, (k, v)));
        } else {
            lemma_lex_total(m[0].0, k);
            assert(seq![(k, v)] + m =~= m.insert(0, (k, v)));
        }
    } else {
        assert(lex_lt(m[0].0, k));
        lemma_lex_irreflexive(k);
        lemma_lex_asymmetric(m[0].0, k);
        let rest = m.drop_first();
        assert forall|j: int| 0 <= j < p - 1 implies lex_lt(#[trigger] rest[j].0, k) by {
            assert(rest[j] == m[j + 1]);
        }
        lemma_insert_at(rest, k, v, p - 1);
        if p < m.len() && m[p].0 == k {
            assert(seq![m[0]] + rest.update(p - 1, (k, v)) =~= m.update(p, (k, v)));
        } else {
            assert(seq![m[0]] + rest.insert(p - 1, (k, v)) =~= m.insert(p, (k, v)));
        }
    }
}

// ---------------------------------------------------------------------------
// Executable conversion
// ---------------------------------------------------------------------------

/// Whether `a` sorts before `b` (see `lex_lt`).
fn str_lt(a: &str, b: &str) -> (r: bool)
    ensures
        r == lex_lt(a@, b@),
{
    let n = a.unicode_len();
    let m = b.unicode_len();
    let mut i: usize = 0;
    assert(a@.skip(0) =~= a@);
    assert(b@.skip(0) =~= b@);
    while i < n && i < m && a.get_char(i) == b.get_char(i)
        invariant
            i <= n,
            i <= m,
            n == a@.len(),
            m == b@.len(),
            lex_lt(a@, b@) == lex_lt(a@.skip(i as int), b@.skip(i as int)),
        decreases n - i,
    {
        proof {
            assert(a@.skip(i as int).drop_first() =~= a@.skip(i as int + 1));
            assert(b@.skip(i as int).drop_first() =~= b@.skip(i as int + 1));
        }
        i = i + 1;
    }
    if i == n {
        i < m
    } else if i == m {
        false
    } else {
        let x = a.get_char(i);
        let y = b.get_char(i);
        (x as u32) < (y as u32)
    }
}

/// Sets `k` to `v` in the sorted entries `m` (see `insert_sorted`).
fn insert_entry(m: &mut Vec<(String, Value)>, k: String, v: Value)
    ensures
        named_views(final(m)@) == insert_sorted(named_views(old(m)@), k@, value_view(v)),
{
    let ghost ms = named_views(m@);
    let mut p: usize = 0;
    while p < m.len() && str_lt(m[p].0.as_str(), k.as_str())
        invariant
            p <= m@.len(),
            ms == named_views(m@),
            forall|j: int| 0 <= j < p ==> lex_lt(#[trigger] ms[j].0, k@),
        decreases m@.len() - p,
    {
        p = p + 1;
    }
    proof {
        lemma_insert_at(ms, k@, value_view(v), p as int);
    }
    let ghost kv = k@;
    let ghost vv = value_view(v);
    if p < m.len() && crate::text::str_eq(m[p].0.as_str(), k.as_str()) {
        m.set(p, (k, v));
        assert(named_views(m@) =~= ms.update(p as int, (kv, vv)));
    } else {
        m.insert(p, (k, v));
        assert(named_views(m@) =~= ms.insert(p as int, (kv, vv)));
    }
}

/// Days from milliseconds since the epoch, rounded toward zero.
fn date64_days(t: i64) -> (d: i32)
    ensures
        d == trunc_div(t as int, 86400000) as i32,
{
    let q: i64 = if t >= 0 { t / 86400000 } else { 0 - ((0 - (t as i128)) / 86400000) as i64 };
    #[verifier::truncate]
    (q as i32)
}

/// The microseconds of a timestamp (see `micros`).
fn timestamp_micros(u: TsUnit, t: i64) -> (r: Option<i64>)
    ensures
        r == micros(u, t),
{
    match u {
        TsUnit::Second => {
            let m: i128 = (t as i128) * 1000000;
            if m < i64::MIN as i128 || m > i64::MAX as i128 { None } else { Some(m as i64) }
        },
        TsUnit::Millisecond => {
            let m: i128 = (t as i128) * 1000;
            if m < i64::MIN as i128 || m > i64::MAX as i128 { None } else { Some(m as i64) }
        },
        TsUnit::Microsecond => Some(t),
        TsUnit::Nanosecond => {
            if t >= 0 { Some(t / 1000) } else { Some(0 - ((0 - (t as i128)) / 1000) as i64) }
        },
    }
}

fn conv_error(message: String) -> (e: ConnectError)
    ensures
        e.message@ == message@,
{
    ConnectError { message }
}

/// The value a cell becomes (see `cell_conv`).
pub fn arrow_cell_value(c: &ArrowCell) -> (r: Result<Value, ConnectError>)
    ensures
        match r {
            Ok(v) => cell_conv(*c) == Ok::<ValueView, Seq<char>>(value_view(v)),
            Err(e) => cell_conv(*c) == Err::<ValueView, Seq<char>>(e.message@),
        },
    decreases c, 1int,
{
    match c {
        ArrowCell::Null => Ok(Value::Null),
        ArrowCell::Bool(b) => Ok(Value::Bool(*b)),
        ArrowCell::Int8(x) => Ok(Value::Byte(*x)),
        ArrowCell::Int16(x) => Ok(Value::Short(*x)),
        ArrowCell::Int32(x) => Ok(Value::Integer(*x)),
        ArrowCell::Int64(x) => Ok(Value::Long(*x)),
        ArrowCell::UInt8(x) => Ok(Value::Short(*x as i16)),
        ArrowCell::UInt16(x) => Ok(Value::Integer(*x as i32)),
        ArrowCell::UInt32(x) => Ok(Value::Long(*x as i64)),
        ArrowCell::UInt64(x) => Ok(Value::Long(#[verifier::truncate] (*x as i64))),
        ArrowCell::Float32(f) => Ok(Value::Float(f.copy())),
        ArrowCell::Float64(f) => Ok(Value::Double(f.copy())),
        ArrowCell::Utf8(s) => Ok(Value::String(s.clone())),
        ArrowCell::Binary(b) => Ok(Value::Binary(crate::plan::copy_bytes(b))),
        ArrowCell::Date32(d) => Ok(Value::Date(*d)),
        ArrowCell::Date64(t) => Ok(Value::Date(date64_days(*t))),
        ArrowCell::Timestamp(u, t) => match timestamp_micros(*u, *t) {
            Some(m) => Ok(Value::Timestamp(m)),
            None => Err(conv_error(owned("Arrow timestamp out of range"))),
        },
        ArrowCell::List(cs) => match cells_values(cs) {
            Ok(vs) => Ok(Value::List(vs)),
            Err(e) => Err(e),
        },
        ArrowCell::Struct(fields) => match fields_values(fields) {
            Ok(ps) => Ok(Value::Struct(ps)),
            Err(e) => Err(e),
        },
        ArrowCell::MapEntries(es) => match entries_values(es) {
            Ok(m) => Ok(Value::MapValue(m)),
            Err(e) => Err(e),
        },
        ArrowCell::Unsupported(message) => Err(conv_error(message.clone())),
    }
}

fn cells_values(cs: &Vec<ArrowCell>) -> (r: Result<Vec<Value>, ConnectError>)
    ensures
        match r {
            Ok(vs) => conv_cells(cs@) == Ok::<Seq<ValueView>, Seq<char>>(value_views(vs@)) && vs@.len() == cs@.len(),
            Err(e) => conv_cells(cs@) == Err::<Seq<ValueView>, Seq<char>>(e.message@),
        },
    decreases cs, 0int,
{
    let mut out: Vec<Value> = Vec::new();
    let mut i: usize = 0;
    assert(cs@.skip(0) =~= cs@);
    while i < cs.len()
        invariant
            i <= cs@.len(),
            out@.len() == i,
            conv_cells(cs@) == prepend(value_views(out@), conv_cells(cs@.skip(i as int))),
        decreases cs@.len() - i,
    {
        proof {
            assert(decreases_to!(*cs => cs@[i as int]));
            assert(cs@.skip(i as int)[0] == cs@[i as int]);
            assert(cs@.skip(i as int).drop_first() =~= cs@.skip(i as int + 1));
        }
        match arrow_cell_value(&cs[i]) {
            Err(e) => {
                return Err(e);
            },
            Ok(v) => {
                let ghost before = value_views(out@);
                out.push(v);
                proof {
                    assert(value_views(out@) =~= before.push(value_view(v)));
                    match conv_cells(cs@.skip(i as int + 1)) {
                        Ok(x) => {
                            assert(before + (seq![value_view(v)] + x) =~= before.push(value_view(v)) + x);
                        },
                        Err(_) => {},
                    }
                }
            },
        }
        i = i + 1;
    }
    assert(cs@.skip(i as int) =~= Seq::<ArrowCell>::empty());
    assert(value_views(out@) + Seq::<ValueView>::empty() =~= value_views(out@));
    Ok(out)
}

fn fields_values(fs: &Vec<(String, ArrowCell)>) -> (r: Result<Vec<(String, Value)>, ConnectError>)
    ensures
        match r {
            Ok(ps) => conv_fields(fs@) == Ok::<Seq<(Seq<char>, ValueView)>, Seq<char>>(named_views(ps@)),
            Err(e) => conv_fields(fs@) == Err::<Seq<(Seq<char>, ValueView)>, Seq<char>>(e.message@),
        },
    decreases fs, 0int,
{
    let mut out: Vec<(String, Value)> = Vec::new();
    let mut i: usize = 0;
    assert(fs@.skip(0) =~= fs@);
    while i < fs.len()
        invariant
            i <= fs@.len(),
            conv_fields(fs@) == prepend(named_views(out@), conv_fields(fs@.skip(i as int))),
        decreases fs@.len() - i,
    {
        proof {
            assert(decreases_to!(*fs => fs@[i as int]));
            assert(decreases_to!(fs@[i as int] => fs@[i as int].1));
            assert(fs@.skip(i as int)[0] == fs@[i as int]);
            assert(fs@.skip(i as int).drop_first() =~= fs@.skip(i as int + 1));
        }
        match arrow_cell_value(&fs[i].1) {
            Err(e) => {
                return Err(e);
            },
            Ok(v) => {
                let ghost before = named_views(out@);
                let ghost item = (fs@[i as int].0@, value_view(v));
                out.push((fs[i].0.clone(), v));
                proof {
                    assert(named_views(out@) =~= before.push(item));
                    match conv_fields(fs@.skip(i as int + 1)) {
                        Ok(x) => {
                            assert(before + (seq![item] + x) =~= before.push(item) + x);
                        },
                        Err(_) => {},
                    }
                }
            },
        }
        i = i + 1;
    }
    assert(fs@.skip(i as int) =~= Seq::<(String, ArrowCell)>::empty());
    assert(named_views(out@) + Seq::<(Seq<char>, ValueView)>::empty() =~= named_views(out@));
    Ok(out)
}

/// The text a converted map key becomes (see `key_text`).
fn key_string(k: Value) -> (s: String)
    ensures
        s@ == key_text(value_view(k)),
{
    match k {
        Value::String(s) => s,
        other => {
            proof {
                lemma_debug_view(other);
            }
            value_debug_string(&other)
        },
    }
}

fn entries_values(es: &Vec<(ArrowCell, ArrowCell)>) -> (r: Result<Vec<(String, Value)>, ConnectError>)
    ensures
        match r {
            Ok(m) => conv_entries(es@) matches Ok(kvs) && named_views(m@) == sorted_map(kvs),
            Err(e) => conv_entries(es@) == Err::<Seq<(Seq<char>, ValueView)>, Seq<char>>(e.message@),
        },
    decreases es, 0int,
{
    let mut m: Vec<(String, Value)> = Vec::new();
    let ghost mut done: Seq<(Seq<char>, ValueView)> = Seq::empty();
    let mut i: usize = 0;
    assert(es@.skip(0) =~= es@);
    assert(named_views(m@) =~= sorted_map(done));
    while i < es.len()
        invariant
            i <= es@.len(),
            conv_entries(es@) == prepend(done, conv_entries(es@.skip(i as int))),
            named_views(m@) == sorted_map(done),
        decreases es@.len() - i,
    {
        proof {
            assert(decreases_to!(*es => es@[i as int]));
            assert(decreases_to!(es@[i as int] => es@[i as int].0));
            assert(decreases_to!(es@[i as int] => es@[i as int].1));
            assert(es@.skip(i as int)[0] == es@[i as int]);
            assert(es@.skip(i as int).drop_first() =~= es@.skip(i as int + 1));
        }
        let k = match arrow_cell_value(&es[i].0) {
            Err(e) => {
                return Err(e);
            },
            Ok(k) => k,
        };
        let v = match arrow_cell_value(&es[i].1) {
            Err(e) => {
                return Err(e);
            },
            Ok(v) => v,
        };
        let ghost item = (key_text(value_view(k)), value_view(v));
        let ks = key_string(k);
        insert_entry(&mut m, ks, v);
        proof {
            let before = done;
            done = done.push(item);
            assert(done.drop_last() =~= before);
            match conv_entries(es@.skip(i as int + 1)) {
                Ok(x) => {
                    assert(before + (seq![item] + x) =~= done + x);
                },
                Err(_) => {},
            }
        }
        i = i + 1;
    }
    assert(es@.skip(i as int) =~= Seq::<(ArrowCell, ArrowCell)>::empty());
    assert(done + Seq::<(Seq<char>, ValueView)>::empty() =~= done);
    Ok(m)
}


// ---------------------------------------------------------------------------
// Cells of arrays
// ---------------------------------------------------------------------------

/// `c` is the cell whose message is `m`.
pub open spec fn message_cell(c: ArrowCell, m: Seq<char>) -> bool {
    c matches ArrowCell::Unsupported(t) && t@ == m
}

/// The message of a data type with no value form, for the type's debug text
/// `t`.
pub open spec fn unsupported_message(t: Seq<char>) -> Seq<char> {
    "Unsupported Arrow type "@ + t + " - cannot convert to Value"@
}

/// `c` says that its array's data type has no value form.
pub open spec fn unsupported_cell(c: ArrowCell) -> bool {
    c matches ArrowCell::Unsupported(m) && exists|t: Seq<char>| #[trigger] unsupported_message(t) == m@
}

/// `c` says that its array does not hold what its data type promises (an
/// offset or a child out of range).
pub open spec fn malformed_cell(c: ArrowCell) -> bool {
    message_cell(c, "Arrow array is malformed"@)
}

/// How deep arrays may nest when read: each level is an allocation of its
/// own, so no array in memory nests deeper.
pub open spec fn max_nesting() -> nat {
    usize::MAX as nat
}

/// `c` is the cell of the array `d` at index `i` (`i < arrow_len(d)`),
/// reading at most `fuel` levels of nesting: null when the array says so,
/// else by the array's kind.
pub open spec fn cell_of(d: ArrayData, i: int, fuel: nat, c: ArrowCell) -> bool
    decreases fuel, 0int,
{
    if fuel == 0 {
        message_cell(c, "Arrow arrays nest too deeply"@)
    } else if arrow_is_null(d, i) {
        c is Null
    } else {
        match arrow_type(d) {
            ArrowTypeTag::List => list_cell_ok(d, i, (fuel - 1) as nat, c),
            ArrowTypeTag::Mapping => map_cell_ok(d, i, (fuel - 1) as nat, c),
            ArrowTypeTag::Struct => struct_cell_ok(d, i, (fuel - 1) as nat, c),
            t => flat_cell_ok(d, i, t, c),
        }
    }
}

/// `c` is the cell of a non-null value at `i` of an array of kind `t` that
/// does not nest.
pub open spec fn flat_cell_ok(d: ArrayData, i: int, t: ArrowTypeTag, c: ArrowCell) -> bool {
    match t {
        ArrowTypeTag::Boolean => c == ArrowCell::Bool(arrow_bool_value(d, i)),
        ArrowTypeTag::Int8 => c == ArrowCell::Int8(arrow_int_value(d, i) as i8),
        ArrowTypeTag::Int16 => c == ArrowCell::Int16(arrow_int_value(d, i) as i16),
        ArrowTypeTag::Int32 => c == ArrowCell::Int32(arrow_int_value(d, i) as i32),
        ArrowTypeTag::Int64 => c == ArrowCell::Int64(arrow_int_value(d, i)),
        ArrowTypeTag::UInt8 => c == ArrowCell::UInt8(arrow_uint_value(d, i) as u8),
        ArrowTypeTag::UInt16 => c == ArrowCell::UInt16(arrow_uint_value(d, i) as u16),
        ArrowTypeTag::UInt32 => c == ArrowCell::UInt32(arrow_uint_value(d, i) as u32),
        ArrowTypeTag::UInt64 => c == ArrowCell::UInt64(arrow_uint_value(d, i)),
        ArrowTypeTag::Float32 => c matches ArrowCell::Float32(f) && f@ == arrow_float_value(d, i),
        ArrowTypeTag::Float64 | ArrowTypeTag::Decimal128 =>
            c matches ArrowCell::Float64(f) && f@ == arrow_double_value(d, i),
        ArrowTypeTag::Utf8 | ArrowTypeTag::LargeUtf8 | ArrowTypeTag::Utf8View =>
            c matches ArrowCell::Utf8(s) && s@ == arrow_text_value(d, i),
        ArrowTypeTag::Binary | ArrowTypeTag::LargeBinary | ArrowTypeTag::BinaryView =>
            c matches ArrowCell::Binary(b) && b@ == arrow_bytes_value(d, i),
        ArrowTypeTag::Date32 => c == ArrowCell::Date32(arrow_int_value(d, i) as i32),
        ArrowTypeTag::Date64 => c == ArrowCell::Date64(arrow_int_value(d, i)),
        ArrowTypeTag::Timestamp(u) => c == ArrowCell::Timestamp(u, arrow_int_value(d, i)),
        _ => unsupported_cell(c),
    }
}

/// The cell `c` converts to the value `w`.
pub open spec fn decodes_to(c: ArrowCell, w: ValueView) -> bool {
    cell_conv(c) == Ok::<ValueView, Seq<char>>(w)
}

/// What a value of an array decodes to, by the array's kind: a null is
/// `Null`; a boolean a `Bool`; an Int8, Int16, Int32, Int64 a `Byte`,
/// `Short`, `Integer`, `Long` of the value; a UInt8 or UInt16 widens to a
/// `Short` or `Integer`, a UInt32 or UInt64 becomes a `Long`; a Float32 a
/// `Float`, a Float64 or decimal a `Double`, of what arrow reads; a text a
/// `String`, a binary a `Binary`; a Date32 a `Date` of its day count, a
/// Date64 a `Date` of its whole days; a timestamp a `Timestamp` of its
/// microseconds.
pub proof fn law_flat_values_decode(d: ArrayData, i: int, fuel: nat, c: ArrowCell)
    requires
        fuel > 0,
        cell_of(d, i, fuel, c),
    ensures
        arrow_is_null(d, i) ==> decodes_to(c, ValueView::Null),
        !arrow_is_null(d, i) ==> match arrow_type(d) {
            ArrowTypeTag::Boolean => decodes_to(c, ValueView::Bool(arrow_bool_value(d, i))),
            ArrowTypeTag::Int8 => decodes_to(c, ValueView::Byte(arrow_int_value(d, i) as i8)),
            ArrowTypeTag::Int16 => decodes_to(c, ValueView::Short(arrow_int_value(d, i) as i16)),
            ArrowTypeTag::Int32 => decodes_to(c, ValueView::Integer(arrow_int_value(d, i) as i32)),
            ArrowTypeTag::Int64 => decodes_to(c, ValueView::Long(arrow_int_value(d, i))),
            ArrowTypeTag::UInt8 => decodes_to(c, ValueView::Short((arrow_uint_value(d, i) as u8) as i16)),
            ArrowTypeTag::UInt16 => decodes_to(c, ValueView::Integer((arrow_uint_value(d, i) as u16) as i32)),
            ArrowTypeTag::UInt32 => decodes_to(c, ValueView::Long((arrow_uint_value(d, i) as u32) as i64)),
            ArrowTypeTag::UInt64 => decodes_to(c, ValueView::Long(arrow_uint_value(d, i) as i64)),
            ArrowTypeTag::Float32 => decodes_to(c, ValueView::Float(arrow_float_value(d, i))),
            ArrowTypeTag::Float64 | ArrowTypeTag::Decimal128 => decodes_to(c, ValueView::Double(arrow_double_value(d, i))),
            ArrowTypeTag::Utf8 | ArrowTypeTag::LargeUtf8 | ArrowTypeTag::Utf8View =>
                decodes_to(c, ValueView::String(arrow_text_value(d, i))),
            ArrowTypeTag::Binary | ArrowTypeTag::LargeBinary | ArrowTypeTag::BinaryView =>
                decodes_to(c, ValueView::Binary(arrow_bytes_value(d, i))),
            ArrowTypeTag::Date32 => decodes_to(c, ValueView::Date(arrow_int_value(d, i) as i32)),
            ArrowTypeTag::Date64 => decodes_to(c, ValueView::Date(trunc_div(arrow_int_value(d, i) as int, 86400000) as i32)),
            ArrowTypeTag::Timestamp(u) => micros(u, arrow_int_value(d, i)) matches Some(m)
                ==> decodes_to(c, ValueView::Timestamp(m)),
            _ => true,
        },
{
}

/// The first entry of the non-null list at `i` in its child.
pub open spec fn list_start(d: ArrayData, i: int) -> int {
    arrow_list_offset(d, i) as int
}

/// Where the non-null list at `i` ends in its child.
pub open spec fn list_end(d: ArrayData, i: int) -> int {
    arrow_list_offset(d, i + 1) as int
}

/// The offsets of the list at `i` lie in order within its child.
pub open spec fn list_in_range(d: ArrayData, i: int) -> bool {
    arrow_child_count(d) >= 1 && 0 <= list_start(d, i) <= list_end(d, i) <= arrow_len(arrow_child(d, 0))
}

proof fn lemma_conv_cells_each(s: Seq<ArrowCell>)
    ensures
        conv_cells(s) is Ok ==> conv_cells(s)->Ok_0.len() == s.len() && forall|j: int| 0 <= j < s.len()
            ==> decodes_to(#[trigger] s[j], conv_cells(s)->Ok_0[j]),
    decreases s.len(),
{
    if s.len() > 0 {
        lemma_conv_cells_each(s.drop_first());
        if conv_cells(s) is Ok {
            let v = cell_conv(s[0])->Ok_0;
            let rest = conv_cells(s.drop_first())->Ok_0;
            assert(conv_cells(s)->Ok_0 == seq![v] + rest);
            assert forall|j: int| 0 <= j < s.len() implies decodes_to(#[trigger] s[j], conv_cells(s)->Ok_0[j]) by {
                if j > 0 {
                    assert(s[j] == s.drop_first()[j - 1]);
                }
            }
        }
    }
}

proof fn lemma_conv_fields_each(s: Seq<(String, ArrowCell)>)
    ensures
        conv_fields(s) is Ok ==> conv_fields(s)->Ok_0.len() == s.len() && forall|j: int| 0 <= j < s.len()
            ==> conv_fields(s)->Ok_0[j].0 == (#[trigger] s[j]).0@ && decodes_to(s[j].1, conv_fields(s)->Ok_0[j].1),
    decreases s.len(),
{
    if s.len() > 0 {
        lemma_conv_fields_each(s.drop_first());
        if conv_fields(s) is Ok {
            let v = cell_conv(s[0].1)->Ok_0;
            let rest = conv_fields(s.drop_first())->Ok_0;
            assert(conv_fields(s)->Ok_0 == seq![(s[0].0@, v)] + rest);
            assert forall|j: int| 0 <= j < s.len() implies conv_fields(s)->Ok_0[j].0 == (#[trigger] s[j]).0@
                && decodes_to(s[j].1, conv_fields(s)->Ok_0[j].1) by {
                if j > 0 {
                    assert(s[j] == s.drop_first()[j - 1]);
                }
            }
        }
    }
}

/// A non-null list decodes to the values of its child array between its
/// offsets, in order: element `j` comes from the child's value at the
/// list's start plus `j`. Offsets out of order or past the child are the
/// error "Arrow array is malformed".
pub proof fn law_list_values_decode(d: ArrayData, i: int, fuel: nat, c: ArrowCell)
    requires
        fuel > 0,
        cell_of(d, i, fuel, c),
        !arrow_is_null(d, i),
        arrow_type(d) == ArrowTypeTag::List,
    ensures
        !list_in_range(d, i) ==> cell_conv(c) == Err::<ValueView, Seq<char>>("Arrow array is malformed"@),
        list_in_range(d, i) ==> c is List && c->List_0@.len() == list_end(d, i) - list_start(d, i)
            && (forall|j: int| 0 <= j < c->List_0@.len() ==> cell_of(arrow_child(d, 0), list_start(d, i) + j,
                (fuel - 1) as nat, #[trigger] c->List_0@[j])),
        list_in_range(d, i) && cell_conv(c) is Ok ==> cell_conv(c)->Ok_0 is List
            && cell_conv(c)->Ok_0->List_0.len() == list_end(d, i) - list_start(d, i)
            && (forall|j: int| 0 <= j < list_end(d, i) - list_start(d, i)
                ==> decodes_to(#[trigger] c->List_0@[j], cell_conv(c)->Ok_0->List_0[j])),
{
    if list_in_range(d, i) {
        lemma_conv_cells_each(c->List_0@);
    }
}

/// A non-null struct decodes to its fields in order: field `k` has the
/// name of the type's `k`-th field and the value of child `k` at the
/// struct's offset plus `i`. A child too short for that index is the error
/// "Arrow array is malformed".
pub proof fn law_struct_values_decode(d: ArrayData, i: int, fuel: nat, c: ArrowCell)
    requires
        fuel > 0,
        cell_of(d, i, fuel, c),
        !arrow_is_null(d, i),
        arrow_type(d) == ArrowTypeTag::Struct,
    ensures
        (exists|k: int| 0 <= k < arrow_child_count(d) && arrow_offset(d) + i >= arrow_len(#[trigger] arrow_child(d, k)))
            ==> cell_conv(c) == Err::<ValueView, Seq<char>>("Arrow array is malformed"@),
        cell_conv(c) is Ok ==> c is Struct && cell_conv(c)->Ok_0 is Struct
            && cell_conv(c)->Ok_0->Struct_0.len() == arrow_child_count(d)
            && (forall|k: int| 0 <= k < arrow_child_count(d) ==> (#[trigger] cell_conv(c)->Ok_0->Struct_0[k]).0
                == arrow_field_name(d, k) && cell_of(arrow_child(d, k), arrow_offset(d) + i, (fuel - 1) as nat, c->Struct_0@[k].1)
                && decodes_to(c->Struct_0@[k].1, cell_conv(c)->Ok_0->Struct_0[k].1)),
{
    if c is Struct {
        let fs = c->Struct_0@;
        lemma_conv_fields_each(fs);
        if cell_conv(c) is Ok {
            let ps = cell_conv(c)->Ok_0->Struct_0;
            assert(ps == conv_fields(fs)->Ok_0);
            assert forall|k: int| 0 <= k < arrow_child_count(d) implies (#[trigger] ps[k]).0
                == arrow_field_name(d, k) && cell_of(arrow_child(d, k), arrow_offset(d) + i, (fuel - 1) as nat, fs[k].1)
                && decodes_to(fs[k].1, ps[k].1) by {
                assert(fs[k].0@ == arrow_field_name(d, k));
            }
        }
    }
}

/// `c` is the cell of the non-null list at `i`: the cells of the child
/// array between the list's offsets, each read with `f` levels left.
pub open spec fn list_cell_ok(d: ArrayData, i: int, f: nat, c: ArrowCell) -> bool
    decreases f, 1int,
{
    let s = arrow_list_offset(d, i) as int;
    let e = arrow_list_offset(d, i + 1) as int;
    let ch = arrow_child(d, 0);
    if arrow_child_count(d) < 1 || s < 0 || e < s || e > arrow_len(ch) {
        malformed_cell(c)
    } else {
        c matches ArrowCell::List(cs) && cs@.len() == e - s && forall|j: int|
            0 <= j < e - s ==> cell_of(ch, s + j, f, #[trigger] cs@[j])
    }
}

/// `c` is the cell of the non-null map at `i`: for each entry between the
/// map's offsets, the cells of the entry struct's key and value children.
pub open spec fn map_cell_ok(d: ArrayData, i: int, f: nat, c: ArrowCell) -> bool
    decreases f, 1int,
{
    let s = arrow_map_offset(d, i) as int;
    let e = arrow_map_offset(d, i + 1) as int;
    let en = arrow_child(d, 0);
    let o = arrow_offset(en) as int;
    let ks = arrow_child(en, 0);
    let vs = arrow_child(en, 1);
    if arrow_child_count(d) < 1 || arrow_child_count(en) < 2 || s < 0 || e < s || o + e > arrow_len(ks)
        || o + e > arrow_len(vs) {
        malformed_cell(c)
    } else {
        c matches ArrowCell::MapEntries(es) && es@.len() == e - s && forall|j: int|
            0 <= j < e - s ==> cell_of(ks, o + s + j, f, (#[trigger] es@[j]).0)
                && cell_of(vs, o + s + j, f, es@[j].1)
    }
}

/// `c` is the cell of the non-null struct at `i`: each field's name and the
/// cell of its child at the struct's offset plus `i`.
pub open spec fn struct_cell_ok(d: ArrayData, i: int, f: nat, c: ArrowCell) -> bool
    decreases f, 1int,
{
    let n = arrow_child_count(d) as int;
    let o = arrow_offset(d) as int;
    if exists|k: int| 0 <= k < n && o + i >= arrow_len(#[trigger] arrow_child(d, k)) {
        malformed_cell(c)
    } else {
        c matches ArrowCell::Struct(fs) && fs@.len() == n && forall|k: int|
            0 <= k < n ==> (#[trigger] fs@[k]).0@ == arrow_field_name(d, k)
                && cell_of(arrow_child(d, k), o + i, f, fs@[k].1)
    }
}

fn message_of(m: &str) -> (c: ArrowCell)
    ensures
        message_cell(c, m@),
{
    ArrowCell::Unsupported(owned(m))
}

/// The kind of `d`'s data type.
fn array_type(d: &ArrayData) -> (t: ArrowTypeTag)
    ensures
        t == arrow_type(*d),
{
    let a = numeric_type(d);
    if let ArrowTypeTag::Other = a {
        let b = byte_type(d);
        if let ArrowTypeTag::Other = b {
            temporal_type(d)
        } else {
            b
        }
    } else {
        a
    }
}

/// The cell of the array `d` at `i` (see `cell_of`).
fn array_cell(d: &ArrayData, i: usize, fuel: usize) -> (c: ArrowCell)
    requires
        i < arrow_len(*d),
    ensures
        cell_of(*d, i as int, fuel as nat, c),
    decreases fuel, 0int,
{
    if fuel == 0 {
        return message_of("Arrow arrays nest too deeply");
    }
    if is_null_at(d, i) {
        return ArrowCell::Null;
    }
    let t = array_type(d);
    match t {
        ArrowTypeTag::List => list_cell(d, i, fuel - 1),
        ArrowTypeTag::Mapping => map_cell(d, i, fuel - 1),
        ArrowTypeTag::Struct => struct_cell(d, i, fuel - 1),
        _ => flat_cell(d, i, t),
    }
}

/// The cell of a value of a kind that does not nest (see `flat_cell_ok`).
fn flat_cell(d: &ArrayData, i: usize, t: ArrowTypeTag) -> (c: ArrowCell)
    requires
        i < arrow_len(*d),
        t == arrow_type(*d),
    ensures
        flat_cell_ok(*d, i as int, t, c),
{
    match t {
        ArrowTypeTag::Boolean => ArrowCell::Bool(bool_at(d, i)),
        ArrowTypeTag::Int8 => ArrowCell::Int8(#[verifier::truncate] (int_at(d, i) as i8)),
        ArrowTypeTag::Int16 => ArrowCell::Int16(#[verifier::truncate] (int_at(d, i) as i16)),
        ArrowTypeTag::Int32 => ArrowCell::Int32(#[verifier::truncate] (int_at(d, i) as i32)),
        ArrowTypeTag::Int64 => ArrowCell::Int64(int_at(d, i)),
        ArrowTypeTag::UInt8 => ArrowCell::UInt8(#[verifier::truncate] (uint_at(d, i) as u8)),
        ArrowTypeTag::UInt16 => ArrowCell::UInt16(#[verifier::truncate] (uint_at(d, i) as u16)),
        ArrowTypeTag::UInt32 => ArrowCell::UInt32(#[verifier::truncate] (uint_at(d, i) as u32)),
        ArrowTypeTag::UInt64 => ArrowCell::UInt64(uint_at(d, i)),
        ArrowTypeTag::Float32 => ArrowCell::Float32(float_at(d, i)),
        ArrowTypeTag::Float64 | ArrowTypeTag::Decimal128 => ArrowCell::Float64(double_at(d, i)),
        ArrowTypeTag::Utf8 | ArrowTypeTag::LargeUtf8 | ArrowTypeTag::Utf8View => ArrowCell::Utf8(text_at(d, i)),
        ArrowTypeTag::Binary | ArrowTypeTag::LargeBinary | ArrowTypeTag::BinaryView => ArrowCell::Binary(bytes_at(d, i)),
        ArrowTypeTag::Date32 => ArrowCell::Date32(#[verifier::truncate] (int_at(d, i) as i32)),
        ArrowTypeTag::Date64 => ArrowCell::Date64(int_at(d, i)),
        ArrowTypeTag::Timestamp(u) => ArrowCell::Timestamp(u, int_at(d, i)),
        _ => {
            let text = type_text(d);
            let mut m = owned("Unsupported Arrow type ");
            m.append(text.as_str());
            m.append(" - cannot convert to Value");
            assert(unsupported_message(text@) == m@);
            ArrowCell::Unsupported(m)
        },
    }
}

/// The cell of the non-null list at `i` (see `list_cell_ok`).
fn list_cell(d: &ArrayData, i: usize, f: usize) -> (c: ArrowCell)
    requires
        i < arrow_len(*d),
        arrow_type(*d) == ArrowTypeTag::List,
    ensures
        list_cell_ok(*d, i as int, f as nat, c),
    decreases f, 1int,
{
    let s = list_offset(d, i);
    let e = list_offset(d, i + 1);
    if child_count(d) < 1 || s < 0 || e < s {
        return message_of("Arrow array is malformed");
    }
    let ch = child_at(d, 0);
    let n = array_len(&ch);
    if e as usize > n {
        return message_of("Arrow array is malformed");
    }
    let start = s as usize;
    let end = e as usize;
    let mut cs: Vec<ArrowCell> = Vec::new();
    let mut k: usize = start;
    while k < end
        invariant
            start <= k <= end,
            end <= n,
            n == arrow_len(ch),
            start == s as int,
            cs@.len() == k - start,
            forall|j: int| 0 <= j < cs@.len() ==> cell_of(ch, start + j, f as nat, #[trigger] cs@[j]),
        decreases end - k,
    {
        let c = array_cell(&ch, k, f);
        cs.push(c);
        k = k + 1;
    }
    ArrowCell::List(cs)
}

/// The cell of the non-null map at `i` (see `map_cell_ok`).
fn map_cell(d: &ArrayData, i: usize, f: usize) -> (c: ArrowCell)
    requires
        i < arrow_len(*d),
        arrow_type(*d) == ArrowTypeTag::Mapping,
    ensures
        map_cell_ok(*d, i as int, f as nat, c),
    decreases f, 1int,
{
    let s = map_offset(d, i);
    let e = map_offset(d, i + 1);
    if child_count(d) < 1 || s < 0 || e < s {
        return message_of("Arrow array is malformed");
    }
    let en = child_at(d, 0);
    if child_count(&en) < 2 {
        return message_of("Arrow array is malformed");
    }
    let o = array_offset(&en);
    let ks = child_at(&en, 0);
    let vs = child_at(&en, 1);
    let nk = array_len(&ks);
    let nv = array_len(&vs);
    if o > nk || o > nv || e as usize > nk - o || e as usize > nv - o {
        return message_of("Arrow array is malformed");
    }
    let start = s as usize;
    let end = e as usize;
    let mut es: Vec<(ArrowCell, ArrowCell)> = Vec::new();
    let mut k: usize = start;
    while k < end
        invariant
            start <= k <= end,
            o + end <= nk,
            o + end <= nv,
            nk == arrow_len(ks),
            nv == arrow_len(vs),
            o == arrow_offset(en),
            start == s as int,
            es@.len() == k - start,
            forall|j: int| 0 <= j < es@.len() ==> cell_of(ks, o + start + j, f as nat, (#[trigger] es@[j]).0)
                && cell_of(vs, o + start + j, f as nat, es@[j].1),
        decreases end - k,
    {
        let key = array_cell(&ks, o + k, f);
        let value = array_cell(&vs, o + k, f);
        es.push((key, value));
        k = k + 1;
    }
    ArrowCell::MapEntries(es)
}

/// The cell of the non-null struct at `i` (see `struct_cell_ok`).
fn struct_cell(d: &ArrayData, i: usize, f: usize) -> (c: ArrowCell)
    requires
        i < arrow_len(*d),
        arrow_type(*d) == ArrowTypeTag::Struct,
    ensures
        struct_cell_ok(*d, i as int, f as nat, c),
    decreases f, 1int,
{
    let n = child_count(d);
    let o = array_offset(d);
    let mut fs: Vec<(String, ArrowCell)> = Vec::new();
    let mut k: usize = 0;
    while k < n
        invariant
            k <= n,
            n == arrow_child_count(*d),
            o == arrow_offset(*d),
            arrow_type(*d) == ArrowTypeTag::Struct,
            i < arrow_len(*d),
            fs@.len() == k,
            forall|j: int| 0 <= j < k ==> o + i < arrow_len(#[trigger] arrow_child(*d, j)),
            forall|j: int| 0 <= j < k ==> (#[trigger] fs@[j]).0@ == arrow_field_name(*d, j)
                && cell_of(arrow_child(*d, j), o + i, f as nat, fs@[j].1),
        decreases n - k,
    {
        let ch = child_at(d, k);
        let len = array_len(&ch);
        if o >= len || i >= len - o {
            assert(o + i >= arrow_len(arrow_child(*d, k as int)));
            return message_of("Arrow array is malformed");
        }
        let name = field_name(d, k);
        let cell = array_cell(&ch, o + i, f);
        fs.push((name, cell));
        k = k + 1;
    }
    ArrowCell::Struct(fs)
}

// ---------------------------------------------------------------------------
// Batches of cells
// ---------------------------------------------------------------------------

/// `c` is the cell of column `k` at row `r` of the batch `b`.
pub open spec fn column_cell_ok(b: ArrayData, k: int, r: int, c: ArrowCell) -> bool {
    let col = arrow_child(b, k);
    if r < arrow_len(col) {
        cell_of(col, r, max_nesting(), c)
    } else {
        malformed_cell(c)
    }
}

/// `batch` holds the batch `b` (a struct array, one field per column): the
/// column names, and for each row the cell of every column.
pub open spec fn batch_cells_ok(b: ArrayData, batch: ArrowBatch) -> bool {
    let n = arrow_child_count(b) as int;
    &&& batch.names@.len() == n
    &&& forall|k: int| 0 <= k < n ==> (#[trigger] batch.names@[k])@ == arrow_field_name(b, k)
    &&& batch.rows@.len() == arrow_len(b)
    &&& forall|r: int| 0 <= r < batch.rows@.len() ==> (#[trigger] batch.rows@[r])@.len() == n
    &&& forall|r: int, k: int| 0 <= r < batch.rows@.len() && 0 <= k < n
        ==> column_cell_ok(b, k, r, #[trigger] batch.rows@[r]@[k])
}

/// `bs` holds the batches `arrays`, in order.
pub open spec fn batches_ok(arrays: Seq<ArrayData>, bs: Seq<ArrowBatch>) -> bool {
    bs.len() == arrays.len() && forall|j: int| 0 <= j < bs.len() ==> batch_cells_ok(arrays[j], #[trigger] bs[j])
}

/// The cells of one row of the batch `b`.
fn row_cells(b: &ArrayData, cols: &Vec<ArrayData>, r: usize) -> (row: Vec<ArrowCell>)
    requires
        cols@.len() == arrow_child_count(*b),
        forall|k: int| 0 <= k < cols@.len() ==> #[trigger] cols@[k] == arrow_child(*b, k),
    ensures
        row@.len() == cols@.len(),
        forall|k: int| 0 <= k < row@.len() ==> column_cell_ok(*b, k, r as int, #[trigger] row@[k]),
{
    let mut row: Vec<ArrowCell> = Vec::new();
    let mut k: usize = 0;
    while k < cols.len()
        invariant
            k <= cols@.len(),
            row@.len() == k,
            forall|j: int| 0 <= j < cols@.len() ==> #[trigger] cols@[j] == arrow_child(*b, j),
            forall|j: int| 0 <= j < k ==> column_cell_ok(*b, j, r as int, #[trigger] row@[j]),
        decreases cols@.len() - k,
    {
        let col = &cols[k];
        let c = if r < array_len(col) {
            array_cell(col, r, usize::MAX)
        } else {
            message_of("Arrow array is malformed")
        };
        row.push(c);
        k = k + 1;
    }
    row
}

/// The cells of a batch (see `batch_cells_ok`).
fn batch_cells(b: &ArrayData) -> (batch: ArrowBatch)
    requires
        arrow_type(*b) == ArrowTypeTag::Struct,
    ensures
        batch_cells_ok(*b, batch),
{
    let n = child_count(b);
    let mut names: Vec<String> = Vec::new();
    let mut cols: Vec<ArrayData> = Vec::new();
    let mut k: usize = 0;
    while k < n
        invariant
            k <= n,
            n == arrow_child_count(*b),
            arrow_type(*b) == ArrowTypeTag::Struct,
            names@.len() == k,
            cols@.len() == k,
            forall|j: int| 0 <= j < k ==> (#[trigger] names@[j])@ == arrow_field_name(*b, j),
            forall|j: int| 0 <= j < k ==> #[trigger] cols@[j] == arrow_child(*b, j),
        decreases n - k,
    {
        names.push(field_name(b, k));
        cols.push(child_at(b, k));
        k = k + 1;
    }
    let len = array_len(b);
    let mut rows: Vec<Vec<ArrowCell>> = Vec::new();
    let mut r: usize = 0;
    while r < len
        invariant
            r <= len,
            len == arrow_len(*b),
            cols@.len() == n,
            n == arrow_child_count(*b),
            forall|j: int| 0 <= j < cols@.len() ==> #[trigger] cols@[j] == arrow_child(*b, j),
            rows@.len() == r,
            forall|q: int| 0 <= q < r ==> (#[trigger] rows@[q])@.len() == n,
            forall|q: int, j: int| 0 <= q < r && 0 <= j < n ==> column_cell_ok(*b, j, q, #[trigger] rows@[q]@[j]),
        decreases len - r,
    {
        let row = row_cells(b, &cols, r);
        rows.push(row);
        r = r + 1;
    }
    ArrowBatch { names, rows }
}

// ---------------------------------------------------------------------------
// Rows
// ---------------------------------------------------------------------------

/// The rows of a batch with column names `names`: each row's names and
/// values, in order, or the first error. A row with another number of cells
/// than there are names is an error.
pub open spec fn conv_rows(names: Seq<Seq<char>>, rs: Seq<Vec<ArrowCell>>) -> Result<Seq<(Seq<Seq<char>>, Seq<ValueView>)>, Seq<char>>
    decreases rs.len(),
{
    if rs.len() == 0 {
        Ok(Seq::empty())
    } else if rs[0]@.len() != names.len() {
        Err("Arrow row does not match its columns"@)
    } else {
        match conv_cells(rs[0]@) {
            Err(e) => Err(e),
            Ok(vs) => prepend(seq![(names, vs)], conv_rows(names, rs.drop_first())),
        }
    }
}

/// The rows of all batches, in order, or the first error.
pub open spec fn conv_batches(bs: Seq<ArrowBatch>) -> Result<Seq<(Seq<Seq<char>>, Seq<ValueView>)>, Seq<char>>
    decreases bs.len(),
{
    if bs.len() == 0 {
        Ok(Seq::empty())
    } else {
        match conv_rows(strings_view(bs[0].names@), bs[0].rows@) {
            Err(e) => Err(e),
            Ok(r) => prepend(r, conv_batches(bs.drop_first())),
        }
    }
}

/// Rows as their names and the mathematical values of their values.
pub open spec fn rows_view(rows: Seq<Row>) -> Seq<(Seq<Seq<char>>, Seq<ValueView>)> {
    rows.map_values(|r: Row| (r.field_names(), value_views(r.value_seq())))
}

fn batch_rows(batch: &ArrowBatch, out: &mut Vec<Row>) -> (r: Result<(), ConnectError>)
    ensures
        match r {
            Ok(_) => conv_rows(strings_view(batch.names@), batch.rows@) matches Ok(x)
                && rows_view(final(out)@) == rows_view(old(out)@) + x,
            Err(e) => conv_rows(strings_view(batch.names@), batch.rows@) == Err::<Seq<(Seq<Seq<char>>, Seq<ValueView>)>, Seq<char>>(e.message@),
        },
{
    let ghost names = strings_view(batch.names@);
    let ghost start = rows_view(out@);
    let ghost mut done: Seq<(Seq<Seq<char>>, Seq<ValueView>)> = Seq::empty();
    let rows = &batch.rows;
    let mut i: usize = 0;
    assert(rows@.skip(0) =~= rows@);
    assert(rows_view(out@) =~= start + done);
    while i < rows.len()
        invariant
            i <= rows@.len(),
            names == strings_view(batch.names@),
            rows == &batch.rows,
            conv_rows(names, rows@) == prepend(done, conv_rows(names, rows@.skip(i as int))),
            rows_view(out@) == start + done,
        decreases rows@.len() - i,
    {
        proof {
            assert(rows@.skip(i as int)[0] == rows@[i as int]);
            assert(rows@.skip(i as int).drop_first() =~= rows@.skip(i as int + 1));
        }
        if rows[i].len() != batch.names.len() {
            return Err(conv_error(owned("Arrow row does not match its columns")));
        }
        let values = match cells_values(&rows[i]) {
            Err(e) => {
                return Err(e);
            },
            Ok(vs) => vs,
        };
        let names_copy = crate::expression::copy_strings(&batch.names);
        let ghost item = (names, value_views(values@));
        let ghost before_out = out@;
        assert(names_copy@.len() == strings_view(names_copy@).len());
        assert(batch.names@.len() == strings_view(batch.names@).len());
        let row = Row::new(names_copy, values);
        out.push(row);
        proof {
            assert(rows_view(out@) =~= rows_view(before_out).push(item));
            let before = done;
            done = done.push(item);
            match conv_rows(names, rows@.skip(i as int + 1)) {
                Ok(x) => {
                    assert(before + (seq![item] + x) =~= done + x);
                },
                Err(_) => {},
            }
        }
        i = i + 1;
    }
    assert(rows@.skip(i as int) =~= Seq::<Vec<ArrowCell>>::empty());
    assert(done + Seq::<(Seq<Seq<char>>, Seq<ValueView>)>::empty() =~= done);
    Ok(())
}

/// The rows of every batch, one per record, in order (see `conv_batches`).
pub fn batches_to_rows(b: &Vec<ArrowBatch>) -> (r: Result<Vec<Row>, ConnectError>)
    ensures
        match r {
            Ok(rows) => conv_batches(b@) == Ok::<Seq<(Seq<Seq<char>>, Seq<ValueView>)>, Seq<char>>(rows_view(rows@)),
            Err(e) => conv_batches(b@) == Err::<Seq<(Seq<Seq<char>>, Seq<ValueView>)>, Seq<char>>(e.message@),
        },
{
    let mut out: Vec<Row> = Vec::new();
    let mut i: usize = 0;
    assert(b@.skip(0) =~= b@);
    assert(rows_view(out@) =~= Seq::<(Seq<Seq<char>>, Seq<ValueView>)>::empty());
    while i < b.len()
        invariant
            i <= b@.len(),
            conv_batches(b@) == prepend(rows_view(out@), conv_batches(b@.skip(i as int))),
        decreases b@.len() - i,
    {
        proof {
            assert(b@.skip(i as int)[0] == b@[i as int]);
            assert(b@.skip(i as int).drop_first() =~= b@.skip(i as int + 1));
        }
        let ghost before = rows_view(out@);
        match batch_rows(&b[i], &mut out) {
            Err(e) => {
                return Err(e);
            },
            Ok(_) => {
                proof {
                    let x = conv_rows(strings_view(b@[i as int].names@), b@[i as int].rows@)->Ok_0;
                    match conv_batches(b@.skip(i as int + 1)) {
                        Ok(y) => {
                            assert(before + (x + y) =~= rows_view(out@) + y);
                        },
                        Err(_) => {},
                    }
                }
            },
        }
        i = i + 1;
    }
    assert(b@.skip(i as int) =~= Seq::<ArrowBatch>::empty());
    assert(rows_view(out@) + Seq::<(Seq<Seq<char>>, Seq<ValueView>)>::empty() =~= rows_view(out@));
    Ok(out)
}

// ---------------------------------------------------------------------------
// Streams
// ---------------------------------------------------------------------------

/// The error text of a stream failure: at opening, or at a batch.
pub open spec fn failure_message(open: bool, t: Seq<char>) -> Seq<char> {
    if open {
        "Failed to create Arrow stream reader: "@ + t
    } else {
        "Failed to decode Arrow batch: "@ + t
    }
}

/// What a stream's batches `bs`, read up to the failure `failure`, come to:
/// their rows, or the first error among the rows, or else the failure.
pub open spec fn stream_outcome(bs: Seq<ArrowBatch>, failure: Option<(bool, Seq<char>)>)
    -> Result<Seq<(Seq<Seq<char>>, Seq<ValueView>)>, Seq<char>>
{
    match conv_batches(bs) {
        Err(e) => Err(e),
        Ok(rows) => match failure {
            None => Ok(rows),
            Some((open, t)) => Err(failure_message(open, t)),
        },
    }
}

/// Rows, or an error, as their mathematical value.
pub open spec fn rows_result(r: Result<Vec<Row>, ConnectError>) -> Result<Seq<(Seq<Seq<char>>, Seq<ValueView>)>, Seq<char>> {
    match r {
        Ok(rows) => Ok(rows_view(rows@)),
        Err(e) => Err(e.message@),
    }
}

/// The message of a stream failure.
fn failure_error(f: &StreamFailure) -> (e: ConnectError)
    ensures
        failure_view(Some(*f)) matches Some((open, t)) && e.message@ == failure_message(open, t),
{
    let mut m = match f {
        StreamFailure::Open(_) => owned("Failed to create Arrow stream reader: "),
        StreamFailure::Batch(_) => owned("Failed to decode Arrow batch: "),
    };
    match f {
        StreamFailure::Open(t) => m.append(t.as_str()),
        StreamFailure::Batch(t) => m.append(t.as_str()),
    }
    ConnectError { message: m }
}

/// Reads an Arrow IPC stream into batches of cells: every batch arrow's
/// stream reader yields, in order, up to its first failure, and that
/// failure.
pub fn read_arrow_stream(data: &[u8]) -> (r: (Vec<ArrowBatch>, Option<StreamFailure>))
    ensures
        batches_ok(arrow_ipc_read(data@).0, r.0@),
        failure_view(r.1) == arrow_ipc_read(data@).1,
{
    let (arrays, failure) = ipc_read(data);
    let mut out: Vec<ArrowBatch> = Vec::new();
    let mut j: usize = 0;
    while j < arrays.len()
        invariant
            j <= arrays@.len(),
            out@.len() == j,
            forall|q: int| 0 <= q < arrays@.len() ==> arrow_type(#[trigger] arrays@[q]) == ArrowTypeTag::Struct,
            forall|q: int| 0 <= q < j ==> batch_cells_ok(arrays@[q], #[trigger] out@[q]),
        decreases arrays@.len() - j,
    {
        out.push(batch_cells(&arrays[j]));
        j = j + 1;
    }
    (out, failure)
}

/// The rows of batches read up to a failure (see `stream_outcome`).
pub fn stream_rows(bs: &Vec<ArrowBatch>, failure: &Option<StreamFailure>) -> (r: Result<Vec<Row>, ConnectError>)
    ensures
        rows_result(r) == stream_outcome(bs@, failure_view(*failure)),
{
    let rows = batches_to_rows(bs)?;
    match failure {
        None => Ok(rows),
        Some(f) => Err(failure_error(f)),
    }
}

/// The record batches of an Arrow IPC stream: none for empty data,
/// otherwise every batch arrow's stream reader reads, or the error of its
/// first failure.
pub fn decode_arrow_record_batches(data: &[u8]) -> (r: Result<Vec<ArrowBatch>, ConnectError>)
    ensures
        data@.len() == 0 ==> (r matches Ok(bs) && bs@.len() == 0),
        data@.len() > 0 ==> match arrow_ipc_read(data@).1 {
            Some((open, t)) => r matches Err(e) && e.message@ == failure_message(open, t),
            None => r matches Ok(bs) && batches_ok(arrow_ipc_read(data@).0, bs@),
        },
{
    if data.len() == 0 {
        return Ok(Vec::new());
    }
    let (bs, failure) = read_arrow_stream(data);
    match failure {
        None => Ok(bs),
        Some(f) => Err(failure_error(&f)),
    }
}

/// The rows of an Arrow IPC stream: one per record of every batch, in order;
/// none for empty data. A cell with no value form, or the failure of the
/// stream reader after the batches before it, is the error. The cells are
/// fixed by what arrow answers of each array, all but the message of a type
/// with no value form, whose debug text is left unstated (hence "some
/// cells").
pub fn decode_arrow_batch(data: &[u8]) -> (r: Result<Vec<Row>, ConnectError>)
    ensures
        data@.len() == 0 ==> (r matches Ok(rows) && rows@.len() == 0),
        data@.len() > 0 ==> exists|bs: Seq<ArrowBatch>| #[trigger] batches_ok(arrow_ipc_read(data@).0, bs)
            && rows_result(r) == stream_outcome(bs, arrow_ipc_read(data@).1),
{
    if data.len() == 0 {
        return Ok(Vec::new());
    }
    let (bs, failure) = read_arrow_stream(data);
    let r = stream_rows(&bs, &failure);
    assert(batches_ok(arrow_ipc_read(data@).0, bs@));
    r
}

/// The value of the array `d` at `i`: null where the array says so,
/// otherwise by the array's kind (see `cell_of` and `cell_conv`; the cell is
/// fixed but for the message of a type with no value form).
pub fn arrow_value_at(d: &ArrayData, i: usize) -> (r: Result<Value, ConnectError>)
    requires
        i < arrow_len(*d),
    ensures
        exists|c: ArrowCell| #[trigger] cell_of(*d, i as int, max_nesting(), c) && match r {
            Ok(v) => cell_conv(c) == Ok::<ValueView, Seq<char>>(value_view(v)),
            Err(e) => cell_conv(c) == Err::<ValueView, Seq<char>>(e.message@),
        },
{
    let c = array_cell(d, i, usize::MAX);
    let r = arrow_cell_value(&c);
    assert(cell_of(*d, i as int, max_nesting(), c));
    r
}

} // verus!
