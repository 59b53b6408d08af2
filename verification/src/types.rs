//! Spark SQL data types, as far as the expression and plan builders use them.

use vstd::prelude::*;
use vstd::string::StringExecFns;
use crate::text::{join, join_strings, owned};
use vstd::string::StrSliceExecFns;

verus! {

/// A Spark SQL data type.
#[derive(Debug)]
pub enum DataType {
    Null,
    Boolean,
    Byte,
    Short,
    Integer,
    Long,
    Float,
    Double,
    String { collation: String },
    Binary,
    Date,
    Timestamp,
    TimestampNtz,
    Array { element_type: Box<DataType>, contains_null: bool },
    Struct { fields: Vec<StructField> },
}

/// A named field of a struct type.
#[derive(Debug)]
pub struct StructField {
    pub name: String,
    pub data_type: DataType,
    pub nullable: bool,
}

/// The mathematical value of a data type: strings become character sequences.
pub enum DataTypeView {
    Null,
    Boolean,
    Byte,
    Short,
    Integer,
    Long,
    Float,
    Double,
    String { collation: Seq<char> },
    Binary,
    Date,
    Timestamp,
    TimestampNtz,
    Array { element_type: Box<DataTypeView>, contains_null: bool },
    Struct { fields: Seq<StructFieldView> },
}

/// The mathematical value of a struct field.
pub struct StructFieldView {
    pub name: Seq<char>,
    pub data_type: DataTypeView,
    pub nullable: bool,
}

pub open spec fn data_type_view(t: DataType) -> DataTypeView
    decreases t,
{
    match t {
        DataType::Null => DataTypeView::Null,
        DataType::Boolean => DataTypeView::Boolean,
        DataType::Byte => DataTypeView::Byte,
        DataType::Short => DataTypeView::Short,
        DataType::Integer => DataTypeView::Integer,
        DataType::Long => DataTypeView::Long,
        DataType::Float => DataTypeView::Float,
        DataType::Double => DataTypeView::Double,
        DataType::String { collation } => DataTypeView::String { collation: collation@ },
        DataType::Binary => DataTypeView::Binary,
        DataType::Date => DataTypeView::Date,
        DataType::Timestamp => DataTypeView::Timestamp,
        DataType::TimestampNtz => DataTypeView::TimestampNtz,
        DataType::Array { element_type, contains_null } => DataTypeView::Array {
            element_type: Box::new(data_type_view(*element_type)),
            contains_null,
        },
        DataType::Struct { fields } => DataTypeView::Struct {
            fields: Seq::new(
                fields@.len(),
                |i: int|
                    if 0 <= i < fields@.len() {
                        StructFieldView {
                            name: fields@[i].name@,
                            data_type: data_type_view(fields@[i].data_type),
                            nullable: fields@[i].nullable,
                        }
                    } else {
                        arbitrary()
                    },
            ),
        },
    }
}

impl View for DataType {
    type V = DataTypeView;

    open spec fn view(&self) -> DataTypeView {
        data_type_view(*self)
    }
}

impl View for StructField {
    type V = StructFieldView;

    open spec fn view(&self) -> StructFieldView {
        StructFieldView { name: self.name@, data_type: self.data_type@, nullable: self.nullable }
    }
}

/// The short type name Spark prints (its `simpleString`).
pub open spec fn type_simple_string(t: DataTypeView) -> Seq<char>
    decreases t,
{
    match t {
        DataTypeView::Null => "void"@,
        DataTypeView::Boolean => "boolean"@,
        DataTypeView::Byte => "tinyint"@,
        DataTypeView::Short => "smallint"@,
        DataTypeView::Integer => "int"@,
        DataTypeView::Long => "bigint"@,
        DataTypeView::Float => "float"@,
        DataTypeView::Double => "double"@,
        DataTypeView::String { .. } => "string"@,
        DataTypeView::Binary => "binary"@,
        DataTypeView::Date => "date"@,
        DataTypeView::Timestamp => "timestamp"@,
        DataTypeView::TimestampNtz => "timestamp_ntz"@,
        DataTypeView::Array { element_type, .. } => "array<"@ + type_simple_string(*element_type) + ">"@,
        DataTypeView::Struct { fields } => "struct<"@ + join(field_texts(fields), ","@) + ">"@,
    }
}

/// `name:type` for each field of a struct type.
pub open spec fn field_texts(fields: Seq<StructFieldView>) -> Seq<Seq<char>>
    decreases fields,
{
    Seq::new(
        fields.len(),
        |i: int|
            if 0 <= i < fields.len() {
                fields[i].name + ":"@ + type_simple_string(fields[i].data_type)
            } else {
                Seq::empty()
            },
    )
}

fn copy_fields(fields: &Vec<StructField>) -> (out: Vec<StructField>)
    ensures
        out@.len() == fields@.len(),
        forall|j: int| 0 <= j < fields@.len() ==> #[trigger] out@[j]@ == fields@[j]@,
    decreases fields,
{
    let mut out: Vec<StructField> = Vec::new();
    let mut i: usize = 0;
    while i < fields.len()
        invariant
            i <= fields.len(),
            out@.len() == i,
            forall|j: int| 0 <= j < i ==> #[trigger] out@[j]@ == fields@[j]@,
        decreases fields.len() - i,
    {
        let f = &fields[i];
        proof {
            assert(decreases_to!(*fields => fields@[i as int]));
        }
        let dt = f.data_type.copy();
        out.push(StructField { name: f.name.clone(), data_type: dt, nullable: f.nullable });
        i = i + 1;
    }
    out
}

fn fields_simple_string(fields: &Vec<StructField>) -> (s: String)
    ensures
        s@ == join(field_texts(fields@.map_values(|f: StructField| f@)), ","@),
    decreases fields,
{
    proof {
        reveal_strlit(":");
    }
    let mut parts: Vec<String> = Vec::new();
    let mut i: usize = 0;
    let ghost fv = Seq::new(
        fields@.len(),
        |j: int|
            if 0 <= j < fields@.len() {
                fields@[j].name@ + ":"@ + type_simple_string(fields@[j].data_type@)
            } else {
                Seq::empty()
            },
    );
    while i < fields.len()
        invariant
            i <= fields.len(),
            parts@.len() == i,
            fv.len() == fields@.len(),
            forall|j: int| 0 <= j < fields@.len() ==> fv[j] == fields@[j].name@ + ":"@ + type_simple_string(fields@[j].data_type@),
            forall|j: int| 0 <= j < i ==> #[trigger] parts@[j]@ == fv[j],
        decreases fields.len() - i,
    {
        proof {
            assert(decreases_to!(*fields => fields@[i as int]));
        }
        let mut p = fields[i].name.clone();
        p.append(":");
        let t = fields[i].data_type.simple_string();
        p.append(t.as_str());
        parts.push(p);
        i = i + 1;
    }
    let joined = join_strings(&parts, ",");
    assert(crate::text::strings_view(parts@) =~= fv);
    assert(field_texts(fields@.map_values(|f: StructField| f@)) =~= fv);
    joined
}

impl DataType {
    /// A copy of this data type.
    pub fn copy(&self) -> (r: DataType)
        ensures
            r@ == self@,
        decreases self,
    {
        match self {
            DataType::Null => DataType::Null,
            DataType::Boolean => DataType::Boolean,
            DataType::Byte => DataType::Byte,
            DataType::Short => DataType::Short,
            DataType::Integer => DataType::Integer,
            DataType::Long => DataType::Long,
            DataType::Float => DataType::Float,
            DataType::Double => DataType::Double,
            DataType::String { collation } => DataType::String { collation: collation.clone() },
            DataType::Binary => DataType::Binary,
            DataType::Date => DataType::Date,
            DataType::Timestamp => DataType::Timestamp,
            DataType::TimestampNtz => DataType::TimestampNtz,
            DataType::Array { element_type, contains_null } => {
                let inner = element_type.copy();
                DataType::Array { element_type: Box::new(inner), contains_null: *contains_null }
            },
            DataType::Struct { fields } => {
                let out = copy_fields(fields);
                let r = DataType::Struct { fields: out };
                assert(data_type_view(r) == data_type_view(*self)) by {
                    let a = data_type_view(r)->fields;
                    let b = data_type_view(*self)->fields;
                    assert forall|j: int| 0 <= j < a.len() implies a[j] == b[j] by {
                        assert(out@[j]@ == fields@[j]@);
                    }
                    assert(a =~= b);
                }
                r
            },
        }
    }

    /// The short type name Spark prints (its `simpleString`).
    pub fn simple_string(&self) -> (s: String)
        ensures
            s@ == type_simple_string(self@),
        decreases self,
    {
        proof {
            reveal_strlit("void");
            reveal_strlit("boolean");
            reveal_strlit("tinyint");
            reveal_strlit("smallint");
            reveal_strlit("int");
            reveal_strlit("bigint");
            reveal_strlit("float");
            reveal_strlit("double");
            reveal_strlit("string");
            reveal_strlit("binary");
            reveal_strlit("date");
            reveal_strlit("timestamp");
            reveal_strlit("timestamp_ntz");
            reveal_strlit("array<");
            reveal_strlit(">");
            reveal_strlit("struct<");
        }
        match self {
            DataType::Null => owned("void"),
            DataType::Boolean => owned("boolean"),
            DataType::Byte => owned("tinyint"),
            DataType::Short => owned("smallint"),
            DataType::Integer => owned("int"),
            DataType::Long => owned("bigint"),
            DataType::Float => owned("float"),
            DataType::Double => owned("double"),
            DataType::String { .. } => owned("string"),
            DataType::Binary => owned("binary"),
            DataType::Date => owned("date"),
            DataType::Timestamp => owned("timestamp"),
            DataType::TimestampNtz => owned("timestamp_ntz"),
            DataType::Array { element_type, .. } => {
                let mut s = owned("array<");
                let inner = element_type.simple_string();
                s.append(inner.as_str());
                s.append(">");
                s
            },
            DataType::Struct { fields } => {
                let joined = fields_simple_string(fields);
                let mut s = owned("struct<");
                s.append(joined.as_str());
                s.append(">");
                proof {
                    let vf = self@->fields;
                    assert(vf =~= fields@.map_values(|f: StructField| f@));
                }
                s
            },
        }
    }
}

/// `s` with `"` and `\` escaped by a backslash, as JSON strings need.
pub open spec fn json_escape(s: Seq<char>) -> Seq<char>
    decreases s.len(),
{
    if s.len() == 0 {
        Seq::empty()
    } else {
        json_escape(s.drop_last()) + (if s.last() == '"' || s.last() == '\\' {
            seq!['\\', s.last()]
        } else {
            seq![s.last()]
        })
    }
}

/// `s` as a JSON string literal.
pub open spec fn json_string(s: Seq<char>) -> Seq<char> {
    seq!['"'] + json_escape(s) + seq!['"']
}

pub open spec fn json_bool(b: bool) -> Seq<char> {
    if b { "true"@ } else { "false"@ }
}

/// The JSON form of a data type, as Spark writes a schema: compact, with the
/// keys of each object in sorted order and every field's metadata empty.
pub open spec fn type_json(t: DataTypeView) -> Seq<char>
    decreases t,
{
    match t {
        DataTypeView::Null => json_string("void"@),
        DataTypeView::Boolean => json_string("boolean"@),
        DataTypeView::Byte => json_string("byte"@),
        DataTypeView::Short => json_string("short"@),
        DataTypeView::Integer => json_string("integer"@),
        DataTypeView::Long => json_string("long"@),
        DataTypeView::Float => json_string("float"@),
        DataTypeView::Double => json_string("double"@),
        DataTypeView::String { .. } => json_string("string"@),
        DataTypeView::Binary => json_string("binary"@),
        DataTypeView::Date => json_string("date"@),
        DataTypeView::Timestamp => json_string("timestamp"@),
        DataTypeView::TimestampNtz => json_string("timestamp_ntz"@),
        DataTypeView::Array { element_type, contains_null } =>
            "{\"containsNull\":"@ + json_bool(contains_null) + ",\"elementType\":"@
                + type_json(*element_type) + ",\"type\":\"array\"}"@,
        DataTypeView::Struct { fields } =>
            "{\"fields\":["@ + join(field_jsons(fields), ","@) + "],\"type\":\"struct\"}"@,
    }
}

/// The JSON object of each field of a struct type.
pub open spec fn field_jsons(fields: Seq<StructFieldView>) -> Seq<Seq<char>>
    decreases fields,
{
    Seq::new(
        fields.len(),
        |i: int|
            if 0 <= i < fields.len() {
                "{\"metadata\":{},\"name\":"@ + json_string(fields[i].name) + ",\"nullable\":"@
                    + json_bool(fields[i].nullable) + ",\"type\":"@ + type_json(fields[i].data_type) + "}"@
            } else {
                Seq::empty()
            },
    )
}

/// Appends `s` as a JSON string literal to `out`.
fn push_json_string(out: &mut String, s: &str)
    ensures
        final(out)@ == old(out)@ + json_string(s@),
{
    proof {
        reveal_strlit("\"");
        reveal_strlit("\\");
    }
    out.append("\"");
    let ghost start = out@;
    let n = s.unicode_len();
    let mut i: usize = 0;
    while i < n
        invariant
            i <= n,
            n == s@.len(),
            out@ == start + json_escape(s@.take(i as int)),
        decreases n - i,
    {
        proof {
            reveal_strlit("\\");
        }
        let c = s.get_char(i);
        let ghost before = out@;
        assert(s@.take(i as int + 1).drop_last() =~= s@.take(i as int));
        if c == '"' || c == '\\' {
            out.append("\\");
            assert("\\"@ =~= seq!['\\']);
        }
        out.append(s.substring_char(i, i + 1));
        proof {
            assert(s@.subrange(i as int, i as int + 1) =~= seq![c]);
            assert(out@ =~= before + (if c == '"' || c == '\\' { seq!['\\', c] } else { seq![c] }));
            assert(json_escape(s@.take(i as int + 1)) == json_escape(s@.take(i as int)) + (if c == '"' || c == '\\' { seq!['\\', c] } else { seq![c] }));
        }
        i = i + 1;
    }
    assert(s@.take(n as int) =~= s@);
    out.append("\"");
    assert(out@ =~= old(out)@ + json_string(s@));
}

fn push_json_bool(out: &mut String, b: bool)
    ensures
        final(out)@ == old(out)@ + json_bool(b),
{
    proof {
        reveal_strlit("true");
        reveal_strlit("false");
    }
    if b {
        out.append("true");
    } else {
        out.append("false");
    }
}

fn fields_json(fields: &Vec<StructField>) -> (s: String)
    ensures
        s@ == join(field_jsons(fields@.map_values(|f: StructField| f@)), ","@),
    decreases fields,
{
    proof {
        reveal_strlit("{\"metadata\":{},\"name\":");
        reveal_strlit(",\"nullable\":");
        reveal_strlit(",\"type\":");
        reveal_strlit("}");
    }
    let ghost fv = field_jsons(fields@.map_values(|f: StructField| f@));
    let mut parts: Vec<String> = Vec::new();
    let mut i: usize = 0;
    while i < fields.len()
        invariant
            i <= fields.len(),
            parts@.len() == i,
            fv == field_jsons(fields@.map_values(|f: StructField| f@)),
            forall|j: int| 0 <= j < i ==> #[trigger] parts@[j]@ == fv[j],
        decreases fields.len() - i,
    {
        proof {
            assert(decreases_to!(*fields => fields@[i as int]));
        }
        let mut p = String::new();
        p.append("{\"metadata\":{},\"name\":");
        push_json_string(&mut p, fields[i].name.as_str());
        p.append(",\"nullable\":");
        push_json_bool(&mut p, fields[i].nullable);
        p.append(",\"type\":");
        let t = fields[i].data_type.json();
        p.append(t.as_str());
        p.append("}");
        assert(p@ == fv[i as int]);
        parts.push(p);
        i = i + 1;
    }
    assert(crate::text::strings_view(parts@) =~= fv);
    join_strings(&parts, ",")
}

impl DataType {
    /// The JSON form of this data type (see `type_json`).
    pub fn json(&self) -> (s: String)
        ensures
            s@ == type_json(self@),
        decreases self,
    {
        proof {
            reveal_strlit("void");
            reveal_strlit("boolean");
            reveal_strlit("byte");
            reveal_strlit("short");
            reveal_strlit("integer");
            reveal_strlit("long");
            reveal_strlit("float");
            reveal_strlit("double");
            reveal_strlit("string");
            reveal_strlit("binary");
            reveal_strlit("date");
            reveal_strlit("timestamp");
            reveal_strlit("timestamp_ntz");
            reveal_strlit("{\"containsNull\":");
            reveal_strlit(",\"elementType\":");
            reveal_strlit(",\"type\":\"array\"}");
            reveal_strlit("{\"fields\":[");
            reveal_strlit("],\"type\":\"struct\"}");
        }
        let mut s = String::new();
        match self {
            DataType::Null => push_json_string(&mut s, "void"),
            DataType::Boolean => push_json_string(&mut s, "boolean"),
            DataType::Byte => push_json_string(&mut s, "byte"),
            DataType::Short => push_json_string(&mut s, "short"),
            DataType::Integer => push_json_string(&mut s, "integer"),
            DataType::Long => push_json_string(&mut s, "long"),
            DataType::Float => push_json_string(&mut s, "float"),
            DataType::Double => push_json_string(&mut s, "double"),
            DataType::String { .. } => push_json_string(&mut s, "string"),
            DataType::Binary => push_json_string(&mut s, "binary"),
            DataType::Date => push_json_string(&mut s, "date"),
            DataType::Timestamp => push_json_string(&mut s, "timestamp"),
            DataType::TimestampNtz => push_json_string(&mut s, "timestamp_ntz"),
            DataType::Array { element_type, contains_null } => {
                s.append("{\"containsNull\":");
                push_json_bool(&mut s, *contains_null);
                s.append(",\"elementType\":");
                let inner = element_type.json();
                s.append(inner.as_str());
                s.append(",\"type\":\"array\"}");
            },
            DataType::Struct { fields } => {
                let joined = fields_json(fields);
                s.append("{\"fields\":[");
                s.append(joined.as_str());
                s.append("],\"type\":\"struct\"}");
                proof {
                    let vf = self@->fields;
                    assert(vf =~= fields@.map_values(|f: StructField| f@));
                }
            },
        }
        s
    }
}


/// A 32-bit floating-point value, carried as its IEEE-754 bit pattern
/// together with its shortest decimal text (what Rust's `Display` prints).
#[derive(Debug, PartialEq)]
pub struct Float32 {
    pub bits: u32,
    pub text: String,
}

/// A 64-bit floating-point value, carried as its IEEE-754 bit pattern
/// together with its shortest decimal text (what Rust's `Display` prints).
#[derive(Debug, PartialEq)]
pub struct Float64 {
    pub bits: u64,
    pub text: String,
}

impl View for Float32 {
    type V = (u32, Seq<char>);

    open spec fn view(&self) -> (u32, Seq<char>) {
        (self.bits, self.text@)
    }
}

impl View for Float64 {
    type V = (u64, Seq<char>);

    open spec fn view(&self) -> (u64, Seq<char>) {
        (self.bits, self.text@)
    }
}

impl Float32 {
    /// A copy of this value.
    pub fn copy(&self) -> (r: Float32)
        ensures
            r@ == self@,
    {
        Float32 { bits: self.bits, text: self.text.clone() }
    }
}

impl Float64 {
    /// A copy of this value.
    pub fn copy(&self) -> (r: Float64)
        ensures
            r@ == self@,
    {
        Float64 { bits: self.bits, text: self.text.clone() }
    }
}

} // verus!
