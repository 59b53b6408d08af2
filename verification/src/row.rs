//! Rows of query results: values of every Spark SQL type, their text, and
//! access to a row's fields by position and by name.

use vstd::prelude::*;
use vstd::string::StringExecFns;
use crate::expression::{byte_texts, render_bytes};
use crate::proto::{LiteralTypeView, LiteralView};
use crate::text::{int_text, join, join_strings, owned, push_int_text, str_eq, strings_view};
use crate::types::{Float32, Float64};
use crate::debug_text::{value_debug, value_debug_string};

verus! {

/// A value of a row field.
#[derive(Debug, PartialEq)]
pub enum Value {
    Null,
    Bool(bool),
    Byte(i8),
    Short(i16),
    Integer(i32),
    Long(i64),
    Float(Float32),
    Double(Float64),
    String(String),
    Binary(Vec<u8>),
    /// Days since the epoch.
    Date(i32),
    /// Microseconds since the epoch.
    Timestamp(i64),
    Decimal { value: String, precision: Option<i32>, scale: Option<i32> },
    List(Vec<Value>),
    /// A map's entries, in key order.
    MapValue(Vec<(String, Value)>),
    /// A nested row's fields, in order.
    Struct(Vec<(String, Value)>),
}

/// The text a value displays as.
pub open spec fn value_text(v: Value) -> Seq<char>
    decreases v, 1int,
{
    match v {
        Value::Null => "NULL"@,
        Value::Bool(b) => if b { "true"@ } else { "false"@ },
        Value::Byte(x) => int_text(x as int),
        Value::Short(x) => int_text(x as int),
        Value::Integer(x) => int_text(x as int),
        Value::Long(x) => int_text(x as int),
        Value::Float(f) => f.text@,
        Value::Double(f) => f.text@,
        Value::String(s) => s@,
        Value::Binary(b) => "["@ + join(byte_texts(b@), ", "@) + "]"@,
        Value::Date(d) => int_text(d as int),
        Value::Timestamp(t) => int_text(t as int),
        Value::Decimal { value, precision, scale } => "Decimal("@ + value@ + match precision {
            Some(p) => ","@ + int_text(p as int) + ")"@ + match scale {
                Some(s) => "s="@ + int_text(s as int),
                None => Seq::empty(),
            },
            None => ")"@,
        },
        Value::List(items) => "["@ + join(value_texts(items@), ", "@) + "]"@,
        Value::MapValue(entries) => "{"@ + join(entry_texts(entries@, ": "@), ", "@) + "}"@,
        Value::Struct(fields) => "("@ + join(entry_texts(fields@, "="@), ", "@) + ")"@,
    }
}

/// The texts of a list of values.
pub open spec fn value_texts(s: Seq<Value>) -> Seq<Seq<char>>
    decreases s, 0int,
{
    Seq::new(s.len(), |i: int| if 0 <= i < s.len() { value_text(s[i]) } else { Seq::empty() })
}

/// `key<sep>value` for each entry.
pub open spec fn entry_texts(s: Seq<(String, Value)>, sep: Seq<char>) -> Seq<Seq<char>>
    decreases s, 0int,
{
    Seq::new(
        s.len(),
        |i: int| if 0 <= i < s.len() { s[i].0@ + sep + value_text(s[i].1) } else { Seq::empty() },
    )
}

fn render_values(v: &Vec<Value>) -> (parts: Vec<String>)
    ensures
        strings_view(parts@) == value_texts(v@),
    decreases v, 0int,
{
    let mut parts: Vec<String> = Vec::new();
    let mut i: usize = 0;
    while i < v.len()
        invariant
            i <= v.len(),
            parts@.len() == i,
            forall|j: int| 0 <= j < i ==> #[trigger] parts@[j]@ == value_text(v@[j]),
        decreases v.len() - i,
    {
        proof {
            assert(decreases_to!(*v => v@[i as int]));
        }
        let s = v[i].render();
        parts.push(s);
        i = i + 1;
    }
    assert(strings_view(parts@) =~= value_texts(v@));
    parts
}

fn render_entries(v: &Vec<(String, Value)>, sep: &str) -> (parts: Vec<String>)
    ensures
        strings_view(parts@) == entry_texts(v@, sep@),
    decreases v, 0int,
{
    let mut parts: Vec<String> = Vec::new();
    let mut i: usize = 0;
    while i < v.len()
        invariant
            i <= v.len(),
            parts@.len() == i,
            forall|j: int| 0 <= j < i ==> #[trigger] parts@[j]@ == v@[j].0@ + sep@ + value_text(v@[j].1),
        decreases v.len() - i,
    {
        proof {
            assert(decreases_to!(*v => v@[i as int]));
            assert(decreases_to!(v@[i as int] => v@[i as int].1));
        }
        let mut s = v[i].0.clone();
        s.append(sep);
        let t = v[i].1.render();
        s.append(t.as_str());
        parts.push(s);
        i = i + 1;
    }
    assert(strings_view(parts@) =~= entry_texts(v@, sep@));
    parts
}

/// The value of an integer of any width, as an `i64`.
pub open spec fn int_value(v: Value) -> Option<i64> {
    match v {
        Value::Byte(b) => Some(b as i64),
        Value::Short(s) => Some(s as i64),
        Value::Integer(i) => Some(i as i64),
        Value::Long(l) => Some(l),
        _ => None,
    }
}

impl Value {
    /// The value as a bool, if it is one.
    pub fn as_bool(&self) -> (r: Option<bool>)
        ensures
            r == (match *self {
                Value::Bool(b) => Some(b),
                _ => None,
            }),
    {
        match self {
            Value::Bool(b) => Some(*b),
            _ => None,
        }
    }

    /// The value as an `i64`, if it is an integer of any width.
    pub fn as_i64(&self) -> (r: Option<i64>)
        ensures
            r == int_value(*self),
    {
        match self {
            Value::Byte(b) => Some(*b as i64),
            Value::Short(s) => Some(*s as i64),
            Value::Integer(i) => Some(*i as i64),
            Value::Long(l) => Some(*l),
            _ => None,
        }
    }

    /// The value as a string slice, if it is a string.
    pub fn as_str(&self) -> (r: Option<&str>)
        ensures
            match *self {
                Value::String(s) => r matches Some(x) && x@ == s@,
                _ => r is None,
            },
    {
        match self {
            Value::String(s) => Some(s.as_str()),
            _ => None,
        }
    }

    /// The value as bytes, if it is binary.
    pub fn as_bytes(&self) -> (r: Option<&[u8]>)
        ensures
            match *self {
                Value::Binary(b) => r matches Some(x) && x@ == b@,
                _ => r is None,
            },
    {
        match self {
            Value::Binary(b) => Some(b.as_slice()),
            _ => None,
        }
    }

    /// Whether the value is NULL.
    pub fn is_null(&self) -> (r: bool)
        ensures
            r == (*self is Null),
    {
        match self {
            Value::Null => true,
            _ => false,
        }
    }

    /// The text this value displays as (see `value_text`).
    pub fn render(&self) -> (s: String)
        ensures
            s@ == value_text(*self),
        decreases self, 1int,
    {
        proof {
            reveal_strlit("NULL");
            reveal_strlit("true");
            reveal_strlit("false");
            reveal_strlit("[");
            reveal_strlit("]");
            reveal_strlit(", ");
            reveal_strlit("Decimal(");
            reveal_strlit(",");
            reveal_strlit(")");
            reveal_strlit("s=");
            reveal_strlit("{");
            reveal_strlit("}");
            reveal_strlit("(");
            reveal_strlit(": ");
            reveal_strlit("=");
        }
        match self {
            Value::Null => owned("NULL"),
            Value::Bool(b) => if *b { owned("true") } else { owned("false") },
            Value::Byte(x) => crate::text::int_to_text(*x as i64),
            Value::Short(x) => crate::text::int_to_text(*x as i64),
            Value::Integer(x) => crate::text::int_to_text(*x as i64),
            Value::Long(x) => crate::text::int_to_text(*x),
            Value::Float(f) => f.text.clone(),
            Value::Double(f) => f.text.clone(),
            Value::String(s) => s.clone(),
            Value::Binary(b) => {
                let parts = render_bytes(b);
                let mut s = owned("[");
                let j = join_strings(&parts, ", ");
                s.append(j.as_str());
                s.append("]");
                s
            },
            Value::Date(d) => crate::text::int_to_text(*d as i64),
            Value::Timestamp(t) => crate::text::int_to_text(*t),
            Value::Decimal { value, precision, scale } => {
                let mut s = owned("Decimal(");
                s.append(value.as_str());
                match precision {
                    Some(p) => {
                        s.append(",");
                        push_int_text(&mut s, *p as i64);
                        s.append(")");
                        match scale {
                            Some(sc) => {
                                s.append("s=");
                                push_int_text(&mut s, *sc as i64);
                            },
                            None => {},
                        }
                    },
                    None => {
                        s.append(")");
                    },
                }
                assert(s@ =~= value_text(*self));
                s
            },
            Value::List(items) => {
                let parts = render_values(items);
                let mut s = owned("[");
                let j = join_strings(&parts, ", ");
                s.append(j.as_str());
                s.append("]");
                s
            },
            Value::MapValue(entries) => {
                let parts = render_entries(entries, ": ");
                let mut s = owned("{");
                let j = join_strings(&parts, ", ");
                s.append(j.as_str());
                s.append("}");
                s
            },
            Value::Struct(fields) => {
                let parts = render_entries(fields, "=");
                let mut s = owned("(");
                let j = join_strings(&parts, ", ");
                s.append(j.as_str());
                s.append(")");
                s
            },
        }
    }
}

/// The literal a value becomes when it fills missing values: the value's own
/// kind where the literal has one, otherwise a string literal holding the
/// value's `Debug` text.
pub open spec fn value_to_literal(v: Value) -> LiteralView {
    LiteralView {
        literal_type: Some(
            match v {
                Value::Bool(b) => LiteralTypeView::Boolean(b),
                Value::Byte(x) => LiteralTypeView::Byte(x as i32),
                Value::Short(x) => LiteralTypeView::Short(x as i32),
                Value::Integer(x) => LiteralTypeView::Integer(x),
                Value::Long(x) => LiteralTypeView::Long(x),
                Value::Float(f) => LiteralTypeView::Float(f@),
                Value::Double(f) => LiteralTypeView::Double(f@),
                Value::String(s) => LiteralTypeView::String(s@),
                Value::Date(d) => LiteralTypeView::Date(d),
                Value::Timestamp(t) => LiteralTypeView::Timestamp(t),
                Value::Decimal { value, precision, scale } => LiteralTypeView::Decimal {
                    value: value@,
                    precision,
                    scale,
                },
                _ => LiteralTypeView::String(value_debug(v)),
            },
        ),
    }
}

impl Value {
    /// The literal message of this value (see `value_to_literal`).
    pub fn to_literal(&self) -> (l: crate::proto::Literal)
        ensures
            l@ == value_to_literal(*self),
    {
        let t = match self {
            Value::Bool(b) => crate::proto::LiteralType::Boolean(*b),
            Value::Byte(x) => crate::proto::LiteralType::Byte(*x as i32),
            Value::Short(x) => crate::proto::LiteralType::Short(*x as i32),
            Value::Integer(x) => crate::proto::LiteralType::Integer(*x),
            Value::Long(x) => crate::proto::LiteralType::Long(*x),
            Value::Float(f) => crate::proto::LiteralType::Float(f.copy()),
            Value::Double(f) => crate::proto::LiteralType::Double(f.copy()),
            Value::String(s) => crate::proto::LiteralType::String(s.clone()),
            Value::Date(d) => crate::proto::LiteralType::Date(*d),
            Value::Timestamp(t) => crate::proto::LiteralType::Timestamp(*t),
            Value::Decimal { value, precision, scale } => crate::proto::LiteralType::Decimal {
                value: value.clone(),
                precision: *precision,
                scale: *scale,
            },
            _ => crate::proto::LiteralType::String(value_debug_string(self)),
        };
        crate::proto::Literal { literal_type: Some(t) }
    }
}

/// A row: field names and the values in the same order.
#[derive(Debug)]
pub struct Row {
    fields: Vec<String>,
    values: Vec<Value>,
}

/// The position of the first field named `name`, if any.
pub open spec fn first_index_of(fields: Seq<Seq<char>>, name: Seq<char>) -> Option<int> {
    if exists|i: int| 0 <= i < fields.len() && fields[i] == name {
        Some(choose|i: int| 0 <= i < fields.len() && fields[i] == name
            && forall|j: int| 0 <= j < i ==> fields[j] != name)
    } else {
        None
    }
}

impl Row {
    /// The field names, in order.
    pub closed spec fn field_names(&self) -> Seq<Seq<char>> {
        strings_view(self.fields@)
    }

    /// The values, in order.
    pub closed spec fn value_seq(&self) -> Seq<Value> {
        self.values@
    }

    /// As many names as values.
    #[verifier::type_invariant]
    pub closed spec fn wf(&self) -> bool {
        self.fields@.len() == self.values@.len()
    }

    /// A row of `fields` holding `values` (there must be one value per field).
    pub fn new(fields: Vec<String>, values: Vec<Value>) -> (r: Row)
        requires
            fields@.len() == values@.len(),
        ensures
            r.wf(),
            r.field_names() == strings_view(fields@),
            r.value_seq() == values@,
    {
        Row { fields, values }
    }

    /// A row with no fields.
    pub fn empty() -> (r: Row)
        ensures
            r.wf(),
            r.field_names().len() == 0,
            r.value_seq().len() == 0,
    {
        Row { fields: Vec::new(), values: Vec::new() }
    }

    /// The number of fields.
    pub fn len(&self) -> (n: usize)
        ensures
            n == self.field_names().len(),
    {
        self.fields.len()
    }

    /// Whether the row has no fields.
    pub fn is_empty(&self) -> (b: bool)
        ensures
            b == (self.field_names().len() == 0),
    {
        self.fields.len() == 0
    }

    /// The value at `index`, if there is one.
    pub fn get(&self, index: usize) -> (r: Option<&Value>)
        ensures
            match r {
                Some(v) => index < self.value_seq().len() && *v == self.value_seq()[index as int],
                None => index >= self.value_seq().len(),
            },
    {
        if index < self.values.len() {
            Some(&self.values[index])
        } else {
            None
        }
    }

    /// The value at `index`, which must exist.
    pub fn get_unchecked(&self, index: usize) -> (r: &Value)
        requires
            index < self.value_seq().len(),
        ensures
            *r == self.value_seq()[index as int],
    {
        &self.values[index]
    }

    /// The value of the first field named `name`, if there is one.
    pub fn get_by_name(&self, name: &str) -> (r: Option<&Value>)
        ensures
            match first_index_of(self.field_names(), name@) {
                Some(i) => r matches Some(v) && *v == self.value_seq()[i],
                None => r is None,
            },
    {
        proof {
            use_type_invariant(self);
        }
        let ghost names = strings_view(self.fields@);
        let mut i: usize = 0;
        while i < self.fields.len()
            invariant
                i <= self.fields@.len(),
                self.fields@.len() == self.values@.len(),
                names == strings_view(self.fields@),
                forall|j: int| 0 <= j < i ==> names[j] != name@,
            decreases self.fields@.len() - i,
        {
            if str_eq(self.fields[i].as_str(), name) {
                proof {
                    assert(names[i as int] == name@);
                    let k = choose|k: int| 0 <= k < names.len() && names[k] == name@
                        && forall|j: int| 0 <= j < k ==> names[j] != name@;
                    if k < i {
                        assert(names[k] != name@);
                    } else if k > i {
                        assert(names[i as int] != name@);
                    }
                }
                return Some(&self.values[i]);
            }
            i = i + 1;
        }
        None
    }

    /// The field names.
    pub fn fields(&self) -> (r: &Vec<String>)
        ensures
            strings_view(r@) == self.field_names(),
    {
        &self.fields
    }

    /// The values.
    pub fn values(&self) -> (r: &Vec<Value>)
        ensures
            r@ == self.value_seq(),
    {
        &self.values
    }

    /// The values, taking the row apart.
    pub fn into_values(self) -> (r: Vec<Value>)
        ensures
            r@ == self.value_seq(),
    {
        self.values
    }

    /// The text the row displays as: its values in brackets, comma-separated.
    pub fn render(&self) -> (s: String)
        ensures
            s@ == "["@ + join(value_texts(self.value_seq()), ", "@) + "]"@,
    {
        proof {
            reveal_strlit("[");
            reveal_strlit("]");
        }
        let parts = render_values(&self.values);
        let mut s = owned("[");
        let j = join_strings(&parts, ", ");
        s.append(j.as_str());
        s.append("]");
        s
    }
}

} // verus!
