//! The debug text of expressions, data types and values, in the form
//! `Name(field)` / `Name { field: value }` / `[a, b]` / `"quoted"`: the text
//! the SQL text of a few expression kinds and the string literal of a nested
//! value are built from.

use vstd::prelude::*;
use vstd::string::StringExecFns;
use vstd::string::StrSliceExecFns;
use crate::expression::{Alias, CallFunctionWrapper, Cast, CaseWhen, CastEvalMode, CastTarget, Expression,
    ExtractValue, FrameBoundary, LambdaFunction, LiteralExpression, NullOrdering, SortOrder,
    UnresolvedFunction, UnresolvedNamedLambdaVariable, UpdateFieldsExpr, WindowExpressionWrapper};
use crate::row::Value;
use crate::text::{int_text, join, join_strings, nat_text, owned, push_int_text, push_nat_text, strings_view};
use crate::types::{DataType, StructField};

verus! {

// ---------------------------------------------------------------------------
// Strings, numbers and floats
// ---------------------------------------------------------------------------

/// How one character of a string shows between quotes: `"`, `\`, newline,
/// carriage return, tab and NUL are escaped with a backslash, printable
/// ASCII (the single quote too) stays as it is, and any other character
/// shows as `char::escape_debug` writes it.
#[verifier::opaque]
pub open spec fn char_escape(c: char) -> Seq<char> {
    if c == '"' {
        "\\\""@
    } else if c == '\\' {
        "\\\\"@
    } else if c == '\n' {
        "\\n"@
    } else if c == '\r' {
        "\\r"@
    } else if c == '\t' {
        "\\t"@
    } else if c == '\0' {
        "\\0"@
    } else if ' ' <= c && c <= '~' {
        seq![c]
    } else {
        char_escape_debug(c)
    }
}

/// What `char::escape_debug` writes for `c`.
pub uninterp spec fn char_escape_debug(c: char) -> Seq<char>;

/// `char::escape_debug`, as text: how a character other than printable
/// ASCII shows in a string's debug form (a printable one as it is, any
/// other as `\u{..}`).
#[verifier::external_body]
fn escape_debug_text(c: char) -> (r: String)
    ensures
        r@ == char_escape_debug(c),
{
    c.escape_debug().to_string()
}

/// The escaped characters of `s`.
pub open spec fn escaped(s: Seq<char>) -> Seq<char>
    decreases s.len(),
{
    if s.len() == 0 {
        Seq::empty()
    } else {
        escaped(s.drop_last()) + char_escape(s.last())
    }
}

/// A string between double quotes, escaped.
pub open spec fn quoted(s: Seq<char>) -> Seq<char> {
    "\""@ + escaped(s) + "\""@
}

/// Appends `s` quoted (see `quoted`).
pub fn push_quoted(out: &mut String, s: &str)
    ensures
        final(out)@ == old(out)@ + quoted(s@),
{
    let ghost start = out@;
    out.append("\"");
    let n = s.unicode_len();
    let mut i: usize = 0;
    assert(s@.take(0) =~= Seq::<char>::empty());
    while i < n
        invariant
            i <= n,
            n == s@.len(),
            out@ == start + "\""@ + escaped(s@.take(i as int)),
        decreases n - i,
    {
        let c = s.get_char(i);
        if c == '"' {
            out.append("\\\"");
        } else if c == '\\' {
            out.append("\\\\");
        } else if c == '\n' {
            out.append("\\n");
        } else if c == '\r' {
            out.append("\\r");
        } else if c == '\t' {
            out.append("\\t");
        } else if c == '\0' {
            out.append("\\0");
        } else if ' ' <= c && c <= '~' {
            let one = s.substring_char(i, i + 1);
            assert(one@ =~= seq![c]);
            out.append(one);
        } else {
            let e = escape_debug_text(c);
            out.append(e.as_str());
        }
        proof {
            reveal(char_escape);
            assert(s@.take(i as int + 1).drop_last() =~= s@.take(i as int));
            assert(s@.take(i as int + 1).last() == c);
        }
        i = i + 1;
    }
    assert(s@.take(n as int) =~= s@);
    out.append("\"");
    assert(out@ =~= start + quoted(s@));
}

/// `s` quoted, as a new string.
pub fn quote(s: &str) -> (r: String)
    ensures
        r@ == quoted(s@),
{
    let mut r = String::new();
    push_quoted(&mut r, s);
    assert(r@ =~= quoted(s@));
    r
}

/// `c` is a decimal digit.
pub open spec fn is_digit(c: char) -> bool {
    '0' <= c && c <= '9'
}

/// `t` is an integer's text: digits, after an optional minus sign.
pub open spec fn is_integral_text(t: Seq<char>) -> bool {
    &&& t.len() > 0
    &&& is_digit(t.last())
    &&& forall|i: int| 0 <= i < t.len() ==> is_digit(#[trigger] t[i]) || (i == 0 && t[i] == '-')
}

fn integral_text(t: &str) -> (b: bool)
    ensures
        b == is_integral_text(t@),
{
    let n = t.unicode_len();
    if n == 0 {
        return false;
    }
    let mut i: usize = 0;
    while i < n
        invariant
            i <= n,
            n == t@.len(),
            forall|j: int| 0 <= j < i ==> is_digit(#[trigger] t@[j]) || (j == 0 && t@[j] == '-'),
        decreases n - i,
    {
        let c = t.get_char(i);
        if !(('0' <= c && c <= '9') || (i == 0 && c == '-')) {
            return false;
        }
        i = i + 1;
    }
    let last = t.get_char(n - 1);
    '0' <= last && last <= '9'
}

/// `u` is made of decimal digits only.
pub open spec fn all_digit_chars(u: Seq<char>) -> bool {
    forall|i: int| 0 <= i < u.len() ==> is_digit(#[trigger] u[i])
}

/// `u` without its trailing zeros.
pub open spec fn trim_zeros(u: Seq<char>) -> Seq<char>
    decreases u.len(),
{
    if u.len() > 0 && u.last() == '0' {
        trim_zeros(u.drop_last())
    } else {
        u
    }
}

/// `u` without its leading zeros.
pub open spec fn skip_zeros(u: Seq<char>) -> Seq<char>
    decreases u.len(),
{
    if u.len() > 0 && u[0] == '0' {
        skip_zeros(u.drop_first())
    } else {
        u
    }
}

/// The digits `m` times ten to the power written `e`, in scientific form:
/// the first digit, the others after a point, then `e` and the power
/// (`1e16`, `1.5e-7`).
pub open spec fn sci_text(m: Seq<char>, e: Seq<char>) -> Seq<char> {
    mantissa_text(m) + "e"@ + e
}

/// The digits `m` with a point after the first.
pub open spec fn mantissa_text(m: Seq<char>) -> Seq<char> {
    if m.len() > 1 {
        seq![m[0]] + "."@ + m.skip(1)
    } else {
        m
    }
}

/// A float's text without its minus sign.
pub open spec fn unsigned_part(t: Seq<char>) -> Seq<char> {
    if t.len() > 0 && t[0] == '-' { t.drop_first() } else { t }
}

/// A float's minus sign, if it has one.
pub open spec fn sign_part(t: Seq<char>) -> Seq<char> {
    if t.len() > 0 && t[0] == '-' { "-"@ } else { Seq::empty() }
}

/// How a float with text `t` (its display text: plain digits, never an
/// exponent) shows in debug form: from 1e16 up (seventeen digits or more)
/// and below 1e-4 (four zeros after the point) in scientific form, `1e16`,
/// `1.5e-7`; otherwise an integral text gets `.0`, and any other text (with
/// a point, `NaN`, `inf`) stays as it is.
#[verifier::opaque]
pub open spec fn float_debug(t: Seq<char>) -> Seq<char> {
    let u = unsigned_part(t);
    if u.len() >= 17 && all_digit_chars(u) {
        sign_part(t) + sci_text(trim_zeros(u), nat_text((u.len() - 1) as nat))
    } else if u.len() > 6 && u.take(6) == "0.0000"@ {
        let m = skip_zeros(u.skip(6));
        sign_part(t) + sci_text(m, "-"@ + nat_text((u.len() - 1 - m.len()) as nat))
    } else if is_integral_text(t) {
        t + ".0"@
    } else {
        t
    }
}

fn digits_only(u: &str) -> (b: bool)
    ensures
        b == all_digit_chars(u@),
{
    let n = u.unicode_len();
    let mut i: usize = 0;
    while i < n
        invariant
            i <= n,
            n == u@.len(),
            forall|j: int| 0 <= j < i ==> is_digit(#[trigger] u@[j]),
        decreases n - i,
    {
        let c = u.get_char(i);
        if !('0' <= c && c <= '9') {
            return false;
        }
        i = i + 1;
    }
    true
}

/// Where `u` ends without its trailing zeros.
fn trimmed_end(u: &str) -> (e: usize)
    ensures
        e <= u@.len(),
        u@.take(e as int) == trim_zeros(u@),
{
    let mut p = u.unicode_len();
    assert(u@.take(p as int) =~= u@);
    while p > 0 && u.get_char(p - 1) == '0'
        invariant
            p <= u@.len(),
            trim_zeros(u@) == trim_zeros(u@.take(p as int)),
        decreases p,
    {
        assert(u@.take(p as int).drop_last() =~= u@.take(p - 1));
        p = p - 1;
    }
    p
}

/// Where `r` starts without its leading zeros.
fn first_nonzero(r: &str) -> (q: usize)
    ensures
        q <= r@.len(),
        r@.skip(q as int) == skip_zeros(r@),
{
    let n = r.unicode_len();
    let mut q: usize = 0;
    assert(r@.skip(0) =~= r@);
    while q < n && r.get_char(q) == '0'
        invariant
            q <= n,
            n == r@.len(),
            skip_zeros(r@) == skip_zeros(r@.skip(q as int)),
        decreases n - q,
    {
        assert(r@.skip(q as int).drop_first() =~= r@.skip(q + 1));
        q = q + 1;
    }
    q
}

/// Appends the digits `m` in scientific form, up to the `e`.
fn push_mantissa(out: &mut String, m: &str)
    ensures
        final(out)@ == old(out)@ + mantissa_text(m@) + "e"@,
{
    let ghost start = out@;
    let n = m.unicode_len();
    if n > 1 {
        out.append(m.substring_char(0, 1));
        out.append(".");
        out.append(m.substring_char(1, n));
        assert(m@.subrange(0, 1) =~= seq![m@[0]]);
        assert(m@.subrange(1, n as int) =~= m@.skip(1));
    } else {
        out.append(m);
    }
    out.append("e");
}

/// Appends a float text of seventeen digits or more in scientific form.
fn push_big(out: &mut String, u: &str)
    requires
        u@.len() >= 17,
    ensures
        final(out)@ == old(out)@ + sci_text(trim_zeros(u@), nat_text((u@.len() - 1) as nat)),
{
    let ul = u.unicode_len();
    let end = trimmed_end(u);
    let m = u.substring_char(0, end);
    assert(m@ =~= trim_zeros(u@));
    push_mantissa(out, m);
    push_nat_text(out, (ul - 1) as u64);
}

/// Whether `u` starts with a point and four zeros after the first digit
/// zero.
fn starts_small(u: &str) -> (b: bool)
    requires
        u@.len() > 6,
    ensures
        b == (u@.take(6) == "0.0000"@),
{
    let b = u.get_char(0) == '0' && u.get_char(1) == '.' && u.get_char(2) == '0'
        && u.get_char(3) == '0' && u.get_char(4) == '0' && u.get_char(5) == '0';
    proof {
        reveal_strlit("0.0000");
        let lit = "0.0000"@;
        if b {
            assert(u@.take(6) =~= lit);
        } else if u@.take(6) == lit {
            assert(u@.take(6)[0] == u@[0]);
            assert(u@.take(6)[1] == u@[1]);
            assert(u@.take(6)[2] == u@[2]);
            assert(u@.take(6)[3] == u@[3]);
            assert(u@.take(6)[4] == u@[4]);
            assert(u@.take(6)[5] == u@[5]);
        }
    }
    b
}

/// Appends a float text below 1e-4 (after `0.0000`) in scientific form.
fn push_small(out: &mut String, u: &str)
    requires
        u@.len() > 6,
    ensures
        final(out)@ == old(out)@ + sci_text(skip_zeros(u@.skip(6)),
            "-"@ + nat_text((u@.len() - 1 - skip_zeros(u@.skip(6)).len()) as nat)),
{
    let ghost start = out@;
    let ul = u.unicode_len();
    let rest = u.substring_char(6, ul);
    let q = first_nonzero(rest);
    let rn = rest.unicode_len();
    let m = rest.substring_char(q, rn);
    assert(rest@ =~= u@.skip(6));
    assert(m@ =~= rest@.skip(q as int));
    push_mantissa(out, m);
    out.append("-");
    let ml = m.unicode_len();
    push_nat_text(out, (ul - 1 - ml) as u64);
    assert(out@ =~= start + sci_text(skip_zeros(u@.skip(6)),
        "-"@ + nat_text((u@.len() - 1 - skip_zeros(u@.skip(6)).len()) as nat)));
}

/// Appends how a float with text `t` shows (see `float_debug`).
pub fn push_float_debug(out: &mut String, t: &String)
    ensures
        final(out)@ == old(out)@ + float_debug(t@),
{
    let ghost start = out@;
    reveal(float_debug);
    let s = t.as_str();
    let n = s.unicode_len();
    let neg = n > 0 && s.get_char(0) == '-';
    let st: usize = if neg { 1 } else { 0 };
    let u = s.substring_char(st, n);
    proof {
        reveal_strlit("-");
        if neg {
            assert(u@ =~= t@.drop_first());
        } else {
            assert(u@ =~= t@);
        }
    }
    let ul = u.unicode_len();
    if ul >= 17 && digits_only(u) {
        if neg {
            out.append("-");
        }
        push_big(out, u);
        assert(out@ =~= start + float_debug(t@));
    } else if ul > 6 && starts_small(u) {
        if neg {
            out.append("-");
        }
        push_small(out, u);
        assert(out@ =~= start + float_debug(t@));
    } else {
        out.append(s);
        if integral_text(s) {
            out.append(".0");
        }
    }
}

/// `Some(x)` or `None` around an already built text.
pub open spec fn opt_debug(o: Option<Seq<char>>) -> Seq<char> {
    match o {
        Some(x) => "Some("@ + x + ")"@,
        None => "None"@,
    }
}

/// A list: `[a, b, ...]`.
pub open spec fn list_debug(items: Seq<Seq<char>>) -> Seq<char> {
    "["@ + join(items, ", "@) + "]"@
}

pub fn push_list(out: &mut String, parts: &Vec<String>)
    ensures
        final(out)@ == old(out)@ + list_debug(strings_view(parts@)),
{
    out.append("[");
    let j = join_strings(parts, ", ");
    out.append(j.as_str());
    out.append("]");
}

fn push_opt_int(out: &mut String, o: Option<i64>)
    ensures
        final(out)@ == old(out)@ + opt_debug(match o { Some(v) => Some(int_text(v as int)), None => None }),
{
    match o {
        Some(v) => {
            out.append("Some(");
            push_int_text(out, v);
            out.append(")");
        },
        None => {
            out.append("None");
        },
    }
}

fn push_opt_quoted(out: &mut String, o: &Option<String>)
    ensures
        final(out)@ == old(out)@ + opt_debug(match o { Some(s) => Some(quoted(s@)), None => None }),
{
    match o {
        Some(s) => {
            out.append("Some(");
            push_quoted(out, s.as_str());
            out.append(")");
        },
        None => {
            out.append("None");
        },
    }
}

/// The texts of a list of bytes.
pub open spec fn bytes_debug(s: Seq<u8>) -> Seq<char> {
    list_debug(s.map_values(|b: u8| nat_text(b as nat)))
}

pub fn push_bytes(out: &mut String, v: &Vec<u8>)
    ensures
        final(out)@ == old(out)@ + bytes_debug(v@),
{
    let parts = crate::expression::render_bytes(v);
    assert(strings_view(parts@) =~= v@.map_values(|b: u8| nat_text(b as nat)));
    push_list(out, &parts);
}

/// The quoted texts of a list of strings.
pub open spec fn quoted_list(s: Seq<Seq<char>>) -> Seq<char> {
    list_debug(s.map_values(|x: Seq<char>| quoted(x)))
}

fn push_quoted_list(out: &mut String, v: &Vec<String>)
    ensures
        final(out)@ == old(out)@ + quoted_list(strings_view(v@)),
{
    let mut parts: Vec<String> = Vec::new();
    let mut i: usize = 0;
    while i < v.len()
        invariant
            i <= v@.len(),
            parts@.len() == i,
            forall|j: int| 0 <= j < i ==> #[trigger] parts@[j]@ == quoted(v@[j]@),
        decreases v@.len() - i,
    {
        parts.push(quote(v[i].as_str()));
        i = i + 1;
    }
    assert(strings_view(parts@) =~= strings_view(v@).map_values(|x: Seq<char>| quoted(x)));
    push_list(out, &parts);
}

// ---------------------------------------------------------------------------
// Data types
// ---------------------------------------------------------------------------

/// The debug text of a data type.
pub open spec fn data_type_debug(t: DataType) -> Seq<char>
    decreases t, 1int,
{
    match t {
        DataType::Null => "Null"@,
        DataType::Boolean => "Boolean"@,
        DataType::Byte => "Byte"@,
        DataType::Short => "Short"@,
        DataType::Integer => "Integer"@,
        DataType::Long => "Long"@,
        DataType::Float => "Float"@,
        DataType::Double => "Double"@,
        DataType::String { collation } => "String { collation: "@ + quoted(collation@) + " }"@,
        DataType::Binary => "Binary"@,
        DataType::Date => "Date"@,
        DataType::Timestamp => "Timestamp"@,
        DataType::TimestampNtz => "TimestampNtz"@,
        DataType::Array { element_type, contains_null } =>
            "Array { element_type: "@ + data_type_debug(*element_type) + ", contains_null: "@
                + bool_text(contains_null) + " }"@,
        DataType::Struct { fields } => "Struct { fields: "@ + list_debug(field_debugs(fields@)) + " }"@,
    }
}

/// The debug texts of struct fields.
pub open spec fn field_debugs(s: Seq<StructField>) -> Seq<Seq<char>>
    decreases s, 0int,
{
    Seq::new(s.len(), |i: int| if 0 <= i < s.len() {
        "StructField { name: "@ + quoted(s[i].name@) + ", data_type: "@ + data_type_debug(s[i].data_type)
            + ", nullable: "@ + bool_text(s[i].nullable) + " }"@
    } else {
        Seq::empty()
    })
}

/// `true` or `false`.
#[verifier::opaque]
pub open spec fn bool_text(b: bool) -> Seq<char> {
    if b { "true"@ } else { "false"@ }
}

pub fn push_bool(out: &mut String, b: bool)
    ensures
        final(out)@ == old(out)@ + bool_text(b),
{
    proof {
        reveal(bool_text);
    }
    if b {
        out.append("true");
    } else {
        out.append("false");
    }
}

fn field_parts(v: &Vec<StructField>) -> (parts: Vec<String>)
    ensures
        strings_view(parts@) == field_debugs(v@),
    decreases v, 0int,
{
    let mut parts: Vec<String> = Vec::new();
    let mut i: usize = 0;
    while i < v.len()
        invariant
            i <= v.len(),
            parts@.len() == i,
            forall|j: int| 0 <= j < i ==> #[trigger] parts@[j]@ == field_debugs(v@)[j],
        decreases v.len() - i,
    {
        proof {
            assert(decreases_to!(*v => v@[i as int]));
        }
        let f = &v[i];
        let mut s = owned("StructField { name: ");
        push_quoted(&mut s, f.name.as_str());
        s.append(", data_type: ");
        push_data_type(&mut s, &f.data_type);
        s.append(", nullable: ");
        push_bool(&mut s, f.nullable);
        s.append(" }");
        parts.push(s);
        i = i + 1;
    }
    assert(strings_view(parts@) =~= field_debugs(v@));
    parts
}

/// Appends the debug text of a data type.
pub fn push_data_type(out: &mut String, t: &DataType)
    ensures
        final(out)@ == old(out)@ + data_type_debug(*t),
    decreases t, 1int,
{
    match t {
        DataType::Null => out.append("Null"),
        DataType::Boolean => out.append("Boolean"),
        DataType::Byte => out.append("Byte"),
        DataType::Short => out.append("Short"),
        DataType::Integer => out.append("Integer"),
        DataType::Long => out.append("Long"),
        DataType::Float => out.append("Float"),
        DataType::Double => out.append("Double"),
        DataType::String { collation } => {
            out.append("String { collation: ");
            push_quoted(out, collation.as_str());
            out.append(" }");
        },
        DataType::Binary => out.append("Binary"),
        DataType::Date => out.append("Date"),
        DataType::Timestamp => out.append("Timestamp"),
        DataType::TimestampNtz => out.append("TimestampNtz"),
        DataType::Array { element_type, contains_null } => {
            out.append("Array { element_type: ");
            push_data_type(out, element_type);
            out.append(", contains_null: ");
            push_bool(out, *contains_null);
            out.append(" }");
        },
        DataType::Struct { fields } => {
            out.append("Struct { fields: ");
            let parts = field_parts(fields);
            push_list(out, &parts);
            out.append(" }");
        },
    }
}

// ---------------------------------------------------------------------------
// Literals and expressions
// ---------------------------------------------------------------------------

/// The debug text of a literal.
pub open spec fn literal_debug(l: LiteralExpression) -> Seq<char>
    decreases l, 1int,
{
    match l {
        LiteralExpression::Null(d) => "Null("@ + data_type_debug(d) + ")"@,
        LiteralExpression::Boolean(b) => "Boolean("@ + bool_text(b) + ")"@,
        LiteralExpression::Byte(v) => "Byte("@ + int_text(v as int) + ")"@,
        LiteralExpression::Short(v) => "Short("@ + int_text(v as int) + ")"@,
        LiteralExpression::Integer(v) => "Integer("@ + int_text(v as int) + ")"@,
        LiteralExpression::Long(v) => "Long("@ + int_text(v as int) + ")"@,
        LiteralExpression::Float(f) => "Float("@ + float_debug(f.text@) + ")"@,
        LiteralExpression::Double(f) => "Double("@ + float_debug(f.text@) + ")"@,
        LiteralExpression::Decimal { value, precision, scale } => "Decimal { value: "@ + quoted(value@)
            + ", precision: "@ + int_text(precision as int) + ", scale: "@ + int_text(scale as int) + " }"@,
        LiteralExpression::String(s) => "String("@ + quoted(s@) + ")"@,
        LiteralExpression::Binary(b) => "Binary("@ + bytes_debug(b@) + ")"@,
        LiteralExpression::Date(v) => "Date("@ + int_text(v as int) + ")"@,
        LiteralExpression::Timestamp(v) => "Timestamp("@ + int_text(v as int) + ")"@,
        LiteralExpression::TimestampNtz(v) => "TimestampNtz("@ + int_text(v as int) + ")"@,
        LiteralExpression::Time { nano, precision } => "Time { nano: "@ + int_text(nano as int)
            + ", precision: "@ + int_text(precision as int) + " }"@,
        LiteralExpression::Array { element_type, elements } => "Array { element_type: "@
            + data_type_debug(*element_type) + ", elements: "@ + list_debug(literal_debugs(elements@)) + " }"@,
    }
}

/// The debug texts of a list of literals.
pub open spec fn literal_debugs(s: Seq<LiteralExpression>) -> Seq<Seq<char>>
    decreases s, 0int,
{
    Seq::new(s.len(), |i: int| if 0 <= i < s.len() { literal_debug(s[i]) } else { Seq::empty() })
}

fn literal_parts(v: &Vec<LiteralExpression>) -> (parts: Vec<String>)
    ensures
        strings_view(parts@) == literal_debugs(v@),
    decreases v, 0int,
{
    let mut parts: Vec<String> = Vec::new();
    let mut i: usize = 0;
    while i < v.len()
        invariant
            i <= v.len(),
            parts@.len() == i,
            forall|j: int| 0 <= j < i ==> #[trigger] parts@[j]@ == literal_debug(v@[j]),
        decreases v.len() - i,
    {
        proof {
            assert(decreases_to!(*v => v@[i as int]));
        }
        let mut s = String::new();
        push_literal(&mut s, &v[i]);
        assert(s@ =~= literal_debug(v@[i as int]));
        parts.push(s);
        i = i + 1;
    }
    assert(strings_view(parts@) =~= literal_debugs(v@));
    parts
}

/// Appends the debug text of a literal.
#[verifier::spinoff_prover]
#[verifier::rlimit(50)]
pub fn push_literal(out: &mut String, l: &LiteralExpression)
    ensures
        final(out)@ == old(out)@ + literal_debug(*l),
    decreases l, 1int,
{
    match l {
        LiteralExpression::Null(d) => {
            out.append("Null(");
            push_data_type(out, d);
            out.append(")");
        },
        LiteralExpression::Boolean(b) => {
            out.append("Boolean(");
            push_bool(out, *b);
            out.append(")");
        },
        LiteralExpression::Byte(v) => {
            out.append("Byte(");
            push_int_text(out, *v as i64);
            out.append(")");
        },
        LiteralExpression::Short(v) => {
            out.append("Short(");
            push_int_text(out, *v as i64);
            out.append(")");
        },
        LiteralExpression::Integer(v) => {
            out.append("Integer(");
            push_int_text(out, *v as i64);
            out.append(")");
        },
        LiteralExpression::Long(v) => {
            out.append("Long(");
            push_int_text(out, *v);
            out.append(")");
        },
        LiteralExpression::Float(f) => {
            out.append("Float(");
            push_float_debug(out, &f.text);
            out.append(")");
        },
        LiteralExpression::Double(f) => {
            out.append("Double(");
            push_float_debug(out, &f.text);
            out.append(")");
        },
        LiteralExpression::Decimal { value, precision, scale } => {
            out.append("Decimal { value: ");
            push_quoted(out, value.as_str());
            out.append(", precision: ");
            push_int_text(out, *precision as i64);
            out.append(", scale: ");
            push_int_text(out, *scale as i64);
            out.append(" }");
        },
        LiteralExpression::String(s) => {
            out.append("String(");
            push_quoted(out, s.as_str());
            out.append(")");
        },
        LiteralExpression::Binary(b) => {
            out.append("Binary(");
            push_bytes(out, b);
            out.append(")");
        },
        LiteralExpression::Date(v) => {
            out.append("Date(");
            push_int_text(out, *v as i64);
            out.append(")");
        },
        LiteralExpression::Timestamp(v) => {
            out.append("Timestamp(");
            push_int_text(out, *v);
            out.append(")");
        },
        LiteralExpression::TimestampNtz(v) => {
            out.append("TimestampNtz(");
            push_int_text(out, *v);
            out.append(")");
        },
        LiteralExpression::Time { nano, precision } => {
            out.append("Time { nano: ");
            push_int_text(out, *nano);
            out.append(", precision: ");
            push_int_text(out, *precision as i64);
            out.append(" }");
        },
        LiteralExpression::Array { element_type, elements } => {
            out.append("Array { element_type: ");
            push_data_type(out, element_type);
            out.append(", elements: ");
            let parts = literal_parts(elements);
            push_list(out, &parts);
            out.append(" }");
        },
    }
}

/// The debug text of a frame boundary.
pub open spec fn boundary_debug(b: FrameBoundary) -> Seq<char> {
    match b {
        FrameBoundary::UnboundedPreceding => "UnboundedPreceding"@,
        FrameBoundary::Preceding(n) => "Preceding("@ + int_text(n as int) + ")"@,
        FrameBoundary::CurrentRow => "CurrentRow"@,
        FrameBoundary::Following(n) => "Following("@ + int_text(n as int) + ")"@,
        FrameBoundary::UnboundedFollowing => "UnboundedFollowing"@,
    }
}

fn push_boundary(out: &mut String, b: FrameBoundary)
    ensures
        final(out)@ == old(out)@ + boundary_debug(b),
{
    match b {
        FrameBoundary::UnboundedPreceding => out.append("UnboundedPreceding"),
        FrameBoundary::Preceding(n) => {
            out.append("Preceding(");
            push_int_text(out, n);
            out.append(")");
        },
        FrameBoundary::CurrentRow => out.append("CurrentRow"),
        FrameBoundary::Following(n) => {
            out.append("Following(");
            push_int_text(out, n);
            out.append(")");
        },
        FrameBoundary::UnboundedFollowing => out.append("UnboundedFollowing"),
    }
}

/// The debug text of a window frame: `(kind, lower, upper)`.
pub open spec fn frame_debug(f: (u32, FrameBoundary, FrameBoundary)) -> Seq<char> {
    "("@ + nat_text(f.0 as nat) + ", "@ + boundary_debug(f.1) + ", "@ + boundary_debug(f.2) + ")"@
}

/// The debug text of a lambda variable.
pub open spec fn lambda_var_debug(v: UnresolvedNamedLambdaVariable) -> Seq<char> {
    "UnresolvedNamedLambdaVariable { name_parts: "@ + quoted(v.name_parts@) + " }"@
}

/// Appends the debug text of a lambda variable.
pub fn push_lambda_var(out: &mut String, v: &UnresolvedNamedLambdaVariable)
    ensures
        final(out)@ == old(out)@ + lambda_var_debug(*v),
{
    out.append("UnresolvedNamedLambdaVariable { name_parts: ");
    push_quoted(out, v.name_parts.as_str());
    out.append(" }");
}

/// The debug texts of lambda variables.
pub open spec fn lambda_var_debugs(s: Seq<UnresolvedNamedLambdaVariable>) -> Seq<Seq<char>> {
    s.map_values(|v: UnresolvedNamedLambdaVariable| lambda_var_debug(v))
}

fn lambda_var_parts(v: &Vec<UnresolvedNamedLambdaVariable>) -> (parts: Vec<String>)
    ensures
        strings_view(parts@) == lambda_var_debugs(v@),
{
    let mut parts: Vec<String> = Vec::new();
    let mut i: usize = 0;
    while i < v.len()
        invariant
            i <= v.len(),
            parts@.len() == i,
            forall|j: int| 0 <= j < i ==> #[trigger] parts@[j]@ == lambda_var_debug(v@[j]),
        decreases v.len() - i,
    {
        let mut s = String::new();
        push_lambda_var(&mut s, &v[i]);
        assert(s@ =~= lambda_var_debug(v@[i as int]));
        parts.push(s);
        i = i + 1;
    }
    assert(strings_view(parts@) =~= lambda_var_debugs(v@));
    parts
}

/// The debug text of a cast's evaluation mode.
pub open spec fn eval_mode_debug(m: CastEvalMode) -> Seq<char> {
    match m {
        CastEvalMode::Legacy => "Legacy"@,
        CastEvalMode::Ansi => "Ansi"@,
        CastEvalMode::Try => "Try"@,
    }
}

/// The debug text of an expression.
pub open spec fn expr_debug(e: Expression) -> Seq<char>
    decreases e, 2int,
{
    match e {
        Expression::Literal(l) => "Literal("@ + literal_debug(l) + ")"@,
        Expression::ColumnReference(c) => "ColumnReference(ColumnReference { name: "@ + quoted(c.name@)
            + ", plan_id: "@ + opt_debug(match c.plan_id { Some(p) => Some(int_text(p as int)), None => None })
            + ", is_metadata_column: "@ + bool_text(c.is_metadata_column) + " })"@,
        Expression::UnresolvedFunction(f) => "UnresolvedFunction("@ + function_debug(f) + ")"@,
        Expression::UnresolvedStar(t) => "UnresolvedStar("@
            + opt_debug(match t { Some(s) => Some(quoted(s@)), None => None }) + ")"@,
        Expression::Alias(a) => "Alias("@ + alias_debug(*a) + ")"@,
        Expression::Cast(c) => "Cast("@ + cast_debug(*c) + ")"@,
        Expression::DirectShufflePartitionId(c) => "DirectShufflePartitionId("@ + expr_debug(*c) + ")"@,
        Expression::UnresolvedRegex(s) => "UnresolvedRegex("@ + quoted(s@) + ")"@,
        Expression::SortOrder(s) => "SortOrder("@ + sort_debug(*s) + ")"@,
        Expression::CaseWhen(c) => "CaseWhen("@ + case_when_debug(*c) + ")"@,
        Expression::UnresolvedExtractValue(ev) => "UnresolvedExtractValue("@ + extract_debug(*ev) + ")"@,
        Expression::UpdateFields(uf) => "UpdateFields("@ + update_fields_debug(*uf) + ")"@,
        Expression::SQLExpression(s) => "SQLExpression("@ + quoted(s@) + ")"@,
        Expression::CallFunction(c) => "CallFunction("@ + call_debug(*c) + ")"@,
        Expression::WindowExpression(w) => "WindowExpression("@ + window_debug(*w) + ")"@,
        Expression::LambdaFunction(lf) => "LambdaFunction("@ + lambda_debug(*lf) + ")"@,
        Expression::UnresolvedNamedLambdaVariable(v) => "UnresolvedNamedLambdaVariable("@ + lambda_var_debug(v) + ")"@,
    }
}

/// The debug text of a function call.
pub open spec fn function_debug(f: UnresolvedFunction) -> Seq<char>
    decreases f, 1int,
{
    "UnresolvedFunction { name: "@ + quoted(f.name@) + ", args: "@ + list_debug(expr_debugs(f.args@))
        + ", is_distinct: "@ + bool_text(f.is_distinct) + " }"@
}

/// The debug text of an alias.
pub open spec fn alias_debug(a: Alias) -> Seq<char>
    decreases a, 1int,
{
    "Alias { child: "@ + expr_debug(a.child) + ", names: "@ + quoted_list(strings_view(a.names@)) + ", metadata: "@
        + opt_debug(match a.metadata { Some(s) => Some(quoted(s@)), None => None }) + " }"@
}

/// The debug text of a cast target.
pub open spec fn cast_target_debug(t: CastTarget) -> Seq<char> {
    match t {
        CastTarget::Type(d) => "Type("@ + data_type_debug(d) + ")"@,
        CastTarget::TypeStr(s) => "TypeStr("@ + quoted(s@) + ")"@,
    }
}

/// The debug text of a cast.
pub open spec fn cast_debug(c: Cast) -> Seq<char>
    decreases c, 1int,
{
    "Cast { child: "@ + expr_debug(c.child) + ", target: "@ + cast_target_debug(c.target) + ", eval_mode: "@
        + opt_debug(match c.eval_mode { Some(m) => Some(eval_mode_debug(m)), None => None }) + " }"@
}

/// The debug text of a CASE WHEN.
pub open spec fn case_when_debug(c: CaseWhen) -> Seq<char>
    decreases c, 1int,
{
    "CaseWhen { branches: "@ + list_debug(branch_debugs(c.branches@)) + ", else_expr: "@
        + opt_debug(match c.else_expr { Some(x) => Some(expr_debug(*x)), None => None }) + " }"@
}

/// The debug text of a field or element extraction.
pub open spec fn extract_debug(ev: ExtractValue) -> Seq<char>
    decreases ev, 1int,
{
    "ExtractValue { child: "@ + expr_debug(ev.child) + ", extraction: "@ + expr_debug(ev.extraction) + " }"@
}

/// The debug text of a field update.
pub open spec fn update_fields_debug(uf: UpdateFieldsExpr) -> Seq<char>
    decreases uf, 1int,
{
    "UpdateFieldsExpr { struct_expression: "@ + expr_debug(uf.struct_expression) + ", field_name: "@
        + quoted(uf.field_name@) + ", value_expression: "@
        + opt_debug(match uf.value_expression { Some(x) => Some(expr_debug(x)), None => None }) + " }"@
}

/// The debug text of a direct function call.
pub open spec fn call_debug(c: CallFunctionWrapper) -> Seq<char>
    decreases c, 1int,
{
    "CallFunctionWrapper { function_name: "@ + quoted(c.function_name@) + ", arguments: "@
        + list_debug(expr_debugs(c.arguments@)) + " }"@
}

/// The debug text of a window expression.
pub open spec fn window_debug(w: WindowExpressionWrapper) -> Seq<char>
    decreases w, 1int,
{
    "WindowExpressionWrapper { window_function: "@ + expr_debug(w.window_function) + ", partition_spec: "@
        + list_debug(expr_debugs(w.partition_spec@)) + ", order_spec: "@ + list_debug(sort_debugs(w.order_spec@))
        + ", frame_spec: "@ + opt_debug(match w.frame_spec { Some(f) => Some(frame_debug(f)), None => None }) + " }"@
}

/// The debug text of a lambda function.
pub open spec fn lambda_debug(l: LambdaFunction) -> Seq<char>
    decreases l, 1int,
{
    "LambdaFunction { function: "@ + expr_debug(l.function) + ", arguments: "@
        + list_debug(lambda_var_debugs(l.arguments@)) + " }"@
}

/// The debug text of a sort order.
pub open spec fn sort_debug(s: SortOrder) -> Seq<char>
    decreases s, 1int,
{
    "SortOrder { child: "@ + expr_debug(s.child) + ", ascending: "@ + bool_text(s.ascending)
        + ", null_ordering: "@ + (match s.null_ordering {
            NullOrdering::First => "First"@,
            NullOrdering::Last => "Last"@,
        }) + " }"@
}

/// The debug texts of a list of expressions.
pub open spec fn expr_debugs(s: Seq<Expression>) -> Seq<Seq<char>>
    decreases s, 1int,
{
    Seq::new(s.len(), |i: int| if 0 <= i < s.len() { expr_debug(s[i]) } else { Seq::empty() })
}

/// The debug texts of a list of sort orders.
pub open spec fn sort_debugs(s: Seq<SortOrder>) -> Seq<Seq<char>>
    decreases s, 1int,
{
    Seq::new(s.len(), |i: int| if 0 <= i < s.len() { sort_debug(s[i]) } else { Seq::empty() })
}

/// The debug texts of CASE WHEN branches: `(condition, value)`.
pub open spec fn branch_debugs(s: Seq<(Expression, Expression)>) -> Seq<Seq<char>>
    decreases s, 1int,
{
    Seq::new(s.len(), |i: int| if 0 <= i < s.len() {
        "("@ + expr_debug(s[i].0) + ", "@ + expr_debug(s[i].1) + ")"@
    } else {
        Seq::empty()
    })
}

fn expr_parts(v: &Vec<Expression>) -> (parts: Vec<String>)
    ensures
        strings_view(parts@) == expr_debugs(v@),
    decreases v, 1int,
{
    let mut parts: Vec<String> = Vec::new();
    let mut i: usize = 0;
    while i < v.len()
        invariant
            i <= v.len(),
            parts@.len() == i,
            forall|j: int| 0 <= j < i ==> #[trigger] parts@[j]@ == expr_debug(v@[j]),
        decreases v.len() - i,
    {
        proof {
            assert(decreases_to!(*v => v@[i as int]));
        }
        let mut s = String::new();
        push_expr(&mut s, &v[i]);
        assert(s@ =~= expr_debug(v@[i as int]));
        parts.push(s);
        i = i + 1;
    }
    assert(strings_view(parts@) =~= expr_debugs(v@));
    parts
}

fn sort_parts(v: &Vec<SortOrder>) -> (parts: Vec<String>)
    ensures
        strings_view(parts@) == sort_debugs(v@),
    decreases v, 1int,
{
    let mut parts: Vec<String> = Vec::new();
    let mut i: usize = 0;
    while i < v.len()
        invariant
            i <= v.len(),
            parts@.len() == i,
            forall|j: int| 0 <= j < i ==> #[trigger] parts@[j]@ == sort_debug(v@[j]),
        decreases v.len() - i,
    {
        proof {
            assert(decreases_to!(*v => v@[i as int]));
        }
        let mut s = String::new();
        push_sort(&mut s, &v[i]);
        assert(s@ =~= sort_debug(v@[i as int]));
        parts.push(s);
        i = i + 1;
    }
    assert(strings_view(parts@) =~= sort_debugs(v@));
    parts
}

fn branch_parts(v: &Vec<(Expression, Expression)>) -> (parts: Vec<String>)
    ensures
        strings_view(parts@) == branch_debugs(v@),
    decreases v, 1int,
{
    let mut parts: Vec<String> = Vec::new();
    let mut i: usize = 0;
    while i < v.len()
        invariant
            i <= v.len(),
            parts@.len() == i,
            forall|j: int| 0 <= j < i ==> #[trigger] parts@[j]@ == "("@ + expr_debug(v@[j].0) + ", "@ + expr_debug(v@[j].1) + ")"@,
        decreases v.len() - i,
    {
        proof {
            assert(decreases_to!(*v => v@[i as int]));
        }
        let (c, x) = &v[i];
        let mut s = owned("(");
        push_expr(&mut s, c);
        s.append(", ");
        push_expr(&mut s, x);
        s.append(")");
        parts.push(s);
        i = i + 1;
    }
    assert(strings_view(parts@) =~= branch_debugs(v@));
    parts
}

/// Appends the debug text of a sort order.
pub fn push_sort(out: &mut String, s: &SortOrder)
    ensures
        final(out)@ == old(out)@ + sort_debug(*s),
    decreases s, 1int,
{
    out.append("SortOrder { child: ");
    push_expr(out, &s.child);
    out.append(", ascending: ");
    push_bool(out, s.ascending);
    out.append(", null_ordering: ");
    match s.null_ordering {
        NullOrdering::First => out.append("First"),
        NullOrdering::Last => out.append("Last"),
    }
    out.append(" }");
}

/// Appends the debug text of a lambda function.
pub fn push_lambda(out: &mut String, l: &LambdaFunction)
    ensures
        final(out)@ == old(out)@ + lambda_debug(*l),
    decreases l, 1int,
{
    out.append("LambdaFunction { function: ");
    push_expr(out, &l.function);
    out.append(", arguments: ");
    let parts = lambda_var_parts(&l.arguments);
    push_list(out, &parts);
    out.append(" }");
}

/// Appends the debug text of a function call.
pub fn push_function(out: &mut String, f: &UnresolvedFunction)
    ensures
        final(out)@ == old(out)@ + function_debug(*f),
    decreases f, 1int,
{
    out.append("UnresolvedFunction { name: ");
    push_quoted(out, f.name.as_str());
    out.append(", args: ");
    let parts = expr_parts(&f.args);
    push_list(out, &parts);
    out.append(", is_distinct: ");
    push_bool(out, f.is_distinct);
    out.append(" }");
}

fn push_alias(out: &mut String, a: &Alias)
    ensures
        final(out)@ == old(out)@ + alias_debug(*a),
    decreases a, 1int,
{
    out.append("Alias { child: ");
    push_expr(out, &a.child);
    out.append(", names: ");
    push_quoted_list(out, &a.names);
    out.append(", metadata: ");
    push_opt_quoted(out, &a.metadata);
    out.append(" }");
}

#[verifier::spinoff_prover]
#[verifier::rlimit(50)]
fn push_cast(out: &mut String, c: &Cast)
    ensures
        final(out)@ == old(out)@ + cast_debug(*c),
    decreases c, 1int,
{
    out.append("Cast { child: ");
    push_expr(out, &c.child);
    out.append(", target: ");
    match &c.target {
        CastTarget::Type(d) => {
            out.append("Type(");
            push_data_type(out, d);
            out.append(")");
        },
        CastTarget::TypeStr(s) => {
            out.append("TypeStr(");
            push_quoted(out, s.as_str());
            out.append(")");
        },
    }
    out.append(", eval_mode: ");
    match c.eval_mode {
        Some(m) => {
            out.append("Some(");
            match m {
                CastEvalMode::Legacy => out.append("Legacy"),
                CastEvalMode::Ansi => out.append("Ansi"),
                CastEvalMode::Try => out.append("Try"),
            }
            out.append(")");
        },
        None => out.append("None"),
    }
    out.append(" }");
}

fn push_case_when(out: &mut String, c: &CaseWhen)
    ensures
        final(out)@ == old(out)@ + case_when_debug(*c),
    decreases c, 1int,
{
    out.append("CaseWhen { branches: ");
    let parts = branch_parts(&c.branches);
    push_list(out, &parts);
    out.append(", else_expr: ");
    match &c.else_expr {
        Some(x) => {
            out.append("Some(");
            push_expr(out, x);
            out.append(")");
        },
        None => out.append("None"),
    }
    out.append(" }");
}

fn push_extract(out: &mut String, ev: &ExtractValue)
    ensures
        final(out)@ == old(out)@ + extract_debug(*ev),
    decreases ev, 1int,
{
    out.append("ExtractValue { child: ");
    push_expr(out, &ev.child);
    out.append(", extraction: ");
    push_expr(out, &ev.extraction);
    out.append(" }");
}

fn push_update_fields(out: &mut String, uf: &UpdateFieldsExpr)
    ensures
        final(out)@ == old(out)@ + update_fields_debug(*uf),
    decreases uf, 1int,
{
    out.append("UpdateFieldsExpr { struct_expression: ");
    push_expr(out, &uf.struct_expression);
    out.append(", field_name: ");
    push_quoted(out, uf.field_name.as_str());
    out.append(", value_expression: ");
    match &uf.value_expression {
        Some(x) => {
            out.append("Some(");
            push_expr(out, x);
            out.append(")");
        },
        None => out.append("None"),
    }
    out.append(" }");
}

fn push_call(out: &mut String, c: &CallFunctionWrapper)
    ensures
        final(out)@ == old(out)@ + call_debug(*c),
    decreases c, 1int,
{
    out.append("CallFunctionWrapper { function_name: ");
    push_quoted(out, c.function_name.as_str());
    out.append(", arguments: ");
    let parts = expr_parts(&c.arguments);
    push_list(out, &parts);
    out.append(" }");
}

#[verifier::spinoff_prover]
#[verifier::rlimit(50)]
fn push_window(out: &mut String, w: &WindowExpressionWrapper)
    ensures
        final(out)@ == old(out)@ + window_debug(*w),
    decreases w, 1int,
{
    out.append("WindowExpressionWrapper { window_function: ");
    push_expr(out, &w.window_function);
    out.append(", partition_spec: ");
    let parts = expr_parts(&w.partition_spec);
    push_list(out, &parts);
    out.append(", order_spec: ");
    let sorts = sort_parts(&w.order_spec);
    push_list(out, &sorts);
    out.append(", frame_spec: ");
    match w.frame_spec {
        Some((k, lo, hi)) => {
            out.append("Some(");
            out.append("(");
            push_nat_text(out, k as u64);
            out.append(", ");
            push_boundary(out, lo);
            out.append(", ");
            push_boundary(out, hi);
            out.append(")");
            out.append(")");
        },
        None => out.append("None"),
    }
    out.append(" }");
}

/// Appends the debug text of an expression.
#[verifier::spinoff_prover]
#[verifier::rlimit(50)]
pub fn push_expr(out: &mut String, e: &Expression)
    ensures
        final(out)@ == old(out)@ + expr_debug(*e),
    decreases e, 2int,
{
    match e {
        Expression::Literal(l) => {
            out.append("Literal(");
            push_literal(out, l);
            out.append(")");
        },
        Expression::ColumnReference(c) => {
            out.append("ColumnReference(ColumnReference { name: ");
            push_quoted(out, c.name.as_str());
            out.append(", plan_id: ");
            push_opt_int(out, c.plan_id);
            out.append(", is_metadata_column: ");
            push_bool(out, c.is_metadata_column);
            out.append(" })");
        },
        Expression::UnresolvedFunction(f) => {
            out.append("UnresolvedFunction(");
            push_function(out, f);
            out.append(")");
        },
        Expression::UnresolvedStar(t) => {
            out.append("UnresolvedStar(");
            push_opt_quoted(out, t);
            out.append(")");
        },
        Expression::Alias(a) => {
            out.append("Alias(");
            push_alias(out, a);
            out.append(")");
        },
        Expression::Cast(c) => {
            out.append("Cast(");
            push_cast(out, c);
            out.append(")");
        },
        Expression::DirectShufflePartitionId(c) => {
            out.append("DirectShufflePartitionId(");
            push_expr(out, c);
            out.append(")");
        },
        Expression::UnresolvedRegex(s) => {
            out.append("UnresolvedRegex(");
            push_quoted(out, s.as_str());
            out.append(")");
        },
        Expression::SortOrder(s) => {
            out.append("SortOrder(");
            push_sort(out, s);
            out.append(")");
        },
        Expression::CaseWhen(c) => {
            out.append("CaseWhen(");
            push_case_when(out, c);
            out.append(")");
        },
        Expression::UnresolvedExtractValue(ev) => {
            out.append("UnresolvedExtractValue(");
            push_extract(out, ev);
            out.append(")");
        },
        Expression::UpdateFields(uf) => {
            out.append("UpdateFields(");
            push_update_fields(out, uf);
            out.append(")");
        },
        Expression::SQLExpression(s) => {
            out.append("SQLExpression(");
            push_quoted(out, s.as_str());
            out.append(")");
        },
        Expression::CallFunction(c) => {
            out.append("CallFunction(");
            push_call(out, c);
            out.append(")");
        },
        Expression::WindowExpression(w) => {
            out.append("WindowExpression(");
            push_window(out, w);
            out.append(")");
        },
        Expression::LambdaFunction(lf) => {
            out.append("LambdaFunction(");
            push_lambda(out, lf);
            out.append(")");
        },
        Expression::UnresolvedNamedLambdaVariable(v) => {
            out.append("UnresolvedNamedLambdaVariable(");
            push_lambda_var(out, v);
            out.append(")");
        },
    }
}

/// The debug text of an expression, as a new string.
pub fn expr_debug_string(e: &Expression) -> (s: String)
    ensures
        s@ == expr_debug(*e),
{
    let mut s = String::new();
    push_expr(&mut s, e);
    assert(s@ =~= expr_debug(*e));
    s
}

/// The debug text of a lambda function, as a new string.
pub fn lambda_debug_string(l: &LambdaFunction) -> (s: String)
    ensures
        s@ == lambda_debug(*l),
{
    let mut s = String::new();
    push_lambda(&mut s, l);
    assert(s@ =~= lambda_debug(*l));
    s
}

/// The debug text of a lambda variable, as a new string.
pub fn lambda_var_debug_string(v: &UnresolvedNamedLambdaVariable) -> (s: String)
    ensures
        s@ == lambda_var_debug(*v),
{
    let mut s = String::new();
    push_lambda_var(&mut s, v);
    assert(s@ =~= lambda_var_debug(*v));
    s
}

// ---------------------------------------------------------------------------
// Values
// ---------------------------------------------------------------------------

/// The debug text of a value. A map shows as `Map({"k": v, ...})`.
pub open spec fn value_debug(v: Value) -> Seq<char>
    decreases v, 1int,
{
    match v {
        Value::Null => "Null"@,
        Value::Bool(b) => "Bool("@ + bool_text(b) + ")"@,
        Value::Byte(x) => "Byte("@ + int_text(x as int) + ")"@,
        Value::Short(x) => "Short("@ + int_text(x as int) + ")"@,
        Value::Integer(x) => "Integer("@ + int_text(x as int) + ")"@,
        Value::Long(x) => "Long("@ + int_text(x as int) + ")"@,
        Value::Float(f) => "Float("@ + float_debug(f.text@) + ")"@,
        Value::Double(f) => "Double("@ + float_debug(f.text@) + ")"@,
        Value::String(s) => "String("@ + quoted(s@) + ")"@,
        Value::Binary(b) => "Binary("@ + bytes_debug(b@) + ")"@,
        Value::Date(d) => "Date("@ + int_text(d as int) + ")"@,
        Value::Timestamp(t) => "Timestamp("@ + int_text(t as int) + ")"@,
        Value::Decimal { value, precision, scale } => "Decimal { value: "@ + quoted(value@) + ", precision: "@
            + opt_debug(match precision { Some(p) => Some(int_text(p as int)), None => None }) + ", scale: "@
            + opt_debug(match scale { Some(p) => Some(int_text(p as int)), None => None }) + " }"@,
        Value::List(items) => "List("@ + list_debug(value_debugs(items@)) + ")"@,
        Value::MapValue(entries) => "Map({"@ + join(entry_debugs(entries@), ", "@) + "})"@,
        Value::Struct(fields) => "Struct("@ + list_debug(pair_debugs(fields@)) + ")"@,
    }
}

/// The debug texts of a list of values.
pub open spec fn value_debugs(s: Seq<Value>) -> Seq<Seq<char>>
    decreases s, 0int,
{
    Seq::new(s.len(), |i: int| if 0 <= i < s.len() { value_debug(s[i]) } else { Seq::empty() })
}

/// The debug texts of map entries: `"k": v`.
pub open spec fn entry_debugs(s: Seq<(String, Value)>) -> Seq<Seq<char>>
    decreases s, 0int,
{
    Seq::new(s.len(), |i: int| if 0 <= i < s.len() { quoted(s[i].0@) + ": "@ + value_debug(s[i].1) } else { Seq::empty() })
}

/// The debug texts of named values: `("k", v)`.
pub open spec fn pair_debugs(s: Seq<(String, Value)>) -> Seq<Seq<char>>
    decreases s, 0int,
{
    Seq::new(s.len(), |i: int| if 0 <= i < s.len() {
        "("@ + quoted(s[i].0@) + ", "@ + value_debug(s[i].1) + ")"@
    } else {
        Seq::empty()
    })
}

fn value_parts(v: &Vec<Value>) -> (parts: Vec<String>)
    ensures
        strings_view(parts@) == value_debugs(v@),
    decreases v, 0int,
{
    let mut parts: Vec<String> = Vec::new();
    let mut i: usize = 0;
    while i < v.len()
        invariant
            i <= v.len(),
            parts@.len() == i,
            forall|j: int| 0 <= j < i ==> #[trigger] parts@[j]@ == value_debug(v@[j]),
        decreases v.len() - i,
    {
        proof {
            assert(decreases_to!(*v => v@[i as int]));
        }
        let mut s = String::new();
        push_value(&mut s, &v[i]);
        assert(s@ =~= value_debug(v@[i as int]));
        parts.push(s);
        i = i + 1;
    }
    assert(strings_view(parts@) =~= value_debugs(v@));
    parts
}

fn entry_parts(v: &Vec<(String, Value)>) -> (parts: Vec<String>)
    ensures
        strings_view(parts@) == entry_debugs(v@),
    decreases v, 0int,
{
    let mut parts: Vec<String> = Vec::new();
    let mut i: usize = 0;
    while i < v.len()
        invariant
            i <= v.len(),
            parts@.len() == i,
            forall|j: int| 0 <= j < i ==> #[trigger] parts@[j]@ == quoted(v@[j].0@) + ": "@ + value_debug(v@[j].1),
        decreases v.len() - i,
    {
        proof {
            assert(decreases_to!(*v => v@[i as int]));
        }
        let (k, x) = &v[i];
        let mut s = quote(k.as_str());
        s.append(": ");
        push_value(&mut s, x);
        parts.push(s);
        i = i + 1;
    }
    assert(strings_view(parts@) =~= entry_debugs(v@));
    parts
}

fn pair_parts(v: &Vec<(String, Value)>) -> (parts: Vec<String>)
    ensures
        strings_view(parts@) == pair_debugs(v@),
    decreases v, 0int,
{
    let mut parts: Vec<String> = Vec::new();
    let mut i: usize = 0;
    while i < v.len()
        invariant
            i <= v.len(),
            parts@.len() == i,
            forall|j: int| 0 <= j < i ==> #[trigger] parts@[j]@ == "("@ + quoted(v@[j].0@) + ", "@ + value_debug(v@[j].1) + ")"@,
        decreases v.len() - i,
    {
        proof {
            assert(decreases_to!(*v => v@[i as int]));
        }
        let (k, x) = &v[i];
        let mut s = owned("(");
        push_quoted(&mut s, k.as_str());
        s.append(", ");
        push_value(&mut s, x);
        s.append(")");
        parts.push(s);
        i = i + 1;
    }
    assert(strings_view(parts@) =~= pair_debugs(v@));
    parts
}

fn push_opt_i32(out: &mut String, o: Option<i32>)
    ensures
        final(out)@ == old(out)@ + opt_debug(match o { Some(v) => Some(int_text(v as int)), None => None }),
{
    match o {
        Some(v) => push_opt_int(out, Some(v as i64)),
        None => push_opt_int(out, None),
    }
}

/// Appends the debug text of a value.
#[verifier::spinoff_prover]
#[verifier::rlimit(50)]
pub fn push_value(out: &mut String, v: &Value)
    ensures
        final(out)@ == old(out)@ + value_debug(*v),
    decreases v, 1int,
{
    match v {
        Value::Null => out.append("Null"),
        Value::Bool(b) => {
            out.append("Bool(");
            push_bool(out, *b);
            out.append(")");
        },
        Value::Byte(x) => {
            out.append("Byte(");
            push_int_text(out, *x as i64);
            out.append(")");
        },
        Value::Short(x) => {
            out.append("Short(");
            push_int_text(out, *x as i64);
            out.append(")");
        },
        Value::Integer(x) => {
            out.append("Integer(");
            push_int_text(out, *x as i64);
            out.append(")");
        },
        Value::Long(x) => {
            out.append("Long(");
            push_int_text(out, *x);
            out.append(")");
        },
        Value::Float(f) => {
            out.append("Float(");
            push_float_debug(out, &f.text);
            out.append(")");
        },
        Value::Double(f) => {
            out.append("Double(");
            push_float_debug(out, &f.text);
            out.append(")");
        },
        Value::String(s) => {
            out.append("String(");
            push_quoted(out, s.as_str());
            out.append(")");
        },
        Value::Binary(b) => {
            out.append("Binary(");
            push_bytes(out, b);
            out.append(")");
        },
        Value::Date(d) => {
            out.append("Date(");
            push_int_text(out, *d as i64);
            out.append(")");
        },
        Value::Timestamp(t) => {
            out.append("Timestamp(");
            push_int_text(out, *t);
            out.append(")");
        },
        Value::Decimal { value, precision, scale } => {
            out.append("Decimal { value: ");
            push_quoted(out, value.as_str());
            out.append(", precision: ");
            push_opt_i32(out, *precision);
            out.append(", scale: ");
            push_opt_i32(out, *scale);
            out.append(" }");
        },
        Value::List(items) => {
            out.append("List(");
            let parts = value_parts(items);
            push_list(out, &parts);
            out.append(")");
        },
        Value::MapValue(entries) => {
            out.append("Map({");
            let parts = entry_parts(entries);
            let j = join_strings(&parts, ", ");
            out.append(j.as_str());
            out.append("})");
        },
        Value::Struct(fields) => {
            out.append("Struct(");
            let parts = pair_parts(fields);
            push_list(out, &parts);
            out.append(")");
        },
    }
}

/// The debug text of a value, as a new string.
pub fn value_debug_string(v: &Value) -> (s: String)
    ensures
        s@ == value_debug(*v),
{
    let mut s = String::new();
    push_value(&mut s, v);
    assert(s@ =~= value_debug(*v));
    s
}

} // verus!
