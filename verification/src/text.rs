//! Text building blocks: decimal rendering of integers, joining, equality.

use vstd::prelude::*;
use vstd::string::StringExecFns;
use vstd::string::StrSliceExecFns;

verus! {

/// The decimal digit character for `d` (0 to 9).
pub open spec fn digit_char(d: int) -> char {
    if d == 0 { '0' }
    else if d == 1 { '1' }
    else if d == 2 { '2' }
    else if d == 3 { '3' }
    else if d == 4 { '4' }
    else if d == 5 { '5' }
    else if d == 6 { '6' }
    else if d == 7 { '7' }
    else if d == 8 { '8' }
    else { '9' }
}

/// Decimal text of a natural number, without leading zeros.
pub open spec fn nat_text(n: nat) -> Seq<char>
    decreases n,
{
    if n < 10 {
        seq![digit_char(n as int)]
    } else {
        nat_text(n / 10) + seq![digit_char((n % 10) as int)]
    }
}

/// The decimal text of `n` has one character below 10 and at least two
/// from 10 on.
pub proof fn lemma_nat_text_len(n: nat)
    ensures
        n < 10 ==> nat_text(n).len() == 1,
        n >= 10 ==> nat_text(n).len() >= 2,
    decreases n,
{
    if n >= 10 {
        lemma_nat_text_len(n / 10);
    }
}

/// Distinct numbers have distinct decimal texts.
pub proof fn lemma_nat_text_injective(a: nat, b: nat)
    requires
        nat_text(a) == nat_text(b),
    ensures
        a == b,
    decreases a,
{
    lemma_nat_text_len(a);
    lemma_nat_text_len(b);
    if a < 10 && b < 10 {
        assert(nat_text(a)[0] == digit_char(a as int));
        assert(nat_text(b)[0] == digit_char(b as int));
    } else if a >= 10 && b >= 10 {
        let ta = nat_text(a);
        let pa = nat_text(a / 10);
        let pb = nat_text(b / 10);
        assert(ta == pa + seq![digit_char((a % 10) as int)]);
        assert(ta == pb + seq![digit_char((b % 10) as int)]);
        assert(ta[ta.len() - 1] == digit_char((a % 10) as int));
        assert(ta[ta.len() - 1] == digit_char((b % 10) as int));
        assert(a % 10 == b % 10);
        assert(pa =~= ta.drop_last());
        assert(pb =~= ta.drop_last());
        lemma_nat_text_injective(a / 10, b / 10);
    }
}

/// Decimal text of an integer, with a leading `-` when negative.
pub open spec fn int_text(i: int) -> Seq<char> {
    if i < 0 {
        seq!['-'] + nat_text((-i) as nat)
    } else {
        nat_text(i as nat)
    }
}

/// The parts joined with `sep` between consecutive parts.
pub open spec fn join(parts: Seq<Seq<char>>, sep: Seq<char>) -> Seq<char>
    decreases parts.len(),
{
    if parts.len() == 0 {
        Seq::empty()
    } else if parts.len() == 1 {
        parts[0]
    } else {
        join(parts.drop_last(), sep) + sep + parts.last()
    }
}

fn digit_str(d: u64) -> (s: &'static str)
    requires
        d < 10,
    ensures
        s@ == seq![digit_char(d as int)],
{
    proof {
        reveal_strlit("0");
        reveal_strlit("1");
        reveal_strlit("2");
        reveal_strlit("3");
        reveal_strlit("4");
        reveal_strlit("5");
        reveal_strlit("6");
        reveal_strlit("7");
        reveal_strlit("8");
        reveal_strlit("9");
    }
    if d == 0 { "0" }
    else if d == 1 { "1" }
    else if d == 2 { "2" }
    else if d == 3 { "3" }
    else if d == 4 { "4" }
    else if d == 5 { "5" }
    else if d == 6 { "6" }
    else if d == 7 { "7" }
    else if d == 8 { "8" }
    else { "9" }
}

/// Appends the decimal text of `n` to `out`.
pub fn push_nat_text(out: &mut String, n: u64)
    ensures
        final(out)@ == old(out)@ + nat_text(n as nat),
    decreases n,
{
    if n < 10 {
        out.append(digit_str(n));
    } else {
        push_nat_text(out, n / 10);
        out.append(digit_str(n % 10));
        assert(nat_text(n as nat) == nat_text((n / 10) as nat) + seq![digit_char((n % 10) as int)]);
    }
}

/// Appends the decimal text of `v` to `out`.
pub fn push_int_text(out: &mut String, v: i64)
    ensures
        final(out)@ == old(out)@ + int_text(v as int),
{
    proof {
        reveal_strlit("-");
    }
    if v < 0 {
        out.append("-");
        let mag: u64 = (0i128 - (v as i128)) as u64;
        push_nat_text(out, mag);
        assert(old(out)@ + int_text(v as int) == old(out)@ + seq!['-'] + nat_text(mag as nat));
    } else {
        push_nat_text(out, v as u64);
    }
}

/// Decimal text of `v` (what `v.to_string()` gives).
pub fn int_to_text(v: i64) -> (s: String)
    ensures
        s@ == int_text(v as int),
{
    let mut s = String::new();
    push_int_text(&mut s, v);
    assert(s@ == Seq::<char>::empty() + int_text(v as int));
    s
}

/// Equality of two string slices, character by character.
pub fn str_eq(a: &str, b: &str) -> (r: bool)
    ensures
        r == (a@ == b@),
{
    let n = a.unicode_len();
    if n != b.unicode_len() {
        return false;
    }
    let mut i: usize = 0;
    while i < n
        invariant
            i <= n,
            n == a@.len(),
            n == b@.len(),
            forall|j: int| 0 <= j < i ==> a@[j] == b@[j],
        decreases n - i,
    {
        if a.get_char(i) != b.get_char(i) {
            return false;
        }
        i = i + 1;
    }
    assert(a@ =~= b@);
    true
}

/// A fresh `String` holding the characters of `s`.
pub fn owned(s: &str) -> (r: String)
    ensures
        r@ == s@,
{
    s.to_owned()
}

/// The views of a list of strings.
pub open spec fn strings_view(s: Seq<String>) -> Seq<Seq<char>> {
    s.map_values(|x: String| x@)
}

/// The strings of `parts` joined by `sep`.
pub fn join_strings(parts: &Vec<String>, sep: &str) -> (r: String)
    ensures
        r@ == join(strings_view(parts@), sep@),
{
    let ghost views = strings_view(parts@);
    let mut r = String::new();
    let mut i: usize = 0;
    while i < parts.len()
        invariant
            i <= parts.len(),
            views == strings_view(parts@),
            r@ == join(views.take(i as int), sep@),
        decreases parts.len() - i,
    {
        proof {
            assert(views.take(i + 1).drop_last() =~= views.take(i as int));
        }
        if i > 0 {
            r.append(sep);
        } else {
            assert(views.take(1) =~= seq![views[0]]);
        }
        r.append(parts[i].as_str());
        i = i + 1;
    }
    assert(views.take(parts.len() as int) =~= views);
    r
}

/// `c` is an ASCII decimal digit.
pub open spec fn is_digit(c: char) -> bool {
    '0' <= c && c <= '9'
}

/// The value of a run of decimal digits (0 for the empty run).
pub open spec fn digits_value(s: Seq<char>) -> int
    decreases s.len(),
{
    if s.len() == 0 {
        0
    } else {
        digits_value(s.drop_last()) * 10 + (s.last() as int - '0' as int)
    }
}

/// Every character of `s` is a decimal digit.
pub open spec fn all_digits(s: Seq<char>) -> bool {
    forall|i: int| 0 <= i < s.len() ==> #[trigger] is_digit(s[i])
}

/// What `str::parse::<i64>` accepts and gives: an optional `+` or `-`, then
/// one or more decimal digits, with the value in range; `None` otherwise.
pub open spec fn parsed_i64(s: Seq<char>) -> Option<i64> {
    let signed = s.len() > 0 && (s[0] == '-' || s[0] == '+');
    let ds = if signed { s.drop_first() } else { s };
    let v = if s.len() > 0 && s[0] == '-' { -digits_value(ds) } else { digits_value(ds) };
    if ds.len() > 0 && all_digits(ds) && i64::MIN <= v <= i64::MAX {
        Some(v as i64)
    } else {
        None
    }
}

proof fn lemma_digits_value_grows(s: Seq<char>, k: int)
    requires
        all_digits(s),
        0 <= k <= s.len(),
    ensures
        0 <= digits_value(s.take(k)) <= digits_value(s),
    decreases s.len(),
{
    if s.len() > 0 {
        assert(s.take(s.len() as int) =~= s);
        let t = s.drop_last();
        assert(all_digits(t)) by {
            assert forall|i: int| 0 <= i < t.len() implies #[trigger] is_digit(t[i]) by {
                assert(is_digit(s[i]));
            }
        }
        assert(is_digit(s[s.len() - 1]));
        if k < s.len() {
            lemma_digits_value_grows(t, k);
            assert(t.take(k) =~= s.take(k));
        } else {
            lemma_digits_value_grows(t, 0);
            assert(t.take(0) =~= Seq::<char>::empty());
        }
    }
}

/// The decimal text of `n` is a non-empty run of digits whose value is `n`.
pub proof fn lemma_nat_text_digits(n: nat)
    ensures
        nat_text(n).len() >= 1,
        all_digits(nat_text(n)),
        digits_value(nat_text(n)) == n,
    decreases n,
{
    if n < 10 {
        let t = nat_text(n);
        assert(t.drop_last() =~= Seq::<char>::empty());
        assert(digits_value(t.drop_last()) == 0);
        assert(t.last() == digit_char(n as int));
        assert(digit_char(n as int) as int - '0' as int == n);
        assert(digits_value(t) == digits_value(t.drop_last()) * 10 + (t.last() as int - '0' as int));
    } else {
        lemma_nat_text_digits(n / 10);
        let p = nat_text(n / 10);
        let t = nat_text(n);
        let d = digit_char((n % 10) as int);
        assert(t == p + seq![d]);
        assert(t.drop_last() =~= p);
        assert(t.last() == d);
        assert(d as int - '0' as int == n % 10);
        assert(digits_value(t) == digits_value(t.drop_last()) * 10 + (t.last() as int - '0' as int));
        assert forall|i: int| 0 <= i < t.len() implies #[trigger] is_digit(t[i]) by {
            if i < p.len() {
                assert(t[i] == p[i]);
            }
        }
    }
}

/// Every 64-bit integer parses back from its decimal text.
pub proof fn law_parse_int_text(v: i64)
    ensures
        parsed_i64(int_text(v as int)) == Some(v),
{
    if v < 0 {
        let m = (-(v as int)) as nat;
        lemma_nat_text_digits(m);
        let s = int_text(v as int);
        assert(s == seq!['-'] + nat_text(m));
        assert(s.drop_first() =~= nat_text(m));
    } else {
        lemma_nat_text_digits(v as nat);
        let s = int_text(v as int);
        assert(is_digit(s[0]));
    }
}

/// `str::parse::<i64>`, written out: see `parsed_i64`.
pub fn parse_i64(s: &str) -> (r: Option<i64>)
    ensures
        r == parsed_i64(s@),
{
    let n = s.unicode_len();
    if n == 0 {
        return None;
    }
    let first = s.get_char(0);
    let negative = first == '-';
    let start: usize = if first == '-' || first == '+' { 1 } else { 0 };
    let ghost ds = if start == 1 { s@.drop_first() } else { s@ };
    assert(ds =~= s@.subrange(start as int, n as int));
    assert(first == s@[0]);
    assert(ds == (if s@.len() > 0 && (s@[0] == '-' || s@[0] == '+') { s@.drop_first() } else { s@ }));
    assert(negative == (s@.len() > 0 && s@[0] == '-'));
    if start == n {
        return None;
    }
    let mut acc: u64 = 0;
    let mut i: usize = start;
    while i < n
        invariant
            start <= i <= n,
            n == s@.len(),
            ds == s@.subrange(start as int, n as int),
            ds == (if s@.len() > 0 && (s@[0] == '-' || s@[0] == '+') { s@.drop_first() } else { s@ }),
            all_digits(ds.take(i - start)),
            acc == digits_value(ds.take(i - start)),
            acc <= 9223372036854775808u64,
        decreases n - i,
    {
        let c = s.get_char(i);
        let ghost pre = ds.take(i - start);
        assert(ds.take(i - start + 1) =~= pre.push(c));
        assert(ds.take(i - start + 1).drop_last() =~= pre);
        if !('0' <= c && c <= '9') {
            assert(!is_digit(ds[i - start]));
            return None;
        }
        let d: u64 = ((c as u32) - ('0' as u32)) as u64;
        if acc > (9223372036854775808u64 - d) / 10 {
            proof {
                assert(acc * 10 + d > 9223372036854775808u64) by (nonlinear_arith)
                    requires acc > (9223372036854775808u64 - d) / 10, d <= 9;
                if all_digits(ds) {
                    lemma_digits_value_grows(ds, i - start + 1);
                    assert(ds.take(i - start + 1).last() == c);
                    assert(digits_value(ds.take(i - start + 1)) == acc * 10 + d);
                }
            }
            return None;
        }
        assert(acc * 10 + d <= 9223372036854775808u64) by (nonlinear_arith)
            requires acc <= (9223372036854775808u64 - d) / 10, d <= 9;
        acc = acc * 10 + d;
        assert(all_digits(ds.take(i - start + 1))) by {
            assert forall|j: int| 0 <= j < i - start + 1 implies #[trigger] is_digit(ds.take(i - start + 1)[j]) by {
                if j < i - start {
                    assert(ds.take(i - start + 1)[j] == pre[j]);
                }
            }
        }
        i = i + 1;
    }
    assert(ds.take(n - start) =~= ds);
    if negative {
        Some((0i128 - (acc as i128)) as i64)
    } else if acc <= 9223372036854775807 {
        Some(acc as i64)
    } else {
        None
    }
}

} // verus!
