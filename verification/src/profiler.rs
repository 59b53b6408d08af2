//! Collected profile results: kept by profiler id, shown as text, cleared
//! one at a time or all at once.

use vstd::prelude::*;
use vstd::string::StringExecFns;
use crate::options::StringMap;
use crate::proto;
use crate::proto::{LiteralTypeView, LiteralView};
use crate::text::{int_text, nat_text, owned, push_int_text, push_nat_text};

verus! {

/// The text a metric literal is shown as.
pub open spec fn literal_display(l: LiteralView) -> Seq<char> {
    match l.literal_type {
        Some(t) => match t {
            LiteralTypeView::Null(_) => "null"@,
            LiteralTypeView::Boolean(b) => if b { "true"@ } else { "false"@ },
            LiteralTypeView::Byte(v) => int_text(v as int),
            LiteralTypeView::Short(v) => int_text(v as int),
            LiteralTypeView::Integer(v) => int_text(v as int),
            LiteralTypeView::Long(v) => int_text(v as int),
            LiteralTypeView::Float(f) => f.1,
            LiteralTypeView::Double(f) => f.1,
            LiteralTypeView::Decimal { .. } => "decimal"@,
            LiteralTypeView::String(s) => s,
            LiteralTypeView::Binary(b) => "<binary: "@ + nat_text(b.len()) + " bytes>"@,
            LiteralTypeView::CalendarInterval { .. } => "calendar_interval"@,
            LiteralTypeView::YearMonthInterval(_) => "year_month_interval"@,
            LiteralTypeView::DayTimeInterval(_) => "day_time_interval"@,
            LiteralTypeView::Date(_) => "date"@,
            LiteralTypeView::Timestamp(_) => "timestamp"@,
            LiteralTypeView::TimestampNtz(_) => "timestamp_ntz"@,
            LiteralTypeView::Time { .. } => "time"@,
            LiteralTypeView::TimestampNtzNanos(_) => "timestamp_ntz_nanos"@,
            LiteralTypeView::TimestampLtzNanos(_) => "timestamp_ltz_nanos"@,
            LiteralTypeView::MapValue => "map"@,
            LiteralTypeView::Array { .. } => "array"@,
            LiteralTypeView::Struct => "struct"@,
            LiteralTypeView::SpecializedArray => "specialized_array"@,
        },
        None => "unknown"@,
    }
}

/// The text of a metric literal (see `literal_display`).
pub fn format_literal(literal: &proto::Literal) -> (s: String)
    ensures
        s@ == literal_display(literal@),
{
    proof {
        reveal_strlit("null");
        reveal_strlit("true");
        reveal_strlit("false");
        reveal_strlit("decimal");
        reveal_strlit("<binary: ");
        reveal_strlit(" bytes>");
        reveal_strlit("calendar_interval");
        reveal_strlit("year_month_interval");
        reveal_strlit("day_time_interval");
        reveal_strlit("date");
        reveal_strlit("timestamp");
        reveal_strlit("timestamp_ntz");
        reveal_strlit("time");
        reveal_strlit("timestamp_ntz_nanos");
        reveal_strlit("timestamp_ltz_nanos");
        reveal_strlit("map");
        reveal_strlit("array");
        reveal_strlit("struct");
        reveal_strlit("specialized_array");
        reveal_strlit("unknown");
    }
    match &literal.literal_type {
        Some(t) => match t {
            proto::LiteralType::Null(_) => owned("null"),
            proto::LiteralType::Boolean(b) => if *b { owned("true") } else { owned("false") },
            proto::LiteralType::Byte(v) => crate::text::int_to_text(*v as i64),
            proto::LiteralType::Short(v) => crate::text::int_to_text(*v as i64),
            proto::LiteralType::Integer(v) => crate::text::int_to_text(*v as i64),
            proto::LiteralType::Long(v) => crate::text::int_to_text(*v),
            proto::LiteralType::Float(f) => f.text.clone(),
            proto::LiteralType::Double(f) => f.text.clone(),
            proto::LiteralType::Decimal { .. } => owned("decimal"),
            proto::LiteralType::String(s) => s.clone(),
            proto::LiteralType::Binary(b) => {
                let mut s = owned("<binary: ");
                let n = proto::bytes_len(b);
                push_nat_text(&mut s, n as u64);
                s.append(" bytes>");
                s
            },
            proto::LiteralType::CalendarInterval { .. } => owned("calendar_interval"),
            proto::LiteralType::YearMonthInterval(_) => owned("year_month_interval"),
            proto::LiteralType::DayTimeInterval(_) => owned("day_time_interval"),
            proto::LiteralType::Date(_) => owned("date"),
            proto::LiteralType::Timestamp(_) => owned("timestamp"),
            proto::LiteralType::TimestampNtz(_) => owned("timestamp_ntz"),
            proto::LiteralType::Time { .. } => owned("time"),
            proto::LiteralType::TimestampNtzNanos(_) => owned("timestamp_ntz_nanos"),
            proto::LiteralType::TimestampLtzNanos(_) => owned("timestamp_ltz_nanos"),
            proto::LiteralType::MapValue => owned("map"),
            proto::LiteralType::Array { .. } => owned("array"),
            proto::LiteralType::Struct => owned("struct"),
            proto::LiteralType::SpecializedArray => owned("specialized_array"),
        },
        None => owned("unknown"),
    }
}

/// One profile: its text and its metadata.
#[derive(Debug)]
pub struct ProfileResult {
    pub data: String,
    pub metadata: StringMap,
}

/// Metrics a query reported: named values, paired with keys where there are any.
#[derive(Debug)]
pub struct ObservedMetrics {
    pub name: String,
    pub plan_id: i64,
    pub keys: Vec<String>,
    pub values: Vec<proto::Literal>,
}

/// Profile results by profiler id.
#[derive(Debug)]
pub struct ProfilerCollector {
    profiles: Vec<(i64, ProfileResult)>,
}

/// The text `show(None)` gives for non-empty profiles: each profile's header
/// line and data, in order.
pub open spec fn profiles_text(s: Seq<(i64, Seq<char>)>) -> Seq<char>
    decreases s.len(),
{
    if s.len() == 0 {
        Seq::empty()
    } else {
        profiles_text(s.drop_last()) + "=== Profile "@ + int_text(s.last().0 as int) + " ===\n"@ + s.last().1 + "\n"@
    }
}

/// The key of the `i`-th metric value: its key, or `value_i` past the keys.
pub open spec fn metric_key(keys: Seq<Seq<char>>, i: int) -> Seq<char> {
    if i < keys.len() { keys[i] } else { "value_"@ + int_text(i) }
}

/// The `key: value` lines of the first `n` metric values, newline-separated.
pub open spec fn metric_lines(keys: Seq<Seq<char>>, values: Seq<LiteralView>, n: nat) -> Seq<char>
    decreases n,
{
    if n == 0 {
        Seq::empty()
    } else {
        let prev = metric_lines(keys, values, (n - 1) as nat);
        let line = metric_key(keys, n - 1) + ": "@ + literal_display(values[n - 1]);
        if n == 1 { line } else { prev + "\n"@ + line }
    }
}

/// The metadata of the first `n` metric values: key to shown value.
pub open spec fn metric_metadata(keys: Seq<Seq<char>>, values: Seq<LiteralView>, n: nat) -> Map<Seq<char>, Seq<char>>
    decreases n,
{
    if n == 0 {
        Map::empty()
    } else {
        metric_metadata(keys, values, (n - 1) as nat).insert(metric_key(keys, n - 1), literal_display(values[n - 1]))
    }
}

/// The profile text of one metrics report, or `None` when it has no values.
pub open spec fn metrics_profile(m: ObservedMetrics) -> Option<Seq<char>> {
    let keys = crate::text::strings_view(m.keys@);
    let values = proto::literals_view(m.values@);
    if values.len() == 0 {
        None
    } else {
        Some("name: "@ + m.name@ + ", plan_id: "@ + int_text(m.plan_id as int) + "\n"@
            + metric_lines(keys, values, values.len()))
    }
}

/// The profiles after storing `data` as profile `id`: an existing profile
/// is replaced in place, a new one is appended.
pub open spec fn put_profile(es: Seq<(i64, Seq<char>)>, id: i64, data: Seq<char>) -> Seq<(i64, Seq<char>)> {
    if exists|i: int| 0 <= i < es.len() && es[i].0 == id {
        es.update(choose|i: int| 0 <= i < es.len() && es[i].0 == id, (id, data))
    } else {
        es.push((id, data))
    }
}

/// The profiles after collecting each metrics report in turn.
pub open spec fn put_metrics(es: Seq<(i64, Seq<char>)>, ms: Seq<ObservedMetrics>) -> Seq<(i64, Seq<char>)>
    decreases ms.len(),
{
    if ms.len() == 0 {
        es
    } else {
        let prev = put_metrics(es, ms.drop_last());
        match metrics_profile(ms.last()) {
            Some(d) => put_profile(prev, ms.last().plan_id, d),
            None => prev,
        }
    }
}

/// The ids of `es` are pairwise distinct.
pub open spec fn ids_distinct(es: Seq<(i64, Seq<char>)>) -> bool {
    forall|i: int, j: int| 0 <= i < j < es.len() ==> #[trigger] es[i].0 != #[trigger] es[j].0
}

/// Collecting profile `id` makes `data` what is stored under `id`: the ids
/// stay distinct, the one entry of `id` holds `data`, and the entries of
/// every other id are the ones there were before.
pub proof fn law_put_profile(es: Seq<(i64, Seq<char>)>, id: i64, data: Seq<char>)
    requires
        ids_distinct(es),
    ensures
        ids_distinct(put_profile(es, id, data)),
        put_profile(es, id, data).contains((id, data)),
        forall|k: int| 0 <= k < put_profile(es, id, data).len() && (#[trigger] put_profile(es, id, data)[k]).0 == id
            ==> put_profile(es, id, data)[k].1 == data,
        forall|e: (i64, Seq<char>)| e.0 != id ==> (#[trigger] put_profile(es, id, data).contains(e) <==> es.contains(e)),
{
    let r = put_profile(es, id, data);
    if exists|i: int| 0 <= i < es.len() && es[i].0 == id {
        let c = choose|i: int| 0 <= i < es.len() && es[i].0 == id;
        assert(r == es.update(c, (id, data)));
        assert(r[c] == (id, data));
        assert forall|k: int| 0 <= k < r.len() && (#[trigger] r[k]).0 == id implies r[k].1 == data by {
            if k != c {
                if k < c {
                    assert(es[k].0 != es[c].0);
                } else {
                    assert(es[c].0 != es[k].0);
                }
            }
        }
        assert forall|e: (i64, Seq<char>)| e.0 != id implies (#[trigger] r.contains(e) <==> es.contains(e)) by {
            if r.contains(e) {
                let k = choose|k: int| 0 <= k < r.len() && r[k] == e;
                assert(es[k] == e);
            }
            if es.contains(e) {
                let k = choose|k: int| 0 <= k < es.len() && es[k] == e;
                assert(r[k] == e);
            }
        }
        assert forall|a: int, b: int| 0 <= a < b < r.len() implies #[trigger] r[a].0 != #[trigger] r[b].0 by {
            if a != c && b != c {
                assert(es[a].0 != es[b].0);
            } else if a == c {
                assert(es[a].0 != es[b].0);
            } else {
                assert(es[a].0 != es[b].0);
            }
        }
    } else {
        assert(r == es.push((id, data)));
        assert(r[es.len() as int] == (id, data));
        assert forall|e: (i64, Seq<char>)| e.0 != id implies (#[trigger] r.contains(e) <==> es.contains(e)) by {
            if r.contains(e) {
                let k = choose|k: int| 0 <= k < r.len() && r[k] == e;
                assert(es[k] == e);
            }
            if es.contains(e) {
                let k = choose|k: int| 0 <= k < es.len() && es[k] == e;
                assert(r[k] == e);
            }
        }
    }
}

/// Whether an entry's id differs from `id`.
pub open spec fn other_id(id: i64) -> spec_fn((i64, Seq<char>)) -> bool {
    |e: (i64, Seq<char>)| e.0 != id
}

/// The entries of `es` whose id is not `id`, in order.
pub open spec fn without_id(es: Seq<(i64, Seq<char>)>, id: i64) -> Seq<(i64, Seq<char>)> {
    es.filter(other_id(id))
}

/// Clearing profile `id` leaves no entry of `id` and keeps the entries of
/// every other id.
pub proof fn law_clear_profile(es: Seq<(i64, Seq<char>)>, id: i64)
    ensures
        forall|k: int| 0 <= k < without_id(es, id).len() ==> (#[trigger] without_id(es, id)[k]).0 != id,
        forall|e: (i64, Seq<char>)| e.0 != id ==> (#[trigger] without_id(es, id).contains(e) <==> es.contains(e)),
{
    broadcast use vstd::seq_lib::group_filter_ensures;
    let f = without_id(es, id);
    assert forall|e: (i64, Seq<char>)| e.0 != id implies (#[trigger] f.contains(e) <==> es.contains(e)) by {
        if f.contains(e) {
            es.lemma_filter_contains_rev(other_id(id), e);
        }
        if es.contains(e) {
            let k = choose|k: int| 0 <= k < es.len() && es[k] == e;
            es.lemma_filter_contains(other_id(id), k);
        }
    }
}

impl ProfilerCollector {
    /// Each id occurs once.
    #[verifier::type_invariant]
    pub closed spec fn wf(&self) -> bool {
        forall|i: int, j: int| 0 <= i < j < self.profiles@.len() ==> #[trigger] self.profiles@[i].0 != #[trigger] self.profiles@[j].0
    }

    /// The profiles, in the order their ids were first collected: id and data.
    pub closed spec fn entries(&self) -> Seq<(i64, Seq<char>)> {
        self.profiles@.map_values(|p: (i64, ProfileResult)| (p.0, p.1.data@))
    }

    /// The metadata of each profile, in the same order.
    pub closed spec fn metadata_of(&self) -> Seq<Map<Seq<char>, Seq<char>>> {
        self.profiles@.map_values(|p: (i64, ProfileResult)| p.1.metadata@)
    }

    /// The ids of the entries are distinct.
    proof fn lemma_ids_distinct(&self)
        requires
            self.wf(),
        ensures
            ids_distinct(self.entries()),
    {
        assert forall|i: int, j: int| 0 <= i < j < self.entries().len() implies
            #[trigger] self.entries()[i].0 != #[trigger] self.entries()[j].0 by {
            assert(self.profiles@[i].0 != self.profiles@[j].0);
        }
    }

    /// A collector with no profiles.
    pub fn new() -> (c: ProfilerCollector)
        ensures
            c.entries().len() == 0,
            ids_distinct(c.entries()),
    {
        let c = ProfilerCollector { profiles: Vec::new() };
        assert(c.entries() =~= Seq::<(i64, Seq<char>)>::empty());
        c
    }

    /// The number of profiles.
    pub fn count(&self) -> (n: usize)
        ensures
            n == self.entries().len(),
            ids_distinct(self.entries()),
    {
        proof {
            use_type_invariant(self);
            self.lemma_ids_distinct();
        }
        self.profiles.len()
    }

    fn position(&self, id: i64) -> (r: Option<usize>)
        ensures
            match r {
                Some(i) => i < self.entries().len() && self.entries()[i as int].0 == id,
                None => forall|j: int| 0 <= j < self.entries().len() ==> self.entries()[j].0 != id,
            },
    {
        let mut i: usize = 0;
        while i < self.profiles.len()
            invariant
                i <= self.profiles@.len(),
                forall|j: int| 0 <= j < i ==> self.profiles@[j].0 != id,
            decreases self.profiles@.len() - i,
        {
            if self.profiles[i].0 == id {
                return Some(i);
            }
            i = i + 1;
        }
        None
    }

    /// Stores `data` and `metadata` as the profile `id`: an existing profile
    /// is replaced in place, a new one is appended.
    pub fn accumulate_profile(&mut self, id: i64, data: String, metadata: StringMap)
        ensures
            ids_distinct(old(self).entries()),
            final(self).entries() == put_profile(old(self).entries(), id, data@),
            ids_distinct(final(self).entries()),
            (exists|i: int| 0 <= i < old(self).entries().len() && old(self).entries()[i].0 == id) ==>
                final(self).metadata_of() == old(self).metadata_of().update(
                    choose|i: int| 0 <= i < old(self).entries().len() && old(self).entries()[i].0 == id,
                    metadata@,
                ),
            !(exists|i: int| 0 <= i < old(self).entries().len() && old(self).entries()[i].0 == id) ==>
                final(self).metadata_of() == old(self).metadata_of().push(metadata@),
    {
        proof {
            use_type_invariant(&*self);
            self.lemma_ids_distinct();
        }
        let ghost old_entries = self.entries();
        let ghost old_meta = self.metadata_of();
        let ghost dv = data@;
        let ghost mv = metadata@;
        let found = self.position(id);
        let mut profiles: Vec<(i64, ProfileResult)> = Vec::new();
        std::mem::swap(&mut profiles, &mut self.profiles);
        match found {
            Some(i) => {
                profiles.set(i, (id, ProfileResult { data, metadata }));
                proof {
                    let k = choose|k: int| 0 <= k < old_entries.len() && old_entries[k].0 == id;
                    if k != i {
                        assert(profiles@[k].0 == id);
                    }
                    assert(profiles@.map_values(|p: (i64, ProfileResult)| (p.0, p.1.data@)) =~= old_entries.update(i as int, (id, dv)));
                    assert(profiles@.map_values(|p: (i64, ProfileResult)| p.1.metadata@) =~= old_meta.update(i as int, mv));
                }
            },
            None => {
                profiles.push((id, ProfileResult { data, metadata }));
                proof {
                    assert(profiles@.map_values(|p: (i64, ProfileResult)| (p.0, p.1.data@)) =~= old_entries.push((id, dv)));
                    assert(profiles@.map_values(|p: (i64, ProfileResult)| p.1.metadata@) =~= old_meta.push(mv));
                    assert forall|a: int, b: int| 0 <= a < b < profiles@.len() implies #[trigger] profiles@[a].0 != #[trigger] profiles@[b].0 by {
                        if b == profiles@.len() - 1 {
                            assert(old_entries[a].0 != id);
                        }
                    }
                }
            },
        }
        self.profiles = profiles;
        proof {
            use_type_invariant(&*self);
            self.lemma_ids_distinct();
        }
    }

    /// Collects one profile per metrics report that has values: the text is
    /// a `name: ..., plan_id: ...` line followed by one `key: value` line per
    /// value, the metadata maps each key to its value's text.
    pub fn accumulate_observed_metrics(&mut self, metrics: &Vec<ObservedMetrics>)
        ensures
            ids_distinct(old(self).entries()),
            final(self).entries() == put_metrics(old(self).entries(), metrics@),
            ids_distinct(final(self).entries()),
    {
        proof {
            use_type_invariant(&*self);
            self.lemma_ids_distinct();
        }
        let mut m: usize = 0;
        while m < metrics.len()
            invariant
                m <= metrics@.len(),
                self.entries() == put_metrics(old(self).entries(), metrics@.take(m as int)),
            decreases metrics@.len() - m,
        {
            assert(metrics@.take(m as int + 1).drop_last() =~= metrics@.take(m as int));
            let metric = &metrics[m];
            match metric_profile(metric) {
                Some((data, metadata)) => {
                    self.accumulate_profile(metric.plan_id, data, metadata);
                },
                None => {},
            }
            m = m + 1;
        }
        assert(metrics@.take(metrics@.len() as int) =~= metrics@);
        proof {
            use_type_invariant(&*self);
            self.lemma_ids_distinct();
        }
    }

    /// The data of profile `id`, or every profile under a header line when no
    /// id is given; a fixed message when there is nothing to show.
    pub fn show(&self, id: Option<i64>) -> (s: String)
        ensures
            match id {
                Some(i) => if exists|k: int| 0 <= k < self.entries().len() && self.entries()[k].0 == i {
                    exists|k: int| 0 <= k < self.entries().len() && self.entries()[k].0 == i && s@ == self.entries()[k].1
                } else {
                    s@ == "No profile data for id: "@ + int_text(i as int)
                },
                None => if self.entries().len() == 0 {
                    s@ == "No profile data collected"@
                } else {
                    s@ == profiles_text(self.entries())
                },
            },
            ids_distinct(self.entries()),
    {
        proof {
            use_type_invariant(self);
            self.lemma_ids_distinct();
            reveal_strlit("No profile data for id: ");
            reveal_strlit("No profile data collected");
        }
        match id {
            Some(i) => match self.position(i) {
                Some(k) => self.profiles[k].1.data.clone(),
                None => {
                    let mut s = owned("No profile data for id: ");
                    push_int_text(&mut s, i);
                    s
                },
            },
            None => {
                if self.profiles.len() == 0 {
                    owned("No profile data collected")
                } else {
                    let ghost es = self.entries();
                    let mut s = String::new();
                    let mut k: usize = 0;
                    while k < self.profiles.len()
                        invariant
                            k <= self.profiles@.len(),
                            es == self.entries(),
                            s@ == profiles_text(es.take(k as int)),
                        decreases self.profiles@.len() - k,
                    {
                        proof {
                            reveal_strlit("=== Profile ");
                            reveal_strlit(" ===\n");
                            reveal_strlit("\n");
                            assert(es.take(k as int + 1).drop_last() =~= es.take(k as int));
                        }
                        s.append("=== Profile ");
                        push_int_text(&mut s, self.profiles[k].0);
                        s.append(" ===\n");
                        s.append(self.profiles[k].1.data.as_str());
                        s.append("\n");
                        k = k + 1;
                    }
                    assert(es.take(self.profiles@.len() as int) =~= es);
                    s
                }
            },
        }
    }

    /// Removes profile `id`, or every profile when no id is given.
    pub fn clear(&mut self, id: Option<i64>)
        ensures
            match id {
                Some(i) => final(self).entries() == without_id(old(self).entries(), i),
                None => final(self).entries().len() == 0,
            },
            ids_distinct(old(self).entries()),
            ids_distinct(final(self).entries()),
    {
        proof {
            use_type_invariant(&*self);
            self.lemma_ids_distinct();
        }
        match id {
            Some(i) => {
                let ghost es = self.entries();
                match self.position(i) {
                    Some(k) => {
                        let mut profiles: Vec<(i64, ProfileResult)> = Vec::new();
                        std::mem::swap(&mut profiles, &mut self.profiles);
                        let _removed = profiles.remove(k);
                        proof {
                            let pre = es.take(k as int);
                            let post = es.skip(k as int + 1);
                            assert(es =~= pre + seq![es[k as int]] + post);
                            assert(forall|j: int| 0 <= j < pre.len() ==> pre[j].0 != i);
                            assert(forall|j: int| 0 <= j < post.len() ==> post[j].0 != i) by {
                                assert forall|j: int| 0 <= j < post.len() implies post[j].0 != i by {
                                    assert(es[k as int + 1 + j].0 != es[k as int].0);
                                }
                            }
                            Seq::<(i64, Seq<char>)>::filter_distributes_over_add(pre + seq![es[k as int]], post, other_id(i));
                            Seq::<(i64, Seq<char>)>::filter_distributes_over_add(pre, seq![es[k as int]], other_id(i));
                            lemma_filter_keeps_all(pre, i);
                            lemma_filter_keeps_all(post, i);
                            assert(seq![es[k as int]].filter(other_id(i)) =~= Seq::<(i64, Seq<char>)>::empty()) by {
                                reveal(Seq::filter);
                                assert(seq![es[k as int]].drop_last() =~= Seq::<(i64, Seq<char>)>::empty());
                            }
                            assert(profiles@.map_values(|p: (i64, ProfileResult)| (p.0, p.1.data@)) =~= pre + post);
                            assert forall|a: int, b: int| 0 <= a < b < profiles@.len() implies #[trigger] profiles@[a].0 != #[trigger] profiles@[b].0 by {
                                let oa = if a < k { a } else { a + 1 };
                                let ob = if b < k { b } else { b + 1 };
                                assert(es[oa].0 != es[ob].0);
                            }
                        }
                        self.profiles = profiles;
                    },
                    None => {
                        proof {
                            lemma_filter_keeps_all(es, i);
                        }
                    },
                }
            },
            None => {
                self.profiles = Vec::new();
                assert(self.entries() =~= Seq::<(i64, Seq<char>)>::empty());
            },
        }
        proof {
            use_type_invariant(&*self);
            self.lemma_ids_distinct();
        }
    }
}

/// Filtering out an id that does not occur keeps every entry.
proof fn lemma_filter_keeps_all(s: Seq<(i64, Seq<char>)>, id: i64)
    requires
        forall|j: int| 0 <= j < s.len() ==> s[j].0 != id,
    ensures
        s.filter(other_id(id)) == s,
    decreases s.len(),
{
    reveal(Seq::filter);
    if s.len() > 0 {
        lemma_filter_keeps_all(s.drop_last(), id);
    }
    assert(s.filter(other_id(id)) =~= s);
}

/// The profile text and metadata of one metrics report, when it has values.
fn metric_profile(metric: &ObservedMetrics) -> (r: Option<(String, StringMap)>)
    ensures
        match r {
            Some((data, metadata)) => metrics_profile(*metric) == Some(data@)
                && metadata@ == metric_metadata(crate::text::strings_view(metric.keys@), proto::literals_view(metric.values@), metric.values@.len()),
            None => metrics_profile(*metric) is None,
        },
{
    proof {
        reveal_strlit("value_");
        reveal_strlit(": ");
        reveal_strlit("\n");
        reveal_strlit("name: ");
        reveal_strlit(", plan_id: ");
    }
    let ghost keys = crate::text::strings_view(metric.keys@);
    let ghost values = proto::literals_view(metric.values@);
    let n = metric.values.len();
    if n == 0 {
        return None;
    }
    let mut lines = String::new();
    let mut metadata = StringMap::new();
    let mut i: usize = 0;
    while i < n
        invariant
            i <= n,
            n == metric.values@.len(),
            keys == crate::text::strings_view(metric.keys@),
            values == proto::literals_view(metric.values@),
            lines@ == metric_lines(keys, values, i as nat),
            metadata@ == metric_metadata(keys, values, i as nat),
        decreases n - i,
    {
        proof {
            reveal_strlit("value_");
            reveal_strlit(": ");
            reveal_strlit("\n");
        }
        let key = if i < metric.keys.len() {
            metric.keys[i].clone()
        } else {
            let mut k = owned("value_");
            push_nat_text(&mut k, i as u64);
            assert(int_text(i as int) == nat_text(i as nat));
            k
        };
        assert(key@ == metric_key(keys, i as int));
        let value = format_literal(&metric.values[i]);
        assert(value@ == literal_display(values[i as int]));
        if i > 0 {
            lines.append("\n");
        }
        lines.append(key.as_str());
        lines.append(": ");
        lines.append(value.as_str());
        metadata.insert(key, value);
        i = i + 1;
    }
    let mut data = owned("name: ");
    data.append(metric.name.as_str());
    data.append(", plan_id: ");
    push_int_text(&mut data, metric.plan_id);
    data.append("\n");
    data.append(lines.as_str());
    Some((data, metadata))
}

impl Default for ProfilerCollector {
    fn default() -> (c: ProfilerCollector)
        ensures
            c.entries().len() == 0,
    {
        ProfilerCollector::new()
    }
}

} // verus!
