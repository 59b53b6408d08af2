//! Plan ids: once a plan is a relation message, each relation node that the client
//! numbers gets a fresh id from a counter, children before their parent.

use vstd::prelude::*;
use crate::relation::{Relation, RelationCommon, RelType, RelationView, RelationCommonView, RelTypeView,
    Input, input_view, rel_view, rel_type_view};

verus! {

/// The source of fresh plan ids: it hands out `next` and counts up.
#[derive(Debug)]
pub struct PlanIdCounter {
    pub next: i64,
}

impl PlanIdCounter {
    /// A counter whose first id is `start`.
    pub fn new(start: i64) -> (c: PlanIdCounter)
        ensures
            c.next == start,
    {
        PlanIdCounter { next: start }
    }

    /// Hands out the next id.
    pub fn next_plan_id(&mut self) -> (id: i64)
        requires
            old(self).next < i64::MAX,
        ensures
            id == old(self).next,
            final(self).next == old(self).next + 1,
    {
        let id = self.next;
        self.next = self.next + 1;
        id
    }
}

/// The one input of a relation kind whose subtree is numbered, if the kind
/// has one. (Joins and set operations have two; the other kinds' inputs,
/// if any, are not numbered.)
pub open spec fn kind_input(t: RelTypeView) -> Option<Input> {
    match t {
        RelTypeView::Project { input, .. } => Some(input),
        RelTypeView::Filter { input, .. } => Some(input),
        RelTypeView::Aggregate { input, .. } => Some(input),
        RelTypeView::Limit { input, .. } => Some(input),
        RelTypeView::Offset { input, .. } => Some(input),
        RelTypeView::Tail { input, .. } => Some(input),
        RelTypeView::Deduplicate { input, .. } => Some(input),
        RelTypeView::Sort { input, .. } => Some(input),
        RelTypeView::Sample { input, .. } => Some(input),
        RelTypeView::Repartition { input, .. } => Some(input),
        RelTypeView::RepartitionByExpression { input, .. } => Some(input),
        RelTypeView::WithColumns { input, .. } => Some(input),
        RelTypeView::WithColumnsRenamed { input, .. } => Some(input),
        RelTypeView::Drop { input, .. } => Some(input),
        RelTypeView::ToDf { input, .. } => Some(input),
        RelTypeView::ToSchema { input, .. } => Some(input),
        RelTypeView::Hint { input, .. } => Some(input),
        RelTypeView::Unpivot { input, .. } => Some(input),
        RelTypeView::FillNa { input, .. } => Some(input),
        RelTypeView::DropNa { input, .. } => Some(input),
        RelTypeView::Replace { input, .. } => Some(input),
        RelTypeView::Describe { input, .. } => Some(input),
        RelTypeView::Summary { input, .. } => Some(input),
        RelTypeView::SubqueryAlias { input, .. } => Some(input),
        RelTypeView::WithWatermark { input, .. } => Some(input),
        RelTypeView::Crosstab { input, .. } => Some(input),
        RelTypeView::FreqItems { input, .. } => Some(input),
        RelTypeView::ApproxQuantile { input, .. } => Some(input),
        RelTypeView::Corr { input, .. } => Some(input),
        RelTypeView::Cov { input, .. } => Some(input),
        RelTypeView::SampleBy { input, .. } => Some(input),
        RelTypeView::CollectMetrics { input, .. } => Some(input),
        _ => None,
    }
}

/// `t` with its numbered input replaced by `i`.
pub open spec fn set_kind_input(t: RelTypeView, i: Input) -> RelTypeView {
    match t {
        RelTypeView::Project { input: _, expressions } => RelTypeView::Project { input: i, expressions },
        RelTypeView::Filter { input: _, condition } => RelTypeView::Filter { input: i, condition },
        RelTypeView::Aggregate { input: _, group_type, grouping_expressions, aggregate_expressions, pivot, grouping_sets } => RelTypeView::Aggregate { input: i, group_type, grouping_expressions, aggregate_expressions, pivot, grouping_sets },
        RelTypeView::Limit { input: _, limit } => RelTypeView::Limit { input: i, limit },
        RelTypeView::Offset { input: _, offset } => RelTypeView::Offset { input: i, offset },
        RelTypeView::Tail { input: _, limit } => RelTypeView::Tail { input: i, limit },
        RelTypeView::Deduplicate { input: _, column_names, all_columns_as_keys, within_watermark } => RelTypeView::Deduplicate { input: i, column_names, all_columns_as_keys, within_watermark },
        RelTypeView::Sort { input: _, order, is_global } => RelTypeView::Sort { input: i, order, is_global },
        RelTypeView::Sample { input: _, lower_bound, upper_bound, with_replacement, seed } => RelTypeView::Sample { input: i, lower_bound, upper_bound, with_replacement, seed },
        RelTypeView::Repartition { input: _, num_partitions, shuffle } => RelTypeView::Repartition { input: i, num_partitions, shuffle },
        RelTypeView::RepartitionByExpression { input: _, partition_exprs, num_partitions } => RelTypeView::RepartitionByExpression { input: i, partition_exprs, num_partitions },
        RelTypeView::WithColumns { input: _, aliases } => RelTypeView::WithColumns { input: i, aliases },
        RelTypeView::WithColumnsRenamed { input: _, renames } => RelTypeView::WithColumnsRenamed { input: i, renames },
        RelTypeView::Drop { input: _, column_names } => RelTypeView::Drop { input: i, column_names },
        RelTypeView::ToDf { input: _, column_names } => RelTypeView::ToDf { input: i, column_names },
        RelTypeView::ToSchema { input: _, schema } => RelTypeView::ToSchema { input: i, schema },
        RelTypeView::Hint { input: _, name, parameters } => RelTypeView::Hint { input: i, name, parameters },
        RelTypeView::Unpivot { input: _, ids, values, variable_column_name, value_column_name } => RelTypeView::Unpivot { input: i, ids, values, variable_column_name, value_column_name },
        RelTypeView::FillNa { input: _, cols, values } => RelTypeView::FillNa { input: i, cols, values },
        RelTypeView::DropNa { input: _, cols, min_non_nulls } => RelTypeView::DropNa { input: i, cols, min_non_nulls },
        RelTypeView::Replace { input: _, cols, replacements } => RelTypeView::Replace { input: i, cols, replacements },
        RelTypeView::Describe { input: _, cols } => RelTypeView::Describe { input: i, cols },
        RelTypeView::Summary { input: _, statistics } => RelTypeView::Summary { input: i, statistics },
        RelTypeView::SubqueryAlias { input: _, alias } => RelTypeView::SubqueryAlias { input: i, alias },
        RelTypeView::WithWatermark { input: _, event_time, delay_threshold } => RelTypeView::WithWatermark { input: i, event_time, delay_threshold },
        RelTypeView::Crosstab { input: _, col1, col2 } => RelTypeView::Crosstab { input: i, col1, col2 },
        RelTypeView::FreqItems { input: _, cols, support } => RelTypeView::FreqItems { input: i, cols, support },
        RelTypeView::ApproxQuantile { input: _, cols, probabilities, relative_error } => RelTypeView::ApproxQuantile { input: i, cols, probabilities, relative_error },
        RelTypeView::Corr { input: _, col1, col2 } => RelTypeView::Corr { input: i, col1, col2 },
        RelTypeView::Cov { input: _, col1, col2 } => RelTypeView::Cov { input: i, col1, col2 },
        RelTypeView::SampleBy { input: _, col, fractions, seed } => RelTypeView::SampleBy { input: i, col, fractions, seed },
        RelTypeView::CollectMetrics { input: _, name, metrics } => RelTypeView::CollectMetrics { input: i, name, metrics },
        _ => t,
    }
}

/// The numbered input of a relation kind lies below it.
pub proof fn lemma_kind_input_decreases(t: RelTypeView)
    ensures
        kind_input(t) matches Some(i) ==> decreases_to!(t => i),
{
    match t {
        RelTypeView::Project { .. } => { assert(decreases_to!(t => t->Project_input)); },
        RelTypeView::Filter { .. } => { assert(decreases_to!(t => t->Filter_input)); },
        RelTypeView::Aggregate { .. } => { assert(decreases_to!(t => t->Aggregate_input)); },
        RelTypeView::Limit { .. } => { assert(decreases_to!(t => t->Limit_input)); },
        RelTypeView::Offset { .. } => { assert(decreases_to!(t => t->Offset_input)); },
        RelTypeView::Tail { .. } => { assert(decreases_to!(t => t->Tail_input)); },
        RelTypeView::Deduplicate { .. } => { assert(decreases_to!(t => t->Deduplicate_input)); },
        RelTypeView::Sort { .. } => { assert(decreases_to!(t => t->Sort_input)); },
        RelTypeView::Sample { .. } => { assert(decreases_to!(t => t->Sample_input)); },
        RelTypeView::Repartition { .. } => { assert(decreases_to!(t => t->Repartition_input)); },
        RelTypeView::RepartitionByExpression { .. } => { assert(decreases_to!(t => t->RepartitionByExpression_input)); },
        RelTypeView::WithColumns { .. } => { assert(decreases_to!(t => t->WithColumns_input)); },
        RelTypeView::WithColumnsRenamed { .. } => { assert(decreases_to!(t => t->WithColumnsRenamed_input)); },
        RelTypeView::Drop { .. } => { assert(decreases_to!(t => t->Drop_input)); },
        RelTypeView::ToDf { .. } => { assert(decreases_to!(t => t->ToDf_input)); },
        RelTypeView::ToSchema { .. } => { assert(decreases_to!(t => t->ToSchema_input)); },
        RelTypeView::Hint { .. } => { assert(decreases_to!(t => t->Hint_input)); },
        RelTypeView::Unpivot { .. } => { assert(decreases_to!(t => t->Unpivot_input)); },
        RelTypeView::FillNa { .. } => { assert(decreases_to!(t => t->FillNa_input)); },
        RelTypeView::DropNa { .. } => { assert(decreases_to!(t => t->DropNa_input)); },
        RelTypeView::Replace { .. } => { assert(decreases_to!(t => t->Replace_input)); },
        RelTypeView::Describe { .. } => { assert(decreases_to!(t => t->Describe_input)); },
        RelTypeView::Summary { .. } => { assert(decreases_to!(t => t->Summary_input)); },
        RelTypeView::SubqueryAlias { .. } => { assert(decreases_to!(t => t->SubqueryAlias_input)); },
        RelTypeView::WithWatermark { .. } => { assert(decreases_to!(t => t->WithWatermark_input)); },
        RelTypeView::Crosstab { .. } => { assert(decreases_to!(t => t->Crosstab_input)); },
        RelTypeView::FreqItems { .. } => { assert(decreases_to!(t => t->FreqItems_input)); },
        RelTypeView::ApproxQuantile { .. } => { assert(decreases_to!(t => t->ApproxQuantile_input)); },
        RelTypeView::Corr { .. } => { assert(decreases_to!(t => t->Corr_input)); },
        RelTypeView::Cov { .. } => { assert(decreases_to!(t => t->Cov_input)); },
        RelTypeView::SampleBy { .. } => { assert(decreases_to!(t => t->SampleBy_input)); },
        RelTypeView::CollectMetrics { .. } => { assert(decreases_to!(t => t->CollectMetrics_input)); },
        _ => {},
    }
}

/// The id a relation node carries, if any.
pub open spec fn node_id(r: RelationView) -> Option<i64> {
    match r.common {
        Some(c) => c.plan_id,
        None => None,
    }
}

/// Numbering an input subtree from `next`: the numbered subtree and the next
/// free id.
pub open spec fn assign_input(i: Input, next: int) -> (Input, int)
    decreases i,
{
    match i {
        Some(b) => {
            let (r, n) = assign_rel(*b, next);
            (Some(Box::new(r)), n)
        },
        None => (None, next),
    }
}

/// Numbering the children of a relation kind, left before right.
pub open spec fn assign_kind(t: RelTypeView, next: int) -> (RelTypeView, int)
    decreases t,
{
    match t {
        RelTypeView::Join { left, right, join_condition, join_type, using_columns } => {
            let (l, n1) = assign_input(left, next);
            let (r, n2) = assign_input(right, n1);
            (RelTypeView::Join { left: l, right: r, join_condition, join_type, using_columns }, n2)
        },
        RelTypeView::SetOp { left_input, right_input, set_op_type, is_all, by_name, allow_missing_columns } => {
            let (l, n1) = assign_input(left_input, next);
            let (r, n2) = assign_input(right_input, n1);
            (RelTypeView::SetOp { left_input: l, right_input: r, set_op_type, is_all, by_name, allow_missing_columns }, n2)
        },
        _ => match kind_input(t) {
            Some(i) => {
                proof {
                    lemma_kind_input_decreases(t);
                }
                let (i2, n) = assign_input(i, next);
                (set_kind_input(t, i2), n)
            },
            None => (t, next),
        },
    }
}

/// Numbering a relation from `next` in post-order: its numbered children
/// first, then the node itself with the next id.
pub open spec fn assign_rel(r: RelationView, next: int) -> (RelationView, int)
    decreases r,
{
    let (k, n) = match r.rel_type {
        Some(t) => {
            let (t2, n2) = assign_kind(t, next);
            (Some(t2), n2)
        },
        None => (None, next),
    };
    (RelationView { common: Some(RelationCommonView { plan_id: Some(n as i64) }), rel_type: k }, n + 1)
}

/// The number of nodes numbering visits in an input subtree.
pub open spec fn count_input(i: Input) -> nat
    decreases i,
{
    match i {
        Some(b) => count_rel(*b),
        None => 0,
    }
}

pub open spec fn count_kind(t: RelTypeView) -> nat
    decreases t,
{
    match t {
        RelTypeView::Join { left, right, .. } => count_input(left) + count_input(right),
        RelTypeView::SetOp { left_input, right_input, .. } => count_input(left_input) + count_input(right_input),
        _ => match kind_input(t) {
            Some(i) => {
                proof {
                    lemma_kind_input_decreases(t);
                }
                count_input(i)
            },
            None => 0,
        },
    }
}

/// The number of nodes numbering visits in a relation.
pub open spec fn count_rel(r: RelationView) -> nat
    decreases r,
{
    1 + match r.rel_type {
        Some(t) => count_kind(t),
        None => 0,
    }
}

/// The ids of the visited nodes of an input subtree, in post-order.
pub open spec fn ids_input(i: Input) -> Seq<Option<i64>>
    decreases i,
{
    match i {
        Some(b) => ids_rel(*b),
        None => Seq::empty(),
    }
}

pub open spec fn ids_kind(t: RelTypeView) -> Seq<Option<i64>>
    decreases t,
{
    match t {
        RelTypeView::Join { left, right, .. } => ids_input(left) + ids_input(right),
        RelTypeView::SetOp { left_input, right_input, .. } => ids_input(left_input) + ids_input(right_input),
        _ => match kind_input(t) {
            Some(i) => {
                proof {
                    lemma_kind_input_decreases(t);
                }
                ids_input(i)
            },
            None => Seq::empty(),
        },
    }
}

/// The ids of the visited nodes of a relation, in post-order.
pub open spec fn ids_rel(r: RelationView) -> Seq<Option<i64>>
    decreases r,
{
    let below = match r.rel_type {
        Some(t) => ids_kind(t),
        None => Seq::empty(),
    };
    below + seq![node_id(r)]
}

/// A relation with the common part of every visited node dropped: what
/// numbering must leave unchanged.
pub open spec fn erase_input(i: Input) -> Input
    decreases i,
{
    match i {
        Some(b) => Some(Box::new(erase_rel(*b))),
        None => None,
    }
}

pub open spec fn erase_kind(t: RelTypeView) -> RelTypeView
    decreases t,
{
    match t {
        RelTypeView::Join { left, right, join_condition, join_type, using_columns } =>
            RelTypeView::Join { left: erase_input(left), right: erase_input(right), join_condition, join_type, using_columns },
        RelTypeView::SetOp { left_input, right_input, set_op_type, is_all, by_name, allow_missing_columns } =>
            RelTypeView::SetOp {
                left_input: erase_input(left_input),
                right_input: erase_input(right_input),
                set_op_type,
                is_all,
                by_name,
                allow_missing_columns,
            },
        _ => match kind_input(t) {
            Some(i) => {
                proof {
                    lemma_kind_input_decreases(t);
                }
                set_kind_input(t, erase_input(i))
            },
            None => t,
        },
    }
}

pub open spec fn erase_rel(r: RelationView) -> RelationView
    decreases r,
{
    RelationView {
        common: None,
        rel_type: match r.rel_type {
            Some(t) => Some(erase_kind(t)),
            None => None,
        },
    }
}

/// Replacing the numbered input of a kind keeps the kind, which then has the
/// new input; replacing twice is replacing once.
pub proof fn lemma_set_kind_input(t: RelTypeView, i: Input, j: Input)
    requires
        kind_input(t) is Some,
    ensures
        kind_input(set_kind_input(t, i)) == Some(i),
        set_kind_input(set_kind_input(t, i), j) == set_kind_input(t, j),
        !(set_kind_input(t, i) is Join),
        !(set_kind_input(t, i) is SetOp),
        !(t is Join),
        !(t is SetOp),
{
    match t {
        RelTypeView::Project { .. } => {},
        RelTypeView::Filter { .. } => {},
        RelTypeView::Aggregate { .. } => {},
        RelTypeView::Limit { .. } => {},
        RelTypeView::Offset { .. } => {},
        RelTypeView::Tail { .. } => {},
        RelTypeView::Deduplicate { .. } => {},
        RelTypeView::Sort { .. } => {},
        RelTypeView::Sample { .. } => {},
        RelTypeView::Repartition { .. } => {},
        RelTypeView::RepartitionByExpression { .. } => {},
        RelTypeView::WithColumns { .. } => {},
        RelTypeView::WithColumnsRenamed { .. } => {},
        RelTypeView::Drop { .. } => {},
        RelTypeView::ToDf { .. } => {},
        RelTypeView::ToSchema { .. } => {},
        RelTypeView::Hint { .. } => {},
        RelTypeView::Unpivot { .. } => {},
        RelTypeView::FillNa { .. } => {},
        RelTypeView::DropNa { .. } => {},
        RelTypeView::Replace { .. } => {},
        RelTypeView::Describe { .. } => {},
        RelTypeView::Summary { .. } => {},
        RelTypeView::SubqueryAlias { .. } => {},
        RelTypeView::WithWatermark { .. } => {},
        RelTypeView::Crosstab { .. } => {},
        RelTypeView::FreqItems { .. } => {},
        RelTypeView::ApproxQuantile { .. } => {},
        RelTypeView::Corr { .. } => {},
        RelTypeView::Cov { .. } => {},
        RelTypeView::SampleBy { .. } => {},
        RelTypeView::CollectMetrics { .. } => {},
        _ => {},
    }
}

/// The ids `next`, `next + 1`, ... for `n` nodes.
pub open spec fn id_run(next: int, n: nat) -> Seq<Option<i64>> {
    Seq::new(n, |k: int| Some((next + k) as i64))
}

proof fn lemma_id_run_concat(next: int, a: nat, b: nat)
    ensures
        id_run(next, a) + id_run(next + a, b) == id_run(next, a + b),
{
    assert(id_run(next, a) + id_run(next + a, b) =~= id_run(next, a + b));
}

/// Numbering an input subtree: see `lemma_assign_rel`.
pub proof fn lemma_assign_input(i: Input, next: int)
    ensures
        assign_input(i, next).1 == next + count_input(i),
        erase_input(assign_input(i, next).0) == erase_input(i),
        count_input(assign_input(i, next).0) == count_input(i),
        ids_input(assign_input(i, next).0) == id_run(next, count_input(i)),
    decreases i,
{
    match i {
        Some(b) => {
            lemma_assign_rel(*b, next);
        },
        None => {
            assert(id_run(next, 0) =~= Seq::<Option<i64>>::empty());
        },
    }
}

/// Numbering the children of a relation kind: see `lemma_assign_rel`.
pub proof fn lemma_assign_kind(t: RelTypeView, next: int)
    ensures
        assign_kind(t, next).1 == next + count_kind(t),
        erase_kind(assign_kind(t, next).0) == erase_kind(t),
        count_kind(assign_kind(t, next).0) == count_kind(t),
        ids_kind(assign_kind(t, next).0) == id_run(next, count_kind(t)),
    decreases t,
{
    match t {
        RelTypeView::Join { left, right, .. } => {
            lemma_assign_input(left, next);
            lemma_assign_input(right, next + count_input(left));
            lemma_id_run_concat(next, count_input(left), count_input(right));
        },
        RelTypeView::SetOp { left_input, right_input, .. } => {
            lemma_assign_input(left_input, next);
            lemma_assign_input(right_input, next + count_input(left_input));
            lemma_id_run_concat(next, count_input(left_input), count_input(right_input));
        },
        _ => {
            match kind_input(t) {
                Some(i) => {
                    lemma_kind_input_decreases(t);
                    lemma_assign_input(i, next);
                    let i2 = assign_input(i, next).0;
                    lemma_set_kind_input(t, i2, erase_input(i2));
                    lemma_set_kind_input(t, i2, i2);
                },
                None => {
                    assert(id_run(next, 0) =~= Seq::<Option<i64>>::empty());
                },
            }
        },
    }
}

/// Numbering a relation from `next` numbers exactly the nodes it visits, in
/// post-order, with the consecutive ids `next`, `next + 1`, ... (so no two
/// nodes share an id and the root gets the last one), moves the counter past
/// them, and changes nothing but those nodes' ids.
pub proof fn lemma_assign_rel(r: RelationView, next: int)
    ensures
        assign_rel(r, next).1 == next + count_rel(r),
        erase_rel(assign_rel(r, next).0) == erase_rel(r),
        count_rel(assign_rel(r, next).0) == count_rel(r),
        ids_rel(assign_rel(r, next).0) == id_run(next, count_rel(r)),
    decreases r,
{
    match r.rel_type {
        Some(t) => {
            lemma_assign_kind(t, next);
            lemma_id_run_concat(next, count_kind(t), 1);
            assert(id_run(next + count_kind(t), 1) =~= seq![Some((next + count_kind(t)) as i64)]);
        },
        None => {
            assert(id_run(next, 1) =~= seq![Some(next as i64)]);
            assert(Seq::<Option<i64>>::empty() + seq![Some(next as i64)] =~= seq![Some(next as i64)]);
        },
    }
}

fn assign_input_exec(i: Option<Box<Relation>>, counter: &mut PlanIdCounter) -> (out: Option<Box<Relation>>)
    requires
        old(counter).next + count_input(input_view(i)) <= i64::MAX,
    ensures
        assign_input(input_view(i), old(counter).next as int) == (input_view(out), final(counter).next as int),
    decreases i, 7int,
{
    match i {
        Some(b) => Some(Box::new(assign_rel_exec(*b, counter))),
        None => None,
    }
}

fn assign_rel_exec(r: Relation, counter: &mut PlanIdCounter) -> (out: Relation)
    requires
        old(counter).next + count_rel(rel_view(r)) <= i64::MAX,
    ensures
        assign_rel(rel_view(r), old(counter).next as int) == (rel_view(out), final(counter).next as int),
    decreases r, 6int,
{
    proof {
        lemma_assign_rel(rel_view(r), old(counter).next as int);
    }
    let k = match r.rel_type {
        Some(t) => Some(assign_kind_first(t, counter)),
        None => None,
    };
    let id = counter.next_plan_id();
    Relation { common: Some(RelationCommon { plan_id: Some(id) }), rel_type: k }
}

fn assign_kind_first(t: RelType, counter: &mut PlanIdCounter) -> (out: RelType)
    requires
        old(counter).next + count_kind(rel_type_view(t)) <= i64::MAX,
    ensures
        assign_kind(rel_type_view(t), old(counter).next as int) == (rel_type_view(out), final(counter).next as int),
    decreases t, 5int,
{
    match t {
        RelType::Join { left, right, join_condition, join_type, using_columns } => {
            proof {
                lemma_assign_input(input_view(left), old(counter).next as int);
            }
            let l = assign_input_exec(left, counter);
            let r = assign_input_exec(right, counter);
            RelType::Join { left: l, right: r, join_condition, join_type, using_columns }
        },
        other => assign_kind_second(other, counter),
    }
}

fn assign_kind_second(t: RelType, counter: &mut PlanIdCounter) -> (out: RelType)
    requires
        old(counter).next + count_kind(rel_type_view(t)) <= i64::MAX,
        !(t is Join),
    ensures
        assign_kind(rel_type_view(t), old(counter).next as int) == (rel_type_view(out), final(counter).next as int),
    decreases t, 4int,
{
    match t {
        RelType::SetOp { left_input, right_input, set_op_type, is_all, by_name, allow_missing_columns } => {
            proof {
                lemma_assign_input(input_view(left_input), old(counter).next as int);
            }
            let l = assign_input_exec(left_input, counter);
            let r = assign_input_exec(right_input, counter);
            RelType::SetOp { left_input: l, right_input: r, set_op_type, is_all, by_name, allow_missing_columns }
        },
        other => assign_kind_third(other, counter),
    }
}

fn assign_kind_third(t: RelType, counter: &mut PlanIdCounter) -> (out: RelType)
    requires
        old(counter).next + count_kind(rel_type_view(t)) <= i64::MAX,
        !(t is Join),
        !(t is SetOp),
    ensures
        assign_kind(rel_type_view(t), old(counter).next as int) == (rel_type_view(out), final(counter).next as int),
    decreases t, 3int,
{
    proof {
        lemma_assign_kind(rel_type_view(t), old(counter).next as int);
    }
    match t {
            RelType::Project { input, expressions } => {
                let i = assign_input_exec(input, counter);
                RelType::Project { input: i, expressions }
            },
            RelType::Filter { input, condition } => {
                let i = assign_input_exec(input, counter);
                RelType::Filter { input: i, condition }
            },
            RelType::Aggregate { input, group_type, grouping_expressions, aggregate_expressions, pivot, grouping_sets } => {
                let i = assign_input_exec(input, counter);
                RelType::Aggregate { input: i, group_type, grouping_expressions, aggregate_expressions, pivot, grouping_sets }
            },
            RelType::Limit { input, limit } => {
                let i = assign_input_exec(input, counter);
                RelType::Limit { input: i, limit }
            },
            RelType::Offset { input, offset } => {
                let i = assign_input_exec(input, counter);
                RelType::Offset { input: i, offset }
            },
            RelType::Tail { input, limit } => {
                let i = assign_input_exec(input, counter);
                RelType::Tail { input: i, limit }
            },
            RelType::Deduplicate { input, column_names, all_columns_as_keys, within_watermark } => {
                let i = assign_input_exec(input, counter);
                RelType::Deduplicate { input: i, column_names, all_columns_as_keys, within_watermark }
            },
            RelType::Sort { input, order, is_global } => {
                let i = assign_input_exec(input, counter);
                RelType::Sort { input: i, order, is_global }
            },
            other => assign_kind_fourth(other, counter),
    }
}

fn assign_kind_fourth(t: RelType, counter: &mut PlanIdCounter) -> (out: RelType)
    requires
        old(counter).next + count_kind(rel_type_view(t)) <= i64::MAX,
        !(t is Join),
        !(t is SetOp),
        !(t is Project),
        !(t is Filter),
        !(t is Aggregate),
        !(t is Limit),
        !(t is Offset),
        !(t is Tail),
        !(t is Deduplicate),
        !(t is Sort),
    ensures
        assign_kind(rel_type_view(t), old(counter).next as int) == (rel_type_view(out), final(counter).next as int),
    decreases t, 2int,
{
    proof {
        lemma_assign_kind(rel_type_view(t), old(counter).next as int);
    }
    match t {
            RelType::Sample { input, lower_bound, upper_bound, with_replacement, seed } => {
                let i = assign_input_exec(input, counter);
                RelType::Sample { input: i, lower_bound, upper_bound, with_replacement, seed }
            },
            RelType::Repartition { input, num_partitions, shuffle } => {
                let i = assign_input_exec(input, counter);
                RelType::Repartition { input: i, num_partitions, shuffle }
            },
            RelType::RepartitionByExpression { input, partition_exprs, num_partitions } => {
                let i = assign_input_exec(input, counter);
                RelType::RepartitionByExpression { input: i, partition_exprs, num_partitions }
            },
            RelType::WithColumns { input, aliases } => {
                let i = assign_input_exec(input, counter);
                RelType::WithColumns { input: i, aliases }
            },
            RelType::WithColumnsRenamed { input, renames } => {
                let i = assign_input_exec(input, counter);
                RelType::WithColumnsRenamed { input: i, renames }
            },
            RelType::Drop { input, column_names } => {
                let i = assign_input_exec(input, counter);
                RelType::Drop { input: i, column_names }
            },
            RelType::ToDf { input, column_names } => {
                let i = assign_input_exec(input, counter);
                RelType::ToDf { input: i, column_names }
            },
            RelType::ToSchema { input, schema } => {
                let i = assign_input_exec(input, counter);
                RelType::ToSchema { input: i, schema }
            },
            other => assign_kind_fifth(other, counter),
    }
}

fn assign_kind_fifth(t: RelType, counter: &mut PlanIdCounter) -> (out: RelType)
    requires
        old(counter).next + count_kind(rel_type_view(t)) <= i64::MAX,
        !(t is Join),
        !(t is SetOp),
        !(t is Project),
        !(t is Filter),
        !(t is Aggregate),
        !(t is Limit),
        !(t is Offset),
        !(t is Tail),
        !(t is Deduplicate),
        !(t is Sort),
        !(t is Sample),
        !(t is Repartition),
        !(t is RepartitionByExpression),
        !(t is WithColumns),
        !(t is WithColumnsRenamed),
        !(t is Drop),
        !(t is ToDf),
        !(t is ToSchema),
    ensures
        assign_kind(rel_type_view(t), old(counter).next as int) == (rel_type_view(out), final(counter).next as int),
    decreases t, 1int,
{
    proof {
        lemma_assign_kind(rel_type_view(t), old(counter).next as int);
    }
    match t {
            RelType::Hint { input, name, parameters } => {
                let i = assign_input_exec(input, counter);
                RelType::Hint { input: i, name, parameters }
            },
            RelType::Unpivot { input, ids, values, variable_column_name, value_column_name } => {
                let i = assign_input_exec(input, counter);
                RelType::Unpivot { input: i, ids, values, variable_column_name, value_column_name }
            },
            RelType::FillNa { input, cols, values } => {
                let i = assign_input_exec(input, counter);
                RelType::FillNa { input: i, cols, values }
            },
            RelType::DropNa { input, cols, min_non_nulls } => {
                let i = assign_input_exec(input, counter);
                RelType::DropNa { input: i, cols, min_non_nulls }
            },
            RelType::Replace { input, cols, replacements } => {
                let i = assign_input_exec(input, counter);
                RelType::Replace { input: i, cols, replacements }
            },
            RelType::Describe { input, cols } => {
                let i = assign_input_exec(input, counter);
                RelType::Describe { input: i, cols }
            },
            RelType::Summary { input, statistics } => {
                let i = assign_input_exec(input, counter);
                RelType::Summary { input: i, statistics }
            },
            RelType::SubqueryAlias { input, alias } => {
                let i = assign_input_exec(input, counter);
                RelType::SubqueryAlias { input: i, alias }
            },
            other => assign_kind_sixth(other, counter),
    }
}

fn assign_kind_sixth(t: RelType, counter: &mut PlanIdCounter) -> (out: RelType)
    requires
        old(counter).next + count_kind(rel_type_view(t)) <= i64::MAX,
        !(t is Join),
        !(t is SetOp),
        !(t is Project),
        !(t is Filter),
        !(t is Aggregate),
        !(t is Limit),
        !(t is Offset),
        !(t is Tail),
        !(t is Deduplicate),
        !(t is Sort),
        !(t is Sample),
        !(t is Repartition),
        !(t is RepartitionByExpression),
        !(t is WithColumns),
        !(t is WithColumnsRenamed),
        !(t is Drop),
        !(t is ToDf),
        !(t is ToSchema),
        !(t is Hint),
        !(t is Unpivot),
        !(t is FillNa),
        !(t is DropNa),
        !(t is Replace),
        !(t is Describe),
        !(t is Summary),
        !(t is SubqueryAlias),
    ensures
        assign_kind(rel_type_view(t), old(counter).next as int) == (rel_type_view(out), final(counter).next as int),
    decreases t, 0int,
{
    proof {
        lemma_assign_kind(rel_type_view(t), old(counter).next as int);
    }
    match t {
            RelType::WithWatermark { input, event_time, delay_threshold } => {
                let i = assign_input_exec(input, counter);
                RelType::WithWatermark { input: i, event_time, delay_threshold }
            },
            RelType::Crosstab { input, col1, col2 } => {
                let i = assign_input_exec(input, counter);
                RelType::Crosstab { input: i, col1, col2 }
            },
            RelType::FreqItems { input, cols, support } => {
                let i = assign_input_exec(input, counter);
                RelType::FreqItems { input: i, cols, support }
            },
            RelType::ApproxQuantile { input, cols, probabilities, relative_error } => {
                let i = assign_input_exec(input, counter);
                RelType::ApproxQuantile { input: i, cols, probabilities, relative_error }
            },
            RelType::Corr { input, col1, col2 } => {
                let i = assign_input_exec(input, counter);
                RelType::Corr { input: i, col1, col2 }
            },
            RelType::Cov { input, col1, col2 } => {
                let i = assign_input_exec(input, counter);
                RelType::Cov { input: i, col1, col2 }
            },
            RelType::SampleBy { input, col, fractions, seed } => {
                let i = assign_input_exec(input, counter);
                RelType::SampleBy { input: i, col, fractions, seed }
            },
            RelType::CollectMetrics { input, name, metrics } => {
                let i = assign_input_exec(input, counter);
                RelType::CollectMetrics { input: i, name, metrics }
            },
            other => other,
    }
}

/// Numbers the relation: every node that the client numbers, children before
/// parents and left before right, gets the counter's next id (see
/// `assign_rel`). The counter must have room for all of them.
pub fn assign_plan_ids(relation: &mut Relation, counter: &mut PlanIdCounter)
    requires
        old(counter).next + count_rel(old(relation)@) <= i64::MAX,
    ensures
        assign_rel(old(relation)@, old(counter).next as int) == (final(relation)@, final(counter).next as int),
{
    let mut taken = Relation { common: None, rel_type: None };
    std::mem::swap(&mut taken, relation);
    *relation = assign_rel_exec(taken, counter);
}

} // verus!
