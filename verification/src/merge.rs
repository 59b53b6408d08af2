//! MERGE INTO: a builder of `WHEN MATCHED` / `WHEN NOT MATCHED` /
//! `WHEN NOT MATCHED BY SOURCE` clauses and the command it sends.

use vstd::prelude::*;
use std::rc::Rc;
use crate::column::Column;
use crate::dataframe::DataFrame;
use crate::expression::expr_to_msg;
use crate::plan::{LogicalPlan, plan_rel};
use crate::plan_ids::{PlanIdCounter, assign_rel, count_rel};
use crate::proto;
use crate::proto::ExpressionView;
use crate::relation::Relation;
use crate::text::owned;

verus! {

/// The kind of a merge action.
#[derive(Debug, Clone, Copy, PartialEq, Eq, Structural)]
pub enum MergeActionType {
    Delete,
    Insert,
    InsertStar,
    Update,
    UpdateStar,
}

/// The wire code of each merge action kind.
pub open spec fn merge_action_code(t: MergeActionType) -> i32 {
    match t {
        MergeActionType::Delete => 1,
        MergeActionType::Insert => 2,
        MergeActionType::InsertStar => 3,
        MergeActionType::Update => 4,
        MergeActionType::UpdateStar => 5,
    }
}

/// `spark.connect.MergeAction`: one clause action.
#[derive(Debug)]
pub struct MergeAction {
    pub action_type: i32,
    pub condition: Option<proto::Expression>,
    pub assignments: Vec<(proto::Expression, proto::Expression)>,
}

/// The mathematical value of a merge action.
pub struct MergeActionView {
    pub action_type: i32,
    pub condition: Option<ExpressionView>,
    pub assignments: Seq<(ExpressionView, ExpressionView)>,
}

pub open spec fn merge_action_view(a: MergeAction) -> MergeActionView {
    MergeActionView {
        action_type: a.action_type,
        condition: match a.condition {
            Some(c) => Some(c@),
            None => None,
        },
        assignments: a.assignments@.map_values(|p: (proto::Expression, proto::Expression)| (p.0@, p.1@)),
    }
}

/// The action a clause sends: its kind, its condition, and each assignment
/// as the SQL expression of the target column and the value's expression.
pub open spec fn action_msg(t: MergeActionType, condition: Option<Column>, assignments: Seq<(String, Column)>) -> MergeActionView {
    MergeActionView {
        action_type: merge_action_code(t),
        condition: match condition {
            Some(c) => Some(expr_to_msg(c.expr)),
            None => None,
        },
        assignments: assignments.map_values(|p: (String, Column)| (
            ExpressionView::ExpressionString { expression: p.0@ },
            expr_to_msg(p.1.expr),
        )),
    }
}

/// A merge action goes on the wire with the protocol's code of its kind,
/// whatever its condition and assignments: delete 1, insert 2, insert-all
/// 3, update 4, update-all 5.
pub proof fn law_merge_action_wire_codes(condition: Option<Column>, assignments: Seq<(String, Column)>)
    ensures
        action_msg(MergeActionType::Delete, condition, assignments).action_type == 1,
        action_msg(MergeActionType::Insert, condition, assignments).action_type == 2,
        action_msg(MergeActionType::InsertStar, condition, assignments).action_type == 3,
        action_msg(MergeActionType::Update, condition, assignments).action_type == 4,
        action_msg(MergeActionType::UpdateStar, condition, assignments).action_type == 5,
{
}

fn merge_action(t: MergeActionType, condition: &Option<Column>, assignments: Vec<(String, Column)>) -> (a: MergeAction)
    ensures
        merge_action_view(a) == action_msg(t, *condition, assignments@),
{
    let code: i32 = match t {
        MergeActionType::Delete => 1,
        MergeActionType::Insert => 2,
        MergeActionType::InsertStar => 3,
        MergeActionType::Update => 4,
        MergeActionType::UpdateStar => 5,
    };
    let cond = match condition {
        Some(c) => Some(c.to_proto()),
        None => None,
    };
    let mut out: Vec<(proto::Expression, proto::Expression)> = Vec::new();
    let mut i: usize = 0;
    while i < assignments.len()
        invariant
            i <= assignments@.len(),
            out@.len() == i,
            forall|j: int| 0 <= j < i ==> (#[trigger] out@[j]).0@ == (ExpressionView::ExpressionString { expression: assignments@[j].0@ })
                && out@[j].1@ == expr_to_msg(assignments@[j].1.expr),
        decreases assignments@.len() - i,
    {
        let key = proto::Expression::ExpressionString { expression: assignments[i].0.clone() };
        let value = assignments[i].1.to_proto();
        out.push((key, value));
        i = i + 1;
    }
    let a = MergeAction { action_type: code, condition: cond, assignments: out };
    assert(merge_action_view(a).assignments =~= action_msg(t, *condition, assignments@).assignments);
    a
}

/// A MERGE INTO being built: source, target, condition, clauses.
#[derive(Debug)]
pub struct MergeIntoWriter {
    pub source_plan: Rc<LogicalPlan>,
    pub target_table: String,
    pub condition: Column,
    pub schema_evolution: bool,
    pub matched_actions: Vec<MergeAction>,
    pub not_matched_actions: Vec<MergeAction>,
    pub not_matched_by_source_actions: Vec<MergeAction>,
}

/// The actions of a list, as values.
pub open spec fn actions_view(s: Seq<MergeAction>) -> Seq<MergeActionView> {
    s.map_values(|a: MergeAction| merge_action_view(a))
}

/// `spark.connect.MergeIntoTableCommand`.
#[derive(Debug)]
pub struct MergeIntoTableCommand {
    pub target_table_name: String,
    pub source_table_plan: Relation,
    pub merge_condition: proto::Expression,
    pub match_actions: Vec<MergeAction>,
    pub not_matched_actions: Vec<MergeAction>,
    pub not_matched_by_source_actions: Vec<MergeAction>,
    pub with_schema_evolution: bool,
}

impl MergeIntoWriter {
    /// A merge of `source` into `target_table` on `condition`, with no clauses
    /// and without schema evolution.
    pub fn new(source: &DataFrame, target_table: &str, condition: Column) -> (w: MergeIntoWriter)
        ensures
            w.source_plan == source.plan,
            w.target_table@ == target_table@,
            w.condition == condition,
            !w.schema_evolution,
            w.matched_actions@.len() == 0,
            w.not_matched_actions@.len() == 0,
            w.not_matched_by_source_actions@.len() == 0,
    {
        MergeIntoWriter {
            source_plan: source.plan.clone(),
            target_table: owned(target_table),
            condition,
            schema_evolution: false,
            matched_actions: Vec::new(),
            not_matched_actions: Vec::new(),
            not_matched_by_source_actions: Vec::new(),
        }
    }

    /// Begins a `WHEN MATCHED [AND condition]` clause.
    pub fn when_matched(self, condition: Option<Column>) -> (c: WhenMatched)
        ensures
            c.writer == self,
            c.condition == condition,
    {
        WhenMatched { writer: self, condition }
    }

    /// Begins a `WHEN NOT MATCHED [AND condition]` clause.
    pub fn when_not_matched(self, condition: Option<Column>) -> (c: WhenNotMatched)
        ensures
            c.writer == self,
            c.condition == condition,
    {
        WhenNotMatched { writer: self, condition }
    }

    /// Begins a `WHEN NOT MATCHED BY SOURCE [AND condition]` clause.
    pub fn when_not_matched_by_source(self, condition: Option<Column>) -> (c: WhenNotMatchedBySource)
        ensures
            c.writer == self,
            c.condition == condition,
    {
        WhenNotMatchedBySource { writer: self, condition }
    }

    /// Turns schema evolution on.
    pub fn with_schema_evolution(self) -> (w: MergeIntoWriter)
        ensures
            w == (MergeIntoWriter { schema_evolution: true, ..self }),
    {
        MergeIntoWriter { schema_evolution: true, ..self }
    }

    /// The MERGE INTO command: the source's relation is numbered from
    /// `counter`, the clauses keep their order.
    pub fn merge(self, counter: &mut PlanIdCounter) -> (cmd: MergeIntoTableCommand)
        requires
            old(counter).next + count_rel(plan_rel(*self.source_plan)) <= i64::MAX,
        ensures
            assign_rel(plan_rel(*self.source_plan), old(counter).next as int) == (cmd.source_table_plan@, final(counter).next as int),
            cmd.target_table_name == self.target_table,
            cmd.merge_condition@ == expr_to_msg(self.condition.expr),
            cmd.match_actions == self.matched_actions,
            cmd.not_matched_actions == self.not_matched_actions,
            cmd.not_matched_by_source_actions == self.not_matched_by_source_actions,
            cmd.with_schema_evolution == self.schema_evolution,
    {
        let source = DataFrame { plan: self.source_plan };
        let relation = source.build_relation(counter);
        let cond = self.condition.to_proto();
        MergeIntoTableCommand {
            target_table_name: self.target_table,
            source_table_plan: relation,
            merge_condition: cond,
            match_actions: self.matched_actions,
            not_matched_actions: self.not_matched_actions,
            not_matched_by_source_actions: self.not_matched_by_source_actions,
            with_schema_evolution: self.schema_evolution,
        }
    }
}

/// A `WHEN MATCHED` clause being built.
#[derive(Debug)]
pub struct WhenMatched {
    pub writer: MergeIntoWriter,
    pub condition: Option<Column>,
}

impl WhenMatched {
    fn finish(self, t: MergeActionType, assignments: Vec<(String, Column)>) -> (w: MergeIntoWriter)
        ensures
            actions_view(w.matched_actions@) == actions_view(self.writer.matched_actions@).push(action_msg(t, self.condition, assignments@)),
            w.not_matched_actions == self.writer.not_matched_actions,
            w.not_matched_by_source_actions == self.writer.not_matched_by_source_actions,
            w.source_plan == self.writer.source_plan,
            w.target_table == self.writer.target_table,
            w.condition == self.writer.condition,
            w.schema_evolution == self.writer.schema_evolution,
    {
        let action = merge_action(t, &self.condition, assignments);
        let mut writer = self.writer;
        let ghost before = writer.matched_actions@;
        writer.matched_actions.push(action);
        assert(actions_view(writer.matched_actions@) =~= actions_view(before).push(merge_action_view(action)));
        writer
    }

    /// `UPDATE SET *`.
    pub fn update_all(self) -> (w: MergeIntoWriter)
        ensures
            actions_view(w.matched_actions@) == actions_view(self.writer.matched_actions@).push(action_msg(MergeActionType::UpdateStar, self.condition, Seq::empty())),
            w.not_matched_actions == self.writer.not_matched_actions,
            w.not_matched_by_source_actions == self.writer.not_matched_by_source_actions,
            w.source_plan == self.writer.source_plan,
            w.schema_evolution == self.writer.schema_evolution,
    {
        self.finish(MergeActionType::UpdateStar, Vec::new())
    }

    /// `UPDATE SET` the `assignments`.
    pub fn update(self, assignments: Vec<(String, Column)>) -> (w: MergeIntoWriter)
        ensures
            actions_view(w.matched_actions@) == actions_view(self.writer.matched_actions@).push(action_msg(MergeActionType::Update, self.condition, assignments@)),
            w.not_matched_actions == self.writer.not_matched_actions,
            w.not_matched_by_source_actions == self.writer.not_matched_by_source_actions,
            w.source_plan == self.writer.source_plan,
            w.schema_evolution == self.writer.schema_evolution,
    {
        self.finish(MergeActionType::Update, assignments)
    }

    /// `DELETE`.
    pub fn delete(self) -> (w: MergeIntoWriter)
        ensures
            actions_view(w.matched_actions@) == actions_view(self.writer.matched_actions@).push(action_msg(MergeActionType::Delete, self.condition, Seq::empty())),
            w.not_matched_actions == self.writer.not_matched_actions,
            w.not_matched_by_source_actions == self.writer.not_matched_by_source_actions,
            w.source_plan == self.writer.source_plan,
            w.schema_evolution == self.writer.schema_evolution,
    {
        self.finish(MergeActionType::Delete, Vec::new())
    }
}

/// A `WHEN NOT MATCHED` clause being built.
#[derive(Debug)]
pub struct WhenNotMatched {
    pub writer: MergeIntoWriter,
    pub condition: Option<Column>,
}

impl WhenNotMatched {
    fn finish(self, t: MergeActionType, assignments: Vec<(String, Column)>) -> (w: MergeIntoWriter)
        ensures
            actions_view(w.not_matched_actions@) == actions_view(self.writer.not_matched_actions@).push(action_msg(t, self.condition, assignments@)),
            w.matched_actions == self.writer.matched_actions,
            w.not_matched_by_source_actions == self.writer.not_matched_by_source_actions,
            w.source_plan == self.writer.source_plan,
            w.target_table == self.writer.target_table,
            w.condition == self.writer.condition,
            w.schema_evolution == self.writer.schema_evolution,
    {
        let action = merge_action(t, &self.condition, assignments);
        let mut writer = self.writer;
        let ghost before = writer.not_matched_actions@;
        writer.not_matched_actions.push(action);
        assert(actions_view(writer.not_matched_actions@) =~= actions_view(before).push(merge_action_view(action)));
        writer
    }

    /// `INSERT *`.
    pub fn insert_all(self) -> (w: MergeIntoWriter)
        ensures
            actions_view(w.not_matched_actions@) == actions_view(self.writer.not_matched_actions@).push(action_msg(MergeActionType::InsertStar, self.condition, Seq::empty())),
            w.matched_actions == self.writer.matched_actions,
            w.not_matched_by_source_actions == self.writer.not_matched_by_source_actions,
            w.source_plan == self.writer.source_plan,
            w.schema_evolution == self.writer.schema_evolution,
    {
        self.finish(MergeActionType::InsertStar, Vec::new())
    }

    /// `INSERT` the `assignments`.
    pub fn insert(self, assignments: Vec<(String, Column)>) -> (w: MergeIntoWriter)
        ensures
            actions_view(w.not_matched_actions@) == actions_view(self.writer.not_matched_actions@).push(action_msg(MergeActionType::Insert, self.condition, assignments@)),
            w.matched_actions == self.writer.matched_actions,
            w.not_matched_by_source_actions == self.writer.not_matched_by_source_actions,
            w.source_plan == self.writer.source_plan,
            w.schema_evolution == self.writer.schema_evolution,
    {
        self.finish(MergeActionType::Insert, assignments)
    }
}

/// A `WHEN NOT MATCHED BY SOURCE` clause being built.
#[derive(Debug)]
pub struct WhenNotMatchedBySource {
    pub writer: MergeIntoWriter,
    pub condition: Option<Column>,
}

impl WhenNotMatchedBySource {
    fn finish(self, t: MergeActionType, assignments: Vec<(String, Column)>) -> (w: MergeIntoWriter)
        ensures
            actions_view(w.not_matched_by_source_actions@) == actions_view(self.writer.not_matched_by_source_actions@).push(action_msg(t, self.condition, assignments@)),
            w.matched_actions == self.writer.matched_actions,
            w.not_matched_actions == self.writer.not_matched_actions,
            w.source_plan == self.writer.source_plan,
            w.target_table == self.writer.target_table,
            w.condition == self.writer.condition,
            w.schema_evolution == self.writer.schema_evolution,
    {
        let action = merge_action(t, &self.condition, assignments);
        let mut writer = self.writer;
        let ghost before = writer.not_matched_by_source_actions@;
        writer.not_matched_by_source_actions.push(action);
        assert(actions_view(writer.not_matched_by_source_actions@) =~= actions_view(before).push(merge_action_view(action)));
        writer
    }

    /// `UPDATE SET *`.
    pub fn update_all(self) -> (w: MergeIntoWriter)
        ensures
            actions_view(w.not_matched_by_source_actions@) == actions_view(self.writer.not_matched_by_source_actions@).push(action_msg(MergeActionType::UpdateStar, self.condition, Seq::empty())),
            w.matched_actions == self.writer.matched_actions,
            w.not_matched_actions == self.writer.not_matched_actions,
            w.source_plan == self.writer.source_plan,
            w.schema_evolution == self.writer.schema_evolution,
    {
        self.finish(MergeActionType::UpdateStar, Vec::new())
    }

    /// `UPDATE SET` the `assignments`.
    pub fn update(self, assignments: Vec<(String, Column)>) -> (w: MergeIntoWriter)
        ensures
            actions_view(w.not_matched_by_source_actions@) == actions_view(self.writer.not_matched_by_source_actions@).push(action_msg(MergeActionType::Update, self.condition, assignments@)),
            w.matched_actions == self.writer.matched_actions,
            w.not_matched_actions == self.writer.not_matched_actions,
            w.source_plan == self.writer.source_plan,
            w.schema_evolution == self.writer.schema_evolution,
    {
        self.finish(MergeActionType::Update, assignments)
    }

    /// `DELETE`.
    pub fn delete(self) -> (w: MergeIntoWriter)
        ensures
            actions_view(w.not_matched_by_source_actions@) == actions_view(self.writer.not_matched_by_source_actions@).push(action_msg(MergeActionType::Delete, self.condition, Seq::empty())),
            w.matched_actions == self.writer.matched_actions,
            w.not_matched_actions == self.writer.not_matched_actions,
            w.source_plan == self.writer.source_plan,
            w.schema_evolution == self.writer.schema_evolution,
    {
        self.finish(MergeActionType::Delete, Vec::new())
    }
}

} // verus!
