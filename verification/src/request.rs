//! The request messages that carry a plan to the server: an execution
//! request and a schema analysis request, both for a session and a user.

use vstd::prelude::*;
use crate::catalog::{Catalog, CatalogOp};
use crate::dataframe::DataFrame;
use crate::plan::plan_rel;
use crate::plan_ids::{PlanIdCounter, assign_rel, count_rel};
use crate::relation::{Relation, RelationCommonView, RelationView, RelTypeView};
use crate::text::owned;

verus! {

/// `spark.connect.UserContext`: the user a request is made for.
#[derive(Debug)]
pub struct UserContext {
    pub user_id: String,
    pub user_name: String,
}

/// `spark.connect.Plan` with a root relation.
#[derive(Debug)]
pub struct Plan {
    pub root: Relation,
}

/// `spark.connect.ExecutePlanRequest`.
#[derive(Debug)]
pub struct ExecutePlanRequest {
    pub session_id: String,
    pub user_context: Option<UserContext>,
    pub plan: Option<Plan>,
}

/// What an analysis request asks: the schema of a plan.
#[derive(Debug)]
pub enum Analyze {
    Schema { plan: Option<Plan> },
}

/// `spark.connect.AnalyzePlanRequest`.
#[derive(Debug)]
pub struct AnalyzePlanRequest {
    pub session_id: String,
    pub user_context: Option<UserContext>,
    pub analyze: Option<Analyze>,
}

/// `c` is the default user context: no user id, no user name.
pub open spec fn is_default_user(c: Option<UserContext>) -> bool {
    c matches Some(u) && u.user_id@.len() == 0 && u.user_name@.len() == 0
}

fn default_user() -> (u: UserContext)
    ensures
        is_default_user(Some(u)),
{
    UserContext { user_id: String::new(), user_name: String::new() }
}

impl DataFrame {
    /// The request that executes this DataFrame in session `session_id`: its
    /// plan as the root relation, nodes numbered from `counter`.
    pub fn build_execute_request(&self, session_id: &str, counter: &mut PlanIdCounter) -> (r: ExecutePlanRequest)
        requires
            old(counter).next + count_rel(plan_rel(*self.plan)) <= i64::MAX,
        ensures
            r.session_id@ == session_id@,
            is_default_user(r.user_context),
            r.plan matches Some(p)
                && assign_rel(plan_rel(*self.plan), old(counter).next as int) == (p.root@, final(counter).next as int),
    {
        let root = self.build_relation(counter);
        ExecutePlanRequest {
            session_id: owned(session_id),
            user_context: Some(default_user()),
            plan: Some(Plan { root }),
        }
    }

    /// The request that asks for the schema of this DataFrame in session
    /// `session_id`: its plan as the root relation, nodes numbered from
    /// `counter`.
    pub fn build_analyze_request(&self, session_id: &str, counter: &mut PlanIdCounter) -> (r: AnalyzePlanRequest)
        requires
            old(counter).next + count_rel(plan_rel(*self.plan)) <= i64::MAX,
        ensures
            r.session_id@ == session_id@,
            is_default_user(r.user_context),
            r.analyze matches Some(Analyze::Schema { plan: Some(p) })
                && assign_rel(plan_rel(*self.plan), old(counter).next as int) == (p.root@, final(counter).next as int),
    {
        let root = self.build_relation(counter);
        AnalyzePlanRequest {
            session_id: owned(session_id),
            user_context: Some(default_user()),
            analyze: Some(Analyze::Schema { plan: Some(Plan { root }) }),
        }
    }
}

impl Catalog {
    /// The request that executes the catalog request `op` in session
    /// `session_id`: a root catalog relation without a plan id.
    pub fn build_execute_catalog_request(&self, op: CatalogOp, session_id: &str) -> (r: ExecutePlanRequest)
        ensures
            r.session_id@ == session_id@,
            is_default_user(r.user_context),
            r.plan matches Some(p)
                && p.root@ == (RelationView { common: Some(RelationCommonView { plan_id: None }), rel_type: Some(RelTypeView::Catalog(op@)) }),
    {
        let root = self.request_relation(op);
        ExecutePlanRequest {
            session_id: owned(session_id),
            user_context: Some(default_user()),
            plan: Some(Plan { root }),
        }
    }
}

} // verus!
