//! Resource profiles: the executor and task resources a stage asks for,
//! one request per resource name.

use vstd::prelude::*;
use crate::proto::opt_string_view;
use crate::text::{owned, str_eq};
use crate::types::Float64;

verus! {

/// `spark.connect.ExecutorResourceRequest`.
#[derive(Debug)]
pub struct ExecutorResourceRequest {
    pub resource_name: String,
    pub amount: i64,
    pub discovery_script: Option<String>,
    pub vendor: Option<String>,
}

/// `spark.connect.TaskResourceRequest`.
#[derive(Debug)]
pub struct TaskResourceRequest {
    pub resource_name: String,
    pub amount: Float64,
}

/// The value of an executor request: name, amount, script, vendor.
pub type ExecutorRequestView = (Seq<char>, i64, Option<Seq<char>>, Option<Seq<char>>);

pub open spec fn executor_request_view(r: ExecutorResourceRequest) -> ExecutorRequestView {
    (r.resource_name@, r.amount, opt_string_view(r.discovery_script), opt_string_view(r.vendor))
}

/// The requests after setting the request `r`: a request of the same name
/// is replaced in place, otherwise `r` is appended.
pub open spec fn put_request<A>(s: Seq<A>, name_of: spec_fn(A) -> Seq<char>, r: A) -> Seq<A> {
    if exists|i: int| 0 <= i < s.len() && name_of(s[i]) == name_of(r) {
        s.update(choose|i: int| 0 <= i < s.len() && name_of(s[i]) == name_of(r), r)
    } else {
        s.push(r)
    }
}

/// The names of `s` under `name_of` are pairwise distinct.
pub open spec fn names_distinct<A>(s: Seq<A>, name_of: spec_fn(A) -> Seq<char>) -> bool {
    forall|i: int, j: int| 0 <= i < j < s.len() ==> name_of(#[trigger] s[i]) != name_of(#[trigger] s[j])
}

/// Setting a request makes it the one request of its name: names stay
/// distinct, the request is there, no other request has its name, and the
/// requests of every other name are the ones there were before.
pub proof fn law_put_request<A>(s: Seq<A>, name_of: spec_fn(A) -> Seq<char>, r: A)
    requires
        names_distinct(s, name_of),
    ensures
        names_distinct(put_request(s, name_of, r), name_of),
        put_request(s, name_of, r).contains(r),
        forall|k: int| 0 <= k < put_request(s, name_of, r).len()
            && name_of(#[trigger] put_request(s, name_of, r)[k]) == name_of(r) ==> put_request(s, name_of, r)[k] == r,
        forall|a: A| name_of(a) != name_of(r) ==> (#[trigger] put_request(s, name_of, r).contains(a) <==> s.contains(a)),
{
    let p = put_request(s, name_of, r);
    if exists|i: int| 0 <= i < s.len() && name_of(s[i]) == name_of(r) {
        let c = choose|i: int| 0 <= i < s.len() && name_of(s[i]) == name_of(r);
        assert(p == s.update(c, r));
        assert(p[c] == r);
        assert forall|k: int| 0 <= k < p.len() && name_of(#[trigger] p[k]) == name_of(r) implies p[k] == r by {
            if k != c {
                if k < c {
                    assert(name_of(s[k]) != name_of(s[c]));
                } else {
                    assert(name_of(s[c]) != name_of(s[k]));
                }
            }
        }
        assert forall|a: A| name_of(a) != name_of(r) implies (#[trigger] p.contains(a) <==> s.contains(a)) by {
            if p.contains(a) {
                let k = choose|k: int| 0 <= k < p.len() && p[k] == a;
                assert(s[k] == a);
            }
            if s.contains(a) {
                let k = choose|k: int| 0 <= k < s.len() && s[k] == a;
                assert(p[k] == a);
            }
        }
        assert forall|a: int, b: int| 0 <= a < b < p.len() implies name_of(#[trigger] p[a]) != name_of(#[trigger] p[b]) by {
            assert(name_of(s[a]) != name_of(s[b]));
        }
    } else {
        assert(p == s.push(r));
        assert(p[s.len() as int] == r);
        assert forall|a: A| name_of(a) != name_of(r) implies (#[trigger] p.contains(a) <==> s.contains(a)) by {
            if p.contains(a) {
                let k = choose|k: int| 0 <= k < p.len() && p[k] == a;
                assert(s[k] == a);
            }
            if s.contains(a) {
                let k = choose|k: int| 0 <= k < s.len() && s[k] == a;
                assert(p[k] == a);
            }
        }
    }
}

pub open spec fn exec_name(r: ExecutorRequestView) -> Seq<char> {
    r.0
}

/// Executor resource requests, one per resource name.
#[derive(Debug)]
pub struct ExecutorResourceRequests {
    resources: Vec<ExecutorResourceRequest>,
}

impl ExecutorResourceRequests {
    #[verifier::type_invariant]
    pub closed spec fn wf(&self) -> bool {
        forall|i: int, j: int| 0 <= i < j < self.resources@.len()
            ==> #[trigger] self.resources@[i].resource_name@ != #[trigger] self.resources@[j].resource_name@
    }

    /// The requests, in the order their names were first set.
    pub closed spec fn requests(&self) -> Seq<ExecutorRequestView> {
        self.resources@.map_values(|r: ExecutorResourceRequest| executor_request_view(r))
    }

    /// No requests.
    pub fn new() -> (e: ExecutorResourceRequests)
        ensures
            e.requests().len() == 0,
            names_distinct(e.requests(), |x: ExecutorRequestView| exec_name(x)),
    {
        let e = ExecutorResourceRequests { resources: Vec::new() };
        assert(e.requests() =~= Seq::<ExecutorRequestView>::empty());
        e
    }

    /// The number of requests.
    pub fn len(&self) -> (n: usize)
        ensures
            n == self.requests().len(),
    {
        self.resources.len()
    }

    /// The request named `name`, if there is one.
    pub fn get(&self, name: &str) -> (r: Option<&ExecutorResourceRequest>)
        ensures
            match r {
                Some(x) => exists|i: int| 0 <= i < self.requests().len() && self.requests()[i] == executor_request_view(*x)
                    && x.resource_name@ == name@,
                None => forall|i: int| 0 <= i < self.requests().len() ==> self.requests()[i].0 != name@,
            },
    {
        let mut i: usize = 0;
        while i < self.resources.len()
            invariant
                i <= self.resources@.len(),
                forall|j: int| 0 <= j < i ==> self.resources@[j].resource_name@ != name@,
            decreases self.resources@.len() - i,
        {
            if str_eq(self.resources[i].resource_name.as_str(), name) {
                assert(self.requests()[i as int] == executor_request_view(self.resources@[i as int]));
                return Some(&self.resources[i]);
            }
            i = i + 1;
        }
        None
    }

    /// The index of the request named `name`, if there is one.
    fn position(&self, name: &str) -> (r: Option<usize>)
        ensures
            match r {
                Some(k) => k < self.resources@.len() && self.resources@[k as int].resource_name@ == name@,
                None => forall|j: int| 0 <= j < self.resources@.len() ==> self.resources@[j].resource_name@ != name@,
            },
    {
        let mut i: usize = 0;
        while i < self.resources.len()
            invariant
                i <= self.resources@.len(),
                forall|j: int| 0 <= j < i ==> self.resources@[j].resource_name@ != name@,
            decreases self.resources@.len() - i,
        {
            if str_eq(self.resources[i].resource_name.as_str(), name) {
                return Some(i);
            }
            i = i + 1;
        }
        None
    }

    /// Sets the request `r`, replacing one of the same name.
    fn put(self, r: ExecutorResourceRequest) -> (e: ExecutorResourceRequests)
        ensures
            e.requests() == put_request(self.requests(), |x: ExecutorRequestView| exec_name(x), executor_request_view(r)),
    {
        proof {
            use_type_invariant(&self);
        }
        let ghost old_reqs = self.requests();
        let ghost old_res = self.resources@;
        let ghost rv = executor_request_view(r);
        let ghost name_of = |x: ExecutorRequestView| exec_name(x);
        let found = self.position(r.resource_name.as_str());
        let mut resources = self.resources;
        match found {
            Some(k) => {
                resources.set(k, r);
                proof {
                    assert forall|a: int, b: int| 0 <= a < b < resources@.len()
                        implies #[trigger] resources@[a].resource_name@ != #[trigger] resources@[b].resource_name@ by {
                        if a != k && b != k {
                            assert(old_res[a].resource_name@ != old_res[b].resource_name@);
                        } else if a == k {
                            assert(old_res[a].resource_name@ != old_res[b].resource_name@);
                        } else {
                            assert(old_res[a].resource_name@ != old_res[b].resource_name@);
                        }
                    }
                    assert(old_reqs[k as int] == executor_request_view(old_res[k as int]));
                    assert(name_of(old_reqs[k as int]) == name_of(rv));
                    let c = choose|c: int| 0 <= c < old_reqs.len() && name_of(old_reqs[c]) == name_of(rv);
                    assert(old_reqs[c] == executor_request_view(old_res[c]));
                    if c < k {
                        assert(old_res[c].resource_name@ != old_res[k as int].resource_name@);
                    } else if c > k {
                        assert(old_res[k as int].resource_name@ != old_res[c].resource_name@);
                    }
                    assert(resources@.map_values(|x: ExecutorResourceRequest| executor_request_view(x)) =~= old_reqs.update(k as int, rv));
                }
            },
            None => {
                resources.push(r);
                proof {
                    assert(resources@.map_values(|x: ExecutorResourceRequest| executor_request_view(x)) =~= old_reqs.push(rv));
                    assert forall|a: int, b: int| 0 <= a < b < resources@.len()
                        implies #[trigger] resources@[a].resource_name@ != #[trigger] resources@[b].resource_name@ by {
                        if b == resources@.len() - 1 {
                            assert(resources@[a].resource_name@ != rv.0);
                        }
                    }
                    if exists|c: int| 0 <= c < old_reqs.len() && name_of(old_reqs[c]) == name_of(rv) {
                        let c = choose|c: int| 0 <= c < old_reqs.len() && name_of(old_reqs[c]) == name_of(rv);
                        assert(old_reqs[c].0 == resources@[c].resource_name@);
                    }
                }
            },
        }
        ExecutorResourceRequests { resources }
    }

    fn named(self, name: &str, amount: i64) -> (e: ExecutorResourceRequests)
        ensures
            e.requests() == put_request(self.requests(), |x: ExecutorRequestView| exec_name(x), (name@, amount, None, None)),
    {
        let r = ExecutorResourceRequest { resource_name: owned(name), amount, discovery_script: None, vendor: None };
        self.put(r)
    }

    /// Asks for `memory_mb` MB of executor memory (the `memory` request).
    pub fn memory(self, memory_mb: i64) -> (e: ExecutorResourceRequests)
        ensures
            e.requests() == put_request(self.requests(), |x: ExecutorRequestView| exec_name(x), ("memory"@, memory_mb, None, None)),
    {
        self.named("memory", memory_mb)
    }

    /// Asks for `memory_mb` MB of off-heap memory (the `offHeap` request).
    pub fn off_heap_memory(self, memory_mb: i64) -> (e: ExecutorResourceRequests)
        ensures
            e.requests() == put_request(self.requests(), |x: ExecutorRequestView| exec_name(x), ("offHeap"@, memory_mb, None, None)),
    {
        self.named("offHeap", memory_mb)
    }

    /// Asks for `num_cores` cores (the `cores` request).
    pub fn cores(self, num_cores: i64) -> (e: ExecutorResourceRequests)
        ensures
            e.requests() == put_request(self.requests(), |x: ExecutorRequestView| exec_name(x), ("cores"@, num_cores, None, None)),
    {
        self.named("cores", num_cores)
    }

    /// Asks for `amount` of the custom resource `name`.
    pub fn resource(self, name: &str, amount: i64, discovery_script: Option<String>, vendor: Option<String>) -> (e: ExecutorResourceRequests)
        ensures
            e.requests() == put_request(self.requests(), |x: ExecutorRequestView| exec_name(x),
                (name@, amount, opt_string_view(discovery_script), opt_string_view(vendor))),
    {
        let r = ExecutorResourceRequest { resource_name: owned(name), amount, discovery_script, vendor };
        self.put(r)
    }
}

/// The value of a task request: name and amount.
pub type TaskRequestView = (Seq<char>, (u64, Seq<char>));

pub open spec fn task_name(r: TaskRequestView) -> Seq<char> {
    r.0
}

/// Task resource requests, one per resource name.
#[derive(Debug)]
pub struct TaskResourceRequests {
    resources: Vec<TaskResourceRequest>,
}

impl TaskResourceRequests {
    #[verifier::type_invariant]
    pub closed spec fn wf(&self) -> bool {
        forall|i: int, j: int| 0 <= i < j < self.resources@.len()
            ==> #[trigger] self.resources@[i].resource_name@ != #[trigger] self.resources@[j].resource_name@
    }

    /// The requests, in the order their names were first set.
    pub closed spec fn requests(&self) -> Seq<TaskRequestView> {
        self.resources@.map_values(|r: TaskResourceRequest| (r.resource_name@, r.amount@))
    }

    /// No requests.
    pub fn new() -> (t: TaskResourceRequests)
        ensures
            t.requests().len() == 0,
            names_distinct(t.requests(), |x: TaskRequestView| task_name(x)),
    {
        let t = TaskResourceRequests { resources: Vec::new() };
        assert(t.requests() =~= Seq::<TaskRequestView>::empty());
        t
    }

    /// The number of requests.
    pub fn len(&self) -> (n: usize)
        ensures
            n == self.requests().len(),
    {
        self.resources.len()
    }

    /// The request named `name`, if there is one.
    pub fn get(&self, name: &str) -> (r: Option<&TaskResourceRequest>)
        ensures
            match r {
                Some(x) => exists|i: int| 0 <= i < self.requests().len() && self.requests()[i] == (x.resource_name@, x.amount@)
                    && x.resource_name@ == name@,
                None => forall|i: int| 0 <= i < self.requests().len() ==> self.requests()[i].0 != name@,
            },
    {
        let mut i: usize = 0;
        while i < self.resources.len()
            invariant
                i <= self.resources@.len(),
                forall|j: int| 0 <= j < i ==> self.resources@[j].resource_name@ != name@,
            decreases self.resources@.len() - i,
        {
            if str_eq(self.resources[i].resource_name.as_str(), name) {
                assert(self.requests()[i as int] == (self.resources@[i as int].resource_name@, self.resources@[i as int].amount@));
                return Some(&self.resources[i]);
            }
            i = i + 1;
        }
        None
    }

    /// The index of the request named `name`, if there is one.
    fn position(&self, name: &str) -> (r: Option<usize>)
        ensures
            match r {
                Some(k) => k < self.resources@.len() && self.resources@[k as int].resource_name@ == name@,
                None => forall|j: int| 0 <= j < self.resources@.len() ==> self.resources@[j].resource_name@ != name@,
            },
    {
        let mut i: usize = 0;
        while i < self.resources.len()
            invariant
                i <= self.resources@.len(),
                forall|j: int| 0 <= j < i ==> self.resources@[j].resource_name@ != name@,
            decreases self.resources@.len() - i,
        {
            if str_eq(self.resources[i].resource_name.as_str(), name) {
                return Some(i);
            }
            i = i + 1;
        }
        None
    }

    /// Asks for `amount` of the resource `name` per task, replacing a request
    /// of the same name.
    pub fn resource(self, name: &str, amount: Float64) -> (t: TaskResourceRequests)
        ensures
            t.requests() == put_request(self.requests(), |x: TaskRequestView| task_name(x), (name@, amount@)),
    {
        proof {
            use_type_invariant(&self);
        }
        let ghost old_reqs = self.requests();
        let ghost old_res = self.resources@;
        let ghost rv = (name@, amount@);
        let ghost name_of = |x: TaskRequestView| task_name(x);
        let found = self.position(name);
        let r = TaskResourceRequest { resource_name: owned(name), amount };
        let mut resources = self.resources;
        match found {
            Some(k) => {
                resources.set(k, r);
                proof {
                    assert forall|a: int, b: int| 0 <= a < b < resources@.len()
                        implies #[trigger] resources@[a].resource_name@ != #[trigger] resources@[b].resource_name@ by {
                        if a != k && b != k {
                            assert(old_res[a].resource_name@ != old_res[b].resource_name@);
                        } else if a == k {
                            assert(old_res[a].resource_name@ != old_res[b].resource_name@);
                        } else {
                            assert(old_res[a].resource_name@ != old_res[b].resource_name@);
                        }
                    }
                    assert(old_reqs[k as int] == (old_res[k as int].resource_name@, old_res[k as int].amount@));
                    assert(name_of(old_reqs[k as int]) == name_of(rv));
                    let c = choose|c: int| 0 <= c < old_reqs.len() && name_of(old_reqs[c]) == name_of(rv);
                    assert(old_reqs[c] == (old_res[c].resource_name@, old_res[c].amount@));
                    if c < k {
                        assert(old_res[c].resource_name@ != old_res[k as int].resource_name@);
                    } else if c > k {
                        assert(old_res[k as int].resource_name@ != old_res[c].resource_name@);
                    }
                    assert(resources@.map_values(|x: TaskResourceRequest| (x.resource_name@, x.amount@)) =~= old_reqs.update(k as int, rv));
                }
            },
            None => {
                resources.push(r);
                proof {
                    assert(resources@.map_values(|x: TaskResourceRequest| (x.resource_name@, x.amount@)) =~= old_reqs.push(rv));
                    assert forall|a: int, b: int| 0 <= a < b < resources@.len()
                        implies #[trigger] resources@[a].resource_name@ != #[trigger] resources@[b].resource_name@ by {
                        if b == resources@.len() - 1 {
                            assert(resources@[a].resource_name@ != rv.0);
                        }
                    }
                    if exists|c: int| 0 <= c < old_reqs.len() && name_of(old_reqs[c]) == name_of(rv) {
                        let c = choose|c: int| 0 <= c < old_reqs.len() && name_of(old_reqs[c]) == name_of(rv);
                        assert(old_reqs[c].0 == resources@[c].resource_name@);
                    }
                }
            },
        }
        TaskResourceRequests { resources }
    }

    /// Asks for `num_cpus` CPUs per task (the `cpus` request).
    pub fn cpus(self, num_cpus: Float64) -> (t: TaskResourceRequests)
        ensures
            t.requests() == put_request(self.requests(), |x: TaskRequestView| task_name(x), ("cpus"@, num_cpus@)),
    {
        self.resource("cpus", num_cpus)
    }
}

/// A resource profile being built.
#[derive(Debug)]
pub struct ResourceProfileBuilder {
    pub executor_requests: ExecutorResourceRequests,
    pub task_requests: TaskResourceRequests,
}

/// A resource profile, with its id once the server has registered it.
#[derive(Debug)]
pub struct ResourceProfile {
    pub executor_resources: ExecutorResourceRequests,
    pub task_resources: TaskResourceRequests,
    pub profile_id: Option<i32>,
}

impl ResourceProfileBuilder {
    /// A builder with no requests.
    pub fn new() -> (b: ResourceProfileBuilder)
        ensures
            b.executor_requests.requests().len() == 0,
            b.task_requests.requests().len() == 0,
    {
        ResourceProfileBuilder { executor_requests: ExecutorResourceRequests::new(), task_requests: TaskResourceRequests::new() }
    }

    /// Sets the executor requests.
    pub fn executor_resources(self, requests: ExecutorResourceRequests) -> (b: ResourceProfileBuilder)
        ensures
            b == (ResourceProfileBuilder { executor_requests: requests, ..self }),
    {
        ResourceProfileBuilder { executor_requests: requests, ..self }
    }

    /// Sets the task requests.
    pub fn task_resources(self, requests: TaskResourceRequests) -> (b: ResourceProfileBuilder)
        ensures
            b == (ResourceProfileBuilder { task_requests: requests, ..self }),
    {
        ResourceProfileBuilder { task_requests: requests, ..self }
    }

    /// The profile of these requests, not yet registered.
    pub fn build(self) -> (p: ResourceProfile)
        ensures
            p.executor_resources == self.executor_requests,
            p.task_resources == self.task_requests,
            p.profile_id is None,
    {
        ResourceProfile { executor_resources: self.executor_requests, task_resources: self.task_requests, profile_id: None }
    }
}

impl ResourceProfile {
    /// The id the server gave the profile, if it is registered.
    pub fn id(&self) -> (r: Option<i32>)
        ensures
            r == self.profile_id,
    {
        self.profile_id
    }
}

} // verus!
