use spark_connect::resource::{ExecutorResourceRequests, ResourceProfileBuilder, TaskResourceRequests};
use spark_connect::types::Float64;

fn float(v: f64) -> Float64 {
    Float64 { bits: v.to_bits(), text: v.to_string() }
}

#[test]
fn executor_resource_requests_encode_decode() {
    let reqs = ExecutorResourceRequests::new()
        .memory(2048)
        .cores(4)
        .resource("gpu", 2, None, Some("nvidia".to_string()));

    assert_eq!(reqs.len(), 3);
    assert_eq!(reqs.get("memory").unwrap().amount, 2048);
    assert_eq!(reqs.get("cores").unwrap().amount, 4);
    assert_eq!(reqs.get("gpu").unwrap().amount, 2);
    assert_eq!(reqs.get("gpu").unwrap().vendor, Some("nvidia".to_string()));
}

#[test]
fn task_resource_requests_encode_decode() {
    let reqs = TaskResourceRequests::new().cpus(float(0.5)).resource("gpu", float(0.25));

    assert_eq!(reqs.len(), 2);
    assert_eq!(f64::from_bits(reqs.get("cpus").unwrap().amount.bits), 0.5);
    assert_eq!(f64::from_bits(reqs.get("gpu").unwrap().amount.bits), 0.25);
}

#[test]
fn resource_profile_builder() {
    let executor_reqs = ExecutorResourceRequests::new().memory(4096).cores(8);
    let task_reqs = TaskResourceRequests::new().cpus(float(1.0));

    let profile = ResourceProfileBuilder::new()
        .executor_resources(executor_reqs)
        .task_resources(task_reqs)
        .build();

    assert!(profile.profile_id.is_none());
    assert_eq!(profile.executor_resources.len(), 2);
    assert_eq!(profile.task_resources.len(), 1);

    let executor_mem = profile.executor_resources.get("memory").unwrap();
    assert_eq!(executor_mem.amount, 4096);

    let task_cpus = profile.task_resources.get("cpus").unwrap();
    assert_eq!(f64::from_bits(task_cpus.amount.bits), 1.0);
}

#[test]
fn off_heap_memory_and_profile_accessors() {
    let reqs = ExecutorResourceRequests::new().off_heap_memory(1024).cores(2);
    assert_eq!(reqs.get("offHeap").unwrap().amount, 1024);

    let profile = ResourceProfileBuilder::new().executor_resources(reqs).build();
    // No id before the profile is registered with the server.
    assert!(profile.id().is_none());
    assert_eq!(profile.executor_resources.len(), 2);
}

#[test]
fn setting_a_request_twice_keeps_the_last_amount() {
    let reqs = ExecutorResourceRequests::new().memory(1024).cores(2).memory(4096);
    assert_eq!(reqs.len(), 2);
    assert_eq!(reqs.get("memory").unwrap().amount, 4096);
    assert!(reqs.get("gpu").is_none());
}
