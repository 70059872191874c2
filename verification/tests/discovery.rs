use distributed_cicd::discovery::service_key;

#[test]
fn service_keys() {
    assert_eq!(service_key("coordinator"), "/services/coordinator");
    assert_eq!(service_key("worker-service"), "/services/worker-service");
    assert_eq!(service_key(""), "/services/");
}
