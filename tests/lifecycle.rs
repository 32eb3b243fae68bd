use backend_supervisor::decimal::decimal_string;
use backend_supervisor::health::health_from_probe;
use backend_supervisor::launch::{BuildMode, TargetOs};
use backend_supervisor::port::{allocate_port, PORT_HIGH, PORT_LOW};
use backend_supervisor::supervisor::{stop_result, BackendError, Supervisor};

#[test]
fn port_range_bounds() {
    assert_eq!(PORT_LOW, 8000);
    assert_eq!(PORT_HIGH, 9000);
}

#[test]
fn allocated_ports_vary() {
    let first = allocate_port();
    let mut differs = false;
    for _ in 0..500 {
        let p = allocate_port();
        assert!(p >= PORT_LOW && p < PORT_HIGH);
        if p != first {
            differs = true;
        }
    }
    assert!(differs);
}

#[test]
fn failed_start_leaves_port_unset() {
    let mut sup: Supervisor<u32> = Supervisor::new();
    let plan = sup.begin_start(BuildMode::Packaged, TargetOs::Unix);
    let r = sup.finish_start(plan.port, Err("No such file or directory".to_string()));
    assert_eq!(r, Err(BackendError::Spawn("No such file or directory".to_string())));
    assert!(!sup.is_tracking());
    assert_eq!(sup.get_backend_port(), Err(BackendError::NotStarted));
}

#[test]
fn port_query_returns_started_port() {
    let mut sup: Supervisor<u32> = Supervisor::new();
    let plan = sup.begin_start(BuildMode::Development, TargetOs::Unix);
    let port = sup.finish_start(plan.port, Ok(7)).unwrap();
    assert_eq!(port, plan.port);
    assert_eq!(sup.get_backend_port(), Ok(port));
    assert_eq!(sup.take_process(), Some(7));
    assert_eq!(sup.get_backend_port(), Ok(port));
}

#[test]
fn stop_on_fresh_supervisor_is_no_op() {
    let mut sup: Supervisor<u32> = Supervisor::new();
    let handed = sup.take_process();
    assert!(handed.is_none());
    assert_eq!(stop_result(None), Ok(()));
    assert_eq!(sup.get_backend_port(), Err(BackendError::NotStarted));
}

#[test]
fn stop_reports_kill_failure() {
    assert_eq!(stop_result(Some(Ok(()))), Ok(()));
    assert_eq!(
        stop_result(Some(Err("Operation not permitted".to_string()))),
        Err(BackendError::Kill("Operation not permitted".to_string()))
    );
}

#[test]
fn second_start_hands_out_first_handle() {
    let mut sup: Supervisor<u32> = Supervisor::new();
    let plan = sup.begin_start(BuildMode::Development, TargetOs::Unix);
    sup.finish_start(plan.port, Ok(1)).unwrap();
    let plan2 = sup.begin_start(BuildMode::Development, TargetOs::Unix);
    assert_eq!(plan2.previous, Some(1));
    assert!(!sup.is_tracking());
    sup.finish_start(plan2.port, Ok(2)).unwrap();
    assert_eq!(sup.take_process(), Some(2));
    assert!(sup.take_process().is_none());
}

#[test]
fn shutdown_after_start_clears_handle() {
    let mut sup: Supervisor<u32> = Supervisor::new();
    let plan = sup.begin_start(BuildMode::Packaged, TargetOs::Windows);
    sup.finish_start(plan.port, Ok(42)).unwrap();
    assert!(sup.is_tracking());
    assert_eq!(sup.take_process(), Some(42));
    assert!(!sup.is_tracking());
}

#[test]
fn error_messages() {
    assert_eq!(BackendError::NotStarted.message(), "Backend not started");
    assert_eq!(
        BackendError::Spawn("not found".to_string()).message(),
        "Failed to start backend: not found"
    );
    assert_eq!(
        BackendError::Kill("denied".to_string()).message(),
        "Failed to stop backend: denied"
    );
}

#[test]
fn probe_classification() {
    assert!(health_from_probe(Some(200)));
    assert!(health_from_probe(Some(299)));
    assert!(health_from_probe(Some(204)));
    assert!(!health_from_probe(Some(199)));
    assert!(!health_from_probe(Some(300)));
    assert!(!health_from_probe(Some(500)));
    assert!(!health_from_probe(None));
}

#[test]
fn decimal_edges() {
    assert_eq!(decimal_string(0), "0");
    assert_eq!(decimal_string(9), "9");
    assert_eq!(decimal_string(10), "10");
    assert_eq!(decimal_string(8000), "8000");
    assert_eq!(decimal_string(65535), "65535");
}
