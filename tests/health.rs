use health_offload::health::{STATUS_OK, STATUS_SERVER_ERROR};
use health_offload::{health_check, project_name, reply_to, HealthCheck, OffloadError, Reply};

#[test]
fn record_keeps_arrival_time() {
    let arrived_ms: u128 = 1_700_000_000_123;
    let h = health_check(arrived_ms);
    assert_eq!(h.time, arrived_ms);
    assert_ne!(h.time, arrived_ms + 5_000);
    assert_eq!(h.project, "actix-web-playground");
}

#[test]
fn record_at_epoch_start() {
    let h = health_check(0);
    assert_eq!(h.time, 0);
    assert_eq!(h.project, "actix-web-playground");
}

#[test]
fn record_at_largest_time() {
    let h = health_check(u128::MAX);
    assert_eq!(h.time, u128::MAX);
}

#[test]
fn project_same_for_every_request() {
    let first = health_check(1_000);
    let second = health_check(2_000);
    assert_eq!(first.project, second.project);
    assert!(!first.project.is_empty());
    assert_eq!(project_name(), first.project);
}

#[test]
fn completed_work_gives_success_reply() {
    let reply = reply_to(Ok(health_check(42)));
    assert_eq!(reply.status(), 200);
    assert_eq!(reply.status(), STATUS_OK);
    match reply {
        Reply::Healthy(h) => {
            assert_eq!(h.time, 42);
            assert_eq!(h.project, "actix-web-playground");
        }
        Reply::Failed(_) => panic!("expected a record"),
    }
}

#[test]
fn panicked_work_gives_server_error() {
    let reply = reply_to(Err(OffloadError::Panicked));
    assert_eq!(reply.status(), 500);
    assert!(matches!(reply, Reply::Failed(OffloadError::Panicked)));
}

#[test]
fn rejected_work_gives_server_error() {
    let reply = reply_to(Err(OffloadError::Rejected));
    assert_eq!(reply.status(), STATUS_SERVER_ERROR);
    assert!(matches!(reply, Reply::Failed(OffloadError::Rejected)));
}

#[test]
fn error_kind_names() {
    assert_eq!(OffloadError::Panicked.kind(), "OffloadPanicked");
    assert_eq!(OffloadError::Rejected.kind(), "OffloadRejected");
}

#[test]
fn record_clone_is_equal() {
    let h = HealthCheck { project: project_name(), time: 7 };
    let c = h.clone();
    assert_eq!(c.project, h.project);
    assert_eq!(c.time, 7);
}
