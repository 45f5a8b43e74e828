use mccl_node::instance::InstanceConfig;
use mccl_node::service::ServiceCheck;
use mccl_node::session::{
    discovered, is_running, session_check_request, session_start_request, session_step,
    DiscoveryFailure, HttpMethod, ServiceReply, SessionStage, SessionStep,
};

fn config() -> InstanceConfig {
    InstanceConfig {
        name: "World".to_string(),
        username: "alex".to_string(),
        token: "t0k3n".to_string(),
        service: "https://svc.example".to_string(),
        discord_webhook: Some("hook".to_string()),
        java_runtime: "java".to_string(),
        args: vec![],
        untracked: vec![],
    }
}

fn check(status: &str, host: Option<&str>) -> ServiceCheck {
    ServiceCheck {
        status: status.to_string(),
        host: host.map(|h| h.to_string()),
        nodeid: None,
        alpn: None,
    }
}

#[test]
fn check_request_shape() {
    let r = session_check_request(&config());
    assert_eq!(r.method, HttpMethod::Get);
    assert_eq!(r.url, "https://svc.example/session/check");
    assert_eq!(r.authorization, "alex t0k3n");
    assert!(r.json_body.is_none());
}

#[test]
fn start_request_carries_node_and_alpn() {
    let r = session_start_request(&config(), &vec![1, 2, 255], &vec![97, 98]);
    assert_eq!(r.method, HttpMethod::Post);
    assert_eq!(r.url, "https://svc.example/session/start");
    assert_eq!(r.authorization, "alex t0k3n");
    assert_eq!(r.json_body.unwrap(), "{\"alpn\":[97,98],\"nodeid\":[1,2,255]}");
}

#[test]
fn running_status() {
    assert!(is_running(&check("running", Some("bob"))));
    assert!(!is_running(&check("stopped", None)));
    assert!(!is_running(&check("Running", None)));
}

#[test]
fn session_steps() {
    assert!(matches!(
        session_step(SessionStage::Checking, ServiceReply::Answered(check("idle", None))),
        SessionStep::Register
    ));
    assert!(matches!(
        session_step(SessionStage::Registering, ServiceReply::Answered(check("idle", None))),
        SessionStep::Hosting
    ));
    match session_step(SessionStage::Checking, ServiceReply::Answered(check("running", Some("bob")))) {
        SessionStep::Occupied { host, stage } => {
            assert_eq!(host, "bob");
            assert_eq!(stage, SessionStage::Checking);
        }
        other => panic!("unexpected {:?}", other),
    }
    let failed = session_step(SessionStage::Registering, ServiceReply::Unsent);
    assert!(matches!(failed, SessionStep::Unsent { stage: SessionStage::Registering }));
    assert!(failed.pauses());
    let unread = session_step(SessionStage::Checking, ServiceReply::Unreadable);
    assert!(unread.pauses());
    let occupied = session_step(SessionStage::Registering, ServiceReply::Answered(check("running", Some("x"))));
    assert!(!occupied.pauses());
}

#[test]
fn discovery_results() {
    assert_eq!(discovered(ServiceReply::Unsent).unwrap_err(), DiscoveryFailure::Unsent);
    assert_eq!(discovered(ServiceReply::Unreadable).unwrap_err(), DiscoveryFailure::Unreadable);
    let found = discovered(ServiceReply::Answered(check("running", Some("bob")))).unwrap();
    assert_eq!(found.host.as_deref(), Some("bob"));
}
