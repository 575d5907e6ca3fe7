use flare_discovery::address::{IpAddress, SocketAddress};
use flare_discovery::balancer::ReadySet;
use flare_discovery::client::ClientBuilder;
use flare_discovery::error::{ErrorBuilder, ErrorCategory, ErrorCode};
use flare_discovery::instance::ServiceInstance;
use flare_discovery::interceptor::trace_info_from;
use flare_discovery::reconciler::{dedup_by_id, ChangeEvent, Reconciler};
use flare_discovery::registry::{
    step, HeartbeatTiming, RegistryAction, RegistryEvent, RegistryLoop, RegistryState,
};
use flare_discovery::retry::{ExponentialBackoffPolicy, FixedRetryPolicy, RpcCode};
use flare_discovery::runtime_config::RuntimeConfig;
use flare_discovery::settings::{default_registry_type, Metrics, RegistryType};

fn inst(id: &str, port: u16) -> ServiceInstance {
    ServiceInstance::new("svc", id, SocketAddress { ip: IpAddress::V4(127, 0, 0, 1), port })
}

fn event_text(e: &ChangeEvent) -> String {
    match e {
        ChangeEvent::Insert(id) => format!("+{}", id),
        ChangeEvent::Remove(id) => format!("-{}", id),
    }
}

/// Runs one pass the way the driver does, with every dial succeeding.
fn run_pass(r: &mut Reconciler, discovered: &Vec<ServiceInstance>, log: &mut Vec<String>) {
    let plan = r.plan(discovered);
    for id in &plan.removals {
        if let Some(e) = r.apply_remove(id) {
            log.push(event_text(&e));
        }
    }
    for i in plan.replacements {
        if let Some(e) = r.apply_remove(&i.instance_id) {
            log.push(event_text(&e));
        }
        if let Some(e) = r.apply_insert(i) {
            log.push(event_text(&e));
        }
    }
    for i in plan.inserts {
        if let Some(e) = r.apply_insert(i) {
            log.push(event_text(&e));
        }
    }
}

#[test]
fn reconciler_emits_insert_then_remove() {
    let mut r = Reconciler::new();
    let mut log = Vec::new();
    run_pass(&mut r, &vec![inst("n1", 1)], &mut log);
    assert_eq!(log, vec!["+n1"]);
    run_pass(&mut r, &vec![inst("n1", 1), inst("n2", 2)], &mut log);
    assert_eq!(log, vec!["+n1", "+n2"]);
    run_pass(&mut r, &vec![inst("n2", 2)], &mut log);
    assert_eq!(log, vec!["+n1", "+n2", "-n1"]);
    let ids: Vec<String> = r.instances().iter().map(|i| i.instance_id.clone()).collect();
    assert_eq!(ids, vec!["n2".to_string()]);
}

#[test]
fn reconciler_replaces_changed_instance() {
    let mut r = Reconciler::new();
    let mut log = Vec::new();
    run_pass(&mut r, &vec![inst("n1", 1)], &mut log);
    run_pass(&mut r, &vec![inst("n1", 1)], &mut log);
    assert_eq!(log, vec!["+n1"]);
    run_pass(&mut r, &vec![inst("n1", 9)], &mut log);
    assert_eq!(log, vec!["+n1", "-n1", "+n1"]);
    assert_eq!(r.instances()[0].address.port, 9);
}

#[test]
fn reconciler_skips_failed_dial_and_never_removes_unknown() {
    let mut r = Reconciler::new();
    let plan = r.plan(&vec![inst("n1", 1)]);
    assert_eq!(plan.inserts.len(), 1);
    assert!(r.apply_remove("n1").is_none());
    assert!(r.instances().is_empty());
    let again = r.plan(&vec![inst("n1", 1)]);
    assert_eq!(again.inserts.len(), 1);
    assert!(r.apply_insert(inst("n1", 1)).is_some());
    assert!(r.apply_insert(inst("n1", 1)).is_none());
}

#[test]
fn first_occurrence_of_an_id_wins() {
    let d = dedup_by_id(&vec![inst("a", 1), inst("b", 2), inst("a", 3)]);
    let seen: Vec<(String, u16)> = d.iter().map(|i| (i.instance_id.clone(), i.address.port)).collect();
    assert_eq!(seen, vec![("a".to_string(), 1), ("b".to_string(), 2)]);
}

#[test]
fn client_waits_until_ready_then_picks() {
    let mut ready = ReadySet::new();
    assert!(ready.is_empty());
    assert!(ready.select(3, 8).is_none());
    ready.apply(&ChangeEvent::Insert("n1".to_string()));
    assert_eq!(ready.select(3, 8).map(|s| s.as_str()), Some("n1"));
    ready.apply(&ChangeEvent::Insert("n2".to_string()));
    ready.apply(&ChangeEvent::Insert("n2".to_string()));
    assert_eq!(ready.len(), 2);
    assert_eq!(ready.select(1, 1).map(|s| s.as_str()), Some("n2"));
    assert_eq!(ready.select(0, 5).map(|s| s.as_str()), Some("n1"));
    ready.apply(&ChangeEvent::Remove("n1".to_string()));
    assert_eq!(ready.select(0, 0).map(|s| s.as_str()), Some("n2"));
    ready.apply(&ChangeEvent::Remove("n2".to_string()));
    assert!(ready.select(0, 0).is_none());
}

#[test]
fn registry_loop_heartbeats_and_shuts_down_once() {
    let timing = HeartbeatTiming::calibrate(Some(3), 10);
    assert_eq!((timing.heartbeat_secs, timing.ttl_secs), (3, 10));
    let mut l = RegistryLoop::new(inst("node-H", 1), timing.heartbeat_secs);
    assert_eq!(l.on_event(RegistryEvent::Start), RegistryAction::Register);
    assert_eq!(l.on_event(RegistryEvent::Registered), RegistryAction::Heartbeat);
    for _ in 0..4 {
        assert_eq!(l.on_event(RegistryEvent::Tick), RegistryAction::Heartbeat);
        assert_eq!(l.on_event(RegistryEvent::HeartbeatFailed), RegistryAction::Nothing);
    }
    assert_eq!(l.state, RegistryState::Heartbeating);
    assert_eq!(l.on_event(RegistryEvent::Shutdown), RegistryAction::Unregister);
    assert_eq!(l.on_event(RegistryEvent::Tick), RegistryAction::Nothing);
    assert_eq!(l.on_event(RegistryEvent::Shutdown), RegistryAction::Nothing);
    assert_eq!(l.on_event(RegistryEvent::Unregistered), RegistryAction::Nothing);
    assert_eq!(l.state, RegistryState::Stopped);
    assert_eq!(l.on_event(RegistryEvent::Shutdown), RegistryAction::Nothing);
    assert_eq!(l.instance().instance_id, "node-H");
}

#[test]
fn registry_register_failure_stops() {
    assert_eq!(
        step(RegistryState::Registering, RegistryEvent::RegisterFailed),
        (RegistryState::Stopped, RegistryAction::ReportFailure)
    );
    assert_eq!(
        step(RegistryState::Registering, RegistryEvent::Shutdown),
        (RegistryState::Deregistering, RegistryAction::Unregister)
    );
    assert_eq!(
        step(RegistryState::Initial, RegistryEvent::Shutdown),
        (RegistryState::Stopped, RegistryAction::Nothing)
    );
}

#[test]
fn error_codes_round_trip_and_classify() {
    assert_eq!(ErrorCode::ConnectionTimeout.as_u32(), 1001);
    assert_eq!(ErrorCode::from_u32(9999), Some(ErrorCode::UnknownError));
    assert_eq!(ErrorCode::from_u32(1007), None);
    assert_eq!(ErrorCode::UserBlocked.as_str(), "USER_BLOCKED");
    assert_eq!(ErrorCode::DatabaseError.category(), ErrorCategory::System);
    assert_eq!(ErrorCode::OperationTimeout.category(), ErrorCategory::General);
    assert_eq!(ErrorCode::EncodingError.category().as_str(), "SERIALIZATION");
    assert!(ErrorCode::ServiceUnavailable.is_retryable());
    assert!(!ErrorCode::ConnectionFailed.is_retryable());
    for n in 0..10000u32 {
        if let Some(c) = ErrorCode::from_u32(n) {
            assert_eq!(c.as_u32(), n);
        }
    }
}

#[test]
fn error_builder_collects_parameters() {
    let b = ErrorBuilder::new(ErrorCode::UserNotFound, "no such user")
        .details("lookup failed")
        .param("user", "u1")
        .param("user", "u2");
    assert_eq!(b.reason, "no such user");
    assert_eq!(b.details.as_deref(), Some("lookup failed"));
    let p = b.params.expect("parameters set");
    assert_eq!(p.len(), 1);
    assert_eq!(p.get("user").map(|s| s.as_str()), Some("u2"));
}

#[test]
fn retry_policies() {
    let p = ExponentialBackoffPolicy::new(3, 100, 1000);
    assert!(p.should_retry(2, RpcCode::Unavailable));
    assert!(!p.should_retry(3, RpcCode::Unavailable));
    assert!(!p.should_retry(0, RpcCode::InvalidArgument));
    assert_eq!(p.backoff_ms(0), 100);
    assert_eq!(p.backoff_ms(2), 400);
    assert_eq!(p.backoff_ms(4), 1000);
    let big = ExponentialBackoffPolicy::new(3, u64::MAX / 2, u64::MAX);
    assert_eq!(big.backoff_ms(20), u64::MAX);
    let q = ExponentialBackoffPolicy::new(1, 1, u64::MAX);
    assert_eq!(q.backoff_ms(50), 1024);
    let f = FixedRetryPolicy::new(2, 250);
    assert!(f.should_retry(1, RpcCode::DeadlineExceeded));
    assert_eq!(f.backoff_ms(7), 250);
}

#[test]
fn builders_and_settings() {
    let c = ClientBuilder::new().address("http://a:1").connect_timeout(7).timeout(9).max_retries(4);
    assert_eq!(c.config.address, "http://a:1");
    assert_eq!((c.config.connect_timeout_ms, c.config.timeout_ms, c.config.max_retries), (7, 9, 4));
    let r = RuntimeConfig::new().with_shutdown_timeout(1).with_ready_check_timeout(2).with_task_ready_check(false);
    assert_eq!((r.shutdown_timeout_ms, r.ready_check_timeout_ms, r.enable_task_ready_check), (1, 2, false));
    assert_eq!(RuntimeConfig::new().ready_check_timeout_ms, 30000);
    assert_eq!(RegistryType::from_str("CONSUL"), RegistryType::Consul);
    assert_eq!(RegistryType::from_str("mesh"), RegistryType::Mesh);
    assert_eq!(RegistryType::from_str("other"), RegistryType::Etcd);
    assert_eq!(default_registry_type(), "etcd");
    let mut m = Metrics::new();
    m.record_request(true, 5);
    m.record_request(false, 7);
    assert_eq!((m.requests_total, m.requests_success, m.requests_failed), (2, 1, 1));
    assert_eq!(m.request_duration_ms, vec![5, 7]);
    assert!(trace_info_from(String::new(), String::new()).is_none());
    let t = trace_info_from("t1".to_string(), String::new()).expect("trace");
    assert_eq!(t.trace_id, "t1");
}
