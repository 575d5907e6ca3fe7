use flare_discovery::address::{IpAddress, SocketAddress};
use flare_discovery::agent::{
    build_registration, deregister_path, flatten_tags, health_path, instance_from_agent, parse_tag,
    ttl_pass_path, HealthCheck,
};
use flare_discovery::config::{BackendType, LoadBalanceStrategy, TagFilter};
use flare_discovery::factory::{DiscoveryFactory, FactoryError};
use flare_discovery::instance::{select_matching, ServiceInstance};
use flare_discovery::lease_kv::LeaseKvLayout;
use flare_discovery::static_backend::{
    build_srv_name, lifecycle_without_registry, static_instances, BackendOpError,
};
use flare_discovery::tags::TagMap;
use flare_discovery::text::{decimal, socket_string};

fn v4(a: u8, b: u8, c: u8, d: u8, port: u16) -> SocketAddress {
    SocketAddress { ip: IpAddress::V4(a, b, c, d), port }
}

fn tags(pairs: &[(&str, &str)]) -> TagMap {
    let mut t = TagMap::new();
    for (k, v) in pairs {
        t.insert(k.to_string(), v.to_string());
    }
    t
}

fn ids(list: &[ServiceInstance]) -> Vec<String> {
    list.iter().map(|i| i.instance_id.clone()).collect()
}

#[test]
fn register_then_discover_in_namespace() {
    let layout = LeaseKvLayout::new(None, None);
    let node = ServiceInstance::new("svc-a", "node-1", v4(127, 0, 0, 1, 8080)).with_namespace("test");
    assert_eq!(layout.register_key(&node), "test/services/svc-a/node-1");
    assert_eq!(layout.discovery_prefixes("svc-a", Some("test")), vec!["test/services/svc-a/".to_string()]);
    let found = select_matching(vec![node], Some("test"), None, None);
    assert_eq!(ids(&found), vec!["node-1".to_string()]);
    assert_eq!(socket_string(found[0].address), "127.0.0.1:8080");
}

#[test]
fn unregister_then_gone() {
    let layout = LeaseKvLayout::new(None, None);
    assert_eq!(layout.unregister_prefix(), "");
    let node = ServiceInstance::new("svc-a", "node-1", v4(127, 0, 0, 1, 8080)).with_namespace("test");
    let other = ServiceInstance::new("svc-a", "node-0", v4(127, 0, 0, 1, 8079));
    let keys = vec![
        "junk".to_string(),
        layout.register_key(&other),
        "elsewhere/node-1".to_string(),
        layout.register_key(&node),
        "old/services/svc-a/node-1".to_string(),
    ];
    assert_eq!(keys[1], "flare/services/svc-a/node-0");
    assert_eq!(keys[3], "test/services/svc-a/node-1");
    let stored = vec![
        None,
        Some(other.duplicate()),
        Some(node.duplicate()),
        Some(node.duplicate()),
        Some(node.duplicate()),
    ];
    assert_eq!(layout.registered_positions(&keys, &stored, "node-1"), vec![3, 4]);
    assert_eq!(layout.registered_positions(&keys, &stored, "node-0"), vec![1]);
    assert!(layout.registered_positions(&keys, &stored, "node-9").is_empty());
    let gone = layout.registered_positions(&keys, &stored, "node-1");
    let remaining: Vec<ServiceInstance> = keys
        .iter()
        .zip(stored)
        .enumerate()
        .filter(|(i, _)| !gone.contains(i))
        .filter_map(|(_, (k, v))| if k.starts_with("test/services/svc-a/") { v } else { None })
        .collect();
    let found = select_matching(remaining, Some("test"), None, None);
    assert!(!ids(&found).contains(&"node-1".to_string()));
}

#[test]
fn unregister_finds_records_of_any_default_namespace() {
    let writer = LeaseKvLayout::new(None, None);
    let remover = LeaseKvLayout::new(Some("prod"), None);
    let inst = ServiceInstance::new("s", "id", v4(10, 0, 0, 1, 1));
    let keys = vec![writer.register_key(&inst)];
    assert_eq!(keys[0], "flare/services/s/id");
    let stored = vec![Some(inst.duplicate())];
    assert_eq!(remover.registered_positions(&keys, &stored, "id"), vec![0]);
    let wrong_service = vec!["flare/services/t/id".to_string()];
    assert!(remover.registered_positions(&wrong_service, &stored, "id").is_empty());
}

#[test]
fn tag_filter_keeps_only_matching() {
    let a = ServiceInstance::new("svc", "node-A", v4(10, 0, 0, 1, 1)).with_tag("env", "prod");
    let b = ServiceInstance::new("svc", "node-B", v4(10, 0, 0, 2, 1)).with_tag("env", "test");
    let want = tags(&[("env", "prod")]);
    let found = select_matching(vec![a, b], None, None, Some(&want));
    assert_eq!(ids(&found), vec!["node-A".to_string()]);
}

#[test]
fn namespace_isolation_and_unhealthy_excluded() {
    let a = ServiceInstance::new("svc", "in-a", v4(10, 0, 0, 1, 1)).with_namespace("A");
    let b = ServiceInstance::new("svc", "in-b", v4(10, 0, 0, 2, 1)).with_namespace("B");
    let none = ServiceInstance::new("svc", "no-ns", v4(10, 0, 0, 3, 1));
    let sick = ServiceInstance::new("svc", "sick", v4(10, 0, 0, 4, 1)).with_namespace("B").with_health(false);
    let found = select_matching(vec![a, b, none, sick], Some("B"), None, None);
    assert_eq!(ids(&found), vec!["in-b".to_string(), "no-ns".to_string()]);
}

#[test]
fn version_matching_is_exact() {
    let a = ServiceInstance::new("svc", "v1", v4(10, 0, 0, 1, 1)).with_version("1.0");
    let b = ServiceInstance::new("svc", "none", v4(10, 0, 0, 2, 1));
    assert!(a.matches_version(Some("1.0")));
    assert!(!a.matches_version(Some("1.0.0")));
    assert!(!b.matches_version(Some("1.0")));
    assert!(b.matches_version(None));
}

#[test]
fn tag_filters_with_and_without_values() {
    let a = ServiceInstance::new("svc", "a", v4(10, 0, 0, 1, 1)).with_tag("env", "prod").with_tag("zone", "z1");
    let by_key = vec![TagFilter { key: "zone".to_string(), value: None, pattern: None }];
    let by_value = vec![TagFilter { key: "env".to_string(), value: Some("test".to_string()), pattern: None }];
    assert!(a.matches_tag_filters(&by_key));
    assert!(!a.matches_tag_filters(&by_value));
    assert!(a.matches_tag_filters(&vec![]));
}

#[test]
fn tag_map_insert_replaces_and_compares_as_map() {
    let mut t = tags(&[("a", "1"), ("b", "2")]);
    t.insert("a".to_string(), "3".to_string());
    assert_eq!(t.len(), 2);
    assert_eq!(t.get("a").map(|s| s.as_str()), Some("3"));
    assert!(t.get("c").is_none());
    let u = tags(&[("b", "2"), ("a", "3")]);
    assert!(t.same_as(&u));
    assert!(!t.same_as(&tags(&[("a", "3")])));
    assert!(t.contains_all(&tags(&[("b", "2")])));
    assert!(!t.contains_all(&tags(&[("b", "9")])));
}

fn v6(s: [u16; 8], port: u16) -> SocketAddress {
    SocketAddress { ip: IpAddress::V6(s[0], s[1], s[2], s[3], s[4], s[5], s[6], s[7]), port }
}

#[test]
fn address_text_and_uri() {
    let inst = ServiceInstance::new("svc", "x", v4(192, 168, 0, 10, 50051));
    assert_eq!(inst.to_grpc_uri(), "http://192.168.0.10:50051");
    assert_eq!(socket_string(v6([0, 0, 0, 0, 0, 0, 0, 1], 443)), "[::1]:443");
    assert_eq!(socket_string(v6([0; 8], 1)), "[::]:1");
    assert_eq!(socket_string(v6([0xfe80, 0, 0, 0, 0xab, 0, 0, 0x1f], 80)), "[fe80::ab:0:0:1f]:80");
    assert_eq!(socket_string(v6([1, 0, 0, 2, 0, 0, 3, 4], 80)), "[1::2:0:0:3:4]:80");
    assert_eq!(socket_string(v6([1, 0, 2, 3, 4, 5, 6, 7], 80)), "[1:0:2:3:4:5:6:7]:80");
    assert_eq!(socket_string(v6([1, 2, 3, 4, 5, 6, 0, 0], 80)), "[1:2:3:4:5:6::]:80");
    assert_eq!(socket_string(v6([0, 0, 0, 0, 0, 0xffff, 0xc0a8, 0x0001], 80)), "[::ffff:192.168.0.1]:80");
    assert_eq!(decimal(0), "0");
    assert_eq!(decimal(1234567890), "1234567890");
    let cases: [([u16; 8], &str); 6] = [
        ([0, 0, 0, 0, 0, 0, 0, 1], "[::1]:9"),
        ([0x2001, 0xdb8, 0, 0, 1, 0, 0, 1], "[2001:db8::1:0:0:1]:9"),
        ([0x2001, 0xdb8, 0x85a3, 0, 0, 0x8a2e, 0x370, 0x7334], "[2001:db8:85a3::8a2e:370:7334]:9"),
        ([0, 0, 0, 0, 0, 0, 0xc000, 0x280], "[::c000:280]:9"),
        ([0, 0, 0, 0, 0, 0xffff, 0x7f00, 1], "[::ffff:127.0.0.1]:9"),
        ([0xffff; 8], "[ffff:ffff:ffff:ffff:ffff:ffff:ffff:ffff]:9"),
    ];
    for (segs, want) in cases {
        assert_eq!(socket_string(v6(segs, 9)), want);
    }
}

#[test]
fn unspecified_address_rewritten_to_loopback() {
    assert_eq!(v4(0, 0, 0, 0, 9000).dialable(), v4(127, 0, 0, 1, 9000));
    assert_eq!(v4(10, 1, 2, 3, 9000).dialable(), v4(10, 1, 2, 3, 9000));
    let any6 = SocketAddress { ip: IpAddress::V6(0, 0, 0, 0, 0, 0, 0, 0), port: 7 };
    assert_eq!(any6.dialable(), SocketAddress { ip: IpAddress::V6(0, 0, 0, 0, 0, 0, 0, 1), port: 7 });
}

#[test]
fn agent_tags_round_trip() {
    assert_eq!(parse_tag("env=prod"), ("env".to_string(), "prod".to_string()));
    assert_eq!(parse_tag("k=a=b"), ("k".to_string(), "a=b".to_string()));
    assert_eq!(parse_tag("canary"), ("canary".to_string(), "true".to_string()));
    assert_eq!(parse_tag("=x"), ("".to_string(), "x".to_string()));
    let t = tags(&[("env", "prod"), ("tier", "gold")]);
    let flat = flatten_tags(&t, &Some("2.1".to_string()), &Some("ns1".to_string()));
    assert_eq!(flat, vec!["env=prod", "tier=gold", "version=2.1", "namespace=ns1"]);
    for f in &flat {
        let (k, v) = parse_tag(f);
        assert_eq!(format!("{}={}", k, v), *f);
    }
}

#[test]
fn agent_registration_ttl_check() {
    let inst = ServiceInstance::new("svc", "node-1", v4(0, 0, 0, 0, 8080)).with_tag("env", "prod");
    let reg = build_registration(&inst, false, 45);
    assert_eq!(reg.id, "node-1");
    assert_eq!(reg.name, "svc");
    assert_eq!(reg.address, "127.0.0.1");
    assert_eq!(reg.port, 8080);
    assert_eq!(reg.tags, vec!["env=prod".to_string()]);
    match reg.check {
        HealthCheck::Ttl { check_id, ttl_secs, deregister_after_secs } => {
            assert_eq!(check_id, "service:node-1");
            assert_eq!(ttl_secs, 45);
            assert_eq!(deregister_after_secs, 90);
        }
        HealthCheck::Http { .. } => panic!("expected a TTL check"),
    }
}

#[test]
fn agent_registration_rewrites_ipv6_wildcard() {
    let inst = ServiceInstance::new("svc", "node-6", v6([0; 8], 8080));
    let reg = build_registration(&inst, false, 45);
    assert_eq!(reg.address, "::1");
    let reg = build_registration(&inst, true, 45);
    match reg.check {
        HealthCheck::Http { url, .. } => assert_eq!(url, "http://[::1]:8080/health"),
        HealthCheck::Ttl { .. } => panic!("expected an HTTP check"),
    }
    let other = ServiceInstance::new("svc", "node-7", v6([0x2001, 0xdb8, 0, 0, 0, 0, 0, 7], 1));
    assert_eq!(build_registration(&other, false, 45).address, "2001:db8::7");
}

#[test]
fn agent_registration_http_check() {
    let inst = ServiceInstance::new("svc", "node-2", v4(10, 0, 0, 5, 9090));
    let reg = build_registration(&inst, true, 45);
    match reg.check {
        HealthCheck::Http { url, interval_secs, timeout_secs, deregister_after_secs } => {
            assert_eq!(url, "http://10.0.0.5:9090/health");
            assert_eq!((interval_secs, timeout_secs, deregister_after_secs), (10, 5, 90));
        }
        HealthCheck::Ttl { .. } => panic!("expected an HTTP check"),
    }
}

#[test]
fn agent_paths() {
    assert_eq!(ttl_pass_path("node-1"), "/v1/agent/check/pass/service:node-1");
    assert_eq!(deregister_path("node-1"), "/v1/agent/service/deregister/node-1");
    assert_eq!(health_path("svc"), "/v1/health/service/svc");
}

#[test]
fn agent_listing_entry_to_instance() {
    let listed = vec!["env=prod".to_string(), "canary".to_string()];
    let a = instance_from_agent("svc", Some("id-7"), "10.0.0.7", v4(10, 0, 0, 7, 80), &listed);
    assert_eq!(a.instance_id, "id-7");
    assert_eq!(a.tags.get("env").map(|s| s.as_str()), Some("prod"));
    assert_eq!(a.tags.get("canary").map(|s| s.as_str()), Some("true"));
    let b = instance_from_agent("svc", None, "10.0.0.8", v4(10, 0, 0, 8, 80), &vec![]);
    assert_eq!(b.instance_id, "svc-10.0.0.8");
    assert!(b.healthy);
}

#[test]
fn dns_and_mesh_static_lists() {
    assert_eq!(build_srv_name("svc", "default", "local"), "_svc._tcp.default.local");
    let addrs = vec![v4(10, 0, 0, 1, 80), v4(10, 0, 0, 2, 80)];
    let dns = static_instances("svc", "default", None, None, &addrs);
    assert_eq!(ids(&dns), vec!["svc-0".to_string(), "svc-1".to_string()]);
    assert_eq!(dns[1].namespace.as_deref(), Some("default"));
    let want = tags(&[("env", "prod")]);
    let mesh = static_instances("svc", "ns", Some("v2"), Some(&want), &addrs);
    assert_eq!(mesh[0].version.as_deref(), Some("v2"));
    assert_eq!(mesh[0].tags.get("env").map(|s| s.as_str()), Some("prod"));
    assert_eq!(lifecycle_without_registry(BackendType::Dns), Err(BackendOpError::Unsupported));
    assert_eq!(lifecycle_without_registry(BackendType::Mesh), Ok(()));
}

#[test]
fn backend_and_strategy_names() {
    assert_eq!(BackendType::from_str("ETCD"), Ok(BackendType::Etcd));
    assert_eq!(BackendType::from_str("dns-srv"), Ok(BackendType::Dns));
    assert_eq!(BackendType::from_str("Envoy"), Ok(BackendType::Mesh));
    assert_eq!(BackendType::from_str("zk"), Err("Unknown backend type: zk".to_string()));
    assert_eq!(LoadBalanceStrategy::from_str("Round-Robin"), Ok(LoadBalanceStrategy::RoundRobin));
    assert_eq!(LoadBalanceStrategy::from_str("least_conn"), Ok(LoadBalanceStrategy::LeastConnections));
    assert_eq!(
        LoadBalanceStrategy::from_str("fastest"),
        Err("Unknown load balance strategy: fastest".to_string())
    );
}

#[test]
fn factory_defaults_and_refusals() {
    let p = DiscoveryFactory::default_params(BackendType::Consul, vec![], "svc", None);
    assert_eq!(p.url.as_deref(), Some("http://localhost:8500"));
    let p = DiscoveryFactory::default_params(
        BackendType::Etcd,
        vec!["http://localhost:2379".to_string()],
        "svc",
        None,
    );
    assert_eq!(p.ttl_secs, Some(60));
    assert_eq!(p.endpoints, vec!["http://localhost:2379".to_string()]);
    let cfg = DiscoveryFactory::config_with_defaults(BackendType::Etcd, p);
    assert_eq!(cfg.refresh_interval, Some(30));
    assert_eq!(DiscoveryFactory::validate(&cfg), Ok(()));
    let empty = DiscoveryFactory::config_with_defaults(
        BackendType::Etcd,
        DiscoveryFactory::default_params(BackendType::Etcd, vec![], "svc", None),
    );
    assert_eq!(DiscoveryFactory::validate(&empty), Err(FactoryError::MissingEndpoints));
    assert!(matches!(
        DiscoveryFactory::registration_config(BackendType::Dns, vec![], "svc", None, None, None),
        Err(FactoryError::RegistrationNotSupported)
    ));
    assert!(matches!(
        DiscoveryFactory::registration_config(BackendType::Mesh, vec![], "svc", None, None, None),
        Err(FactoryError::RegistrationNotSupported)
    ));
    let (cfg, timing) =
        DiscoveryFactory::registration_config(BackendType::Consul, vec![], "svc", None, None, None)
            .expect("agent registers");
    assert_eq!(cfg.backend_config.url.as_deref(), Some("http://localhost:8500"));
    assert_eq!((timing.heartbeat_secs, timing.ttl_secs), (20, 45));
    let (cfg, timing) = DiscoveryFactory::registration_config(
        BackendType::Etcd,
        vec!["http://localhost:2379".to_string()],
        "svc",
        Some(30),
        Some(40),
        None,
    )
    .expect("lease-KV registers");
    assert_eq!((timing.heartbeat_secs, timing.ttl_secs), (20, 40));
    assert_eq!(cfg.backend_config.ttl_secs, Some(40));
    assert_eq!(cfg.backend_config.endpoints, vec!["http://localhost:2379".to_string()]);
    assert_eq!(cfg.health_check.as_ref().and_then(|h| h.path.as_deref()), Some("/health"));
}

#[test]
fn defaults_keep_lease_calibrated() {
    let cfg = DiscoveryFactory::create_with_defaults(
        BackendType::Etcd,
        vec!["http://localhost:2379".to_string()],
        "svc",
        None,
        None,
    );
    assert_eq!(cfg.backend_config.ttl_secs, Some(60));
    assert_eq!(cfg.backend_config.service_type.as_deref(), Some("svc"));
    let cfg = DiscoveryFactory::create_with_defaults(BackendType::Etcd, vec![], "svc", Some(20), Some(1));
    assert_eq!(cfg.backend_config.ttl_secs, Some(2));
    let cfg = DiscoveryFactory::create_with_defaults(BackendType::Dns, vec![], "svc", None, None);
    assert_eq!(cfg.backend_config.domain.as_deref(), Some("local"));
    assert_eq!(cfg.backend_config.ttl_secs, None);
}

#[test]
fn factory_timing_is_calibrated() {
    let t = DiscoveryFactory::registration_timing(BackendType::Etcd, None, None, None);
    assert_eq!((t.heartbeat_secs, t.ttl_secs), (20, 60));
    let t = DiscoveryFactory::registration_timing(BackendType::Consul, None, None, None);
    assert_eq!((t.heartbeat_secs, t.ttl_secs), (20, 45));
    let t = DiscoveryFactory::registration_timing(BackendType::Consul, Some(40), None, Some(30));
    assert_eq!((t.heartbeat_secs, t.ttl_secs), (15, 30));
    let t = DiscoveryFactory::registration_timing(BackendType::Etcd, Some(0), Some(1), None);
    assert_eq!((t.heartbeat_secs, t.ttl_secs), (1, 2));
    for hb in 0..50u64 {
        for ttl in 0..100u64 {
            let t = DiscoveryFactory::registration_timing(BackendType::Etcd, Some(hb), Some(ttl), None);
            assert!(t.heartbeat_secs >= 1 && t.heartbeat_secs * 2 <= t.ttl_secs);
        }
    }
}
