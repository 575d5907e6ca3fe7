use vstd::prelude::*;
use vstd::string::{StrSliceExecFns, StringExecFns};

use crate::address::{dialable, SocketAddress};
use crate::instance::{InstanceView, MetadataView, ServiceInstance};
use crate::tags::TagMap;
use crate::text::{ip_text, push_ip, push_socket, socket_text};

verus! {

/// Seconds a TTL check stays passing without a ping, when the environment says nothing.
pub const DEFAULT_AGENT_TTL_SECS: u64 = 45;

/// Seconds between HTTP checks.
pub const HTTP_CHECK_INTERVAL_SECS: u64 = 10;

/// Seconds an HTTP check may take.
pub const HTTP_CHECK_TIMEOUT_SECS: u64 = 5;

/// Seconds an HTTP-checked instance may stay critical before the agent drops it.
pub const HTTP_CHECK_DEREGISTER_SECS: u64 = 90;

/// The flattened form of one tag: `key=value`.
pub open spec fn tag_text(key: Seq<char>, value: Seq<char>) -> Seq<char> {
    key + "="@ + value
}

/// The position of the first `=` in `s`, or -1 when there is none.
pub open spec fn first_eq(s: Seq<char>) -> int
    decreases s.len(),
{
    if s.len() == 0 {
        -1
    } else if first_eq(s.drop_last()) == -1 && s.last() == '=' {
        s.len() - 1
    } else {
        first_eq(s.drop_last())
    }
}

/// The key of a flattened tag: what stands before the first `=`, or all of it.
pub open spec fn tag_key(s: Seq<char>) -> Seq<char> {
    if first_eq(s) < 0 {
        s
    } else {
        s.subrange(0, first_eq(s))
    }
}

/// The value of a flattened tag: what follows the first `=`, or `true` for a bare tag.
pub open spec fn tag_value(s: Seq<char>) -> Seq<char> {
    if first_eq(s) < 0 {
        "true"@
    } else {
        s.subrange(first_eq(s) + 1, s.len() as int)
    }
}

/// The tag map that a list of flattened tags reads back as (a later tag for a key wins).
pub open spec fn parsed_tags(tags: Seq<String>) -> Map<Seq<char>, Seq<char>>
    decreases tags.len(),
{
    if tags.len() == 0 {
        Map::empty()
    } else {
        parsed_tags(tags.drop_last()).insert(tag_key(tags.last()@), tag_value(tags.last()@))
    }
}

/// The id of the TTL check that the agent keeps for an instance.
pub open spec fn check_id(instance_id: Seq<char>) -> Seq<char> {
    "service:"@ + instance_id
}

/// How the agent decides whether an instance is healthy.
pub enum HealthCheck {
    /// The instance pings the check at least once per `ttl_secs`.
    Ttl { check_id: String, ttl_secs: u64, deregister_after_secs: u64 },
    /// The agent polls `url` every `interval_secs`.
    Http { url: String, interval_secs: u64, timeout_secs: u64, deregister_after_secs: u64 },
}

/// What registering an instance sends to the agent.
pub struct AgentRegistration {
    pub id: String,
    pub name: String,
    pub tags: Vec<String>,
    pub address: String,
    pub port: u16,
    pub check: HealthCheck,
}

proof fn lemma_first_eq_none(s: Seq<char>)
    requires
        forall|j: int| 0 <= j < s.len() ==> s[j] != '=',
    ensures
        first_eq(s) == -1,
    decreases s.len(),
{
    if s.len() > 0 {
        lemma_first_eq_none(s.drop_last());
    }
}

proof fn lemma_first_eq_at(s: Seq<char>, n: int)
    requires
        0 <= n < s.len(),
        s[n] == '=',
        forall|j: int| 0 <= j < n ==> s[j] != '=',
    ensures
        first_eq(s) == n,
    decreases s.len(),
{
    if s.len() == n + 1 {
        lemma_first_eq_none(s.drop_last());
    } else {
        lemma_first_eq_at(s.drop_last(), n);
    }
}

/// Reads a flattened tag back: split at the first `=`; a tag without one reads as `tag → "true"`.
pub fn parse_tag(s: &str) -> (r: (String, String))
    ensures
        r.0@ == tag_key(s@),
        r.1@ == tag_value(s@),
{
    let n = s.unicode_len();
    let mut i: usize = 0;
    while i < n
        invariant
            n == s@.len(),
            i <= n,
            forall|j: int| 0 <= j < i ==> s@[j] != '=',
        decreases n - i,
    {
        if s.get_char(i) == '=' {
            proof {
                lemma_first_eq_at(s@, i as int);
            }
            let key = s.substring_char(0, i);
            let value = s.substring_char(i + 1, n);
            return (String::from_str(key), String::from_str(value));
        }
        i = i + 1;
    }
    proof {
        lemma_first_eq_none(s@);
    }
    (String::from_str(s), String::from_str("true"))
}

/// Flattens one tag to `key=value`.
pub fn flatten_tag(key: &str, value: &str) -> (r: String)
    ensures
        r@ == tag_text(key@, value@),
{
    let mut s = String::from_str(key);
    s.append("=");
    s.append(value);
    s
}

/// A tag whose key holds no `=` reads back as the same key and value.
pub proof fn lemma_tag_round_trip(key: Seq<char>, value: Seq<char>)
    requires
        forall|j: int| 0 <= j < key.len() ==> key[j] != '=',
    ensures
        tag_key(tag_text(key, value)) == key,
        tag_value(tag_text(key, value)) == value,
{
    reveal_strlit("=");
    let s = tag_text(key, value);
    assert(s[key.len() as int] == '=');
    assert forall|j: int| 0 <= j < key.len() implies s[j] != '=' by {
        assert(s[j] == key[j]);
    }
    lemma_first_eq_at(s, key.len() as int);
    assert(s.subrange(0, key.len() as int) =~= key);
    assert(s.subrange(key.len() as int + 1, s.len() as int) =~= value);
}

/// The tags sent on registration: each tag as `key=value` in the map's order, then
/// `version=...` and `namespace=...` where the instance has them.
pub fn flatten_tags(tags: &TagMap, version: &Option<String>, namespace: &Option<String>) -> (r: Vec<String>)
    ensures
        r@.len() == tags@.dom().len() + (if version is Some { 1int } else { 0 }) + (if namespace is Some {
            1int
        } else {
            0
        }),
        forall|i: int|
            0 <= i < tags@.dom().len() ==> #[trigger] r@[i]@ == tag_text(
                tags.key_at(i),
                tags@[tags.key_at(i)],
            ),
        forall|k: Seq<char>|
            #[trigger] tags@.contains_key(k) ==> exists|i: int|
                0 <= i < tags@.dom().len() && r@[i]@ == tag_text(k, tags@[k]),
        version is Some ==> r@[tags@.dom().len() as int]@ == tag_text(
            "version"@,
            version->Some_0@,
        ),
        namespace is Some ==> r@[r@.len() - 1]@ == tag_text("namespace"@, namespace->Some_0@),
{
    let n = tags.len();
    let mut r: Vec<String> = Vec::new();
    let mut i: usize = 0;
    while i < n
        invariant
            n == tags@.dom().len(),
            i <= n,
            r@.len() == i,
            forall|j: int|
                0 <= j < i ==> #[trigger] r@[j]@ == tag_text(tags.key_at(j), tags@[tags.key_at(j)]),
        decreases n - i,
    {
        let (k, v) = tags.entry(i);
        r.push(flatten_tag(k.as_str(), v.as_str()));
        i = i + 1;
    }
    let ghost flat = r@;
    match version {
        Some(v) => {
            r.push(flatten_tag("version", v.as_str()));
        },
        None => {},
    }
    match namespace {
        Some(ns) => {
            r.push(flatten_tag("namespace", ns.as_str()));
        },
        None => {},
    }
    proof {
        assert forall|j: int| 0 <= j < n implies #[trigger] r@[j] == flat[j] by {}
        assert forall|k: Seq<char>| #[trigger] tags@.contains_key(k) implies exists|i: int|
            0 <= i < tags@.dom().len() && r@[i]@ == tag_text(k, tags@[k]) by {
            let i = choose|i: int| 0 <= i < n && #[trigger] tags.key_at(i) == k;
            assert(r@[i] == flat[i]);
            assert(flat[i]@ == tag_text(tags.key_at(i), tags@[tags.key_at(i)]));
        }
    }
    r
}

/// The id of the TTL check for an instance.
pub fn build_check_id(instance_id: &str) -> (r: String)
    ensures
        r@ == check_id(instance_id@),
{
    let mut s = String::from_str("service:");
    s.append(instance_id);
    s
}

/// The agent path that marks an instance's TTL check as passing.
pub fn ttl_pass_path(instance_id: &str) -> (r: String)
    ensures
        r@ == "/v1/agent/check/pass/"@ + check_id(instance_id@),
{
    let mut s = String::from_str("/v1/agent/check/pass/");
    let id = build_check_id(instance_id);
    s.append(id.as_str());
    proof {
        assert(s@ =~= "/v1/agent/check/pass/"@ + check_id(instance_id@));
    }
    s
}

/// The agent path that removes an instance.
pub fn deregister_path(instance_id: &str) -> (r: String)
    ensures
        r@ == "/v1/agent/service/deregister/"@ + instance_id@,
{
    let mut s = String::from_str("/v1/agent/service/deregister/");
    s.append(instance_id);
    s
}

/// The agent path that lists the instances of a service with their health.
pub fn health_path(service_type: &str) -> (r: String)
    ensures
        r@ == "/v1/health/service/"@ + service_type@,
{
    let mut s = String::from_str("/v1/health/service/");
    s.append(service_type);
    s
}

/// The URL the agent polls when it checks an instance over HTTP.
pub open spec fn http_check_url(addr: SocketAddress) -> Seq<char> {
    "http://"@ + socket_text(dialable(addr)) + "/health"@
}

/// What registering `inst` sends to the agent: the instance's id and service type, its tags
/// flattened, the dialable form of its address, and either an HTTP check or a TTL check of
/// `ttl_secs` whose instance the agent drops after twice that time critical.
pub fn build_registration(inst: &ServiceInstance, use_http_check: bool, ttl_secs: u64) -> (r: AgentRegistration)
    requires
        ttl_secs <= u64::MAX / 2,
    ensures
        r.id@ == inst.instance_id@,
        r.name@ == inst.service_type@,
        r.address@ == ip_text(dialable(inst.address).ip),
        r.port == inst.address.port,
        r.tags@.len() == inst.tags@.dom().len() + (if inst.version is Some { 1int } else { 0 }) + (
        if inst.namespace is Some {
            1int
        } else {
            0
        }),
        forall|i: int|
            0 <= i < inst.tags@.dom().len() ==> #[trigger] r.tags@[i]@ == tag_text(
                inst.tags.key_at(i),
                inst.tags@[inst.tags.key_at(i)],
            ),
        forall|k: Seq<char>|
            #[trigger] inst.tags@.contains_key(k) ==> exists|i: int|
                0 <= i < inst.tags@.dom().len() && r.tags@[i]@ == tag_text(k, inst.tags@[k]),
        inst.version is Some ==> r.tags@[inst.tags@.dom().len() as int]@ == tag_text(
            "version"@,
            inst.version->Some_0@,
        ),
        inst.namespace is Some ==> r.tags@[r.tags@.len() - 1]@ == tag_text(
            "namespace"@,
            inst.namespace->Some_0@,
        ),
        use_http_check ==> (r.check matches HealthCheck::Http {
            url,
            interval_secs,
            timeout_secs,
            deregister_after_secs,
        } && url@ == http_check_url(inst.address) && interval_secs == HTTP_CHECK_INTERVAL_SECS
            && timeout_secs == HTTP_CHECK_TIMEOUT_SECS && deregister_after_secs
            == HTTP_CHECK_DEREGISTER_SECS),
        !use_http_check ==> (r.check matches HealthCheck::Ttl {
            check_id: id,
            ttl_secs: t,
            deregister_after_secs,
        } && id@ == check_id(inst.instance_id@) && t == ttl_secs && deregister_after_secs == 2
            * ttl_secs),
{
    let tags = flatten_tags(&inst.tags, &inst.version, &inst.namespace);
    assert(forall|k: Seq<char>|
        #[trigger] inst.tags@.contains_key(k) ==> exists|i: int|
            0 <= i < inst.tags@.dom().len() && tags@[i]@ == tag_text(k, inst.tags@[k]));
    let target = inst.address.dialable();
    let mut address = String::new();
    push_ip(&mut address, target.ip);
    proof {
        assert(address@ =~= ip_text(target.ip));
    }
    let check = if use_http_check {
        let mut url = String::from_str("http://");
        push_socket(&mut url, target);
        url.append("/health");
        proof {
            assert(url@ =~= http_check_url(inst.address));
        }
        HealthCheck::Http {
            url,
            interval_secs: HTTP_CHECK_INTERVAL_SECS,
            timeout_secs: HTTP_CHECK_TIMEOUT_SECS,
            deregister_after_secs: HTTP_CHECK_DEREGISTER_SECS,
        }
    } else {
        HealthCheck::Ttl {
            check_id: build_check_id(inst.instance_id.as_str()),
            ttl_secs,
            deregister_after_secs: ttl_secs * 2,
        }
    };
    AgentRegistration {
        id: inst.instance_id.clone(),
        name: inst.service_type.clone(),
        tags,
        address,
        port: inst.address.port,
        check,
    }
}

/// The instance id the agent reports, or `service_type-host` where it reports none.
pub open spec fn agent_instance_id(service_type: Seq<char>, id: Option<Seq<char>>, host: Seq<char>) -> Seq<char> {
    match id {
        Some(i) => i,
        None => service_type + "-"@ + host,
    }
}

/// The instance described by one entry of the agent's health listing: a healthy instance of
/// `service_type` at `address`, with the id the agent reports (else built from `host`, the
/// address text the agent gave) and the listed tags read back.
pub fn instance_from_agent(
    service_type: &str,
    id: Option<&str>,
    host: &str,
    address: SocketAddress,
    tags: &Vec<String>,
) -> (r: ServiceInstance)
    ensures
        r@ == (InstanceView {
            service_type: service_type@,
            instance_id: agent_instance_id(
                service_type@,
                match id {
                    Some(i) => Some(i@),
                    None => None,
                },
                host@,
            ),
            address,
            namespace: None,
            version: None,
            tags: parsed_tags(tags@),
            metadata: MetadataView {
                region: None,
                zone: None,
                environment: None,
                custom: Map::empty(),
            },
            healthy: true,
            weight: 100,
        }),
{
    let instance_id = match id {
        Some(i) => String::from_str(i),
        None => {
            let mut s = String::from_str(service_type);
            s.append("-");
            s.append(host);
            proof {
                assert(s@ =~= service_type@ + "-"@ + host@);
            }
            s
        },
    };
    let mut inst = ServiceInstance::new(service_type, instance_id.as_str(), address);
    let mut i: usize = 0;
    while i < tags.len()
        invariant
            i <= tags@.len(),
            inst@ == (InstanceView {
                service_type: service_type@,
                instance_id: instance_id@,
                address,
                namespace: None,
                version: None,
                tags: parsed_tags(tags@.subrange(0, i as int)),
                metadata: MetadataView {
                    region: None,
                    zone: None,
                    environment: None,
                    custom: Map::empty(),
                },
                healthy: true,
                weight: 100,
            }),
        decreases tags@.len() - i,
    {
        let (k, v) = parse_tag(tags[i].as_str());
        inst = inst.with_tag(k.as_str(), v.as_str());
        proof {
            assert(tags@.subrange(0, i + 1).drop_last() =~= tags@.subrange(0, i as int));
        }
        i = i + 1;
    }
    proof {
        assert(tags@.subrange(0, tags@.len() as int) =~= tags@);
    }
    inst
}

} // verus!
