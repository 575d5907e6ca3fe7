use vstd::prelude::*;
use vstd::string::{StrSliceExecFns, StringExecFns};

use crate::config::str_eq;

use crate::instance::{opt_view, ServiceInstance};

verus! {

/// The namespace a lease-KV backend uses when its configuration names none.
pub const DEFAULT_KV_NAMESPACE: &'static str = "flare";

/// Seconds a lease lives unless renewed, when the configuration says nothing.
pub const DEFAULT_KV_TTL_SECS: u64 = 60;

/// The key prefix under which every instance of `service_type` in `namespace` is stored.
pub open spec fn service_prefix(namespace: Seq<char>, service_type: Seq<char>) -> Seq<char> {
    namespace + "/services/"@ + service_type + "/"@
}

/// The key of one instance: its service prefix followed by its id.
pub open spec fn service_key(namespace: Seq<char>, service_type: Seq<char>, instance_id: Seq<char>) -> Seq<char> {
    service_prefix(namespace, service_type) + instance_id
}

/// The namespace an instance is stored under: its own, else the backend's default.
pub open spec fn storage_namespace(inst_namespace: Option<Seq<char>>, default_namespace: Seq<char>) -> Seq<char> {
    match inst_namespace {
        Some(n) => n,
        None => default_namespace,
    }
}

/// The prefixes a discovery scans: the requested namespace, else the default one.
pub open spec fn discovery_prefixes(
    default_namespace: Seq<char>,
    service_type: Seq<char>,
    namespace: Option<Seq<char>>,
) -> Seq<Seq<char>> {
    seq![service_prefix(storage_namespace(namespace, default_namespace), service_type)]
}

/// Settings of a lease-KV backend: where keys live by default and how long a lease lives.
pub struct LeaseKvLayout {
    pub default_namespace: String,
    pub ttl_secs: u64,
}

/// The key of an instance, built in executable code.
pub fn build_service_key(namespace: &str, service_type: &str, instance_id: &str) -> (r: String)
    ensures
        r@ == service_key(namespace@, service_type@, instance_id@),
{
    let mut s = build_service_prefix(namespace, service_type);
    s.append(instance_id);
    s
}

/// The prefix of a service's keys, built in executable code.
pub fn build_service_prefix(namespace: &str, service_type: &str) -> (r: String)
    ensures
        r@ == service_prefix(namespace@, service_type@),
{
    let mut s = String::from_str(namespace);
    s.append("/services/");
    s.append(service_type);
    s.append("/");
    proof {
        assert(s@ =~= service_prefix(namespace@, service_type@));
    }
    s
}

impl LeaseKvLayout {
    /// A layout with the given default namespace (`flare` when none) and lease time
    /// (60 seconds when none).
    pub fn new(default_namespace: Option<&str>, ttl_secs: Option<u64>) -> (r: LeaseKvLayout)
        ensures
            r.default_namespace@ == match default_namespace {
                Some(n) => n@,
                None => DEFAULT_KV_NAMESPACE@,
            },
            r.ttl_secs == match ttl_secs {
                Some(t) => t,
                None => DEFAULT_KV_TTL_SECS,
            },
    {
        let default_namespace = match default_namespace {
            Some(n) => String::from_str(n),
            None => String::from_str(DEFAULT_KV_NAMESPACE),
        };
        let ttl_secs = match ttl_secs {
            Some(t) => t,
            None => DEFAULT_KV_TTL_SECS,
        };
        LeaseKvLayout { default_namespace, ttl_secs }
    }

    /// The key that registering `inst` writes.
    pub fn register_key(&self, inst: &ServiceInstance) -> (r: String)
        ensures
            r@ == service_key(
                storage_namespace(opt_view(inst.namespace), self.default_namespace@),
                inst.service_type@,
                inst.instance_id@,
            ),
    {
        let ns: &str = match &inst.namespace {
            Some(n) => n.as_str(),
            None => self.default_namespace.as_str(),
        };
        build_service_key(ns, inst.service_type.as_str(), inst.instance_id.as_str())
    }

    /// The key prefixes that a discovery of `service_type` scans.
    pub fn discovery_prefixes(&self, service_type: &str, namespace: Option<&str>) -> (r: Vec<String>)
        ensures
            r@.map_values(|s: String| s@) == discovery_prefixes(
                self.default_namespace@,
                service_type@,
                match namespace {
                    Some(n) => Some(n@),
                    None => None,
                },
            ),
    {
        let ns: &str = match namespace {
            Some(n) => n,
            None => self.default_namespace.as_str(),
        };
        let mut r: Vec<String> = Vec::new();
        r.push(build_service_prefix(ns, service_type));
        proof {
            assert(r@.map_values(|s: String| s@) =~= discovery_prefixes(
                self.default_namespace@,
                service_type@,
                match namespace {
                    Some(n) => Some(n@),
                    None => None,
                },
            ));
        }
        r
    }

    /// The prefix an unregistration scans: all of the keyspace, since an unregistration names
    /// only an id and the instance may be stored under any namespace.
    pub fn unregister_prefix(&self) -> (r: String)
        ensures
            r@ == unregister_scan_prefix(),
    {
        String::new()
    }

    /// Among the entries of a scan (`keys[i]` holding `decoded[i]`, `None` where the value did
    /// not decode), the positions, in order, of every instance with id `instance_id` stored at
    /// the key that registering it under some namespace writes. Deleting each of them leaves no
    /// registration of that id behind, whatever namespace or default it was stored under.
    pub fn registered_positions(
        &self,
        keys: &Vec<String>,
        decoded: &Vec<Option<ServiceInstance>>,
        instance_id: &str,
    ) -> (r: Vec<usize>)
        requires
            keys@.len() == decoded@.len(),
        ensures
            forall|k: int|
                0 <= k < r@.len() ==> r@[k] < decoded@.len() && registered_at(
                    keys@[r@[k] as int],
                    decoded@[r@[k] as int],
                    instance_id@,
                ),
            forall|j: int|
                0 <= j < decoded@.len() && registered_at(keys@[j], decoded@[j], instance_id@)
                    ==> r@.contains(j as usize),
            forall|a: int, b: int| 0 <= a < b < r@.len() ==> r@[a] < r@[b],
    {
        let wanted = String::from_str(instance_id);
        let mut r: Vec<usize> = Vec::new();
        let mut i: usize = 0;
        while i < decoded.len()
            invariant
                keys@.len() == decoded@.len(),
                i <= decoded@.len(),
                wanted@ == instance_id@,
                forall|k: int|
                    0 <= k < r@.len() ==> r@[k] < i && registered_at(
                        keys@[r@[k] as int],
                        decoded@[r@[k] as int],
                        instance_id@,
                    ),
                forall|j: int|
                    0 <= j < i && registered_at(keys@[j], decoded@[j], instance_id@) ==> r@.contains(
                        j as usize,
                    ),
                forall|a: int, b: int| 0 <= a < b < r@.len() ==> r@[a] < r@[b],
            decreases decoded@.len() - i,
        {
            let ghost before = r@;
            let hit = match &decoded[i] {
                Some(inst) => inst.instance_id == wanted && stored_under_some_namespace(
                    keys[i].as_str(),
                    inst.service_type.as_str(),
                    instance_id,
                ),
                None => false,
            };
            if hit {
                r.push(i);
                proof {
                    assert forall|j: int|
                        0 <= j < i + 1 && registered_at(keys@[j], decoded@[j], instance_id@)
                            implies r@.contains(j as usize) by {
                        if j < i {
                            let k = choose|k: int| 0 <= k < before.len() && before[k] == j as usize;
                            assert(r@[k] == j as usize);
                        } else {
                            assert(r@[before.len() as int] == j as usize);
                        }
                    }
                }
            }
            i = i + 1;
        }
        r
    }
}

/// The entry (`key`, `decoded`) holds the instance with id `instance_id`, stored at the key that
/// registering it under some namespace writes.
pub open spec fn registered_at(key: String, decoded: Option<ServiceInstance>, instance_id: Seq<char>) -> bool {
    match decoded {
        Some(inst) => inst.instance_id@ == instance_id && exists|n: Seq<char>|
            key@ == #[trigger] service_key(n, inst.service_type@, instance_id),
        None => false,
    }
}

/// What follows the namespace in the key of an instance.
pub open spec fn key_suffix(service_type: Seq<char>, instance_id: Seq<char>) -> Seq<char> {
    "/services/"@ + service_type + "/"@ + instance_id
}

/// Whether `key` is the key of instance `instance_id` of `service_type` in some namespace.
pub fn stored_under_some_namespace(key: &str, service_type: &str, instance_id: &str) -> (r: bool)
    ensures
        r == exists|n: Seq<char>| key@ == #[trigger] service_key(n, service_type@, instance_id@),
{
    let mut suffix = String::from_str("/services/");
    suffix.append(service_type);
    suffix.append("/");
    suffix.append(instance_id);
    proof {
        assert(suffix@ =~= key_suffix(service_type@, instance_id@));
        assert forall|n: Seq<char>|
            #[trigger] service_key(n, service_type@, instance_id@) =~= n + key_suffix(
                service_type@,
                instance_id@,
            ) by {}
    }
    let klen = key.unicode_len();
    let slen = suffix.as_str().unicode_len();
    if klen < slen {
        proof {
            if exists|n: Seq<char>| key@ == #[trigger] service_key(n, service_type@, instance_id@) {
                let n = choose|n: Seq<char>| key@ == #[trigger] service_key(n, service_type@, instance_id@);
                assert(key@.len() == n.len() + suffix@.len());
            }
        }
        return false;
    }
    let tail = key.substring_char(klen - slen, klen);
    let same = str_eq(tail, suffix.as_str());
    proof {
        let n = key@.subrange(0, klen - slen);
        if same {
            assert(key@ =~= n + suffix@);
            assert(key@ == service_key(n, service_type@, instance_id@));
        }
        if exists|m: Seq<char>| key@ == #[trigger] service_key(m, service_type@, instance_id@) {
            let m = choose|m: Seq<char>| key@ == #[trigger] service_key(m, service_type@, instance_id@);
            assert(key@ == m + suffix@);
            assert(m.len() == klen - slen);
            assert(tail@ =~= suffix@) by {
                assert forall|x: int| 0 <= x < slen implies tail@[x] == suffix@[x] by {
                    assert(tail@[x] == key@[klen - slen + x]);
                    assert(key@[m.len() + x] == (m + suffix@)[m.len() + x]);
                }
            }
        }
    }
    same
}

/// Every registration of an instance, whichever namespace it went to, is found by the
/// unregistration of its id: the key `register_key` writes qualifies, for any default.
pub proof fn lemma_registration_found_by_unregister(layout: LeaseKvLayout, key: String, inst: ServiceInstance)
    requires
        key@ == service_key(
            storage_namespace(opt_view(inst.namespace), layout.default_namespace@),
            inst.service_type@,
            inst.instance_id@,
        ),
    ensures
        registered_at(key, Some(inst), inst.instance_id@),
{
    let n = storage_namespace(opt_view(inst.namespace), layout.default_namespace@);
    assert(key@ == service_key(n, inst.service_type@, inst.instance_id@));
}

/// The prefix an unregistration scans: the empty prefix, which every key starts with.
pub open spec fn unregister_scan_prefix() -> Seq<char> {
    Seq::empty()
}

/// The scan of an unregistration covers the key that registering any instance writes, in any
/// namespace.
pub proof fn lemma_unregister_scan_covers(namespace: Seq<char>, service_type: Seq<char>, instance_id: Seq<char>)
    ensures
        service_key(namespace, service_type, instance_id).subrange(
            0,
            unregister_scan_prefix().len() as int,
        ) == unregister_scan_prefix(),
{
    assert(service_key(namespace, service_type, instance_id).subrange(0, 0) =~= unregister_scan_prefix());
}

/// The key of an instance starts with the prefix that discovery of its service scans.
pub proof fn lemma_key_under_prefix(namespace: Seq<char>, service_type: Seq<char>, instance_id: Seq<char>)
    ensures
        service_key(namespace, service_type, instance_id).subrange(
            0,
            service_prefix(namespace, service_type).len() as int,
        ) == service_prefix(namespace, service_type),
{
    assert(service_key(namespace, service_type, instance_id).subrange(
        0,
        service_prefix(namespace, service_type).len() as int,
    ) =~= service_prefix(namespace, service_type));
}

} // verus!
