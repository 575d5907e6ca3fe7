use vstd::prelude::*;
use vstd::string::StringExecFns;

use crate::address::SocketAddress;
use crate::config::BackendType;
use crate::instance::{InstanceView, MetadataView, ServiceInstance};
use crate::tags::TagMap;
use crate::text::{numeral, push_numeral};

verus! {

/// Seconds between two reads of a DNS backend that stands in for a change stream.
pub const DNS_POLL_SECS: u64 = 30;

/// The domain SRV names live under when the configuration names none.
pub const DEFAULT_DNS_DOMAIN: &'static str = "local";

/// Why a backend operation could not be carried out.
#[derive(Debug, Clone, Copy, PartialEq, Eq, Structural)]
pub enum BackendOpError {
    /// The backend does not offer the operation (registration on DNS).
    Unsupported,
}

/// The backend keeps registrations itself: lease-KV and agent backends do; DNS is read-only and
/// a mesh leaves registration to its sidecar.
pub open spec fn keeps_registrations(b: BackendType) -> bool {
    b == BackendType::Etcd || b == BackendType::Consul
}

/// What `register`, `unregister` and `heartbeat` do on a backend without a registry of its own:
/// DNS refuses them, a mesh accepts them and does nothing.
pub fn lifecycle_without_registry(b: BackendType) -> (r: Result<(), BackendOpError>)
    requires
        !keeps_registrations(b),
    ensures
        b == BackendType::Dns ==> r == Err::<(), BackendOpError>(BackendOpError::Unsupported),
        b == BackendType::Mesh ==> r is Ok,
{
    match b {
        BackendType::Dns => Err(BackendOpError::Unsupported),
        _ => Ok(()),
    }
}

/// The SRV name that lists the instances of a service: `_service._tcp.namespace.domain`.
pub open spec fn srv_name(service_type: Seq<char>, namespace: Seq<char>, domain: Seq<char>) -> Seq<char> {
    "_"@ + service_type + "._tcp."@ + namespace + "."@ + domain
}

/// The SRV name that lists the instances of a service.
pub fn build_srv_name(service_type: &str, namespace: &str, domain: &str) -> (r: String)
    ensures
        r@ == srv_name(service_type@, namespace@, domain@),
{
    let mut s = String::from_str("_");
    s.append(service_type);
    s.append("._tcp.");
    s.append(namespace);
    s.append(".");
    s.append(domain);
    proof {
        assert(s@ =~= srv_name(service_type@, namespace@, domain@));
    }
    s
}

/// The id given to the `index`-th address of a static list: `service-index`.
pub open spec fn static_id(service_type: Seq<char>, index: nat) -> Seq<char> {
    service_type + "-"@ + numeral(index, 10)
}

/// The instance a static list yields for the `index`-th address.
pub open spec fn static_instance(
    service_type: Seq<char>,
    index: nat,
    address: SocketAddress,
    namespace: Seq<char>,
    version: Option<Seq<char>>,
    tags: Map<Seq<char>, Seq<char>>,
) -> InstanceView {
    InstanceView {
        service_type,
        instance_id: static_id(service_type, index),
        address,
        namespace: Some(namespace),
        version,
        tags,
        metadata: MetadataView { region: None, zone: None, environment: None, custom: Map::empty() },
        healthy: true,
        weight: 100,
    }
}

/// One healthy instance per address of a static list, in list order, with ids `service-0`,
/// `service-1`, ..., placed in `namespace`, and carrying `version` and the tags of `tags` where
/// given (a mesh reports back what was asked for; DNS gives neither).
pub fn static_instances(
    service_type: &str,
    namespace: &str,
    version: Option<&str>,
    tags: Option<&TagMap>,
    addresses: &Vec<SocketAddress>,
) -> (r: Vec<ServiceInstance>)
    ensures
        r@.len() == addresses@.len(),
        forall|i: int|
            0 <= i < r@.len() ==> #[trigger] r@[i]@ == static_instance(
                service_type@,
                i as nat,
                addresses@[i],
                namespace@,
                match version {
                    Some(v) => Some(v@),
                    None => None,
                },
                match tags {
                    Some(t) => t@,
                    None => Map::empty(),
                },
            ),
{
    let ghost ver = match version {
        Some(v) => Some(v@),
        None => None,
    };
    let ghost tg = match tags {
        Some(t) => t@,
        None => Map::<Seq<char>, Seq<char>>::empty(),
    };
    let mut r: Vec<ServiceInstance> = Vec::new();
    let mut i: usize = 0;
    while i < addresses.len()
        invariant
            ver == match version {
                Some(v) => Some(v@),
                None => None,
            },
            tg == match tags {
                Some(t) => t@,
                None => Map::<Seq<char>, Seq<char>>::empty(),
            },
            i <= addresses@.len(),
            r@.len() == i,
            forall|k: int|
                0 <= k < i ==> #[trigger] r@[k]@ == static_instance(
                    service_type@,
                    k as nat,
                    addresses@[k],
                    namespace@,
                    ver,
                    tg,
                ),
        decreases addresses@.len() - i,
    {
        let mut id = String::from_str(service_type);
        id.append("-");
        push_numeral(&mut id, i as u64, 10);
        proof {
            assert(id@ =~= static_id(service_type@, i as nat));
        }
        let mut inst = ServiceInstance::new(service_type, id.as_str(), addresses[i]).with_namespace(
            namespace,
        );
        match version {
            Some(v) => {
                inst = inst.with_version(v);
            },
            None => {},
        }
        match tags {
            Some(t) => {
                inst.tags = t.duplicate();
            },
            None => {},
        }
        proof {
            assert(inst@ == static_instance(service_type@, i as nat, addresses@[i as int], namespace@, ver, tg));
        }
        r.push(inst);
        i = i + 1;
    }
    r
}

} // verus!
