use vstd::prelude::*;
use vstd::string::StringExecFns;

use crate::address::SocketAddress;
use crate::config::TagFilter;
use crate::tags::TagMap;
use crate::text::{channel_uri, channel_uri_string};

verus! {

/// Advisory placement data of an instance; not used for routing.
pub struct InstanceMetadata {
    pub region: Option<String>,
    pub zone: Option<String>,
    pub environment: Option<String>,
    pub custom: TagMap,
}

/// One running endpoint of a service, identified by its service type and instance id.
pub struct ServiceInstance {
    pub service_type: String,
    pub instance_id: String,
    pub address: SocketAddress,
    pub namespace: Option<String>,
    pub version: Option<String>,
    pub tags: TagMap,
    pub metadata: InstanceMetadata,
    pub healthy: bool,
    pub weight: u32,
}

/// What an instance's metadata holds, as mathematical values.
pub struct MetadataView {
    pub region: Option<Seq<char>>,
    pub zone: Option<Seq<char>>,
    pub environment: Option<Seq<char>>,
    pub custom: Map<Seq<char>, Seq<char>>,
}

/// What an instance holds, as mathematical values.
pub struct InstanceView {
    pub service_type: Seq<char>,
    pub instance_id: Seq<char>,
    pub address: SocketAddress,
    pub namespace: Option<Seq<char>>,
    pub version: Option<Seq<char>>,
    pub tags: Map<Seq<char>, Seq<char>>,
    pub metadata: MetadataView,
    pub healthy: bool,
    pub weight: u32,
}

/// The characters of an optional string.
pub open spec fn opt_view(o: Option<String>) -> Option<Seq<char>> {
    match o {
        Some(s) => Some(s@),
        None => None,
    }
}

/// The characters of an optional string slice.
pub open spec fn opt_str_view(o: Option<&str>) -> Option<Seq<char>> {
    match o {
        Some(s) => Some(s@),
        None => None,
    }
}

/// The map of an optional tag filter.
pub open spec fn opt_tags_view(o: Option<&TagMap>) -> Option<Map<Seq<char>, Seq<char>>> {
    match o {
        Some(t) => Some(t@),
        None => None,
    }
}

impl View for InstanceMetadata {
    type V = MetadataView;

    open spec fn view(&self) -> MetadataView {
        MetadataView {
            region: opt_view(self.region),
            zone: opt_view(self.zone),
            environment: opt_view(self.environment),
            custom: self.custom@,
        }
    }
}

impl View for ServiceInstance {
    type V = InstanceView;

    open spec fn view(&self) -> InstanceView {
        InstanceView {
            service_type: self.service_type@,
            instance_id: self.instance_id@,
            address: self.address,
            namespace: opt_view(self.namespace),
            version: opt_view(self.version),
            tags: self.tags@,
            metadata: self.metadata@,
            healthy: self.healthy,
            weight: self.weight,
        }
    }
}

/// A namespace query matches when either side names no namespace, or both name the same one.
pub open spec fn namespace_matches(query: Option<Seq<char>>, have: Option<Seq<char>>) -> bool {
    match (query, have) {
        (Some(q), Some(h)) => q == h,
        _ => true,
    }
}

/// A version query matches every instance when absent, else only the instance with that exact version.
pub open spec fn version_matches(query: Option<Seq<char>>, have: Option<Seq<char>>) -> bool {
    match query {
        None => true,
        Some(q) => have == Some(q),
    }
}

/// A tag query matches an instance that holds every requested tag with the requested value.
pub open spec fn tags_match(query: Option<Map<Seq<char>, Seq<char>>>, have: Map<Seq<char>, Seq<char>>) -> bool {
    match query {
        None => true,
        Some(q) => q.submap_of(have),
    }
}

/// Whether discovery with these filters returns the instance: it is healthy and every filter matches.
pub open spec fn query_matches(
    i: InstanceView,
    namespace: Option<Seq<char>>,
    version: Option<Seq<char>>,
    tags: Option<Map<Seq<char>, Seq<char>>>,
) -> bool {
    i.healthy && namespace_matches(namespace, i.namespace) && version_matches(version, i.version)
        && tags_match(tags, i.tags)
}

/// The result of discovery over a set of stored instances: those that match, in stored order.
pub open spec fn discovered(
    stored: Seq<ServiceInstance>,
    namespace: Option<Seq<char>>,
    version: Option<Seq<char>>,
    tags: Option<Map<Seq<char>, Seq<char>>>,
) -> Seq<ServiceInstance> {
    stored.filter(query_pred(namespace, version, tags))
}

/// `query_matches` as a predicate on instances.
pub open spec fn query_pred(
    namespace: Option<Seq<char>>,
    version: Option<Seq<char>>,
    tags: Option<Map<Seq<char>, Seq<char>>>,
) -> spec_fn(ServiceInstance) -> bool {
    |i: ServiceInstance| query_matches(i@, namespace, version, tags)
}

/// A tag filter holds for a tag map that has its key, with its value where it names one.
pub open spec fn tag_filter_holds(tags: Map<Seq<char>, Seq<char>>, f: TagFilter) -> bool {
    tags.contains_key(f.key@) && match f.value {
        Some(v) => tags[f.key@] == v@,
        None => true,
    }
}

/// Every filter of `filters` holds for `tags`.
pub open spec fn tag_filters_hold(tags: Map<Seq<char>, Seq<char>>, filters: Seq<TagFilter>) -> bool {
    forall|i: int| 0 <= i < filters.len() ==> tag_filter_holds(tags, #[trigger] filters[i])
}

/// Compares two optional strings by their characters.
pub fn opt_string_eq(a: &Option<String>, b: &Option<String>) -> (r: bool)
    ensures
        r == (opt_view(*a) == opt_view(*b)),
{
    match (a, b) {
        (Some(x), Some(y)) => *x == *y,
        (None, None) => true,
        _ => false,
    }
}

/// Copies an optional string.
pub fn opt_string_copy(a: &Option<String>) -> (r: Option<String>)
    ensures
        opt_view(r) == opt_view(*a),
{
    match a {
        Some(x) => Some(x.clone()),
        None => None,
    }
}

impl InstanceMetadata {
    /// Metadata with nothing set.
    pub fn empty() -> (r: InstanceMetadata)
        ensures
            r@ == (MetadataView {
                region: None,
                zone: None,
                environment: None,
                custom: Map::empty(),
            }),
    {
        InstanceMetadata { region: None, zone: None, environment: None, custom: TagMap::new() }
    }

    /// A copy equal in every field.
    pub fn duplicate(&self) -> (r: InstanceMetadata)
        ensures
            r@ == self@,
    {
        InstanceMetadata {
            region: opt_string_copy(&self.region),
            zone: opt_string_copy(&self.zone),
            environment: opt_string_copy(&self.environment),
            custom: self.custom.duplicate(),
        }
    }

    /// Whether both hold the same values in every field.
    pub fn same_as(&self, other: &InstanceMetadata) -> (r: bool)
        ensures
            r == (self@ == other@),
    {
        opt_string_eq(&self.region, &other.region) && opt_string_eq(&self.zone, &other.zone)
            && opt_string_eq(&self.environment, &other.environment) && self.custom.same_as(
            &other.custom,
        )
    }
}

impl ServiceInstance {
    /// A healthy instance of weight 100 with no namespace, version, tags or metadata.
    pub fn new(service_type: &str, instance_id: &str, address: SocketAddress) -> (r: ServiceInstance)
        ensures
            r@ == (InstanceView {
                service_type: service_type@,
                instance_id: instance_id@,
                address,
                namespace: None,
                version: None,
                tags: Map::empty(),
                metadata: MetadataView {
                    region: None,
                    zone: None,
                    environment: None,
                    custom: Map::empty(),
                },
                healthy: true,
                weight: 100,
            }),
    {
        ServiceInstance {
            service_type: String::from_str(service_type),
            instance_id: String::from_str(instance_id),
            address,
            namespace: None,
            version: None,
            tags: TagMap::new(),
            metadata: InstanceMetadata::empty(),
            healthy: true,
            weight: 100,
        }
    }

    /// This instance placed in `namespace`.
    pub fn with_namespace(self, namespace: &str) -> (r: ServiceInstance)
        ensures
            r@ == (InstanceView { namespace: Some(namespace@), ..self@ }),
    {
        let mut s = self;
        s.namespace = Some(String::from_str(namespace));
        s
    }

    /// This instance with version `version`.
    pub fn with_version(self, version: &str) -> (r: ServiceInstance)
        ensures
            r@ == (InstanceView { version: Some(version@), ..self@ }),
    {
        let mut s = self;
        s.version = Some(String::from_str(version));
        s
    }

    /// This instance with tag `key` set to `value`.
    pub fn with_tag(self, key: &str, value: &str) -> (r: ServiceInstance)
        ensures
            r@ == (InstanceView { tags: self@.tags.insert(key@, value@), ..self@ }),
    {
        let mut s = self;
        s.tags.insert(String::from_str(key), String::from_str(value));
        s
    }

    /// This instance with load-balancing weight `weight`.
    pub fn with_weight(self, weight: u32) -> (r: ServiceInstance)
        ensures
            r@ == (InstanceView { weight, ..self@ }),
    {
        let mut s = self;
        s.weight = weight;
        s
    }

    /// This instance marked healthy or not.
    pub fn with_health(self, healthy: bool) -> (r: ServiceInstance)
        ensures
            r@ == (InstanceView { healthy, ..self@ }),
    {
        let mut s = self;
        s.healthy = healthy;
        s
    }

    /// A copy equal in every field.
    pub fn duplicate(&self) -> (r: ServiceInstance)
        ensures
            r@ == self@,
    {
        ServiceInstance {
            service_type: self.service_type.clone(),
            instance_id: self.instance_id.clone(),
            address: self.address,
            namespace: opt_string_copy(&self.namespace),
            version: opt_string_copy(&self.version),
            tags: self.tags.duplicate(),
            metadata: self.metadata.duplicate(),
            healthy: self.healthy,
            weight: self.weight,
        }
    }

    /// Whether both hold the same values in every field (tags compared as maps).
    pub fn same_as(&self, other: &ServiceInstance) -> (r: bool)
        ensures
            r == (self@ == other@),
    {
        self.service_type == other.service_type && self.instance_id == other.instance_id
            && self.address == other.address && opt_string_eq(&self.namespace, &other.namespace)
            && opt_string_eq(&self.version, &other.version) && self.tags.same_as(&other.tags)
            && self.metadata.same_as(&other.metadata) && self.healthy == other.healthy
            && self.weight == other.weight
    }

    /// The URI a transport channel dials to reach this instance.
    pub fn to_grpc_uri(&self) -> (r: String)
        ensures
            r@ == channel_uri(self.address),
    {
        channel_uri_string(self.address)
    }

    /// The HTTP URL of this instance.
    pub fn to_http_url(&self) -> (r: String)
        ensures
            r@ == channel_uri(self.address),
    {
        channel_uri_string(self.address)
    }

    /// Whether the instance holds every tag of `filters` with the same value.
    pub fn matches_tags(&self, filters: &TagMap) -> (r: bool)
        ensures
            r == filters@.submap_of(self@.tags),
    {
        self.tags.contains_all(filters)
    }

    /// Whether the instance has the requested version (any, when none is requested).
    pub fn matches_version(&self, version: Option<&str>) -> (r: bool)
        ensures
            r == version_matches(opt_str_view(version), self@.version),
    {
        match (version, &self.version) {
            (None, _) => true,
            (Some(v), Some(mine)) => {
                let v = String::from_str(v);
                v == *mine
            },
            (Some(_), None) => false,
        }
    }

    /// Whether the instance lies in the requested namespace (absence on either side matches).
    pub fn matches_namespace(&self, namespace: Option<&str>) -> (r: bool)
        ensures
            r == namespace_matches(opt_str_view(namespace), self@.namespace),
    {
        match (namespace, &self.namespace) {
            (Some(n), Some(mine)) => {
                let n = String::from_str(n);
                n == *mine
            },
            _ => true,
        }
    }

    /// Whether every tag filter holds for this instance.
    pub fn matches_tag_filters(&self, filters: &Vec<TagFilter>) -> (r: bool)
        ensures
            r == tag_filters_hold(self@.tags, filters@),
    {
        let mut i: usize = 0;
        while i < filters.len()
            invariant
                i <= filters@.len(),
                forall|j: int| 0 <= j < i ==> tag_filter_holds(self@.tags, #[trigger] filters@[j]),
            decreases filters@.len() - i,
        {
            let f = &filters[i];
            let holds = match self.tags.get(f.key.as_str()) {
                Some(v) => match &f.value {
                    Some(want) => *v == *want,
                    None => true,
                },
                None => false,
            };
            if !holds {
                return false;
            }
            i = i + 1;
        }
        true
    }

    /// Whether discovery with these filters returns this instance.
    pub fn matches_query(
        &self,
        namespace: Option<&str>,
        version: Option<&str>,
        tags: Option<&TagMap>,
    ) -> (r: bool)
        ensures
            r == query_matches(
                self@,
                opt_str_view(namespace),
                opt_str_view(version),
                opt_tags_view(tags),
            ),
    {
        self.healthy && self.matches_namespace(namespace) && self.matches_version(version) && match tags {
            Some(t) => self.matches_tags(t),
            None => true,
        }
    }
}

/// Keeps the stored instances that a discovery with these filters returns, in stored order.
pub fn select_matching(
    stored: Vec<ServiceInstance>,
    namespace: Option<&str>,
    version: Option<&str>,
    tags: Option<&TagMap>,
) -> (r: Vec<ServiceInstance>)
    ensures
        r@ == discovered(
            stored@,
            opt_str_view(namespace),
            opt_str_view(version),
            opt_tags_view(tags),
        ),
{
    let ghost ns = opt_str_view(namespace);
    let ghost ver = opt_str_view(version);
    let ghost tg = opt_tags_view(tags);
    let ghost all = stored@;
    let mut rest = stored;
    let mut out: Vec<ServiceInstance> = Vec::new();
    while rest.len() > 0
        invariant
            ns == opt_str_view(namespace),
            ver == opt_str_view(version),
            tg == opt_tags_view(tags),
            rest@.len() <= all.len(),
            rest@ == all.subrange(all.len() - rest@.len(), all.len() as int),
            out@ == discovered(all.subrange(0, all.len() - rest@.len()), ns, ver, tg),
        decreases rest@.len(),
    {
        let ghost k = all.len() - rest@.len();
        let inst = rest.remove(0);
        proof {
            assert(inst == all[k]);
            assert(all.subrange(0, k + 1).drop_last() =~= all.subrange(0, k));
            assert(all.subrange(0, k + 1).last() == all[k]);
            assert(rest@ =~= all.subrange(k + 1, all.len() as int));
            reveal(Seq::filter);
        }
        let keep = inst.matches_query(namespace, version, tags);
        let ghost before = out@;
        let ghost taken = inst;
        if keep {
            out.push(inst);
        }
        proof {
            let p = query_pred(ns, ver, tg);
            let sub = all.subrange(0, k + 1);
            reveal(Seq::filter);
            assert(sub.filter(p) == if p(sub.last()) {
                sub.drop_last().filter(p).push(sub.last())
            } else {
                sub.drop_last().filter(p)
            });
            assert(all.len() - rest@.len() == k + 1);
            assert(sub.drop_last() == all.subrange(0, k));
            assert(sub.last() == taken);
        }
    }
    proof {
        assert(all.subrange(0, all.len() as int) =~= all);
    }
    out
}

/// Discovery returns only instances that hold every requested tag with the requested value.
pub proof fn lemma_discover_respects_tags(
    stored: Seq<ServiceInstance>,
    namespace: Option<Seq<char>>,
    version: Option<Seq<char>>,
    tags: Map<Seq<char>, Seq<char>>,
    i: int,
)
    requires
        0 <= i < discovered(stored, namespace, version, Some(tags)).len(),
    ensures
        tags.submap_of(discovered(stored, namespace, version, Some(tags))[i]@.tags),
{
    let p = query_pred(namespace, version, Some(tags));
    stored.lemma_filter_pred(p, i);
}

/// An instance registered in namespace `a` is not returned by discovery in another namespace `b`.
pub proof fn lemma_namespace_isolation(
    stored: Seq<ServiceInstance>,
    a: Seq<char>,
    b: Seq<char>,
    version: Option<Seq<char>>,
    tags: Option<Map<Seq<char>, Seq<char>>>,
    inst: ServiceInstance,
)
    requires
        a != b,
        inst@.namespace == Some(a),
    ensures
        !discovered(stored, Some(b), version, tags).contains(inst),
{
    let p = query_pred(Some(b), version, tags);
    if discovered(stored, Some(b), version, tags).contains(inst) {
        let j = choose|j: int|
            0 <= j < discovered(stored, Some(b), version, tags).len() && discovered(
                stored,
                Some(b),
                version,
                tags,
            )[j] == inst;
        stored.lemma_filter_pred(p, j);
    }
}

/// Discovery returns every stored instance that is healthy and matches the filters.
pub proof fn lemma_discover_complete(
    stored: Seq<ServiceInstance>,
    namespace: Option<Seq<char>>,
    version: Option<Seq<char>>,
    tags: Option<Map<Seq<char>, Seq<char>>>,
    i: int,
)
    requires
        0 <= i < stored.len(),
        query_matches(stored[i]@, namespace, version, tags),
    ensures
        discovered(stored, namespace, version, tags).contains(stored[i]),
{
    let p = query_pred(namespace, version, tags);
    stored.lemma_filter_contains(p, i);
}

} // verus!
