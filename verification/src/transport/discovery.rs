//! Named publisher / subscriber discovery.
//!
//! An in-memory registry that maps logical names to `(channel, stream_id)`
//! pairs. Applications register their endpoints at startup and then resolve
//! publishers and subscribers by name, rather than threading channel strings
//! and stream IDs through every call site.
use vstd::prelude::*;

use super::{AeronPublisher, AeronSubscriber};

verus! {

/// Errors returned by named discovery operations.
#[derive(Debug, Clone, PartialEq, Eq)]
#[non_exhaustive]
pub enum DiscoveryError {
    /// No publisher or subscriber has been registered under the given name.
    Unknown(String),
    /// Registration rejected because the name is empty.
    EmptyName,
}

/// The human-readable description of a discovery error.
pub open spec fn discovery_error_text(e: DiscoveryError) -> Seq<char> {
    match e {
        DiscoveryError::Unknown(name) => "unknown discovery name: "@ + name@,
        DiscoveryError::EmptyName => "discovery name must not be empty"@,
    }
}

impl DiscoveryError {
    /// Renders the error as text, e.g. `unknown discovery name: foo`.
    pub fn to_string(&self) -> (s: String)
        ensures
            s@ == discovery_error_text(*self),
    {
        match self {
            DiscoveryError::Unknown(name) => {
                let mut s = String::from_str("unknown discovery name: ");
                s.append(name.as_str());
                s
            },
            DiscoveryError::EmptyName => String::from_str("discovery name must not be empty"),
        }
    }
}

/// A registered endpoint: the channel URI and the stream ID.
pub type Endpoint = (Seq<char>, i32);

struct RegistryEntry {
    name: String,
    channel: String,
    stream_id: i32,
}

/// A map from logical names to endpoints.
pub struct Registry {
    entries: Vec<RegistryEntry>,
    map: Ghost<Map<Seq<char>, Endpoint>>,
}

impl Registry {
    #[verifier::type_invariant]
    closed spec fn wf(self) -> bool {
        entries_match(self.entries@, self.map@)
    }
}

/// The entries hold each name at most once, and they are exactly the
/// entries of `map`.
spec fn entries_match(entries: Seq<RegistryEntry>, map: Map<Seq<char>, Endpoint>) -> bool {
    &&& forall|i: int, j: int|
        0 <= i < j < entries.len() ==> (#[trigger] entries[i]).name@ != (#[trigger] entries[j]).name@
    &&& forall|i: int|
        0 <= i < entries.len() ==> map.contains_key((#[trigger] entries[i]).name@) && map[entries[i].name@]
            == (entries[i].channel@, entries[i].stream_id)
    &&& forall|n: Seq<char>|
        #[trigger] map.contains_key(n) ==> exists|i: int|
            0 <= i < entries.len() && (#[trigger] entries[i]).name@ == n
}

impl View for Registry {
    type V = Map<Seq<char>, Endpoint>;

    closed spec fn view(&self) -> Map<Seq<char>, Endpoint> {
        self.map@
    }
}

impl Registry {
    /// Creates an empty registry.
    pub fn new() -> (r: Self)
        ensures
            r@ == Map::<Seq<char>, Endpoint>::empty(),
    {
        Registry { entries: Vec::new(), map: Ghost(Map::empty()) }
    }

    fn find(&self, name: &String) -> (r: Option<usize>)
        ensures
            r matches Some(i) ==> i < self.entries@.len() && self.entries@[i as int].name@ == name@,
            r is None ==> !self@.contains_key(name@),
    {
        proof {
            use_type_invariant(self);
        }
        let mut i: usize = 0;
        while i < self.entries.len()
            invariant
                i <= self.entries@.len(),
                forall|j: int| 0 <= j < i ==> (#[trigger] self.entries@[j]).name@ != name@,
            decreases self.entries@.len() - i,
        {
            if self.entries[i].name == *name {
                return Some(i);
            }
            i = i + 1;
        }
        None
    }

    /// Registers `(channel, stream_id)` under `name`, replacing any endpoint
    /// registered under that name before.
    pub fn insert(&mut self, name: &str, channel: String, stream_id: i32)
        ensures
            final(self)@ == old(self)@.insert(name@, (channel@, stream_id)),
    {
        proof {
            use_type_invariant(&*self);
        }
        let key = String::from_str(name);
        let ghost new_map = self.map@.insert(name@, (channel@, stream_id));
        match self.find(&key) {
            Some(i) => {
                let ghost old_map = self.map@;
                let entries_before = Ghost(self.entries@);
                let entry = RegistryEntry { name: key, channel, stream_id };
                let mut taken = Registry::new();
                std::mem::swap(&mut taken, self);
                proof {
                    use_type_invariant(&taken);
                }
                let Registry { mut entries, map: _ } = taken;
                assert(entries@ == entries_before@);
                entries.set(i, entry);
                assert forall|a: int, b: int|
                    0 <= a < b < entries@.len() implies (#[trigger] entries@[a]).name@
                    != (#[trigger] entries@[b]).name@ by {
                    assert(entries_before@[a].name@ != entries_before@[b].name@);
                }
                assert forall|k: int| 0 <= k < entries@.len() implies new_map.contains_key(
                    (#[trigger] entries@[k]).name@,
                ) && new_map[entries@[k].name@] == (entries@[k].channel@, entries@[k].stream_id) by {
                    if k != i {
                        assert(entries_before@[k].name@ != entries_before@[i as int].name@);
                        assert(old_map.contains_key(entries_before@[k].name@));
                    }
                }
                assert forall|n: Seq<char>| #[trigger] new_map.contains_key(n) implies exists|k: int|
                    0 <= k < entries@.len() && (#[trigger] entries@[k]).name@ == n by {
                    if n != name@ {
                        assert(old_map.contains_key(n));
                        let k: int = choose|k: int|
                            0 <= k < entries_before@.len() && (#[trigger] entries_before@[k]).name@
                                == n;
                        assert(entries@[k] == entries_before@[k]);
                    } else {
                        assert(entries@[i as int].name@ == n);
                    }
                }
                assert(entries_match(entries@, new_map));
                *self = Registry { entries, map: Ghost(new_map) };
            },
            None => {
                let ghost old_map = self.map@;
                let entry = RegistryEntry { name: key, channel, stream_id };
                let mut taken = Registry::new();
                std::mem::swap(&mut taken, self);
                proof {
                    use_type_invariant(&taken);
                }
                let Registry { mut entries, map: _ } = taken;
                let entries_before = Ghost(entries@);
                entries.push(entry);
                assert forall|a: int, b: int|
                    0 <= a < b < entries@.len() implies (#[trigger] entries@[a]).name@
                    != (#[trigger] entries@[b]).name@ by {
                    if b == entries_before@.len() {
                        assert(old_map.contains_key(entries_before@[a].name@));
                    } else {
                        assert(entries_before@[a].name@ != entries_before@[b].name@);
                    }
                }
                assert forall|k: int| 0 <= k < entries@.len() implies new_map.contains_key(
                    (#[trigger] entries@[k]).name@,
                ) && new_map[entries@[k].name@] == (entries@[k].channel@, entries@[k].stream_id) by {
                    if k < entries_before@.len() {
                        assert(old_map.contains_key(entries_before@[k].name@));
                        assert(entries@[k] == entries_before@[k]);
                    }
                }
                assert forall|n: Seq<char>| #[trigger] new_map.contains_key(n) implies exists|k: int|
                    0 <= k < entries@.len() && (#[trigger] entries@[k]).name@ == n by {
                    if n != name@ {
                        assert(old_map.contains_key(n));
                        let k: int = choose|k: int|
                            0 <= k < entries_before@.len() && (#[trigger] entries_before@[k]).name@
                                == n;
                        assert(entries@[k] == entries_before@[k]);
                    } else {
                        assert(entries@[entries_before@.len() as int].name@ == n);
                    }
                }
                assert(entries_match(entries@, new_map));
                *self = Registry { entries, map: Ghost(new_map) };
            },
        }
    }

    /// Returns the endpoint registered under `name`, if any.
    pub fn get(&self, name: &str) -> (r: Option<(String, i32)>)
        ensures
            self@.contains_key(name@) ==> (r matches Some((channel, stream_id)) && (channel@, stream_id)
                == self@[name@]),
            !self@.contains_key(name@) ==> r is None,
    {
        proof {
            use_type_invariant(self);
        }
        let key = String::from_str(name);
        match self.find(&key) {
            Some(i) => {
                let entry = &self.entries[i];
                Some((entry.channel.clone(), entry.stream_id))
            },
            None => None,
        }
    }
}

/// The registry after registering `endpoint` under `name`: an empty name is
/// refused and changes nothing; otherwise the name is bound to the
/// endpoint, replacing what it was bound to before.
pub open spec fn registered(m: Map<Seq<char>, Endpoint>, name: Seq<char>, endpoint: Endpoint) -> Map<
    Seq<char>,
    Endpoint,
> {
    if name.len() == 0 {
        m
    } else {
        m.insert(name, endpoint)
    }
}

/// The endpoint that `name` resolves to in `m`, if any.
pub open spec fn resolved(m: Map<Seq<char>, Endpoint>, name: Seq<char>) -> Option<Endpoint> {
    if m.contains_key(name) {
        Some(m[name])
    } else {
        None
    }
}

/// An endpoint as handed out, by its view.
pub open spec fn endpoint_view(r: Option<(String, i32)>) -> Option<Endpoint> {
    match r {
        Some((channel, stream_id)) => Some((channel@, stream_id)),
        None => None,
    }
}

/// The outcome of a registration under `name`.
pub open spec fn is_registration_result(name: Seq<char>, r: Result<(), DiscoveryError>) -> bool {
    if name.len() == 0 {
        r matches Err(DiscoveryError::EmptyName)
    } else {
        r is Ok
    }
}

/// The abstract state of a [`Discovery`] registry.
pub struct DiscoveryView {
    /// Registered publisher endpoints by name.
    pub publishers: Map<Seq<char>, Endpoint>,
    /// Registered subscriber endpoints by name.
    pub subscribers: Map<Seq<char>, Endpoint>,
}

/// The publisher and subscriber registries of an application.
///
/// A program keeps one of them for the whole process (set up at startup);
/// the two name spaces are independent.
pub struct Discovery {
    publishers: Registry,
    subscribers: Registry,
}

impl View for Discovery {
    type V = DiscoveryView;

    closed spec fn view(&self) -> DiscoveryView {
        DiscoveryView { publishers: self.publishers@, subscribers: self.subscribers@ }
    }
}

impl Discovery {
    /// Creates a registry with no publishers and no subscribers.
    pub fn new() -> (d: Self)
        ensures
            d@.publishers == Map::<Seq<char>, Endpoint>::empty(),
            d@.subscribers == Map::<Seq<char>, Endpoint>::empty(),
    {
        Discovery { publishers: Registry::new(), subscribers: Registry::new() }
    }
}

/// Registers a publisher endpoint under `name`.
///
/// Registering a name again replaces the earlier entry ("configuration
/// applied last wins"). Fails with [`DiscoveryError::EmptyName`], changing
/// nothing, when `name` is empty.
pub fn register_pub(discovery: &mut Discovery, name: &str, channel: String, stream_id: i32) -> (r:
    Result<(), DiscoveryError>)
    ensures
        is_registration_result(name@, r),
        final(discovery)@.publishers == registered(
            old(discovery)@.publishers,
            name@,
            (channel@, stream_id),
        ),
        final(discovery)@.subscribers == old(discovery)@.subscribers,
{
    if name.is_empty() {
        return Err(DiscoveryError::EmptyName);
    }
    discovery.publishers.insert(name, channel, stream_id);
    Ok(())
}

/// Registers a subscriber endpoint under `name`.
///
/// Registering a name again replaces the earlier entry. Fails with
/// [`DiscoveryError::EmptyName`], changing nothing, when `name` is empty.
pub fn register_sub(discovery: &mut Discovery, name: &str, channel: String, stream_id: i32) -> (r:
    Result<(), DiscoveryError>)
    ensures
        is_registration_result(name@, r),
        final(discovery)@.subscribers == registered(
            old(discovery)@.subscribers,
            name@,
            (channel@, stream_id),
        ),
        final(discovery)@.publishers == old(discovery)@.publishers,
{
    if name.is_empty() {
        return Err(DiscoveryError::EmptyName);
    }
    discovery.subscribers.insert(name, channel, stream_id);
    Ok(())
}

/// Returns the `(channel, stream_id)` registered for a publisher name, if
/// any.
pub fn lookup_pub(discovery: &Discovery, name: &str) -> (r: Option<(String, i32)>)
    ensures
        endpoint_view(r) == resolved(discovery@.publishers, name@),
{
    discovery.publishers.get(name)
}

/// Returns the `(channel, stream_id)` registered for a subscriber name, if
/// any.
pub fn lookup_sub(discovery: &Discovery, name: &str) -> (r: Option<(String, i32)>)
    ensures
        endpoint_view(r) == resolved(discovery@.subscribers, name@),
{
    discovery.subscribers.get(name)
}

/// Checks that `name` is a registered publisher and hands the publisher
/// back unchanged; fails with [`DiscoveryError::Unknown`] naming it
/// otherwise.
pub fn aeron_pub_named<P: AeronPublisher>(discovery: &Discovery, name: &str, publisher: P) -> (r:
    Result<P, DiscoveryError>)
    ensures
        discovery@.publishers.contains_key(name@) ==> r == Ok::<P, DiscoveryError>(publisher),
        !discovery@.publishers.contains_key(name@) ==> (r matches Err(DiscoveryError::Unknown(n))
            && n@ == name@),
{
    if lookup_pub(discovery, name).is_some() {
        Ok(publisher)
    } else {
        Err(DiscoveryError::Unknown(String::from_str(name)))
    }
}

/// Checks that `name` is a registered subscriber and hands the subscriber
/// back unchanged; fails with [`DiscoveryError::Unknown`] naming it
/// otherwise.
pub fn aeron_sub_discover<S: AeronSubscriber>(discovery: &Discovery, name: &str, subscriber: S) -> (r:
    Result<S, DiscoveryError>)
    ensures
        discovery@.subscribers.contains_key(name@) ==> r == Ok::<S, DiscoveryError>(subscriber),
        !discovery@.subscribers.contains_key(name@) ==> (r matches Err(DiscoveryError::Unknown(n))
            && n@ == name@),
{
    if lookup_sub(discovery, name).is_some() {
        Ok(subscriber)
    } else {
        Err(DiscoveryError::Unknown(String::from_str(name)))
    }
}

/// A name that was registered resolves to the endpoint registered last.
pub proof fn lemma_lookup_after_register(m: Map<Seq<char>, Endpoint>, name: Seq<char>, endpoint: Endpoint)
    requires
        name.len() > 0,
    ensures
        resolved(registered(m, name, endpoint), name) == Some(endpoint),
{
}

/// Registering a name twice keeps the second endpoint.
pub proof fn lemma_register_overwrites(
    m: Map<Seq<char>, Endpoint>,
    name: Seq<char>,
    first: Endpoint,
    second: Endpoint,
)
    requires
        name.len() > 0,
    ensures
        resolved(registered(registered(m, name, first), name, second), name) == Some(second),
{
}

/// Registering a name leaves every other name as it was.
pub proof fn lemma_register_leaves_other_names(
    m: Map<Seq<char>, Endpoint>,
    name: Seq<char>,
    other: Seq<char>,
    endpoint: Endpoint,
)
    requires
        other != name,
    ensures
        resolved(registered(m, name, endpoint), other) == resolved(m, other),
{
}

/// A registration is refused exactly when the name is empty, and then
/// with the empty-name error; any non-empty name is accepted.
pub proof fn lemma_only_empty_names_refused(name: Seq<char>, r: Result<(), DiscoveryError>)
    requires
        is_registration_result(name, r),
    ensures
        (r is Ok) == (name.len() > 0),
        (r matches Err(DiscoveryError::EmptyName)) == (name.len() == 0),
{
}

/// An empty name is never registered: the registry stays as it was.
pub proof fn lemma_empty_name_changes_nothing(m: Map<Seq<char>, Endpoint>, endpoint: Endpoint)
    ensures
        registered(m, Seq::empty(), endpoint) == m,
        resolved(registered(m, Seq::empty(), endpoint), Seq::empty()) == resolved(m, Seq::empty()),
{
}

} // verus!
