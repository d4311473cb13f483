//! The registry of media calls: which mailbox an endpoint's datagrams go to, and which calls run.
use crate::endpoint_table::{slots_get, slots_insert, slots_new, slots_of, slots_remove};
use crate::net::EndpointId;
use dashmap::DashMap;
use std::hash::RandomState;
use vstd::prelude::*;

verus! {

/// What a map of running calls holds: by call identifier, the mailbox, the endpoints, and whether the
/// call is a plain relay.
pub uninterp spec fn calls_of(map: DashMap<String, (u64, Vec<u64>, bool), RandomState>) -> Map<
    Seq<char>,
    (u64, Seq<u64>, bool),
>;

/// `DashMap::new` makes a map that holds nothing.
#[verifier::external_body]
fn calls_new() -> (made: DashMap<String, (u64, Vec<u64>, bool), RandomState>)
    ensures
        calls_of(made).dom() == Set::<Seq<char>>::empty(),
{
    DashMap::new()
}

/// `DashMap::insert` puts the value under the key, in place of one that is there.
#[verifier::external_body]
fn calls_insert(map: &mut DashMap<String, (u64, Vec<u64>, bool), RandomState>, key: String, value: (u64, Vec<u64>, bool))
    ensures
        calls_of(*final(map)) == calls_of(*old(map)).insert(key@, (value.0, value.1@, value.2)),
{
    map.insert(key, value);
}

/// `DashMap::remove` takes the key out of the map and hands back the value it had.
#[verifier::external_body]
fn calls_remove(map: &mut DashMap<String, (u64, Vec<u64>, bool), RandomState>, key: &String) -> (removed: Option<
    (u64, Vec<u64>, bool),
>)
    ensures
        calls_of(*final(map)) == calls_of(*old(map)).remove(key@),
        removed is Some == calls_of(*old(map)).dom().contains(key@),
        removed matches Some(value) ==> calls_of(*old(map))[key@] == (value.0, value.1@, value.2),
{
    map.remove(key).map(|entry| entry.1)
}

/// `DashMap::get` finds the value under the key, if there is one. A copy of it is handed out.
#[verifier::external_body]
fn calls_get(map: &DashMap<String, (u64, Vec<u64>, bool), RandomState>, key: &String) -> (found: Option<
    (u64, Vec<u64>, bool),
>)
    ensures
        found is Some == calls_of(*map).dom().contains(key@),
        found matches Some(value) ==> calls_of(*map)[key@] == (value.0, value.1@, value.2),
{
    map.get(key).map(|entry| entry.value().clone())
}

/// `DashMap::iter` walks over the entries, each once, in no order that is claimed here. The keys and
/// the relay flags are handed out.
#[verifier::external_body]
fn calls_iter(map: &DashMap<String, (u64, Vec<u64>, bool), RandomState>) -> (walk: Vec<(String, bool)>)
    ensures
        walk_keys(walk@).no_duplicates(),
        walk_keys(walk@).to_set() == calls_of(*map).dom(),
        forall|i: int| 0 <= i < walk@.len() ==> calls_of(*map)[(#[trigger] walk@[i]).0@].2 == walk@[i].1,
{
    map.iter().map(|entry| (entry.key().clone(), entry.value().2)).collect()
}

/// The keys of a walk over the calls.
pub open spec fn walk_keys(walk: Seq<(String, bool)>) -> Seq<Seq<char>> {
    Seq::new(walk.len(), |i: int| walk[i].0@)
}

/// The routes with every one of `endpoints` leading to `mailbox`.
pub open spec fn routed(routes: Map<u64, u64>, endpoints: Seq<u64>, mailbox: u64) -> Map<u64, u64> {
    routes.union_prefer_right(Map::new(|key: u64| endpoints.contains(key), |key: u64| mailbox))
}

/// The routes without any of `endpoints`.
pub open spec fn unrouted(routes: Map<u64, u64>, endpoints: Seq<u64>) -> Map<u64, u64> {
    routes.remove_keys(endpoints.to_set())
}

/// The registry of media calls.
pub struct MediaRegistry {
    routes: DashMap<u64, u64, RandomState>,
    calls: DashMap<String, (u64, Vec<u64>, bool), RandomState>,
}

/// The state of a [`MediaRegistry`].
pub struct MediaRegistryView {
    /// The mailbox each endpoint's datagrams go to.
    pub routes: Map<u64, u64>,
    /// The running calls: mailbox, endpoints, and whether the call is a plain relay.
    pub calls: Map<Seq<char>, (u64, Seq<u64>, bool)>,
}

impl View for MediaRegistry {
    type V = MediaRegistryView;

    closed spec fn view(&self) -> MediaRegistryView {
        MediaRegistryView { routes: slots_of(self.routes), calls: calls_of(self.calls) }
    }
}

impl MediaRegistryView {
    /// The calls that transcode, rather than relay.
    pub open spec fn transcoding(self) -> Set<Seq<char>> {
        self.calls.dom().filter(|call_id: Seq<char>| !self.calls[call_id].2)
    }
}

impl Default for MediaRegistry {
    fn default() -> (registry: Self)
        ensures
            registry@.routes.dom() == Set::<u64>::empty(),
            registry@.calls.dom() == Set::<Seq<char>>::empty(),
    {
        MediaRegistry::new()
    }
}

impl MediaRegistry {
    /// An empty registry.
    pub fn new() -> (registry: Self)
        ensures
            registry@.routes.dom() == Set::<u64>::empty(),
            registry@.calls.dom() == Set::<Seq<char>>::empty(),
    {
        MediaRegistry { routes: slots_new(), calls: calls_new() }
    }

    /// Whether an endpoint's datagrams go to a call.
    pub fn owns(&self, endpoint: EndpointId) -> (owned: bool)
        ensures
            owned == self@.routes.dom().contains(endpoint.0),
    {
        slots_get(&self.routes, endpoint.0).is_some()
    }

    /// The mailbox an endpoint's datagrams go to. One without a mailbox is dropped.
    pub fn dispatch(&self, endpoint: EndpointId) -> (mailbox: Option<u64>)
        ensures
            mailbox is Some == self@.routes.dom().contains(endpoint.0),
            mailbox matches Some(id) ==> id == self@.routes[endpoint.0],
    {
        slots_get(&self.routes, endpoint.0)
    }

    /// Register a call: its endpoints lead to its mailbox.
    pub fn register(&mut self, call_id: String, mailbox: u64, endpoints: Vec<u64>, relay_only: bool)
        ensures
            final(self)@.routes == routed(old(self)@.routes, endpoints@, mailbox),
            final(self)@.calls == old(self)@.calls.insert(call_id@, (mailbox, endpoints@, relay_only)),
    {
        let ghost before = self@.routes;
        let mut i: usize = 0;
        proof {
            assert(routed(before, endpoints@.take(0), mailbox) =~= before);
        }
        while i < endpoints.len()
            invariant
                i <= endpoints@.len(),
                slots_of(self.routes) == routed(before, endpoints@.take(i as int), mailbox),
                self.calls == old(self).calls,
            decreases endpoints@.len() - i,
        {
            slots_insert(&mut self.routes, endpoints[i], mailbox);
            proof {
                lemma_contains_step(endpoints@, i as int);
                assert(slots_of(self.routes) =~= routed(before, endpoints@.take(i + 1), mailbox));
            }
            i = i + 1;
        }
        proof {
            assert(endpoints@.take(i as int) =~= endpoints@);
        }
        calls_insert(&mut self.calls, call_id, (mailbox, endpoints, relay_only));
    }

    /// The mailbox a control operation on a call goes to.
    pub fn control(&self, call_id: &String) -> (mailbox: Option<u64>)
        ensures
            mailbox is Some == self@.calls.dom().contains(call_id@),
            mailbox matches Some(id) ==> id == self@.calls[call_id@].0,
    {
        match calls_get(&self.calls, call_id) {
            Some(handle) => Some(handle.0),
            None => None,
        }
    }

    /// Whether a call is registered at all.
    pub fn is_media_call(&self, call_id: &String) -> (registered: bool)
        ensures
            registered == self@.calls.dom().contains(call_id@),
    {
        calls_get(&self.calls, call_id).is_some()
    }

    /// Whether a call is registered and transcodes.
    pub fn is_transcoding_call(&self, call_id: &String) -> (transcoding: bool)
        ensures
            transcoding == self@.transcoding().contains(call_id@),
    {
        match calls_get(&self.calls, call_id) {
            Some(handle) => !handle.2,
            None => false,
        }
    }

    /// Whether a call is registered and relays.
    pub fn is_relay_call(&self, call_id: &String) -> (relay: bool)
        ensures
            relay == (self@.calls.dom().contains(call_id@) && self@.calls[call_id@].2),
    {
        match calls_get(&self.calls, call_id) {
            Some(handle) => handle.2,
            None => false,
        }
    }

    /// How many calls transcode.
    pub fn transcode_call_count(&self) -> (count: usize)
        ensures
            count == self@.transcoding().len(),
            self@.transcoding().finite(),
    {
        let walk = calls_iter(&self.calls);
        let ghost keys = walk_keys(walk@);
        let ghost calls = self@.calls;
        let mut count: usize = 0;
        let mut i: usize = 0;
        let ghost mut seen = Set::<Seq<char>>::empty();
        while i < walk.len()
            invariant
                i <= walk@.len(),
                count <= i,
                keys == walk_keys(walk@),
                keys.no_duplicates(),
                forall|j: int| 0 <= j < walk@.len() ==> calls[(#[trigger] walk@[j]).0@].2 == walk@[j].1,
                seen.finite(),
                seen.len() == count,
                forall|key: Seq<char>|
                    seen.contains(key) <==> exists|j: int| 0 <= j < i && #[trigger] keys[j] == key && !calls[key].2,
            decreases walk@.len() - i,
        {
            proof {
                assert(keys[i as int] == walk@[i as int].0@);
            }
            if !walk[i].1 {
                proof {
                    let key = keys[i as int];
                    if seen.contains(key) {
                        let j = choose|j: int| 0 <= j < i && #[trigger] keys[j] == key && !calls[key].2;
                        assert(keys[j] != keys[i as int]);
                    }
                    let before = seen;
                    seen = seen.insert(key);
                    assert forall|k: Seq<char>|
                        seen.contains(k) <==> exists|j: int| 0 <= j < i + 1 && #[trigger] keys[j] == k && !calls[k].2 by {
                        if before.contains(k) {
                            let j = choose|j: int| 0 <= j < i && #[trigger] keys[j] == k && !calls[k].2;
                            assert(keys[j] == k);
                        }
                    }
                }
                count = count + 1;
            } else {
                proof {
                    assert forall|k: Seq<char>|
                        seen.contains(k) <==> exists|j: int| 0 <= j < i + 1 && #[trigger] keys[j] == k && !calls[k].2 by {
                        if seen.contains(k) {
                            let j = choose|j: int| 0 <= j < i && #[trigger] keys[j] == k && !calls[k].2;
                            assert(keys[j] == k);
                        }
                    }
                }
            }
            i = i + 1;
        }
        proof {
            assert forall|key: Seq<char>| seen.contains(key) == self@.transcoding().contains(key) by {
                if self@.transcoding().contains(key) {
                    assert(keys.to_set().contains(key));
                    let j = choose|j: int| 0 <= j < keys.len() && keys[j] == key;
                    assert(keys[j] == key);
                }
                if seen.contains(key) {
                    let j = choose|j: int| 0 <= j < i && #[trigger] keys[j] == key && !calls[key].2;
                    assert(keys.to_set().contains(keys[j]));
                }
            }
            assert(seen =~= self@.transcoding());
        }
        count
    }

    /// Take a call out of the registry, with the routes of its endpoints. Returns the mailbox to stop.
    pub fn deregister(&mut self, call_id: &String) -> (mailbox: Option<u64>)
        ensures
            mailbox is Some == old(self)@.calls.dom().contains(call_id@),
            mailbox is None ==> final(self)@ == old(self)@,
            mailbox matches Some(id) ==> {
                let handle = old(self)@.calls[call_id@];
                &&& id == handle.0
                &&& final(self)@.calls == old(self)@.calls.remove(call_id@)
                &&& final(self)@.routes == unrouted(old(self)@.routes, handle.1)
            },
    {
        let ghost before = self@;
        match calls_remove(&mut self.calls, call_id) {
            None => {
                proof {
                    assert(calls_of(self.calls) =~= before.calls);
                }
                None
            },
            Some(handle) => {
                let endpoints = handle.1;
                let mut i: usize = 0;
                proof {
                    assert(unrouted(before.routes, endpoints@.take(0)) =~= before.routes);
                }
                while i < endpoints.len()
                    invariant
                        i <= endpoints@.len(),
                        slots_of(self.routes) == unrouted(before.routes, endpoints@.take(i as int)),
                        calls_of(self.calls) == before.calls.remove(call_id@),
                    decreases endpoints@.len() - i,
                {
                    slots_remove(&mut self.routes, endpoints[i]);
                    proof {
                        lemma_contains_step(endpoints@, i as int);
                        assert(slots_of(self.routes) =~= unrouted(before.routes, endpoints@.take(i + 1)));
                    }
                    i = i + 1;
                }
                proof {
                    assert(endpoints@.take(i as int) =~= endpoints@);
                }
                Some(handle.0)
            },
        }
    }
}

/// One more element adds exactly itself.
proof fn lemma_contains_step(items: Seq<u64>, i: int)
    requires
        0 <= i < items.len(),
    ensures
        forall|key: u64| #[trigger]
            items.take(i + 1).contains(key) <==> (items.take(i).contains(key) || key == items[i]),
{
    let next = items.take(i + 1);
    let prior = items.take(i);
    assert forall|key: u64| #[trigger]
        items.take(i + 1).contains(key) <==> (items.take(i).contains(key) || key == items[i]) by {
        if items.take(i + 1).contains(key) {
            let j = choose|j: int| 0 <= j < next.len() && next[j] == key;
            if j < i {
                assert(prior[j] == key);
            }
        }
        if items.take(i).contains(key) {
            let j = choose|j: int| 0 <= j < prior.len() && prior[j] == key;
            assert(next[j] == key);
        }
        if key == items[i] {
            assert(next[i] == key);
        }
    }
}

/// A registered call gets the datagrams of all its endpoints, and the other routes stay.
pub proof fn law_registered_call_is_routed(routes: Map<u64, u64>, endpoints: Seq<u64>, mailbox: u64, endpoint: u64)
    ensures
        endpoints.contains(endpoint) ==> routed(routes, endpoints, mailbox).dom().contains(endpoint) && routed(
            routes,
            endpoints,
            mailbox,
        )[endpoint] == mailbox,
        !endpoints.contains(endpoint) ==> routed(routes, endpoints, mailbox).dom().contains(endpoint)
            == routes.dom().contains(endpoint) && (routes.dom().contains(endpoint) ==> routed(routes, endpoints, mailbox)[endpoint]
            == routes[endpoint]),
{
}

/// Registering a call on endpoints nobody had and taking it out again leaves the routes as they were.
pub proof fn law_deregister_undoes_register(routes: Map<u64, u64>, endpoints: Seq<u64>, mailbox: u64)
    requires
        forall|endpoint: u64| endpoints.contains(endpoint) ==> !routes.dom().contains(endpoint),
    ensures
        unrouted(routed(routes, endpoints, mailbox), endpoints) == routes,
{
    assert(unrouted(routed(routes, endpoints, mailbox), endpoints) =~= routes);
}

/// Taking a call out takes exactly the routes of its endpoints, and leaves every other where it led.
pub proof fn law_deregistered_call_is_not_routed(routes: Map<u64, u64>, endpoints: Seq<u64>, endpoint: u64)
    ensures
        ({
            let left = unrouted(routes, endpoints);
            &&& left.dom().contains(endpoint) <==> routes.dom().contains(endpoint) && !endpoints.contains(endpoint)
            &&& left.dom().contains(endpoint) ==> left[endpoint] == routes[endpoint]
        }),
{
    assert(endpoints.to_set().contains(endpoint) == endpoints.contains(endpoint));
}

/// The transcoding calls are the registered ones that are not plain relays.
pub proof fn law_transcoding_calls(registry: MediaRegistryView, call_id: Seq<char>)
    ensures
        registry.transcoding().contains(call_id) <==> registry.calls.dom().contains(call_id)
            && !registry.calls[call_id].2,
{
}

} // verus!
