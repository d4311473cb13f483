//! A table of values by datapath endpoint, looked up through a concurrent hash map.
use crate::net::EndpointId;
use dashmap::DashMap;
use std::hash::RandomState;
use vstd::prelude::*;

verus! {

/// The concurrent hash map of the `dashmap` crate.
#[verifier::external_type_specification]
#[verifier::external_body]
#[verifier::reject_recursive_types(K)]
#[verifier::reject_recursive_types(V)]
#[verifier::reject_recursive_types(S)]
pub struct ExDashMap<K, V, S>(DashMap<K, V, S>);

/// What a map from endpoint numbers to numbers holds.
pub uninterp spec fn slots_of(map: DashMap<u64, u64, RandomState>) -> Map<u64, u64>;

/// `DashMap::new` makes a map that holds nothing.
#[verifier::external_body]
pub(crate) fn slots_new() -> (made: DashMap<u64, u64, RandomState>)
    ensures
        slots_of(made).dom() == Set::<u64>::empty(),
{
    DashMap::new()
}

/// `DashMap::insert` puts the value under the key, in place of one that is there, and hands back the
/// value it replaced.
#[verifier::external_body]
pub(crate) fn slots_insert(map: &mut DashMap<u64, u64, RandomState>, key: u64, value: u64) -> (replaced: Option<u64>)
    ensures
        slots_of(*final(map)) == slots_of(*old(map)).insert(key, value),
        replaced is Some == slots_of(*old(map)).dom().contains(key),
        replaced matches Some(before) ==> before == slots_of(*old(map))[key],
{
    map.insert(key, value)
}

/// `DashMap::remove` takes the key out of the map and hands back the value it had.
#[verifier::external_body]
pub(crate) fn slots_remove(map: &mut DashMap<u64, u64, RandomState>, key: u64) -> (removed: Option<u64>)
    ensures
        slots_of(*final(map)) == slots_of(*old(map)).remove(key),
        removed is Some == slots_of(*old(map)).dom().contains(key),
        removed matches Some(before) ==> before == slots_of(*old(map))[key],
{
    map.remove(&key).map(|entry| entry.1)
}

/// `DashMap::get` finds the value under the key, if there is one.
#[verifier::external_body]
pub(crate) fn slots_get(map: &DashMap<u64, u64, RandomState>, key: u64) -> (found: Option<u64>)
    ensures
        found is Some == slots_of(*map).dom().contains(key),
        found matches Some(value) ==> value == slots_of(*map)[key],
{
    map.get(&key).map(|entry| *entry.value())
}

/// A table of values by endpoint.
#[derive(Debug)]
pub struct EndpointTable<V> {
    index: DashMap<u64, u64, RandomState>,
    entries: Vec<(EndpointId, V)>,
}

impl<V> View for EndpointTable<V> {
    type V = Map<u64, V>;

    closed spec fn view(&self) -> Map<u64, V> {
        Map::new(
            |key: u64| slots_of(self.index).dom().contains(key),
            |key: u64| self.entries@[slots_of(self.index)[key] as int].1,
        )
    }
}

/// A slot of the index is a position of the entries.
proof fn lemma_slot<V>(table: EndpointTable<V>, key: u64, slot: u64)
    requires
        table.wf(),
        slots_of(table.index).dom().contains(key),
        slot == slots_of(table.index)[key],
    ensures
        slot < table.entries@.len() <= usize::MAX,
        table.entries@[slot as int].0.0 == key,
        table@.dom().contains(key),
{
    assert(table.entries.len() <= usize::MAX);
}

impl<V> EndpointTable<V> {
    /// The index and the entries name each other.
    pub closed spec fn wf(&self) -> bool {
        &&& forall|key: u64| #[trigger]
            slots_of(self.index).dom().contains(key) ==> {
                &&& slots_of(self.index)[key] < self.entries@.len()
                &&& self.entries@[slots_of(self.index)[key] as int].0.0 == key
            }
        &&& forall|i: int|
            0 <= i < self.entries@.len() ==> {
                &&& slots_of(self.index).dom().contains((#[trigger] self.entries@[i]).0.0)
                &&& slots_of(self.index)[self.entries@[i].0.0] == i
            }
    }

    /// The endpoints in the order they are walked in.
    pub closed spec fn order(&self) -> Seq<u64> {
        Seq::new(self.entries@.len(), |i: int| self.entries@[i].0.0)
    }

    /// The walk visits every endpoint of the table once, and nothing else.
    pub proof fn lemma_order(&self)
        requires
            self.wf(),
        ensures
            self.order().no_duplicates(),
            self.order().to_set() == self@.dom(),
            self@.dom().finite(),
            self@.dom().len() == self.order().len(),
    {
        assert forall|i: int, j: int| 0 <= i < self.order().len() && 0 <= j < self.order().len() && i != j implies self.order()[i]
            != self.order()[j] by {
            assert(self.entries@[i].0.0 == self.order()[i]);
            assert(self.entries@[j].0.0 == self.order()[j]);
        }
        assert forall|key: u64| #![auto] self.order().to_set().contains(key) == self@.dom().contains(key) by {
            if self@.dom().contains(key) {
                let slot = slots_of(self.index)[key] as int;
                assert(self.order()[slot] == key);
            }
            if self.order().contains(key) {
                let i = choose|i: int| 0 <= i < self.order().len() && self.order()[i] == key;
                assert(self.entries@[i].0.0 == key);
            }
        }
        assert(self.order().to_set() =~= self@.dom());
        self.order().unique_seq_to_set();
    }

    /// An empty table.
    pub fn new() -> (table: Self)
        ensures
            table.wf(),
            table@ == Map::<u64, V>::empty(),
            table.order().len() == 0,
    {
        let table = EndpointTable { index: slots_new(), entries: Vec::new() };
        proof {
            assert(table@ =~= Map::<u64, V>::empty());
        }
        table
    }

    /// How many endpoints the table has.
    pub fn len(&self) -> (count: usize)
        requires
            self.wf(),
        ensures
            count == self@.dom().len(),
            count == self.order().len(),
    {
        proof {
            self.lemma_order();
        }
        self.entries.len()
    }

    /// Whether the endpoint is in the table.
    pub fn contains(&self, endpoint: EndpointId) -> (present: bool)
        requires
            self.wf(),
        ensures
            present == self@.dom().contains(endpoint.0),
    {
        slots_get(&self.index, endpoint.0).is_some()
    }

    /// The value of an endpoint.
    pub fn get(&self, endpoint: EndpointId) -> (value: Option<&V>)
        requires
            self.wf(),
        ensures
            value is Some == self@.dom().contains(endpoint.0),
            value matches Some(found) ==> *found == self@[endpoint.0],
    {
        match slots_get(&self.index, endpoint.0) {
            None => None,
            Some(slot) => {
                proof {
                    lemma_slot(*self, endpoint.0, slot);
                }
                let at: usize = slot as usize;
                proof {
                    assert(self@.dom().contains(endpoint.0));
                }
                Some(&self.entries[at].1)
            },
        }
    }

    /// The place of an endpoint in the walk.
    pub fn find(&self, endpoint: EndpointId) -> (place: Option<usize>)
        requires
            self.wf(),
        ensures
            place is Some == self@.dom().contains(endpoint.0),
            place matches Some(i) ==> i < self.order().len() && self.order()[i as int] == endpoint.0,
    {
        match slots_get(&self.index, endpoint.0) {
            None => None,
            Some(slot) => {
                proof {
                    lemma_slot(*self, endpoint.0, slot);
                }
                Some(slot as usize)
            },
        }
    }

    /// The endpoint at a place of the walk.
    pub fn endpoint_at(&self, i: usize) -> (endpoint: Option<EndpointId>)
        requires
            self.wf(),
        ensures
            endpoint is Some == (i < self.order().len()),
            endpoint matches Some(id) ==> id.0 == self.order()[i as int] && self@.dom().contains(id.0),
    {
        if i >= self.entries.len() {
            return None;
        }
        let endpoint: EndpointId = self.entries[i].0;
        Some(endpoint)
    }

    /// The value at a place of the walk, for changing.
    pub fn at(&mut self, i: usize) -> (entry: (EndpointId, &mut V))
        requires
            old(self).wf(),
            i < old(self).order().len(),
        ensures
            entry.0.0 == old(self).order()[i as int],
            old(self)@.dom().contains(entry.0.0),
            *entry.1 == old(self)@[entry.0.0],
            final(self).wf(),
            final(self).order() == old(self).order(),
            final(self)@ == old(self)@.insert(entry.0.0, *final(entry.1)),
    {
        let endpoint: EndpointId = self.entries[i].0;
        let value = &mut self.entries[i].1;
        (endpoint, value)
    }

    /// Put a value under an endpoint, in place of one that is there. Hands back the replaced value. A
    /// new endpoint is walked last.
    pub fn insert(&mut self, endpoint: EndpointId, value: V) -> (replaced: Option<V>)
        requires
            old(self).wf(),
        ensures
            final(self).wf(),
            final(self)@ == old(self)@.insert(endpoint.0, value),
            final(self).order() == (if old(self)@.dom().contains(endpoint.0) {
                old(self).order()
            } else {
                old(self).order().push(endpoint.0)
            }),
            replaced is Some == old(self)@.dom().contains(endpoint.0),
            replaced matches Some(before) ==> before == old(self)@[endpoint.0],
    {
        let ghost before = *self;
        match slots_get(&self.index, endpoint.0) {
            Some(slot) => {
                proof {
                    lemma_slot(*self, endpoint.0, slot);
                }
                let at: usize = slot as usize;
                let mut held = value;
                std::mem::swap(&mut held, &mut self.entries[at].1);
                proof {
                    assert(before@.dom().contains(endpoint.0));
                    assert forall|i: int| 0 <= i < self.entries@.len() implies slots_of(self.index).dom().contains(
                        (#[trigger] self.entries@[i]).0.0,
                    ) && slots_of(self.index)[self.entries@[i].0.0] == i by {
                        assert(self.entries@[i].0 == before.entries@[i].0);
                    }
                    assert(self@ =~= before@.insert(endpoint.0, value));
                    assert(self.order() =~= before.order());
                }
                Some(held)
            },
            None => {
                let at: usize = self.entries.len();
                self.entries.push((endpoint, value));
                slots_insert(&mut self.index, endpoint.0, at as u64);
                proof {
                    assert forall|i: int| 0 <= i < self.entries@.len() implies slots_of(self.index).dom().contains(
                        (#[trigger] self.entries@[i]).0.0,
                    ) && slots_of(self.index)[self.entries@[i].0.0] == i by {
                        if i < at {
                            assert(self.entries@[i] == before.entries@[i]);
                        }
                    }
                    assert(self@ =~= before@.insert(endpoint.0, value));
                    assert(self.order() =~= before.order().push(endpoint.0));
                }
                None
            },
        }
    }

    /// Take out the entry at a place of the walk. The last entry takes its place.
    pub fn remove_at(&mut self, i: usize) -> (removed: (EndpointId, V))
        requires
            old(self).wf(),
            i < old(self).order().len(),
        ensures
            final(self).wf(),
            removed.0.0 == old(self).order()[i as int],
            old(self)@.dom().contains(removed.0.0),
            removed.1 == old(self)@[removed.0.0],
            final(self)@ == old(self)@.remove(removed.0.0),
            final(self).order().len() == old(self).order().len() - 1,
            forall|j: int| 0 <= j < i ==> final(self).order()[j] == old(self).order()[j],
    {
        let ghost before = *self;
        let removed = self.entries.swap_remove(i);
        let ghost gone = removed.0.0;
        slots_remove(&mut self.index, removed.0.0);
        if i < self.entries.len() {
            let moved: u64 = self.entries[i].0.0;
            slots_insert(&mut self.index, moved, i as u64);
        }
        proof {
            assert(before.entries@[i as int].0.0 == gone);
            assert(before@.dom().contains(gone));
            let last = before.entries@.len() - 1;
            assert(before.entries@[last] == before.entries@[last]);
            assert forall|j: int| 0 <= j < self.entries@.len() implies {
                &&& slots_of(self.index).dom().contains((#[trigger] self.entries@[j]).0.0)
                &&& slots_of(self.index)[self.entries@[j].0.0] == j
            } by {
                if j != i {
                    assert(self.entries@[j] == before.entries@[j]);
                } else {
                    assert(self.entries@[j] == before.entries@[last]);
                }
            }
            assert forall|key: u64| #[trigger] slots_of(self.index).dom().contains(key) implies {
                &&& slots_of(self.index)[key] < self.entries@.len()
                &&& self.entries@[slots_of(self.index)[key] as int].0.0 == key
            } by {
                if i < self.entries@.len() && key == self.entries@[i as int].0.0 {
                } else {
                    assert(slots_of(before.index).dom().contains(key));
                    let slot = slots_of(before.index)[key] as int;
                    assert(before.entries@[slot].0.0 == key);
                    assert(slot != i);
                    assert(slot != last || i == last) by {
                        if slot == last && i < last {
                            assert(self.entries@[i as int] == before.entries@[last]);
                        }
                    }
                    assert(self.entries@[slot] == before.entries@[slot]);
                }
            }
            assert(self@ =~= before@.remove(gone)) by {
                assert forall|key: u64| #[trigger] self@.dom().contains(key) implies self@[key]
                    == before@.remove(gone)[key] by {
                    let slot = slots_of(self.index)[key] as int;
                    if slot == i {
                        assert(self.entries@[slot] == before.entries@[last]);
                    } else {
                        assert(self.entries@[slot] == before.entries@[slot]);
                    }
                    assert(before@.dom().contains(key));
                }
                assert forall|key: u64| self@.dom().contains(key) == before@.remove(gone).dom().contains(key) by {
                    if i < self.entries@.len() {
                        assert(self.entries@[i as int] == before.entries@[last]);
                    }
                }
            }
        }
        removed
    }

    /// Take an endpoint out of the table.
    pub fn remove(&mut self, endpoint: EndpointId) -> (removed: Option<V>)
        requires
            old(self).wf(),
        ensures
            final(self).wf(),
            final(self)@ == old(self)@.remove(endpoint.0),
            removed is Some == old(self)@.dom().contains(endpoint.0),
            removed matches Some(before) ==> before == old(self)@[endpoint.0],
    {
        match slots_get(&self.index, endpoint.0) {
            None => {
                proof {
                    assert(self@ =~= self@.remove(endpoint.0));
                }
                None
            },
            Some(slot) => {
                proof {
                    lemma_slot(*self, endpoint.0, slot);
                }
                let at: usize = slot as usize;
                let removed = self.remove_at(at);
                Some(removed.1)
            },
        }
    }
}

} // verus!
