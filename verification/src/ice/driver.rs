//! The registries that drive consent checks and full ICE agents for every endpoint.
use crate::endpoint_table::EndpointTable;
use crate::ice::consent::{
    spread, CheckRequest, ConsentAction, ConsentActionView, ConsentChecker, ConsentCheckerView, ConsentEvent,
    ConsentParams, IceRole, StunResponse, TransactionAction, TransactionId,
};
use crate::net::{EndpointId, SocketAddress};
use vstd::prelude::*;
use vstd::slice::slice_to_vec;

verus! {

/// Cadence of consent checks, in ticks.
#[derive(Clone, Copy, Debug, PartialEq, Eq, Structural)]
pub struct ConsentConfig {
    /// Ticks between fresh checks, before jitter.
    pub interval_ticks: u64,
    /// Ticks without a response after which a pair is dead.
    pub timeout_ticks: u64,
    /// Retransmission timeout of a check.
    pub rto_ticks: u64,
}

impl Default for ConsentConfig {
    fn default() -> (config: Self)
        ensures
            config == (ConsentConfig { interval_ticks: 5, timeout_ticks: 30, rto_ticks: 1 }),
    {
        ConsentConfig { interval_ticks: 5, timeout_ticks: 30, rto_ticks: 1 }
    }
}

/// Spreads an endpoint number over 64 bits (splitmix64).
pub open spec fn spread_endpoint(endpoint: u64) -> u64 {
    let a = endpoint.wrapping_mul(0x9e37_79b9_7f4a_7c15u64);
    let b = (a ^ (a >> 30)).wrapping_mul(0xbf58_476d_1ce4_e5b9u64);
    let c = (b ^ (b >> 27)).wrapping_mul(0x94d0_49bb_1331_11ebu64);
    c ^ (c >> 31)
}

/// The tie-breaker and jitter seed of an endpoint.
pub fn tie_breaker(endpoint: EndpointId) -> (value: u64)
    ensures
        value == spread_endpoint(endpoint.0),
{
    let first: u64 = endpoint.0.wrapping_mul(0x9e37_79b9_7f4a_7c15);
    let second: u64 = (first ^ (first >> 30)).wrapping_mul(0xbf58_476d_1ce4_e5b9);
    let third: u64 = (second ^ (second >> 27)).wrapping_mul(0x94d0_49bb_1331_11eb);
    third ^ (third >> 31)
}

/// What the engine must do for an endpoint once a tick is settled.
#[derive(Clone, Debug, PartialEq, Eq)]
pub enum ConsentOutcome {
    /// Transmit a check from `endpoint`.
    Send { endpoint: EndpointId, request: CheckRequest },
    /// Consent expired: tear the call down.
    Failed { endpoint: EndpointId, call_id: String },
}

/// Consent state of one registered endpoint.
#[derive(Clone, Debug)]
pub struct ConsentEntry {
    pub call_id: String,
    pub local_ufrag: String,
    pub remote_ufrag: String,
    pub remote_pwd: String,
    pub role: IceRole,
    /// `None` until the peer has validated a source.
    pub checker: Option<ConsentChecker>,
}

/// The content of a [`ConsentEntry`].
pub struct ConsentEntryView {
    pub call_id: Seq<char>,
    pub local_ufrag: Seq<char>,
    pub remote_ufrag: Seq<char>,
    pub remote_pwd: Seq<char>,
    pub role: IceRole,
    pub checker: Option<ConsentCheckerView>,
}

impl View for ConsentEntry {
    type V = ConsentEntryView;

    open spec fn view(&self) -> ConsentEntryView {
        ConsentEntryView {
            call_id: self.call_id@,
            local_ufrag: self.local_ufrag@,
            remote_ufrag: self.remote_ufrag@,
            remote_pwd: self.remote_pwd@,
            role: self.role,
            checker: match self.checker {
                Some(checker) => Some(checker@),
                None => None,
            },
        }
    }
}

impl ConsentEntryView {
    /// A checker's settings are in range.
    pub open spec fn wf(self) -> bool {
        self.checker matches Some(checker) ==> checker.wf()
    }

    /// The checker of this entry armed on a peer address.
    pub open spec fn armed(
        self,
        endpoint: EndpointId,
        dst: SocketAddress,
        config: ConsentConfig,
        priority: u32,
        now_tick: u64,
    ) -> ConsentCheckerView {
        ConsentCheckerView {
            remote_addr: dst,
            username: self.remote_ufrag + ":"@ + self.local_ufrag,
            remote_pwd: self.remote_pwd,
            priority,
            role: self.role,
            interval_ticks: crate::ice::consent::at_least_one(config.interval_ticks),
            timeout_ticks: crate::ice::consent::at_least_one(config.timeout_ticks),
            rto_ticks: crate::ice::consent::at_least_one(config.rto_ticks),
            last_consent_tick: now_tick,
            next_check_tick: now_tick,
            pending: None,
            rng_state: spread_endpoint(endpoint.0) | 1,
        }
    }

    /// The entry at a tick, given the source the peer has validated: without one there is nothing to
    /// prove, and a changed one starts afresh.
    pub open spec fn followed(
        self,
        endpoint: EndpointId,
        validated: Option<SocketAddress>,
        config: ConsentConfig,
        priority: u32,
        now_tick: u64,
    ) -> ConsentEntryView {
        ConsentEntryView {
            checker: match validated {
                None => None,
                Some(dst) => match self.checker {
                    Some(checker) if checker.remote_addr == dst => Some(checker),
                    _ => Some(self.armed(endpoint, dst, config, priority, now_tick)),
                },
            },
            ..self
        }
    }
}

impl ConsentEntryView {
    /// The entry once something has happened to its checker.
    pub open spec fn happened(self, event: ConsentEvent) -> ConsentEntryView {
        ConsentEntryView {
            checker: match self.checker {
                Some(checker) => Some(checker.happened(event)),
                None => None,
            },
            ..self
        }
    }

    /// Whether consent is checked at an address.
    pub open spec fn probes(self, dst: SocketAddress) -> bool {
        self.checker matches Some(checker) && checker.remote_addr == dst
    }
}

/// The registry of consent checkers.
#[derive(Debug)]
pub struct ConsentSupervisor {
    config: ConsentConfig,
    priority: u32,
    entries: EndpointTable<ConsentEntry>,
}

/// The state of a [`ConsentSupervisor`].
pub struct ConsentSupervisorView {
    pub config: ConsentConfig,
    /// The priority advertised on checks.
    pub priority: u32,
    /// The registered endpoints.
    pub entries: Map<u64, ConsentEntryView>,
}

/// The contents of a table of entries.
pub open spec fn entry_views(entries: Map<u64, ConsentEntry>) -> Map<u64, ConsentEntryView> {
    Map::new(|key: u64| entries.dom().contains(key), |key: u64| entries[key]@)
}

impl View for ConsentSupervisor {
    type V = ConsentSupervisorView;

    closed spec fn view(&self) -> ConsentSupervisorView {
        ConsentSupervisorView {
            config: self.config,
            priority: self.priority,
            entries: entry_views(self.entries@),
        }
    }
}

impl ConsentSupervisorView {
    /// The registry with one entry replaced.
    pub open spec fn with_entry(self, endpoint: EndpointId, entry: ConsentEntryView) -> ConsentSupervisorView {
        ConsentSupervisorView { entries: self.entries.insert(endpoint.0, entry), ..self }
    }

    /// An empty registry.
    pub open spec fn empty(config: ConsentConfig, priority: u32) -> ConsentSupervisorView {
        ConsentSupervisorView { config, priority, entries: Map::empty() }
    }

    /// The registry once something has happened to the checker of an endpoint. Nothing changes for one that is
    /// not registered.
    pub open spec fn checked(self, endpoint: EndpointId, event: ConsentEvent) -> ConsentSupervisorView {
        if self.entries.dom().contains(endpoint.0) {
            self.with_entry(endpoint, self.entries[endpoint.0].happened(event))
        } else {
            self
        }
    }

    /// The registry after an event.
    pub open spec fn happened(self, event: SupervisorEvent) -> ConsentSupervisorView {
        match event {
            SupervisorEvent::Registered { endpoint, entry } => self.with_entry(
                endpoint,
                ConsentEntryView { checker: None, ..entry },
            ),
            SupervisorEvent::Unregistered { endpoint } => ConsentSupervisorView {
                entries: self.entries.remove(endpoint.0),
                ..self
            },
            SupervisorEvent::CallEnded { call_id } => ConsentSupervisorView {
                entries: self.entries.restrict(
                    Set::new(|key: u64| self.entries.dom().contains(key) && self.entries[key].call_id != call_id),
                ),
                ..self
            },
            SupervisorEvent::Polled { endpoint, validated, now_tick } => if self.entries.dom().contains(endpoint.0) {
                self.with_entry(
                    endpoint,
                    self.entries[endpoint.0].followed(endpoint, validated, self.config, self.priority, now_tick),
                )
            } else {
                self
            },
            SupervisorEvent::Checker { endpoint, event } => self.checked(endpoint, event),
        }
    }

    /// The registry after a history.
    pub open spec fn after(self, history: Seq<SupervisorEvent>) -> ConsentSupervisorView
        decreases history.len(),
    {
        if history.len() == 0 {
            self
        } else {
            self.after(history.drop_last()).happened(history.last())
        }
    }

    /// Whether consent of an endpoint is checked at an address.
    pub open spec fn probes(self, endpoint: EndpointId, dst: SocketAddress) -> bool {
        self.entries.dom().contains(endpoint.0) && self.entries[endpoint.0].probes(dst)
    }

    /// Whether an address of an endpoint first appeared at the `first`-th event of a history, and has been in
    /// force ever since.
    pub open spec fn appeared(
        self,
        history: Seq<SupervisorEvent>,
        endpoint: EndpointId,
        dst: SocketAddress,
        first: int,
    ) -> bool {
        &&& 0 <= first < history.len()
        &&& history[first] matches SupervisorEvent::Polled { endpoint: polled, validated, .. } && polled == endpoint
            && validated == Some(dst)
        &&& !self.after(history.take(first)).probes(endpoint, dst)
        &&& forall|j: int| first < j <= history.len() ==> #[trigger] self.after(history.take(j)).probes(endpoint, dst)
    }
}

/// What can happen to a registry of consent checkers.
pub enum SupervisorEvent {
    /// An endpoint was registered, or registered anew.
    Registered { endpoint: EndpointId, entry: ConsentEntryView },
    Unregistered { endpoint: EndpointId },
    /// Every endpoint of a call was unregistered.
    CallEnded { call_id: Seq<char> },
    /// An endpoint was polled, with the source that its peer had validated.
    Polled { endpoint: EndpointId, validated: Option<SocketAddress>, now_tick: u64 },
    /// Something happened to the checker of an endpoint.
    Checker { endpoint: EndpointId, event: ConsentEvent },
}

impl SupervisorEvent {
    /// When it happened, where that matters.
    pub open spec fn tick(self) -> Option<u64> {
        match self {
            SupervisorEvent::Polled { now_tick, .. } => Some(now_tick),
            SupervisorEvent::Checker { event, .. } => Some(event.tick()),
            _ => None,
        }
    }

    /// Whether it registers an endpoint.
    pub open spec fn registers(self, wanted: EndpointId) -> bool {
        self matches SupervisorEvent::Registered { endpoint, .. } && endpoint == wanted
    }

    /// Whether it can touch the state of an endpoint.
    pub open spec fn concerns(self, wanted: EndpointId) -> bool {
        match self {
            SupervisorEvent::Registered { endpoint, .. } => endpoint == wanted,
            SupervisorEvent::Unregistered { endpoint } => endpoint == wanted,
            SupervisorEvent::CallEnded { .. } => true,
            SupervisorEvent::Polled { endpoint, .. } => endpoint == wanted,
            SupervisorEvent::Checker { endpoint, .. } => endpoint == wanted,
        }
    }
}

/// Whether things happened at non-decreasing ticks.
pub open spec fn in_order(history: Seq<SupervisorEvent>) -> bool {
    forall|i: int, j: int|
        0 <= i <= j < history.len() && (#[trigger] history[i]).tick() is Some && (#[trigger] history[j]).tick() is Some
            ==> history[i].tick()->Some_0 <= history[j].tick()->Some_0
}

/// What happens to some endpoints leaves the others alone. So a walk over all of them gives each the outcome
/// that it would have by itself.
pub proof fn law_endpoints_are_independent(
    supervisor: ConsentSupervisorView,
    history: Seq<SupervisorEvent>,
    endpoint: EndpointId,
)
    requires
        forall|i: int| 0 <= i < history.len() ==> !(#[trigger] history[i]).concerns(endpoint),
    ensures
        ({
            let after = supervisor.after(history);
            &&& after.entries.dom().contains(endpoint.0) == supervisor.entries.dom().contains(endpoint.0)
            &&& after.entries.dom().contains(endpoint.0) ==> after.entries[endpoint.0]
                == supervisor.entries[endpoint.0]
        }),
    decreases history.len(),
{
    if history.len() > 0 {
        let prior = history.drop_last();
        assert forall|i: int| 0 <= i < prior.len() implies !(#[trigger] prior[i]).concerns(endpoint) by {
            assert(prior[i] == history[i]);
        }
        law_endpoints_are_independent(supervisor, prior, endpoint);
        assert(!history[history.len() - 1].concerns(endpoint));
    }
}

/// Whatever happened to a registry since it was empty, a registered endpoint belongs to the call that it was
/// last registered for.
pub proof fn law_endpoint_belongs_to_its_last_call(
    config: ConsentConfig,
    priority: u32,
    history: Seq<SupervisorEvent>,
    endpoint: EndpointId,
)
    ensures
        ({
            let supervisor = ConsentSupervisorView::empty(config, priority).after(history);
            supervisor.entries.dom().contains(endpoint.0) ==> exists|k: int|
                0 <= k < history.len() && (#[trigger] history[k]).registers(endpoint)
                    && supervisor.entries[endpoint.0].call_id == history[k]->entry.call_id && forall|j: int|
                    k < j < history.len() ==> !(#[trigger] history[j]).registers(endpoint)
        }),
    decreases history.len(),
{
    let empty = ConsentSupervisorView::empty(config, priority);
    let supervisor = empty.after(history);
    if history.len() > 0 && supervisor.entries.dom().contains(endpoint.0) {
        let prior = history.drop_last();
        let last = history.len() - 1;
        law_endpoint_belongs_to_its_last_call(config, priority, prior, endpoint);
        if history[last].registers(endpoint) {
            assert(supervisor.entries[endpoint.0].call_id == history[last]->entry.call_id);
        } else {
            let before = empty.after(prior);
            assert(before.entries.dom().contains(endpoint.0));
            assert(before.entries[endpoint.0].call_id == supervisor.entries[endpoint.0].call_id);
            let k = choose|k: int|
                0 <= k < prior.len() && (#[trigger] prior[k]).registers(endpoint)
                    && before.entries[endpoint.0].call_id == prior[k]->entry.call_id && forall|j: int|
                    k < j < prior.len() ==> !(#[trigger] prior[j]).registers(endpoint);
            assert(history[k] == prior[k]);
            assert forall|j: int| k < j < history.len() implies !(#[trigger] history[j]).registers(endpoint) by {
                if j < last {
                    assert(prior[j] == history[j]);
                }
            }
        }
    }
}

/// Where consent of an endpoint is checked at an address, the address appeared at some poll, and the window
/// has not begun before that.
proof fn lemma_window(
    config: ConsentConfig,
    priority: u32,
    history: Seq<SupervisorEvent>,
    endpoint: EndpointId,
    dst: SocketAddress,
) -> (first: int)
    requires
        in_order(history),
        ConsentSupervisorView::empty(config, priority).after(history).probes(endpoint, dst),
    ensures
        ({
            let empty = ConsentSupervisorView::empty(config, priority);
            let checker = empty.after(history).entries[endpoint.0].checker->Some_0;
            &&& empty.appeared(history, endpoint, dst, first)
            &&& checker.timeout_ticks == crate::ice::consent::at_least_one(config.timeout_ticks)
            &&& checker.last_consent_tick >= history[first].tick()->Some_0
        }),
    decreases history.len(),
{
    let empty = ConsentSupervisorView::empty(config, priority);
    let prior = history.drop_last();
    let before = empty.after(prior);
    let last = history.len() - 1;
    lemma_config_is_kept(empty, prior);
    assert(history.take(history.len() as int) =~= history);
    assert(history.take(last) =~= prior);
    if before.probes(endpoint, dst) {
        assert(in_order(prior)) by {
            assert forall|i: int, j: int|
                0 <= i <= j < prior.len() && (#[trigger] prior[i]).tick() is Some && (#[trigger] prior[j]).tick() is Some
                implies prior[i].tick()->Some_0 <= prior[j].tick()->Some_0 by {
                assert(prior[i] == history[i] && prior[j] == history[j]);
            }
        }
        let first = lemma_window(config, priority, prior, endpoint, dst);
        assert(prior.take(first) =~= history.take(first));
        assert(prior[first] == history[first]);
        assert forall|j: int| first < j <= history.len() implies #[trigger] empty.after(history.take(j)).probes(
            endpoint,
            dst,
        ) by {
            if j < history.len() {
                assert(prior.take(j) =~= history.take(j));
                assert(empty.after(prior.take(j)).probes(endpoint, dst));
            }
        }
        assert(history[first].tick() is Some);
        assert(history[last].tick() is Some ==> history[first].tick()->Some_0 <= history[last].tick()->Some_0);
        first
    } else {
        last
    }
}

/// The settings of a registry never change.
proof fn lemma_config_is_kept(supervisor: ConsentSupervisorView, history: Seq<SupervisorEvent>)
    ensures
        supervisor.after(history).config == supervisor.config,
        supervisor.after(history).priority == supervisor.priority,
    decreases history.len(),
{
    if history.len() > 0 {
        lemma_config_is_kept(supervisor, history.drop_last());
    }
}

/// Whatever happened to a registry since it was empty, a poll of a registered endpoint ends in at most one
/// thing. Without a validated source that is nothing, however late it is. A check goes to the validated source.
/// And consent fails only a full timeout after the source in force first appeared, at a poll since which it has
/// been the one in force: a new source starts the window anew.
pub proof fn law_failure_needs_a_full_window(
    config: ConsentConfig,
    priority: u32,
    history: Seq<SupervisorEvent>,
    endpoint: EndpointId,
    validated: Option<SocketAddress>,
    now_tick: u64,
    action: TransactionAction,
    id: Option<TransactionId>,
)
    requires
        in_order(history),
        ConsentSupervisorView::empty(config, priority).after(history).entries.dom().contains(endpoint.0),
    ensures
        ({
            let empty = ConsentSupervisorView::empty(config, priority);
            let entry = empty.after(history).entries[endpoint.0];
            let end = poll_ends(entry, endpoint, validated, config, priority, now_tick, action, id);
            &&& end is Idle || end is SendCheck || end is Failed
            &&& validated is None ==> end is Idle
            &&& end matches ConsentActionView::SendCheck { request } ==> validated == Some(request.dst)
            &&& end is Failed ==> validated is Some && exists|first: int| #[trigger]
                empty.appeared(history, endpoint, validated->Some_0, first) && now_tick
                    >= history[first].tick()->Some_0 + crate::ice::consent::at_least_one(config.timeout_ticks)
        }),
{
    let empty = ConsentSupervisorView::empty(config, priority);
    let entry = empty.after(history).entries[endpoint.0];
    let end = poll_ends(entry, endpoint, validated, config, priority, now_tick, action, id);
    law_poll_ends_in_one_thing(entry, endpoint, validated, config, priority, now_tick, action, id);
    if end is Failed {
        let dst = validated->Some_0;
        assert(entry.probes(dst));
        let first = lemma_window(config, priority, history, endpoint, dst);
    }
}

impl ConsentSupervisor {
    /// The table is sound, the cadence leaves room for the jitter, and so does every checker.
    pub closed spec fn wf(&self) -> bool {
        &&& self.entries.wf()
        &&& self.config.interval_ticks + spread(self.config.interval_ticks) <= i64::MAX
        &&& forall|key: u64| #[trigger] self.entries@.dom().contains(key) ==> self.entries@[key]@.wf()
    }

    /// The endpoints in the order they are walked in.
    pub closed spec fn order(&self) -> Seq<u64> {
        self.entries.order()
    }

    /// A walk visits every registered endpoint once, and nothing else.
    pub proof fn law_walk_visits_each_once(&self)
        requires
            self.wf(),
        ensures
            self.order().no_duplicates(),
            self.order().to_set() == self@.entries.dom(),
            self.order().len() == self@.entries.dom().len(),
    {
        self.entries.lemma_order();
        assert(self@.entries.dom() =~= self.entries@.dom());
    }

    /// An empty registry. `priority` is advertised on every check.
    pub fn new(config: ConsentConfig, priority: u32) -> (supervisor: Self)
        requires
            config.interval_ticks + spread(config.interval_ticks) <= i64::MAX,
        ensures
            supervisor.wf(),
            supervisor@ == ConsentSupervisorView::empty(config, priority),
    {
        let supervisor = ConsentSupervisor { config, priority, entries: EndpointTable::new() };
        proof {
            assert(supervisor@.entries =~= Map::<u64, ConsentEntryView>::empty());
        }
        supervisor
    }

    /// How many endpoints are registered.
    pub fn len(&self) -> (count: usize)
        requires
            self.wf(),
        ensures
            count == self@.entries.dom().len(),
    {
        proof {
            assert(self@.entries.dom() =~= self.entries@.dom());
        }
        self.entries.len()
    }

    /// Whether no endpoint is registered.
    pub fn is_empty(&self) -> (empty: bool)
        requires
            self.wf(),
        ensures
            empty == (self@.entries.dom().len() == 0),
    {
        self.len() == 0
    }

    /// The endpoint at a place of the walk over all of them.
    pub fn endpoint_at(&self, i: usize) -> (endpoint: Option<EndpointId>)
        requires
            self.wf(),
        ensures
            endpoint is Some == (i < self.order().len()),
            endpoint matches Some(id) ==> id.0 == self.order()[i as int] && self@.entries.dom().contains(id.0),
    {
        self.entries.endpoint_at(i)
    }

    /// Start, or replace, consent for an endpoint, with the credentials of the peer it faces.
    pub fn register(
        &mut self,
        endpoint: EndpointId,
        call_id: String,
        local_ufrag: String,
        remote_ufrag: String,
        remote_pwd: String,
    )
        requires
            old(self).wf(),
        ensures
            final(self).wf(),
            final(self)@ == old(self)@.happened(
                SupervisorEvent::Registered {
                    endpoint,
                    entry: ConsentEntryView {
                        call_id: call_id@,
                        local_ufrag: local_ufrag@,
                        remote_ufrag: remote_ufrag@,
                        remote_pwd: remote_pwd@,
                        role: IceRole::Controlled(spread_endpoint(endpoint.0)),
                        checker: None,
                    },
                },
            ),
            final(self).order() == (if old(self)@.entries.dom().contains(endpoint.0) {
                old(self).order()
            } else {
                old(self).order().push(endpoint.0)
            }),
    {
        let ghost before = self@.entries;
        let entry = ConsentEntry {
            call_id,
            local_ufrag,
            remote_ufrag,
            remote_pwd,
            role: IceRole::Controlled(tie_breaker(endpoint)),
            checker: None,
        };
        self.entries.insert(endpoint, entry);
        proof {
            assert(self@.entries =~= before.insert(endpoint.0, entry@));
        }
    }

    /// Stop consent for an endpoint.
    pub fn unregister(&mut self, endpoint: EndpointId)
        requires
            old(self).wf(),
        ensures
            final(self).wf(),
            final(self)@ == old(self)@.happened(SupervisorEvent::Unregistered { endpoint }),
    {
        let ghost before = self@.entries;
        self.entries.remove(endpoint);
        proof {
            assert(self@.entries =~= before.remove(endpoint.0));
        }
    }

    /// Stop consent for every endpoint of a call, and no other.
    pub fn unregister_call(&mut self, call_id: &String)
        requires
            old(self).wf(),
        ensures
            final(self).wf(),
            final(self)@ == old(self)@.happened(SupervisorEvent::CallEnded { call_id: call_id@ }),
    {
        let ghost before = self.entries@;
        let mut i: usize = 0;
        while i < self.entries.len()
            invariant
                self.wf(),
                self.config == old(self).config,
                self.priority == old(self).priority,
                before == old(self).entries@,
                i <= self.entries.order().len(),
                forall|key: u64| #[trigger]
                    self.entries@.dom().contains(key) ==> before.dom().contains(key) && self.entries@[key]
                        == before[key],
                forall|key: u64| #[trigger]
                    before.dom().contains(key) && !self.entries@.dom().contains(key) ==> before[key].call_id@
                        == call_id@,
                forall|j: int|
                    0 <= j < i ==> before.dom().contains(#[trigger] self.entries.order()[j])
                        && before[self.entries.order()[j]].call_id@ != call_id@,
            decreases self.entries.order().len() - i,
        {
            let ghost current = self.entries@;
            let same: bool = {
                let (_endpoint, entry) = self.entries.at(i);
                entry.call_id == *call_id
            };
            proof {
                assert(self.entries@ =~= current);
            }
            if same {
                self.entries.remove_at(i);
            } else {
                i = i + 1;
            }
        }
        proof {
            self.entries.lemma_order();
            let kept = Set::new(
                |key: u64| old(self)@.entries.dom().contains(key) && old(self)@.entries[key].call_id != call_id@,
            );
            assert forall|key: u64| self.entries@.dom().contains(key) implies before[key].call_id@ != call_id@ by {
                assert(self.entries.order().to_set().contains(key));
                let j = choose|j: int| 0 <= j < self.entries.order().len() && self.entries.order()[j] == key;
                assert(before[self.entries.order()[j]].call_id@ != call_id@);
            }
            assert(self@.entries =~= old(self)@.entries.restrict(kept));
        }
    }

    /// Take in a STUN message that arrived for an endpoint. It renews consent only where the endpoint
    /// has a check in flight that it genuinely answers.
    pub fn on_event(&mut self, endpoint: EndpointId, response: Option<StunResponse>, arrival_tick: u64)
        requires
            old(self).wf(),
        ensures
            final(self).wf(),
            final(self).order() == old(self).order(),
            final(self)@ == old(self)@.happened(
                SupervisorEvent::Checker {
                    endpoint,
                    event: ConsentEvent::Answered { response, now_tick: arrival_tick },
                },
            ),
    {
        let ghost before = self@.entries;
        if let Some(place) = self.entries.find(endpoint) {
            let (_endpoint, entry) = self.entries.at(place);
            let ghost old_entry = entry@;
            let mut taken = None;
            std::mem::swap(&mut taken, &mut entry.checker);
            if let Some(mut checker) = taken {
                checker.on_response(response, arrival_tick);
                entry.checker = Some(checker);
            }
            let ghost changed = entry@;
            proof {
                assert(changed == old_entry.happened(ConsentEvent::Answered { response, now_tick: arrival_tick }));
                assert(self@.entries =~= before.insert(endpoint.0, changed));
            }
        }
    }

    /// Drive one endpoint at a tick, given the source its peer has validated.
    pub fn poll(&mut self, endpoint: EndpointId, validated: Option<SocketAddress>, now_tick: u64) -> (step: ConsentAction)
        requires
            old(self).wf(),
            old(self)@.entries.dom().contains(endpoint.0),
        ensures
            final(self).wf(),
            final(self).order() == old(self).order(),
            ({
                let followed = old(self)@.entries[endpoint.0].followed(
                    endpoint,
                    validated,
                    old(self)@.config,
                    old(self)@.priority,
                    now_tick,
                );
                &&& final(self)@ == old(self)@.happened(SupervisorEvent::Polled { endpoint, validated, now_tick })
                &&& final(self)@.entries[endpoint.0] == followed
                &&& step@ == (match followed.checker {
                    Some(checker) => checker.poll_step(now_tick),
                    None => ConsentActionView::Idle,
                })
            }),
    {
        let ghost before = self@.entries;
        match self.entries.find(endpoint) {
            None => ConsentAction::Idle,
            Some(place) => {
                let (_endpoint, entry) = self.entries.at(place);
                let ghost old_entry = entry@;
                let mut taken = None;
                std::mem::swap(&mut taken, &mut entry.checker);
                let mut step = ConsentAction::Idle;
                if let Some(dst) = validated {
                    let kept: Option<ConsentChecker> = match taken {
                        Some(checker) => {
                            if checker.remote_addr() == dst {
                                Some(checker)
                            } else {
                                None
                            }
                        },
                        None => None,
                    };
                    let checker = match kept {
                        Some(checker) => checker,
                        None => ConsentChecker::new(
                            ConsentParams {
                                remote_addr: dst,
                                local_ufrag: entry.local_ufrag.clone(),
                                remote_ufrag: entry.remote_ufrag.clone(),
                                remote_pwd: entry.remote_pwd.clone(),
                                priority: self.priority,
                                role: entry.role,
                                interval_ticks: self.config.interval_ticks,
                                timeout_ticks: self.config.timeout_ticks,
                                rto_ticks: self.config.rto_ticks,
                                seed: tie_breaker(endpoint),
                            },
                            now_tick,
                        ),
                    };
                    step = checker.poll(now_tick);
                    entry.checker = Some(checker);
                }
                let ghost changed = entry@;
                proof {
                    assert(self@.entries =~= before.insert(endpoint.0, changed));
                }
                step
            },
        }
    }

    /// Go on with an endpoint once the timer of its check was asked.
    pub fn transaction_polled(&mut self, endpoint: EndpointId, action: TransactionAction, now_tick: u64) -> (step:
        ConsentAction)
        requires
            old(self).wf(),
            old(self)@.entries.dom().contains(endpoint.0),
            old(self)@.entries[endpoint.0].checker matches Some(checker) && checker.pending is Some,
        ensures
            final(self).wf(),
            final(self).order() == old(self).order(),
            ({
                let entry = old(self)@.entries[endpoint.0];
                &&& final(self)@ == old(self)@.happened(
                    SupervisorEvent::Checker { endpoint, event: ConsentEvent::Timed { action, now_tick } },
                )
                &&& step@ == entry.checker->Some_0.timed_step(action, now_tick)
            }),
    {
        let ghost before = self@.entries;
        match self.entries.find(endpoint) {
            None => ConsentAction::Idle,
            Some(place) => {
                let (_endpoint, entry) = self.entries.at(place);
                let mut taken = None;
                std::mem::swap(&mut taken, &mut entry.checker);
                let mut step = ConsentAction::Idle;
                if let Some(mut checker) = taken {
                    step = checker.transaction_polled(action, now_tick);
                    entry.checker = Some(checker);
                }
                let ghost changed = entry@;
                proof {
                    assert(self@.entries =~= before.insert(endpoint.0, changed));
                }
                step
            },
        }
    }

    /// Go on with an endpoint once a transaction identifier was drawn for its next check.
    pub fn check_started(&mut self, endpoint: EndpointId, id: Option<TransactionId>, now_tick: u64) -> (step:
        ConsentAction)
        requires
            old(self).wf(),
            old(self)@.entries.dom().contains(endpoint.0),
            old(self)@.entries[endpoint.0].checker matches Some(checker) && now_tick + checker.interval_ticks + spread(
                checker.interval_ticks,
            ) <= u64::MAX,
        ensures
            final(self).wf(),
            final(self).order() == old(self).order(),
            ({
                let entry = old(self)@.entries[endpoint.0];
                &&& final(self)@ == old(self)@.happened(
                    SupervisorEvent::Checker { endpoint, event: ConsentEvent::Launched { id, now_tick } },
                )
                &&& step@ == entry.checker->Some_0.launched_step(id)
            }),
    {
        let ghost before = self@.entries;
        match self.entries.find(endpoint) {
            None => ConsentAction::Idle,
            Some(place) => {
                let (_endpoint, entry) = self.entries.at(place);
                let ghost old_entry = entry@;
                let mut taken = None;
                std::mem::swap(&mut taken, &mut entry.checker);
                let mut step = ConsentAction::Idle;
                if let Some(mut checker) = taken {
                    step = checker.started(id, now_tick);
                    entry.checker = Some(checker);
                }
                let ghost changed = entry@;
                proof {
                    assert(self@.entries =~= before.insert(endpoint.0, changed));
                }
                step
            },
        }
    }

    /// The outcome of a settled step: a check to send, or a call to tear down.
    pub fn outcome(&self, endpoint: EndpointId, step: ConsentAction) -> (outcome: Option<ConsentOutcome>)
        requires
            self.wf(),
            self@.entries.dom().contains(endpoint.0),
        ensures
            match step@ {
                ConsentActionView::SendCheck { request: due } => outcome matches Some(
                    ConsentOutcome::Send { endpoint: from, request },
                ) && from == endpoint && request@ == due,
                ConsentActionView::Failed => outcome matches Some(ConsentOutcome::Failed { endpoint: dead, call_id })
                    && dead == endpoint && call_id@ == self@.entries[endpoint.0].call_id,
                _ => outcome is None,
            },
    {
        match step {
            ConsentAction::SendCheck { request } => Some(ConsentOutcome::Send { endpoint, request }),
            ConsentAction::Failed => match self.entries.get(endpoint) {
                Some(entry) => Some(ConsentOutcome::Failed { endpoint, call_id: entry.call_id.clone() }),
                None => None,
            },
            _ => None,
        }
    }

    /// The password that responses for an endpoint are verified with.
    pub fn remote_pwd(&self, endpoint: EndpointId) -> (password: Option<String>)
        requires
            self.wf(),
        ensures
            password is Some == self@.entries.dom().contains(endpoint.0),
            password matches Some(text) ==> text@ == self@.entries[endpoint.0].remote_pwd,
    {
        match self.entries.get(endpoint) {
            Some(entry) => Some(entry.remote_pwd.clone()),
            None => None,
        }
    }
}

/// An endpoint whose peer never validated a source is never failed: its step is always idle, and no
/// clock runs for it.
pub proof fn law_unvalidated_is_never_failed(
    entry: ConsentEntryView,
    endpoint: EndpointId,
    config: ConsentConfig,
    priority: u32,
    now_tick: u64,
)
    ensures
        entry.followed(endpoint, None, config, priority, now_tick).checker is None,
{
}

/// A peer that validates a new source starts with a full window, whatever the old one had left.
pub proof fn law_rebind_starts_afresh(
    entry: ConsentEntryView,
    endpoint: EndpointId,
    dst: SocketAddress,
    config: ConsentConfig,
    priority: u32,
    rebound_at: u64,
    now_tick: u64,
)
    requires
        entry.checker matches Some(checker) ==> checker.remote_addr != dst,
        now_tick < rebound_at + crate::ice::consent::at_least_one(config.timeout_ticks),
    ensures
        entry.followed(endpoint, Some(dst), config, priority, rebound_at).checker matches Some(checker)
            && checker.remote_addr == dst && !(checker.poll_step(now_tick) is Failed),
{
}

/// Checks go to the address the peer validated, and to no other.
pub proof fn law_probes_the_validated_source(
    entry: ConsentEntryView,
    endpoint: EndpointId,
    dst: SocketAddress,
    config: ConsentConfig,
    priority: u32,
    now_tick: u64,
    id: TransactionId,
)
    ensures
        entry.followed(endpoint, Some(dst), config, priority, now_tick).checker matches Some(checker)
            && checker.remote_addr == dst && checker.check(id).dst == dst,
{
}

/// Where a poll of an endpoint ends: `action` is what the timer of a check in flight says, and `id` the
/// identifier drawn for a fresh one.
pub open spec fn poll_ends(
    entry: ConsentEntryView,
    endpoint: EndpointId,
    validated: Option<SocketAddress>,
    config: ConsentConfig,
    priority: u32,
    now_tick: u64,
    action: TransactionAction,
    id: Option<TransactionId>,
) -> ConsentActionView {
    match entry.followed(endpoint, validated, config, priority, now_tick).checker {
        None => ConsentActionView::Idle,
        Some(checker) => match checker.poll_step(now_tick) {
            ConsentActionView::PollTransaction { .. } => match checker.timed_step(action, now_tick) {
                ConsentActionView::StartTransaction { .. } => checker.timed(action).launched_step(id),
                settled => settled,
            },
            ConsentActionView::StartTransaction { .. } => checker.launched_step(id),
            settled => settled,
        },
    }
}

/// A poll of an endpoint ends in at most one thing: a check toward the validated source, or the failure of
/// an expired consent. Without a validated source it ends in nothing, however late it is.
pub proof fn law_poll_ends_in_one_thing(
    entry: ConsentEntryView,
    endpoint: EndpointId,
    validated: Option<SocketAddress>,
    config: ConsentConfig,
    priority: u32,
    now_tick: u64,
    action: TransactionAction,
    id: Option<TransactionId>,
)
    ensures
        ({
            let end = poll_ends(entry, endpoint, validated, config, priority, now_tick, action, id);
            let followed = entry.followed(endpoint, validated, config, priority, now_tick);
            &&& end is Idle || end is SendCheck || end is Failed
            &&& validated is None ==> end is Idle
            &&& end matches ConsentActionView::SendCheck { request } ==> validated == Some(request.dst)
            &&& end is Failed <==> (followed.checker matches Some(checker) && checker.expired(now_tick))
            &&& followed.call_id == entry.call_id
        }),
{
}

/// No consent state outlives its call.
pub proof fn law_no_state_outlives_a_call(supervisor: ConsentSupervisorView, call_id: Seq<char>, key: u64)
    ensures
        ({
            let after = supervisor.happened(SupervisorEvent::CallEnded { call_id });
            &&& after.entries.dom().contains(key) == (supervisor.entries.dom().contains(key)
                && supervisor.entries[key].call_id != call_id)
            &&& after.entries.dom().contains(key) ==> after.entries[key] == supervisor.entries[key]
        }),
{
}

/// What a full ICE agent asks for.
#[derive(Clone, Debug)]
pub enum AgentAction {
    /// Transmit a connectivity check.
    Send { to: SocketAddress, datagram: Vec<u8> },
    /// A candidate pair was selected.
    Selected { remote: SocketAddress },
    /// The agent changed state. `failed` says that every pair failed.
    StateChanged { failed: bool },
}

/// What the engine must do for an endpoint.
#[derive(Clone, Debug, PartialEq, Eq)]
pub enum AgentOutcome {
    /// Transmit a connectivity check from `endpoint`.
    Send { endpoint: EndpointId, dst: SocketAddress, datagram: Vec<u8> },
    /// ICE selected a pair: media of `endpoint` goes to `remote` from now on.
    Selected { endpoint: EndpointId, call_id: String, remote: SocketAddress },
    /// A datagram of the endpoint's TURN server, for the allocation.
    TurnDatagram { endpoint: EndpointId, datagram: Vec<u8> },
    /// Every pair failed: tear the call down.
    Failed { endpoint: EndpointId, call_id: String },
}

/// The content of an [`AgentOutcome`].
pub enum AgentOutcomeView {
    Send { endpoint: EndpointId, dst: SocketAddress, datagram: Seq<u8> },
    Selected { endpoint: EndpointId, call_id: Seq<char>, remote: SocketAddress },
    TurnDatagram { endpoint: EndpointId, datagram: Seq<u8> },
    Failed { endpoint: EndpointId, call_id: Seq<char> },
}

impl View for AgentOutcome {
    type V = AgentOutcomeView;

    open spec fn view(&self) -> AgentOutcomeView {
        match *self {
            AgentOutcome::Send { endpoint, dst, datagram } => AgentOutcomeView::Send {
                endpoint,
                dst,
                datagram: datagram@,
            },
            AgentOutcome::Selected { endpoint, call_id, remote } => AgentOutcomeView::Selected {
                endpoint,
                call_id: call_id@,
                remote,
            },
            AgentOutcome::TurnDatagram { endpoint, datagram } => AgentOutcomeView::TurnDatagram {
                endpoint,
                datagram: datagram@,
            },
            AgentOutcome::Failed { endpoint, call_id } => AgentOutcomeView::Failed { endpoint, call_id: call_id@ },
        }
    }
}

/// Where a STUN datagram that arrived for an endpoint goes.
#[derive(Clone, Debug)]
pub enum AgentRoute {
    /// The endpoint has no agent.
    Unknown,
    /// It comes from the endpoint's TURN server.
    Turn { outcome: AgentOutcome },
    /// It goes to the agent, which checks from this address.
    Agent { local: SocketAddress },
}

/// One endpoint's agent.
#[derive(Clone, Debug)]
pub struct AgentEntry {
    pub call_id: String,
    /// Where the agent's checks come from.
    pub local: SocketAddress,
    /// Whether a selection has been reported.
    pub announced: bool,
    /// The TURN server the endpoint relays through.
    pub turn_server: Option<SocketAddress>,
}

/// The content of an [`AgentEntry`].
pub struct AgentEntryView {
    pub call_id: Seq<char>,
    pub local: SocketAddress,
    pub announced: bool,
    pub turn_server: Option<SocketAddress>,
}

impl View for AgentEntry {
    type V = AgentEntryView;

    open spec fn view(&self) -> AgentEntryView {
        AgentEntryView {
            call_id: self.call_id@,
            local: self.local,
            announced: self.announced,
            turn_server: self.turn_server,
        }
    }
}

/// The outcome of one action, if it has one. A selection counts only while none was reported.
pub open spec fn translated(
    endpoint: EndpointId,
    call_id: Seq<char>,
    announced: bool,
    action: AgentAction,
) -> Seq<AgentOutcomeView> {
    match action {
        AgentAction::Send { to, datagram } => seq![AgentOutcomeView::Send { endpoint, dst: to, datagram: datagram@ }],
        AgentAction::Selected { remote } => if announced {
            Seq::empty()
        } else {
            seq![AgentOutcomeView::Selected { endpoint, call_id, remote }]
        },
        AgentAction::StateChanged { failed } => if failed {
            seq![AgentOutcomeView::Failed { endpoint, call_id }]
        } else {
            Seq::empty()
        },
    }
}

/// Whether a selection has been reported after these actions.
pub open spec fn announced_after(announced: bool, actions: Seq<AgentAction>) -> bool {
    announced || exists|i: int| 0 <= i < actions.len() && #[trigger] actions[i] is Selected
}

/// The outcomes of a run of actions, in order.
pub open spec fn outcomes_of(
    endpoint: EndpointId,
    call_id: Seq<char>,
    announced: bool,
    actions: Seq<AgentAction>,
) -> Seq<AgentOutcomeView>
    decreases actions.len(),
{
    if actions.len() == 0 {
        Seq::empty()
    } else {
        outcomes_of(endpoint, call_id, announced, actions.drop_last()) + translated(
            endpoint,
            call_id,
            announced_after(announced, actions.drop_last()),
            actions.last(),
        )
    }
}

/// The contents of a list of outcomes.
pub open spec fn outcome_views(outcomes: Seq<AgentOutcome>) -> Seq<AgentOutcomeView> {
    Seq::new(outcomes.len(), |i: int| outcomes[i]@)
}

/// How many selections a list of outcomes reports.
pub open spec fn selections(outcomes: Seq<AgentOutcomeView>) -> nat {
    outcomes.filter(|outcome: AgentOutcomeView| outcome is Selected).len()
}

/// A selection is reported once: a run of actions reports one exactly when it holds the first, and
/// after that no run reports any.
pub proof fn law_selection_is_reported_once(
    endpoint: EndpointId,
    call_id: Seq<char>,
    announced: bool,
    actions: Seq<AgentAction>,
)
    ensures
        selections(outcomes_of(endpoint, call_id, announced, actions)) == (if !announced && announced_after(
            false,
            actions,
        ) {
            1nat
        } else {
            0nat
        }),
    decreases actions.len(),
{
    let selected = |outcome: AgentOutcomeView| outcome is Selected;
    reveal(Seq::filter);
    if actions.len() > 0 {
        let prior = actions.drop_last();
        law_selection_is_reported_once(endpoint, call_id, announced, prior);
        let head = outcomes_of(endpoint, call_id, announced, prior);
        let step = translated(endpoint, call_id, announced_after(announced, prior), actions.last());
        if step.len() == 0 {
            assert(head + step =~= head);
        } else {
            assert(head + step =~= head.push(step[0]));
            assert(head.push(step[0]).drop_last() =~= head);
        }
        assert(announced_after(announced, actions) == (announced_after(announced, prior) || actions.last() is Selected))
            by {
            if announced_after(announced, prior) && !announced {
                let i = choose|i: int| 0 <= i < prior.len() && #[trigger] prior[i] is Selected;
                assert(actions[i] is Selected);
            }
            if actions.last() is Selected {
                assert(actions[actions.len() - 1] is Selected);
            }
            if announced_after(announced, actions) && !announced {
                let i = choose|i: int| 0 <= i < actions.len() && #[trigger] actions[i] is Selected;
                if i < prior.len() {
                    assert(prior[i] is Selected);
                }
            }
        }
        assert(announced_after(false, actions) == (announced_after(false, prior) || actions.last() is Selected)) by {
            if announced_after(false, prior) {
                let i = choose|i: int| 0 <= i < prior.len() && #[trigger] prior[i] is Selected;
                assert(actions[i] is Selected);
            }
            if actions.last() is Selected {
                assert(actions[actions.len() - 1] is Selected);
            }
            if announced_after(false, actions) {
                let i = choose|i: int| 0 <= i < actions.len() && #[trigger] actions[i] is Selected;
                if i < prior.len() {
                    assert(prior[i] is Selected);
                }
            }
        }
    }
}

/// Each address once, in the order of first appearance.
pub open spec fn distinct(addresses: Seq<SocketAddress>) -> Seq<SocketAddress>
    decreases addresses.len(),
{
    if addresses.len() == 0 {
        Seq::empty()
    } else {
        let prior = distinct(addresses.drop_last());
        if prior.contains(addresses.last()) {
            prior
        } else {
            prior.push(addresses.last())
        }
    }
}

/// Nothing appears twice among the distinct addresses, and no address is lost or made up.
pub proof fn law_distinct(addresses: Seq<SocketAddress>)
    ensures
        distinct(addresses).no_duplicates(),
        forall|address: SocketAddress| distinct(addresses).contains(address) <==> addresses.contains(address),
    decreases addresses.len(),
{
    if addresses.len() > 0 {
        law_distinct(addresses.drop_last());
        let prior = distinct(addresses.drop_last());
        assert forall|address: SocketAddress| distinct(addresses).contains(address) <==> addresses.contains(address) by {
            if addresses.contains(address) {
                let i = choose|i: int| 0 <= i < addresses.len() && addresses[i] == address;
                if i < addresses.len() - 1 {
                    assert(addresses.drop_last()[i] == address);
                    assert(addresses.drop_last().contains(address));
                    assert(prior.contains(address));
                    let j = choose|j: int| 0 <= j < prior.len() && prior[j] == address;
                    assert(distinct(addresses)[j] == address);
                } else if !prior.contains(address) {
                    assert(distinct(addresses)[prior.len() as int] == address);
                }
            }
            if distinct(addresses).contains(address) {
                let i = choose|i: int| 0 <= i < distinct(addresses).len() && distinct(addresses)[i] == address;
                if i < prior.len() {
                    assert(prior[i] == address);
                    assert(addresses.drop_last().contains(address));
                    let j = choose|j: int|
                        0 <= j < addresses.drop_last().len() && addresses.drop_last()[j] == address;
                    assert(addresses[j] == address);
                } else {
                    assert(addresses[addresses.len() - 1] == address);
                }
            }
        }
    }
}

/// The registry of full ICE agents.
#[derive(Debug)]
pub struct AgentSupervisor {
    agents: EndpointTable<AgentEntry>,
}

/// The contents of a table of agents.
pub open spec fn agent_views(agents: Map<u64, AgentEntry>) -> Map<u64, AgentEntryView> {
    Map::new(|key: u64| agents.dom().contains(key), |key: u64| agents[key]@)
}

impl View for AgentSupervisor {
    type V = Map<u64, AgentEntryView>;

    closed spec fn view(&self) -> Map<u64, AgentEntryView> {
        agent_views(self.agents@)
    }
}

impl Default for AgentSupervisor {
    fn default() -> (supervisor: Self)
        ensures
            supervisor.wf(),
            supervisor@ == Map::<u64, AgentEntryView>::empty(),
    {
        AgentSupervisor::new()
    }
}

/// The agents once one was registered, in place of one that was there.
pub open spec fn with_agent(
    agents: Map<u64, AgentEntryView>,
    endpoint: EndpointId,
    call_id: Seq<char>,
    local: SocketAddress,
) -> Map<u64, AgentEntryView> {
    agents.insert(endpoint.0, AgentEntryView { call_id, local, announced: false, turn_server: None })
}

/// The agents once it was said which TURN server an endpoint relays through.
pub open spec fn relayed_through(
    agents: Map<u64, AgentEntryView>,
    endpoint: EndpointId,
    server: Option<SocketAddress>,
) -> Map<u64, AgentEntryView> {
    if agents.dom().contains(endpoint.0) {
        agents.insert(endpoint.0, AgentEntryView { turn_server: server, ..agents[endpoint.0] })
    } else {
        agents
    }
}

/// Whether a datagram that arrived for an endpoint goes this way.
pub open spec fn goes_to(
    route: AgentRoute,
    agents: Map<u64, AgentEntryView>,
    endpoint: EndpointId,
    source: SocketAddress,
    datagram: Seq<u8>,
) -> bool {
    if !agents.dom().contains(endpoint.0) {
        route is Unknown
    } else if agents[endpoint.0].turn_server == Some(source) {
        route matches AgentRoute::Turn { outcome } && outcome@ == (AgentOutcomeView::TurnDatagram {
            endpoint,
            datagram,
        })
    } else {
        route == (AgentRoute::Agent { local: agents[endpoint.0].local })
    }
}

impl AgentSupervisor {
    /// The table is sound.
    pub closed spec fn wf(&self) -> bool {
        self.agents.wf()
    }

    /// The endpoints in the order they are walked in.
    pub closed spec fn order(&self) -> Seq<u64> {
        self.agents.order()
    }

    /// A walk visits every endpoint with an agent once, and nothing else.
    pub proof fn law_walk_visits_each_once(&self)
        requires
            self.wf(),
        ensures
            self.order().no_duplicates(),
            self.order().to_set() == self@.dom(),
            self.order().len() == self@.dom().len(),
    {
        self.agents.lemma_order();
        assert(self@.dom() =~= self.agents@.dom());
    }

    /// An empty registry.
    pub fn new() -> (supervisor: Self)
        ensures
            supervisor.wf(),
            supervisor@ == Map::<u64, AgentEntryView>::empty(),
    {
        let supervisor = AgentSupervisor { agents: EndpointTable::new() };
        proof {
            assert(supervisor@ =~= Map::<u64, AgentEntryView>::empty());
        }
        supervisor
    }

    /// How many endpoints run an agent.
    pub fn len(&self) -> (count: usize)
        requires
            self.wf(),
        ensures
            count == self@.dom().len(),
    {
        proof {
            assert(self@.dom() =~= self.agents@.dom());
        }
        self.agents.len()
    }

    /// Whether no endpoint runs an agent.
    pub fn is_empty(&self) -> (empty: bool)
        requires
            self.wf(),
        ensures
            empty == (self@.dom().len() == 0),
    {
        self.len() == 0
    }

    /// The endpoint at a place of the walk over all of them.
    pub fn endpoint_at(&self, i: usize) -> (endpoint: Option<EndpointId>)
        requires
            self.wf(),
        ensures
            endpoint is Some == (i < self.order().len()),
            endpoint matches Some(id) ==> id.0 == self.order()[i as int] && self@.dom().contains(id.0),
    {
        self.agents.endpoint_at(i)
    }

    /// Register the agent of an endpoint, in place of one that is there.
    pub fn register(&mut self, endpoint: EndpointId, call_id: String, local: SocketAddress)
        requires
            old(self).wf(),
        ensures
            final(self).wf(),
            final(self)@ == with_agent(old(self)@, endpoint, call_id@, local),
            final(self).order() == (if old(self)@.dom().contains(endpoint.0) {
                old(self).order()
            } else {
                old(self).order().push(endpoint.0)
            }),
    {
        let ghost before = self@;
        let entry = AgentEntry { call_id, local, announced: false, turn_server: None };
        self.agents.insert(endpoint, entry);
        proof {
            assert(self@ =~= before.insert(endpoint.0, entry@));
        }
    }

    /// Stop every agent of a call, and no other.
    pub fn unregister_call(&mut self, call_id: &String)
        requires
            old(self).wf(),
        ensures
            final(self).wf(),
            final(self)@ == old(self)@.restrict(
                Set::new(|key: u64| old(self)@.dom().contains(key) && old(self)@[key].call_id != call_id@),
            ),
    {
        let ghost before = self.agents@;
        let mut i: usize = 0;
        while i < self.agents.len()
            invariant
                self.wf(),
                before == old(self).agents@,
                i <= self.agents.order().len(),
                forall|key: u64| #[trigger]
                    self.agents@.dom().contains(key) ==> before.dom().contains(key) && self.agents@[key]
                        == before[key],
                forall|key: u64| #[trigger]
                    before.dom().contains(key) && !self.agents@.dom().contains(key) ==> before[key].call_id@
                        == call_id@,
                forall|j: int|
                    0 <= j < i ==> before.dom().contains(#[trigger] self.agents.order()[j])
                        && before[self.agents.order()[j]].call_id@ != call_id@,
            decreases self.agents.order().len() - i,
        {
            let ghost current = self.agents@;
            let same: bool = {
                let (_endpoint, entry) = self.agents.at(i);
                entry.call_id == *call_id
            };
            proof {
                assert(self.agents@ =~= current);
            }
            if same {
                self.agents.remove_at(i);
            } else {
                i = i + 1;
            }
        }
        proof {
            self.agents.lemma_order();
            let kept = Set::new(|key: u64| old(self)@.dom().contains(key) && old(self)@[key].call_id != call_id@);
            assert forall|key: u64| self.agents@.dom().contains(key) implies before[key].call_id@ != call_id@ by {
                assert(self.agents.order().to_set().contains(key));
                let j = choose|j: int| 0 <= j < self.agents.order().len() && self.agents.order()[j] == key;
                assert(before[self.agents.order()[j]].call_id@ != call_id@);
            }
            assert(self@ =~= old(self)@.restrict(kept));
        }
    }

    /// Say which TURN server an endpoint relays through. Nothing changes where it has no agent.
    pub fn set_turn_server(&mut self, endpoint: EndpointId, server: Option<SocketAddress>)
        requires
            old(self).wf(),
        ensures
            final(self).wf(),
            final(self).order() == old(self).order(),
            final(self)@ == relayed_through(old(self)@, endpoint, server),
    {
        let ghost before = self@;
        if let Some(place) = self.agents.find(endpoint) {
            let (_endpoint, entry) = self.agents.at(place);
            entry.turn_server = server;
            let ghost changed = entry@;
            proof {
                assert(self@ =~= before.insert(endpoint.0, changed));
            }
        }
    }

    /// Say where a datagram that arrived for an endpoint goes: its TURN server's own traffic drives
    /// the allocation, everything else the agent.
    pub fn route_event(&self, endpoint: EndpointId, source: SocketAddress, datagram: &[u8]) -> (route: AgentRoute)
        requires
            self.wf(),
        ensures
            goes_to(route, self@, endpoint, source, datagram@),
    {
        match self.agents.get(endpoint) {
            None => AgentRoute::Unknown,
            Some(entry) => {
                if entry.turn_server == Some(source) {
                    AgentRoute::Turn {
                        outcome: AgentOutcome::TurnDatagram { endpoint, datagram: slice_to_vec(datagram) },
                    }
                } else {
                    AgentRoute::Agent { local: entry.local }
                }
            },
        }
    }

    /// Turn an agent's actions into outcomes, appended to `outcomes`. A selection is reported once.
    pub fn translate(&mut self, endpoint: EndpointId, actions: Vec<AgentAction>, outcomes: &mut Vec<AgentOutcome>)
        requires
            old(self).wf(),
            old(self)@.dom().contains(endpoint.0),
        ensures
            final(self).wf(),
            final(self).order() == old(self).order(),
            ({
                let entry = old(self)@[endpoint.0];
                &&& final(self)@ == old(self)@.insert(
                    endpoint.0,
                    AgentEntryView { announced: announced_after(entry.announced, actions@), ..entry },
                )
                &&& outcome_views(final(outcomes)@) == outcome_views(old(outcomes)@) + outcomes_of(
                    endpoint,
                    entry.call_id,
                    entry.announced,
                    actions@,
                )
            }),
    {
        let ghost before = self@;
        let ghost reported = outcome_views(outcomes@);
        match self.agents.find(endpoint) {
            None => {},
            Some(place) => {
                let (_endpoint, entry) = self.agents.at(place);
                let ghost announced = entry.announced;
                let ghost all = actions@;
                let mut i: usize = 0;
                proof {
                    assert(all.take(0) =~= Seq::empty());
                    assert(reported + outcomes_of(endpoint, entry.call_id@, announced, all.take(0)) =~= reported);
                }
                while i < actions.len()
                    invariant
                        i <= actions@.len(),
                        all == actions@,
                        entry.call_id@ == before[endpoint.0].call_id,
                        entry.local == before[endpoint.0].local,
                        entry.turn_server == before[endpoint.0].turn_server,
                        entry.announced == announced_after(announced, all.take(i as int)),
                        outcome_views(outcomes@) == reported + outcomes_of(
                            endpoint,
                            entry.call_id@,
                            announced,
                            all.take(i as int),
                        ),
                    decreases actions@.len() - i,
                {
                    let ghost sofar = outcome_views(outcomes@);
                    proof {
                        assert(all.take(i + 1).drop_last() =~= all.take(i as int));
                        lemma_announced_step(announced, all, i as int);
                    }
                    match &actions[i] {
                        AgentAction::Send { to, datagram } => {
                            outcomes.push(
                                AgentOutcome::Send {
                                    endpoint,
                                    dst: *to,
                                    datagram: slice_to_vec(datagram.as_slice()),
                                },
                            );
                        },
                        AgentAction::Selected { remote } => {
                            if !entry.announced {
                                entry.announced = true;
                                outcomes.push(
                                    AgentOutcome::Selected {
                                        endpoint,
                                        call_id: entry.call_id.clone(),
                                        remote: *remote,
                                    },
                                );
                            }
                        },
                        AgentAction::StateChanged { failed } => {
                            if *failed {
                                outcomes.push(
                                    AgentOutcome::Failed { endpoint, call_id: entry.call_id.clone() },
                                );
                            }
                        },
                    }
                    proof {
                        let step = translated(
                            endpoint,
                            entry.call_id@,
                            announced_after(announced, all.take(i as int)),
                            all[i as int],
                        );
                        assert(outcome_views(outcomes@) =~= sofar + step);
                        assert(outcomes_of(endpoint, entry.call_id@, announced, all.take(i + 1)) == outcomes_of(
                            endpoint,
                            entry.call_id@,
                            announced,
                            all.take(i as int),
                        ) + step);
                        assert(sofar + step =~= reported + outcomes_of(
                            endpoint,
                            entry.call_id@,
                            announced,
                            all.take(i + 1),
                        ));
                    }
                    i = i + 1;
                }
                proof {
                    assert(all.take(i as int) =~= all);
                }
                let ghost changed = entry@;
                proof {
                    assert(self@ =~= before.insert(endpoint.0, changed));
                }
            },
        }
    }

    /// Every remote address the pairs of an endpoint's checklist may probe, each once.
    pub fn remote_addresses(&self, endpoint: EndpointId, pairs: &Vec<SocketAddress>) -> (addresses: Vec<SocketAddress>)
        requires
            self.wf(),
        ensures
            addresses@ == (if self@.dom().contains(endpoint.0) {
                distinct(pairs@)
            } else {
                Seq::empty()
            }),
    {
        let mut seen: Vec<SocketAddress> = Vec::new();
        if !self.agents.contains(endpoint) {
            return seen;
        }
        let mut i: usize = 0;
        while i < pairs.len()
            invariant
                i <= pairs@.len(),
                seen@ == distinct(pairs@.take(i as int)),
            decreases pairs@.len() - i,
        {
            proof {
                assert(pairs@.take(i + 1).drop_last() =~= pairs@.take(i as int));
            }
            if !holds(&seen, pairs[i]) {
                seen.push(pairs[i]);
            }
            i = i + 1;
        }
        proof {
            assert(pairs@.take(i as int) =~= pairs@);
        }
        seen
    }
}

/// One more action announces a selection when it is one.
proof fn lemma_announced_step(announced: bool, actions: Seq<AgentAction>, i: int)
    requires
        0 <= i < actions.len(),
    ensures
        announced_after(announced, actions.take(i + 1)) == (announced_after(announced, actions.take(i))
            || actions[i] is Selected),
{
    let next = actions.take(i + 1);
    let prior = actions.take(i);
    if announced_after(announced, prior) && !announced {
        let j = choose|j: int| 0 <= j < prior.len() && #[trigger] prior[j] is Selected;
        assert(next[j] is Selected);
    }
    if actions[i] is Selected {
        assert(next[i] is Selected);
    }
    if announced_after(announced, next) && !announced {
        let j = choose|j: int| 0 <= j < next.len() && #[trigger] next[j] is Selected;
        if j < i {
            assert(prior[j] is Selected);
        }
    }
}

/// Whether a list holds an address.
fn holds(addresses: &Vec<SocketAddress>, wanted: SocketAddress) -> (found: bool)
    ensures
        found == addresses@.contains(wanted),
{
    let mut i: usize = 0;
    while i < addresses.len()
        invariant
            i <= addresses@.len(),
            forall|j: int| 0 <= j < i ==> addresses@[j] != wanted,
        decreases addresses@.len() - i,
    {
        if addresses[i] == wanted {
            return true;
        }
        i = i + 1;
    }
    false
}

/// The endpoint number that a tie-breaker was spread from.
pub open spec fn gathered_endpoint(value: u64) -> u64 {
    let a = (value ^ (value >> 31) ^ (value >> 62)).wrapping_mul(0x3196_42b2_d24d_8ec3u64);
    let b = (a ^ (a >> 27) ^ (a >> 54)).wrapping_mul(0x96de_1b17_3f11_9089u64);
    (b ^ (b >> 30) ^ (b >> 60)).wrapping_mul(0xf1de_83e1_9937_733du64)
}

/// Multiplying by a number and then by its inverse gives back what was there.
proof fn lemma_multiplied_back(value: u64, factor: u64, inverse: u64, turns: int)
    requires
        factor * inverse == 1 + turns * 0x1_0000_0000_0000_0000,
    ensures
        value.wrapping_mul(factor).wrapping_mul(inverse) == value,
{
    let range: int = 0x1_0000_0000_0000_0000;
    let product = value as int * factor as int;
    vstd::arithmetic::div_mod::lemma_mul_mod_noop_left(product, inverse as int, range);
    assert(product * inverse == value + (value * turns) * range) by (nonlinear_arith)
        requires
            product == value * factor,
            factor * inverse == 1 + turns * range,
    ;
    vstd::arithmetic::div_mod::lemma_mod_multiples_vanish(value * turns, value as int, range);
    vstd::arithmetic::div_mod::lemma_small_mod(value as nat, range as nat);
    assert(value.wrapping_mul(factor) as int == product % range);
    assert((value * turns) * range + value == range * (value * turns) + value) by (nonlinear_arith);
}

/// A tie-breaker tells its endpoint: it can be spread back to the number it came from, so two endpoints never
/// share one.
pub proof fn law_tie_breakers_tell_their_endpoints(endpoint: u64, other: u64)
    ensures
        gathered_endpoint(spread_endpoint(endpoint)) == endpoint,
        spread_endpoint(endpoint) == spread_endpoint(other) ==> endpoint == other,
{
    lemma_gathered(endpoint);
    lemma_gathered(other);
}

/// Spreading an endpoint number is undone step by step.
proof fn lemma_gathered(endpoint: u64)
    ensures
        gathered_endpoint(spread_endpoint(endpoint)) == endpoint,
{
    let a = endpoint.wrapping_mul(0x9e37_79b9_7f4a_7c15u64);
    let am = a ^ (a >> 30);
    let b = am.wrapping_mul(0xbf58_476d_1ce4_e5b9u64);
    let bm = b ^ (b >> 27);
    let c = bm.wrapping_mul(0x94d0_49bb_1331_11ebu64);
    let cm = c ^ (c >> 31);
    assert(cm ^ (cm >> 31) ^ (cm >> 62) == c) by (bit_vector)
        requires
            cm == c ^ (c >> 31),
    ;
    lemma_multiplied_back(bm, 0x94d0_49bb_1331_11eb, 0x3196_42b2_d24d_8ec3, 0x1cd3_36ed_a85f_1453);
    assert(bm ^ (bm >> 27) ^ (bm >> 54) == b) by (bit_vector)
        requires
            bm == b ^ (b >> 27),
    ;
    lemma_multiplied_back(am, 0xbf58_476d_1ce4_e5b9, 0x96de_1b17_3f11_9089, 0x70c3_bca7_8f27_f46c);
    assert(am ^ (am >> 30) ^ (am >> 60) == a) by (bit_vector)
        requires
            am == a ^ (a >> 30),
    ;
    lemma_multiplied_back(endpoint, 0x9e37_79b9_7f4a_7c15, 0xf1de_83e1_9937_733d, 0x957b_bf35_006e_d677);
}

/// An endpoint is armed with its own credentials and the registry's cadence, with nothing in flight and a full
/// window from the tick it is armed at; its jitter starts from its own number.
pub proof fn law_armed_with_its_own_credentials(
    entry: ConsentEntryView,
    endpoint: EndpointId,
    dst: SocketAddress,
    config: ConsentConfig,
    priority: u32,
    now_tick: u64,
    id: TransactionId,
)
    requires
        entry.checker matches Some(checker) ==> checker.remote_addr != dst,
    ensures
        ({
            let followed = entry.followed(endpoint, Some(dst), config, priority, now_tick);
            let armed = followed.checker->Some_0;
            let check = armed.check(id);
            &&& followed.checker is Some
            &&& armed.last_consent_tick == now_tick
            &&& armed.next_check_tick == now_tick
            &&& armed.pending is None
            &&& config.interval_ticks >= 1 ==> armed.interval_ticks == config.interval_ticks
            &&& config.timeout_ticks >= 1 ==> armed.timeout_ticks == config.timeout_ticks
            &&& config.rto_ticks >= 1 ==> armed.rto_ticks == config.rto_ticks
            &&& armed.interval_ticks >= 1 && armed.timeout_ticks >= 1 && armed.rto_ticks >= 1
            &&& check.dst == dst
            &&& check.username.len() == entry.remote_ufrag.len() + 1 + entry.local_ufrag.len()
            &&& check.username.take(entry.remote_ufrag.len() as int) == entry.remote_ufrag
            &&& check.username[entry.remote_ufrag.len() as int] == ':'
            &&& check.username.skip(entry.remote_ufrag.len() as int + 1) == entry.local_ufrag
            &&& check.password == entry.remote_pwd
            &&& check.priority == priority
            &&& check.role == entry.role
            &&& armed.rng_state % 2 == 1
            &&& armed.rng_state / 2 == spread_endpoint(endpoint.0) / 2
            &&& followed.call_id == entry.call_id
            &&& followed.remote_pwd == entry.remote_pwd
        }),
{
    reveal_strlit(":");
    let followed = entry.followed(endpoint, Some(dst), config, priority, now_tick);
    let check = followed.checker->Some_0.check(id);
    assert(check.username.take(entry.remote_ufrag.len() as int) =~= entry.remote_ufrag);
    assert(check.username.skip(entry.remote_ufrag.len() as int + 1) =~= entry.local_ufrag);
    let seed = spread_endpoint(endpoint.0);
    assert((seed | 1) % 2 == 1 && (seed | 1) / 2 == seed / 2) by (bit_vector);
}

/// A peer that keeps its source keeps its checker as it is, window and check in flight included.
pub proof fn law_unchanged_source_changes_nothing(
    entry: ConsentEntryView,
    endpoint: EndpointId,
    config: ConsentConfig,
    priority: u32,
    now_tick: u64,
)
    requires
        entry.checker is Some,
    ensures
        entry.followed(endpoint, Some(entry.checker->Some_0.remote_addr), config, priority, now_tick) == entry,
{
}

/// An endpoint that is registered is there with the entry's call and credentials and no checker yet, whatever it
/// was before; one that is unregistered is gone.
pub proof fn law_registered_until_unregistered(
    supervisor: ConsentSupervisorView,
    endpoint: EndpointId,
    entry: ConsentEntryView,
)
    ensures
        ({
            let there = supervisor.happened(SupervisorEvent::Registered { endpoint, entry });
            let now = there.entries[endpoint.0];
            &&& there.entries.dom().contains(endpoint.0)
            &&& now.checker is None
            &&& now.call_id == entry.call_id && now.role == entry.role
            &&& now.local_ufrag == entry.local_ufrag && now.remote_ufrag == entry.remote_ufrag
            &&& now.remote_pwd == entry.remote_pwd
            &&& !there.happened(SupervisorEvent::Unregistered { endpoint }).entries.dom().contains(endpoint.0)
        }),
{
}

/// A response counts for the endpoint it arrived at, where that is checked: it renews the window from its
/// arrival on.
pub proof fn law_response_counts_where_it_arrived(
    supervisor: ConsentSupervisorView,
    endpoint: EndpointId,
    message: StunResponse,
    arrival_tick: u64,
)
    requires
        supervisor.entries.dom().contains(endpoint.0),
        supervisor.entries[endpoint.0].checker matches Some(checker) && checker.pending == Some(message.transaction_id),
        message.binding_success,
        message.integrity_verified,
    ensures
        ({
            let after = supervisor.happened(
                SupervisorEvent::Checker {
                    endpoint,
                    event: ConsentEvent::Answered { response: Some(message), now_tick: arrival_tick },
                },
            ).entries[endpoint.0];
            after.checker matches Some(checker) && checker.last_consent_tick == arrival_tick && checker.pending is None
        }),
{
}

/// A run of an agent's actions gives the outcomes of its parts, one after the other; a selection in the first
/// counts as reported in the second.
pub proof fn law_outcomes_add_up(
    endpoint: EndpointId,
    call_id: Seq<char>,
    announced: bool,
    first: Seq<AgentAction>,
    second: Seq<AgentAction>,
)
    ensures
        outcomes_of(endpoint, call_id, announced, first + second) == outcomes_of(endpoint, call_id, announced, first)
            + outcomes_of(endpoint, call_id, announced_after(announced, first), second),
    decreases second.len(),
{
    if second.len() == 0 {
        assert(first + second =~= first);
        assert(outcomes_of(endpoint, call_id, announced, first + second) =~= outcomes_of(
            endpoint,
            call_id,
            announced,
            first,
        ) + outcomes_of(endpoint, call_id, announced_after(announced, first), second));
    } else {
        let prior = second.drop_last();
        law_outcomes_add_up(endpoint, call_id, announced, first, prior);
        assert((first + second).drop_last() =~= first + prior);
        let joint = first + prior;
        assert(announced_after(announced, joint) == announced_after(announced_after(announced, first), prior)) by {
            if exists|i: int| 0 <= i < joint.len() && #[trigger] joint[i] is Selected {
                let i = choose|i: int| 0 <= i < joint.len() && #[trigger] joint[i] is Selected;
                if i < first.len() {
                    assert(first[i] is Selected);
                } else {
                    assert(prior[i - first.len()] is Selected);
                }
            }
            if exists|i: int| 0 <= i < first.len() && #[trigger] first[i] is Selected {
                let i = choose|i: int| 0 <= i < first.len() && #[trigger] first[i] is Selected;
                assert(joint[i] is Selected);
            }
            if exists|i: int| 0 <= i < prior.len() && #[trigger] prior[i] is Selected {
                let i = choose|i: int| 0 <= i < prior.len() && #[trigger] prior[i] is Selected;
                assert(joint[first.len() + i] is Selected);
            }
        }
        assert(outcomes_of(endpoint, call_id, announced, first + second) =~= outcomes_of(
            endpoint,
            call_id,
            announced,
            first,
        ) + outcomes_of(endpoint, call_id, announced_after(announced, first), second));
    }
}

/// What an agent asks for leaves its own endpoint as it is: a check with its datagram to the address it named,
/// the first selection under the call, and the failure of every pair. Another state is no outcome.
pub proof fn law_what_an_agent_asks_for(
    endpoint: EndpointId,
    call_id: Seq<char>,
    announced: bool,
    to: SocketAddress,
    datagram: Vec<u8>,
)
    ensures
        outcomes_of(endpoint, call_id, announced, seq![AgentAction::Send { to, datagram }]) == seq![
            AgentOutcomeView::Send { endpoint, dst: to, datagram: datagram@ },
        ],
        outcomes_of(endpoint, call_id, false, seq![AgentAction::Selected { remote: to }]) == seq![
            AgentOutcomeView::Selected { endpoint, call_id, remote: to },
        ],
        outcomes_of(endpoint, call_id, true, seq![AgentAction::Selected { remote: to }]).len() == 0,
        outcomes_of(endpoint, call_id, announced, seq![AgentAction::StateChanged { failed: true }]) == seq![
            AgentOutcomeView::Failed { endpoint, call_id },
        ],
        outcomes_of(endpoint, call_id, announced, seq![AgentAction::StateChanged { failed: false }]).len() == 0,
{
    lemma_one_action(endpoint, call_id, announced, AgentAction::Send { to, datagram });
    lemma_one_action(endpoint, call_id, false, AgentAction::Selected { remote: to });
    lemma_one_action(endpoint, call_id, true, AgentAction::Selected { remote: to });
    lemma_one_action(endpoint, call_id, announced, AgentAction::StateChanged { failed: true });
    lemma_one_action(endpoint, call_id, announced, AgentAction::StateChanged { failed: false });
}

/// The outcomes of one action.
proof fn lemma_one_action(endpoint: EndpointId, call_id: Seq<char>, announced: bool, action: AgentAction)
    ensures
        outcomes_of(endpoint, call_id, announced, seq![action]) == translated(endpoint, call_id, announced, action),
{
    let one = seq![action];
    assert(one.drop_last() =~= Seq::empty());
    assert(outcomes_of(endpoint, call_id, announced, one.drop_last()) =~= Seq::empty());
    assert(outcomes_of(endpoint, call_id, announced, one) =~= translated(endpoint, call_id, announced, action));
}

/// What comes from the TURN server that an endpoint relays through drives the allocation, with the datagram as it
/// is; what comes from anywhere else goes to the agent, at the address it was registered with; and what comes for
/// an endpoint without an agent goes nowhere.
pub proof fn law_turn_traffic_is_kept_apart(
    route: AgentRoute,
    agents: Map<u64, AgentEntryView>,
    endpoint: EndpointId,
    call_id: Seq<char>,
    local: SocketAddress,
    server: SocketAddress,
    source: SocketAddress,
    datagram: Seq<u8>,
)
    ensures
        goes_to(
            route,
            relayed_through(with_agent(agents, endpoint, call_id, local), endpoint, Some(server)),
            endpoint,
            source,
            datagram,
        ) ==> {
            &&& route is Turn <==> source == server
            &&& route is Turn ==> route->outcome@ == (AgentOutcomeView::TurnDatagram { endpoint, datagram })
            &&& source != server ==> route == (AgentRoute::Agent { local })
        },
        goes_to(route, with_agent(agents, endpoint, call_id, local), endpoint, source, datagram) ==> route == (
        AgentRoute::Agent { local }),
        goes_to(route, agents, endpoint, source, datagram) && !agents.dom().contains(endpoint.0) ==> route is Unknown,
{
}

/// An agent that is registered belongs to its call and has reported nothing yet; saying which TURN server it uses
/// changes nothing else of it, and nothing of an endpoint without an agent. The other endpoints keep theirs.
pub proof fn law_agents_are_kept_by_endpoint(
    agents: Map<u64, AgentEntryView>,
    endpoint: EndpointId,
    other: EndpointId,
    call_id: Seq<char>,
    local: SocketAddress,
    server: Option<SocketAddress>,
)
    requires
        other.0 != endpoint.0,
    ensures
        ({
            let registered = with_agent(agents, endpoint, call_id, local);
            let relayed = relayed_through(registered, endpoint, server);
            &&& registered.dom().contains(endpoint.0)
            &&& registered[endpoint.0].call_id == call_id
            &&& !registered[endpoint.0].announced
            &&& registered[endpoint.0].turn_server is None
            &&& relayed[endpoint.0].turn_server == server
            &&& relayed[endpoint.0].call_id == call_id && relayed[endpoint.0].local == local
            &&& !relayed[endpoint.0].announced
            &&& relayed.dom().contains(other.0) == agents.dom().contains(other.0)
            &&& agents.dom().contains(other.0) ==> relayed[other.0] == agents[other.0]
            &&& !agents.dom().contains(endpoint.0) ==> relayed_through(agents, endpoint, server) == agents
        }),
{
}

} // verus!
