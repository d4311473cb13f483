//! Consent freshness (RFC 7675): proving again and again that a peer still wants our media, and
//! declaring the pair dead when it stops answering.
use crate::net::SocketAddress;
use vstd::prelude::*;

verus! {

/// Our ICE role, with the tie-breaker (RFC 8445 section 5.2).
#[derive(Clone, Copy, Debug, PartialEq, Eq, Structural)]
pub enum IceRole {
    Controlling(u64),
    Controlled(u64),
}

/// A STUN transaction identifier: a 96-bit number.
#[derive(Clone, Copy, Debug, PartialEq, Eq, Structural)]
pub struct TransactionId(pub u128);

/// How a [`ConsentChecker`] is built.
#[derive(Clone, Debug)]
pub struct ConsentParams {
    /// Where checks go.
    pub remote_addr: SocketAddress,
    pub local_ufrag: String,
    pub remote_ufrag: String,
    pub remote_pwd: String,
    /// The priority advertised on a check.
    pub priority: u32,
    pub role: IceRole,
    /// Ticks between fresh checks, before jitter.
    pub interval_ticks: u64,
    /// Ticks without a response after which consent has failed.
    pub timeout_ticks: u64,
    /// Retransmission timeout of a check, in ticks.
    pub rto_ticks: u64,
    /// Seed of the jitter.
    pub seed: u64,
}

/// What the retransmission timer of a check in flight says.
#[derive(Clone, Copy, Debug, PartialEq, Eq, Structural)]
pub enum TransactionAction {
    Retransmit,
    Failed,
    Wait,
}

/// What is known of an arrived STUN message.
#[derive(Clone, Copy, Debug, PartialEq, Eq, Structural)]
pub struct StunResponse {
    /// Whether it is a Binding success response.
    pub binding_success: bool,
    pub transaction_id: TransactionId,
    /// Whether its integrity verifies with the remote password.
    pub integrity_verified: bool,
}

/// A consent check to build and transmit. It never nominates.
#[derive(Clone, Debug, PartialEq, Eq)]
pub struct CheckRequest {
    pub dst: SocketAddress,
    pub transaction_id: TransactionId,
    pub username: String,
    pub password: String,
    pub priority: u32,
    pub role: IceRole,
}

/// The content of a [`CheckRequest`].
pub struct CheckRequestView {
    pub dst: SocketAddress,
    pub transaction_id: TransactionId,
    pub username: Seq<char>,
    pub password: Seq<char>,
    pub priority: u32,
    pub role: IceRole,
}

impl View for CheckRequest {
    type V = CheckRequestView;

    open spec fn view(&self) -> CheckRequestView {
        CheckRequestView {
            dst: self.dst,
            transaction_id: self.transaction_id,
            username: self.username@,
            password: self.password@,
            priority: self.priority,
            role: self.role,
        }
    }
}

/// What a checker asks for.
#[derive(Clone, Debug, PartialEq, Eq)]
pub enum ConsentAction {
    /// Nothing is due.
    Idle,
    /// Ask the retransmission timer of this transaction.
    PollTransaction { id: TransactionId },
    /// Draw a transaction identifier and start its timer with this timeout.
    StartTransaction { rto_ticks: u64 },
    /// Transmit this check.
    SendCheck { request: CheckRequest },
    /// Consent has expired.
    Failed,
}

/// The content of a [`ConsentAction`].
pub enum ConsentActionView {
    Idle,
    PollTransaction { id: TransactionId },
    StartTransaction { rto_ticks: u64 },
    SendCheck { request: CheckRequestView },
    Failed,
}

impl View for ConsentAction {
    type V = ConsentActionView;

    open spec fn view(&self) -> ConsentActionView {
        match *self {
            ConsentAction::Idle => ConsentActionView::Idle,
            ConsentAction::PollTransaction { id } => ConsentActionView::PollTransaction { id },
            ConsentAction::StartTransaction { rto_ticks } => ConsentActionView::StartTransaction { rto_ticks },
            ConsentAction::SendCheck { request } => ConsentActionView::SendCheck { request: request@ },
            ConsentAction::Failed => ConsentActionView::Failed,
        }
    }
}

/// Consent state of one endpoint.
#[derive(Clone, Debug)]
pub struct ConsentChecker {
    remote_addr: SocketAddress,
    username: String,
    remote_pwd: String,
    priority: u32,
    role: IceRole,
    interval_ticks: u64,
    timeout_ticks: u64,
    rto_ticks: u64,
    last_consent_tick: u64,
    next_check_tick: u64,
    pending: Option<TransactionId>,
    rng_state: u64,
}

/// The state of a [`ConsentChecker`].
pub struct ConsentCheckerView {
    pub remote_addr: SocketAddress,
    /// The username of a check: the remote fragment, a colon, the local fragment.
    pub username: Seq<char>,
    pub remote_pwd: Seq<char>,
    pub priority: u32,
    pub role: IceRole,
    pub interval_ticks: u64,
    pub timeout_ticks: u64,
    pub rto_ticks: u64,
    /// The tick of the last response that counted.
    pub last_consent_tick: u64,
    /// The tick the next fresh check is due at.
    pub next_check_tick: u64,
    /// The check in flight.
    pub pending: Option<TransactionId>,
    /// State of the jitter generator.
    pub rng_state: u64,
}

/// One step of the jitter generator (xorshift64).
pub open spec fn xorshift(state: u64) -> u64 {
    let a = state ^ (state >> 12);
    let b = a ^ (a << 25);
    b ^ (b >> 27)
}

/// How far the jitter moves an interval either way: a fifth of it, at least one.
pub open spec fn spread(interval_ticks: u64) -> int {
    vstd::math::max(interval_ticks as int / 5, 1)
}

/// An interval moved by a jitter state, at least one.
pub open spec fn jittered(interval_ticks: u64, state: u64) -> int {
    vstd::math::max(
        interval_ticks + state as int % (2 * spread(interval_ticks) + 1) - spread(interval_ticks),
        1,
    )
}

/// The larger of a number of ticks and one.
pub open spec fn at_least_one(ticks: u64) -> u64 {
    if ticks > 1 {
        ticks
    } else {
        1
    }
}

impl View for ConsentChecker {
    type V = ConsentCheckerView;

    closed spec fn view(&self) -> ConsentCheckerView {
        ConsentCheckerView {
            remote_addr: self.remote_addr,
            username: self.username@,
            remote_pwd: self.remote_pwd@,
            priority: self.priority,
            role: self.role,
            interval_ticks: self.interval_ticks,
            timeout_ticks: self.timeout_ticks,
            rto_ticks: self.rto_ticks,
            last_consent_tick: self.last_consent_tick,
            next_check_tick: self.next_check_tick,
            pending: self.pending,
            rng_state: self.rng_state,
        }
    }
}

impl ConsentCheckerView {
    /// The settings are in range: intervals are positive and leave room for the jitter, and the
    /// jitter generator is not stuck at zero.
    pub open spec fn wf(self) -> bool {
        &&& self.interval_ticks >= 1
        &&& self.interval_ticks + spread(self.interval_ticks) <= i64::MAX
        &&& self.timeout_ticks >= 1
        &&& self.rto_ticks >= 1
        &&& self.rng_state != 0
    }

    /// A fresh checker.
    pub open spec fn fresh(params: ConsentParams, now_tick: u64) -> ConsentCheckerView {
        ConsentCheckerView {
            remote_addr: params.remote_addr,
            username: params.remote_ufrag@ + ":"@ + params.local_ufrag@,
            remote_pwd: params.remote_pwd@,
            priority: params.priority,
            role: params.role,
            interval_ticks: at_least_one(params.interval_ticks),
            timeout_ticks: at_least_one(params.timeout_ticks),
            rto_ticks: at_least_one(params.rto_ticks),
            last_consent_tick: now_tick,
            next_check_tick: now_tick,
            pending: None,
            rng_state: params.seed | 1,
        }
    }

    /// Whether the window without a response has run out.
    pub open spec fn expired(self, now_tick: u64) -> bool {
        now_tick - self.last_consent_tick >= self.timeout_ticks
    }

    /// The check under a transaction identifier.
    pub open spec fn check(self, transaction_id: TransactionId) -> CheckRequestView {
        CheckRequestView {
            dst: self.remote_addr,
            transaction_id,
            username: self.username,
            password: self.remote_pwd,
            priority: self.priority,
            role: self.role,
        }
    }

    /// What happens when no check is in flight: start one when it is due.
    pub open spec fn idle_step(self, now_tick: u64) -> ConsentActionView {
        if now_tick >= self.next_check_tick {
            ConsentActionView::StartTransaction { rto_ticks: self.rto_ticks }
        } else {
            ConsentActionView::Idle
        }
    }

    /// What happens at a tick.
    pub open spec fn poll_step(self, now_tick: u64) -> ConsentActionView {
        if self.expired(now_tick) {
            ConsentActionView::Failed
        } else {
            match self.pending {
                Some(id) => ConsentActionView::PollTransaction { id },
                None => self.idle_step(now_tick),
            }
        }
    }

    /// Whether a message renews consent: a success response to the check in flight whose integrity
    /// verifies.
    pub open spec fn renews(self, response: Option<StunResponse>) -> bool {
        response matches Some(message) && message.binding_success && message.integrity_verified && self.pending
            == Some(message.transaction_id)
    }

    /// The state once a check was started.
    pub open spec fn checking(self, id: TransactionId, now_tick: u64) -> ConsentCheckerView {
        ConsentCheckerView {
            pending: Some(id),
            next_check_tick: (now_tick + jittered(self.interval_ticks, xorshift(self.rng_state))) as u64,
            rng_state: xorshift(self.rng_state),
            ..self
        }
    }
}

impl ConsentCheckerView {
    /// The state once the retransmission timer was asked: a check that is given up is no longer in flight.
    pub open spec fn timed(self, action: TransactionAction) -> ConsentCheckerView {
        if action is Failed {
            ConsentCheckerView { pending: None, ..self }
        } else {
            self
        }
    }

    /// The step once the retransmission timer was asked about the check in flight.
    pub open spec fn timed_step(self, action: TransactionAction, now_tick: u64) -> ConsentActionView {
        match action {
            TransactionAction::Retransmit => ConsentActionView::SendCheck { request: self.check(self.pending->Some_0) },
            TransactionAction::Failed => self.idle_step(now_tick),
            TransactionAction::Wait => ConsentActionView::Idle,
        }
    }

    /// The state once a transaction identifier was drawn, or could not be.
    pub open spec fn launched(self, id: Option<TransactionId>, now_tick: u64) -> ConsentCheckerView {
        match id {
            Some(drawn) => self.checking(drawn, now_tick),
            None => self,
        }
    }

    /// The step once a transaction identifier was drawn, or could not be.
    pub open spec fn launched_step(self, id: Option<TransactionId>) -> ConsentActionView {
        match id {
            Some(drawn) => ConsentActionView::SendCheck { request: self.check(drawn) },
            None => ConsentActionView::Idle,
        }
    }

    /// The state once a message has arrived.
    pub open spec fn answered(self, response: Option<StunResponse>, now_tick: u64) -> ConsentCheckerView {
        if self.renews(response) {
            ConsentCheckerView { pending: None, last_consent_tick: now_tick, ..self }
        } else {
            self
        }
    }

    /// The state once something has happened. A poll in itself changes nothing.
    pub open spec fn happened(self, event: ConsentEvent) -> ConsentCheckerView {
        match event {
            ConsentEvent::Timed { action, .. } => self.timed(action),
            ConsentEvent::Launched { id, now_tick } => self.launched(id, now_tick),
            ConsentEvent::Answered { response, now_tick } => self.answered(response, now_tick),
        }
    }

    /// The state after a history.
    pub open spec fn after(self, history: Seq<ConsentEvent>) -> ConsentCheckerView
        decreases history.len(),
    {
        if history.len() == 0 {
            self
        } else {
            self.after(history.drop_last()).happened(history.last())
        }
    }
}

impl ConsentCheckerView {
    /// Whether the `i`-th thing that happened was a response that renewed consent.
    pub open spec fn renewed_by(self, history: Seq<ConsentEvent>, i: int) -> bool {
        history[i] matches ConsentEvent::Answered { response, .. } && self.after(history.take(i)).renews(response)
    }

    /// Whether no response in a history renewed consent.
    pub open spec fn never_renewed(self, history: Seq<ConsentEvent>) -> bool {
        forall|i: int| 0 <= i < history.len() ==> !(#[trigger] self.renewed_by(history, i))
    }
}

/// What can happen to a checker.
pub enum ConsentEvent {
    /// The retransmission timer was asked about the check in flight.
    Timed { action: TransactionAction, now_tick: u64 },
    /// A check was started, or could not be.
    Launched { id: Option<TransactionId>, now_tick: u64 },
    /// A message arrived.
    Answered { response: Option<StunResponse>, now_tick: u64 },
}

impl ConsentEvent {
    /// When it happened.
    pub open spec fn tick(self) -> u64 {
        match self {
            ConsentEvent::Timed { now_tick, .. } => now_tick,
            ConsentEvent::Launched { now_tick, .. } => now_tick,
            ConsentEvent::Answered { now_tick, .. } => now_tick,
        }
    }
}

/// Whatever has happened, consent fails exactly when a full timeout has passed since it was last renewed,
/// checks go to the peer they were set up for, and nothing but an accepted response moves the start of the
/// window. In particular a lost check alone never fails the pair. The first check is due at once.
pub proof fn law_only_a_full_timeout_fails(
    params: ConsentParams,
    started: u64,
    history: Seq<ConsentEvent>,
    now_tick: u64,
    id: TransactionId,
)
    ensures
        ({
            let fresh = ConsentCheckerView::fresh(params, started);
            let checker = fresh.after(history);
            &&& fresh.poll_step(started) == (ConsentActionView::StartTransaction {
                rto_ticks: at_least_one(params.rto_ticks),
            })
            &&& checker.timeout_ticks == at_least_one(params.timeout_ticks)
            &&& checker.poll_step(now_tick) is Failed <==> now_tick - checker.last_consent_tick >= at_least_one(
                params.timeout_ticks,
            )
            &&& checker.remote_addr == params.remote_addr
            &&& checker.check(id).dst == params.remote_addr
            &&& fresh.never_renewed(history) ==> checker.last_consent_tick == started
        }),
    decreases history.len(),
{
    let fresh = ConsentCheckerView::fresh(params, started);
    if history.len() > 0 {
        let prior = history.drop_last();
        law_only_a_full_timeout_fails(params, started, prior, now_tick, id);
        if fresh.never_renewed(history) {
            assert forall|i: int| 0 <= i < prior.len() implies !fresh.renewed_by(prior, i) by {
                assert(prior[i] == history[i]);
                assert(prior.take(i) =~= history.take(i));
                assert(!fresh.renewed_by(history, i));
            }
            let last = history.len() - 1;
            assert(history.take(last) =~= prior);
            assert(!fresh.renewed_by(history, last));
        }
    }
}

/// The jitter generator never gets stuck at zero.
pub proof fn law_jitter_never_sticks(state: u64)
    requires
        state != 0,
    ensures
        xorshift(state) != 0,
{
    let a = state ^ (state >> 12);
    let b = a ^ (a << 25);
    assert(state != 0 ==> state ^ (state >> 12) != 0) by (bit_vector);
    assert(a != 0 ==> a ^ (a << 25) != 0) by (bit_vector);
    assert(b != 0 ==> b ^ (b >> 27) != 0) by (bit_vector);
}

/// The jitter moves an interval by at most a fifth either way, and never below one tick. An interval
/// under five ticks moves by at most one.
pub proof fn law_jitter_is_bounded(interval_ticks: u64, state: u64)
    requires
        interval_ticks >= 1,
    ensures
        interval_ticks - spread(interval_ticks) <= jittered(interval_ticks, state) <= interval_ticks + spread(
            interval_ticks,
        ),
        jittered(interval_ticks, state) >= 1,
        interval_ticks >= 5 ==> spread(interval_ticks) * 5 <= interval_ticks,
{
    let modulus = 2 * spread(interval_ticks) + 1;
    assert(0 <= state as int % modulus < modulus) by (nonlinear_arith)
        requires
            modulus > 0,
    ;
}

impl ConsentChecker {
    /// The settings are in range.
    pub open spec fn wf(&self) -> bool {
        self@.wf()
    }

    /// Start consent for a pair. The first check is due at once.
    pub fn new(params: ConsentParams, now_tick: u64) -> (checker: Self)
        requires
            params.interval_ticks + spread(params.interval_ticks) <= i64::MAX,
        ensures
            checker.wf(),
            checker@ == ConsentCheckerView::fresh(params, now_tick),
    {
        let mut username = params.remote_ufrag;
        username.push_str(":");
        username.push_str(params.local_ufrag.as_str());
        let seed: u64 = params.seed;
        let rng_state: u64 = seed | 1;
        proof {
            assert(seed | 1 != 0) by (bit_vector);
        }
        ConsentChecker {
            remote_addr: params.remote_addr,
            username,
            remote_pwd: params.remote_pwd,
            priority: params.priority,
            role: params.role,
            interval_ticks: if params.interval_ticks > 1 {
                params.interval_ticks
            } else {
                1
            },
            timeout_ticks: if params.timeout_ticks > 1 {
                params.timeout_ticks
            } else {
                1
            },
            rto_ticks: if params.rto_ticks > 1 {
                params.rto_ticks
            } else {
                1
            },
            last_consent_tick: now_tick,
            next_check_tick: now_tick,
            pending: None,
            rng_state,
        }
    }

    /// The tick of the last renewed consent.
    pub fn last_consent_tick(&self) -> (tick: u64)
        ensures
            tick == self@.last_consent_tick,
    {
        self.last_consent_tick
    }

    /// Where checks go.
    pub fn remote_addr(&self) -> (address: SocketAddress)
        ensures
            address == self@.remote_addr,
    {
        self.remote_addr
    }

    /// The password that responses are verified with.
    pub fn remote_pwd(&self) -> (password: String)
        ensures
            password@ == self@.remote_pwd,
    {
        self.remote_pwd.clone()
    }

    /// What is due at `now_tick`. Responses that have arrived must be taken in first.
    pub fn poll(&self, now_tick: u64) -> (step: ConsentAction)
        requires
            self.wf(),
        ensures
            step@ == self@.poll_step(now_tick),
    {
        if now_tick.saturating_sub(self.last_consent_tick) >= self.timeout_ticks {
            return ConsentAction::Failed;
        }
        match self.pending {
            Some(id) => ConsentAction::PollTransaction { id },
            None => self.idle(now_tick),
        }
    }

    /// Go on once the retransmission timer was asked: repeat the check, wait, or give it up and start
    /// a fresh one when that is due.
    pub fn transaction_polled(&mut self, action: TransactionAction, now_tick: u64) -> (step: ConsentAction)
        requires
            old(self)@.pending is Some,
            old(self).wf(),
        ensures
            final(self).wf(),
            step@ == old(self)@.timed_step(action, now_tick),
            final(self)@ == old(self)@.timed(action),
    {
        match action {
            TransactionAction::Wait => ConsentAction::Idle,
            TransactionAction::Failed => {
                self.pending = None;
                self.idle(now_tick)
            },
            TransactionAction::Retransmit => match self.pending {
                Some(id) => ConsentAction::SendCheck { request: self.build_check(id) },
                None => ConsentAction::Idle,
            },
        }
    }

    /// Start a fresh check when it is due.
    fn idle(&self, now_tick: u64) -> (step: ConsentAction)
        ensures
            step@ == self@.idle_step(now_tick),
    {
        if now_tick >= self.next_check_tick {
            ConsentAction::StartTransaction { rto_ticks: self.rto_ticks }
        } else {
            ConsentAction::Idle
        }
    }

    /// Go on once a transaction identifier was drawn: send the check and schedule the next. Where
    /// none could be drawn the check is tried again at the next tick.
    pub fn started(&mut self, id: Option<TransactionId>, now_tick: u64) -> (step: ConsentAction)
        requires
            old(self).wf(),
            now_tick + old(self)@.interval_ticks + spread(old(self)@.interval_ticks) <= u64::MAX,
        ensures
            final(self).wf(),
            step@ == old(self)@.launched_step(id),
            final(self)@ == old(self)@.launched(id, now_tick),
    {
        match id {
            None => ConsentAction::Idle,
            Some(drawn) => {
                self.pending = Some(drawn);
                let interval: u64 = self.next_interval();
                self.next_check_tick = now_tick + interval;
                ConsentAction::SendCheck { request: self.build_check(drawn) }
            },
        }
    }

    /// Take in an arrived STUN message. Only a genuine response to the check in flight renews
    /// consent, and returns `true`.
    pub fn on_response(&mut self, response: Option<StunResponse>, now_tick: u64) -> (renewed: bool)
        ensures
            old(self).wf() ==> final(self).wf(),
            renewed == old(self)@.renews(response),
            final(self)@ == old(self)@.answered(response, now_tick),
    {
        match (self.pending, response) {
            (Some(id), Some(message)) => {
                if !message.binding_success || message.transaction_id != id || !message.integrity_verified {
                    return false;
                }
                self.pending = None;
                self.last_consent_tick = now_tick;
                true
            },
            _ => false,
        }
    }

    /// The check under a transaction identifier.
    fn build_check(&self, transaction_id: TransactionId) -> (request: CheckRequest)
        ensures
            request@ == self@.check(transaction_id),
    {
        CheckRequest {
            dst: self.remote_addr,
            transaction_id,
            username: self.username.clone(),
            password: self.remote_pwd.clone(),
            priority: self.priority,
            role: self.role,
        }
    }

    /// The next interval, moved by the jitter.
    fn next_interval(&mut self) -> (interval: u64)
        requires
            old(self).wf(),
        ensures
            interval == jittered(old(self)@.interval_ticks, xorshift(old(self)@.rng_state)),
            interval <= old(self)@.interval_ticks + spread(old(self)@.interval_ticks),
            final(self)@ == (ConsentCheckerView { rng_state: xorshift(old(self)@.rng_state), ..old(self)@ }),
            final(self).wf(),
    {
        let first: u64 = self.rng_state;
        proof {
            law_jitter_never_sticks(first);
        }
        let second: u64 = first ^ (first >> 12);
        let third: u64 = second ^ (second << 25);
        let state: u64 = third ^ (third >> 27);
        self.rng_state = state;
        let fifth: u64 = self.interval_ticks / 5;
        let reach: u64 = if fifth > 1 {
            fifth
        } else {
            1
        };
        proof {
            law_jitter_is_bounded(self.interval_ticks, state);
        }
        let position: u64 = state % (2 * reach + 1);
        if self.interval_ticks + position > reach + 1 {
            self.interval_ticks + position - reach
        } else {
            1
        }
    }
}

/// Consent fails at a tick exactly when the window since the last response has run out: never
/// earlier, whatever is in flight.
pub proof fn law_failure_is_expiry(checker: ConsentCheckerView, now_tick: u64)
    ensures
        checker.poll_step(now_tick) is Failed <==> now_tick >= checker.last_consent_tick + checker.timeout_ticks,
{
}

/// A renewal opens a new full window: consent then holds for every tick up to the timeout after it.
pub proof fn law_renewal_opens_a_window(checker: ConsentCheckerView, renewed_at: u64, now_tick: u64)
    requires
        now_tick < renewed_at + checker.timeout_ticks,
    ensures
        !(ConsentCheckerView { pending: None, last_consent_tick: renewed_at, ..checker }.poll_step(now_tick) is Failed),
{
}

/// A message that answers no check in flight, or whose integrity does not verify, never renews.
pub proof fn law_forgery_never_renews(checker: ConsentCheckerView, message: StunResponse)
    requires
        !message.integrity_verified || checker.pending != Some(message.transaction_id),
    ensures
        !checker.renews(Some(message)),
{
}

/// The jitter generator mixes bits alone: the state after two that are laid over each other is the two states
/// after them laid over each other, and a state is never reached from two.
pub proof fn law_jitter_mixes_bits(first: u64, second: u64)
    ensures
        xorshift(first ^ second) == xorshift(first) ^ xorshift(second),
        xorshift(first) == xorshift(second) ==> first == second,
{
    let (a, b) = (first, second);
    assert({
        let c = a ^ b;
        let (a1, b1, c1) = (a ^ (a >> 12), b ^ (b >> 12), c ^ (c >> 12));
        let (a2, b2, c2) = (a1 ^ (a1 << 25), b1 ^ (b1 << 25), c1 ^ (c1 << 25));
        c2 ^ (c2 >> 27) == (a2 ^ (a2 >> 27)) ^ (b2 ^ (b2 >> 27))
    }) by (bit_vector);
    assert(a ^ (a >> 12) == b ^ (b >> 12) ==> a == b) by (bit_vector);
    let (a1, b1) = (a ^ (a >> 12), b ^ (b >> 12));
    assert(a1 ^ (a1 << 25) == b1 ^ (b1 << 25) ==> a1 == b1) by (bit_vector);
    let (a2, b2) = (a1 ^ (a1 << 25), b1 ^ (b1 << 25));
    assert(a2 ^ (a2 >> 27) == b2 ^ (b2 >> 27) ==> a2 == b2) by (bit_vector);
}

/// Where the bits of a state end up: twelve low bits are repeated from the twenty-fifth place on and laid over
/// themselves two places down, and each higher bit also counts as the one twelve places below it.
pub proof fn law_jitter_moves_bits(low: u64, high: u64)
    requires
        low < 0x1000,
        high < 0x1000,
    ensures
        xorshift(low) == ((low * 0x200_0001) as u64) ^ (low / 4),
        xorshift(high << 12) == {
            let twice = high | (high << 12);
            let wide = twice ^ (twice << 25);
            wide ^ (wide >> 27)
        },
{
    assert(low < 0x1000 ==> {
        let a = low ^ (low >> 12);
        let b = a ^ (a << 25);
        &&& b ^ (b >> 27) == (low | (low << 25)) ^ (low >> 2)
        &&& low | (low << 25) == low * 0x200_0001
        &&& low >> 2 == low / 4
    }) by (bit_vector);
    assert(high < 0x1000 ==> {
        let s = high << 12;
        s ^ (s >> 12) == high | (high << 12)
    }) by (bit_vector);
}

/// The reach of the jitter is a fifth of the interval, rounded down, and one tick for the shortest.
pub proof fn law_jitter_reaches_a_fifth(interval_ticks: u64)
    ensures
        interval_ticks < 10 ==> spread(interval_ticks) == 1,
        interval_ticks >= 5 ==> 5 * spread(interval_ticks) <= interval_ticks < 5 * spread(interval_ticks) + 5,
{
}

/// The jitter goes through every interval from the least to the greatest, one tick a state, and then begins
/// again at the least.
pub proof fn law_jitter_goes_through_its_range(interval_ticks: u64, state: u64)
    requires
        interval_ticks >= 2,
        state < u64::MAX,
    ensures
        ({
            let now = jittered(interval_ticks, state);
            let next = jittered(interval_ticks, (state + 1) as u64);
            let reach = spread(interval_ticks);
            &&& jittered(interval_ticks, 0) == interval_ticks - reach
            &&& now < interval_ticks + reach ==> next == now + 1
            &&& now == interval_ticks + reach ==> next == interval_ticks - reach
        }),
{
    let range = 2 * spread(interval_ticks) + 1;
    let place = state as int % range;
    vstd::arithmetic::div_mod::lemma_mod_bound(state as int, range);
    vstd::arithmetic::div_mod::lemma_small_mod(0, range as nat);
    vstd::arithmetic::div_mod::lemma_add_mod_noop(state as int, 1, range);
    vstd::arithmetic::div_mod::lemma_small_mod(1, range as nat);
    if place + 1 < range {
        vstd::arithmetic::div_mod::lemma_small_mod((place + 1) as nat, range as nat);
    } else {
        vstd::arithmetic::div_mod::lemma_mod_self_0(range);
    }
    assert((state + 1) as int % range == if place + 1 < range {
        place + 1
    } else {
        0
    });
}

/// A check that is started is the one in flight, and the next comes an interval later, give or take a fifth of
/// it. Starting one is no consent.
pub proof fn law_checks_are_an_interval_apart(checker: ConsentCheckerView, id: TransactionId, now_tick: u64)
    requires
        checker.wf(),
        now_tick + checker.interval_ticks + spread(checker.interval_ticks) <= u64::MAX,
    ensures
        ({
            let after = checker.launched(Some(id), now_tick);
            &&& after.pending == Some(id)
            &&& after.next_check_tick > now_tick
            &&& after.next_check_tick >= now_tick + checker.interval_ticks - spread(checker.interval_ticks)
            &&& after.next_check_tick <= now_tick + checker.interval_ticks + spread(checker.interval_ticks)
            &&& after.last_consent_tick == checker.last_consent_tick
            &&& after.rng_state == xorshift(checker.rng_state)
            &&& checker.interval_ticks >= 2 ==> (after.next_check_tick - now_tick - checker.interval_ticks + spread(
                checker.interval_ticks,
            ) - after.rng_state) % (2 * spread(checker.interval_ticks) + 1) == 0
        }),
        checker.launched(None, now_tick) == checker,
        checker.launched_step(None) is Idle,
{
    law_jitter_is_bounded(checker.interval_ticks, xorshift(checker.rng_state));
    let range = 2 * spread(checker.interval_ticks) + 1;
    let state = xorshift(checker.rng_state) as int;
    vstd::arithmetic::div_mod::lemma_fundamental_div_mod(state, range);
    vstd::arithmetic::div_mod::lemma_mod_bound(state, range);
    assert((state % range - state) % range == 0) by {
        assert(state % range - state == range * (-(state / range))) by (nonlinear_arith)
            requires
                state == range * (state / range) + state % range,
        ;
        vstd::arithmetic::div_mod::lemma_mod_multiples_basic(-(state / range), range);
        assert(range * (-(state / range)) == (-(state / range)) * range) by (nonlinear_arith);
    }
}

/// What is due at a tick before consent has run out: the timer of a check in flight is asked; without one, a
/// check is started once its tick has come.
pub proof fn law_what_is_due(checker: ConsentCheckerView, now_tick: u64)
    requires
        now_tick < checker.last_consent_tick + checker.timeout_ticks,
    ensures
        checker.pending matches Some(id) ==> checker.poll_step(now_tick) == (ConsentActionView::PollTransaction { id }),
        checker.pending is None && now_tick >= checker.next_check_tick ==> checker.poll_step(now_tick) == (
        ConsentActionView::StartTransaction { rto_ticks: checker.rto_ticks }),
        checker.pending is None && now_tick < checker.next_check_tick ==> checker.poll_step(now_tick) is Idle,
{
}

/// A check that is repeated is the very one in flight; one that is given up makes room for a fresh one, which
/// comes at its own time; and neither is consent.
pub proof fn law_timer_of_a_check(checker: ConsentCheckerView, id: TransactionId, now_tick: u64)
    requires
        checker.pending == Some(id),
    ensures
        ({
            let step = checker.timed_step(TransactionAction::Retransmit, now_tick);
            &&& step is SendCheck
            &&& step->request == checker.launched_step(Some(id))->request
            &&& step->request.transaction_id == id
        }),
        checker.timed(TransactionAction::Retransmit) == checker,
        checker.timed(TransactionAction::Wait) == checker,
        checker.timed_step(TransactionAction::Wait, now_tick) is Idle,
        checker.timed(TransactionAction::Failed).pending is None,
        checker.timed(TransactionAction::Failed).last_consent_tick == checker.last_consent_tick,
        checker.timed(TransactionAction::Failed).next_check_tick == checker.next_check_tick,
        checker.timed(TransactionAction::Failed).rng_state == checker.rng_state,
        checker.timed_step(TransactionAction::Failed, now_tick) is StartTransaction <==> now_tick
            >= checker.next_check_tick,
        checker.timed_step(TransactionAction::Failed, now_tick) is Idle <==> now_tick < checker.next_check_tick,
{
}

/// A success response to the check in flight that verifies renews consent at the tick it arrived, and ends the
/// check; no other message changes anything, and the cadence of the checks is the same either way.
pub proof fn law_what_renews_consent(checker: ConsentCheckerView, message: StunResponse, now_tick: u64)
    ensures
        ({
            let after = checker.answered(Some(message), now_tick);
            let genuine = message.binding_success && message.integrity_verified && checker.pending is Some
                && checker.pending->Some_0 == message.transaction_id;
            &&& checker.renews(Some(message)) <==> genuine
            &&& genuine ==> after.last_consent_tick == now_tick && after.pending is None
            &&& !genuine ==> after == checker
            &&& after.next_check_tick == checker.next_check_tick
            &&& after.rng_state == checker.rng_state
        }),
        checker.answered(None, now_tick) == checker,
{
}

/// A check is addressed to the peer under the peer's name first and ours second, sealed with the peer's
/// password, with the priority and role that were set.
pub proof fn law_checks_carry_the_credentials(
    params: ConsentParams,
    started: u64,
    history: Seq<ConsentEvent>,
    id: TransactionId,
)
    ensures
        ({
            let check = ConsentCheckerView::fresh(params, started).after(history).check(id);
            let theirs = params.remote_ufrag@;
            let ours = params.local_ufrag@;
            &&& check.dst == params.remote_addr
            &&& check.transaction_id == id
            &&& check.username.len() == theirs.len() + 1 + ours.len()
            &&& check.username.take(theirs.len() as int) == theirs
            &&& check.username[theirs.len() as int] == ':'
            &&& check.username.skip(theirs.len() as int + 1) == ours
            &&& check.password == params.remote_pwd@
            &&& check.priority == params.priority
            &&& check.role == params.role
        }),
    decreases history.len(),
{
    if history.len() > 0 {
        law_checks_carry_the_credentials(params, started, history.drop_last(), id);
    } else {
        reveal_strlit(":");
        let check = ConsentCheckerView::fresh(params, started).after(history).check(id);
        let theirs = params.remote_ufrag@;
        assert(check.username.take(theirs.len() as int) =~= theirs);
        assert(check.username.skip(theirs.len() as int + 1) =~= params.local_ufrag@);
    }
}

/// A fresh checker runs at the cadence it was given, of a tick at least, with everything due from the tick it
/// was made at and nothing in flight.
pub proof fn law_fresh_checker(params: ConsentParams, now_tick: u64)
    ensures
        ({
            let fresh = ConsentCheckerView::fresh(params, now_tick);
            &&& params.interval_ticks >= 1 ==> fresh.interval_ticks == params.interval_ticks
            &&& params.interval_ticks == 0 ==> fresh.interval_ticks == 1
            &&& params.timeout_ticks >= 1 ==> fresh.timeout_ticks == params.timeout_ticks
            &&& params.timeout_ticks == 0 ==> fresh.timeout_ticks == 1
            &&& params.rto_ticks >= 1 ==> fresh.rto_ticks == params.rto_ticks
            &&& params.rto_ticks == 0 ==> fresh.rto_ticks == 1
            &&& fresh.last_consent_tick == now_tick
            &&& fresh.next_check_tick == now_tick
            &&& fresh.pending is None
            &&& fresh.rng_state % 2 == 1
            &&& fresh.rng_state / 2 == params.seed / 2
        }),
{
    let seed = params.seed;
    assert((seed | 1) % 2 == 1 && (seed | 1) / 2 == seed / 2) by (bit_vector);
}

} // verus!
