//! WebSocket tees: streaming a call's decoded audio to a server while the call goes on.
use crate::engine::call::{answer, answers, ClientId, CommandOutcome, PipelineKind};
use crate::engine::takeover::WsMediaFormat;
use crate::event::{Event, EventView, WsEndReason, WsTeeDirection};
use crate::media_pipeline::call::Leg;
use crate::media_pipeline::step::RawTee;
use crate::net::{EndpointId, SocketAddress};
use crate::text::{joined, owned};
use vstd::prelude::*;

verus! {

/// Why a tee was not attached.
#[derive(Clone, Debug)]
pub enum TeeRefusal {
    /// The call is gone.
    CallGone,
    /// The call is taken over by a WebSocket server.
    TakenOver,
    /// The call relays ciphertext without decoding it.
    CryptoBridge,
    /// There is no callee to tee.
    NoCallee,
    /// A codec or rate is not served.
    Unserviceable { error: String },
    /// The caller's leg has no codec.
    NoCallerCodec,
    /// The callee's leg has no codec.
    NoCalleeCodec,
    /// The server could not be reached.
    Dial { ws_uri: String, error: String },
    /// The media actor did not take a tap.
    ActorUnavailable,
    /// A recording or a key-press block holds the call in a pipeline that does not decode.
    ForwardOnly { recording: bool, dtmf_block: bool },
}

/// What holds a call in a pipeline that does not decode.
pub open spec fn holders(recording: bool, dtmf_block: bool) -> Seq<char> {
    if recording && dtmf_block {
        "a pcap recording"@ + " and "@ + "a DTMF block"@
    } else if recording {
        "a pcap recording"@
    } else {
        "a DTMF block"@
    }
}

impl TeeRefusal {
    /// The message for the controller.
    pub open spec fn text(self) -> Seq<char> {
        match self {
            TeeRefusal::CallGone => "call no longer exists"@,
            TeeRefusal::TakenOver => "a WebSocket-takeover call (ws_uri) has no relay path to tee; use one or the other"@,
            TeeRefusal::CryptoBridge => "teeing a secure crypto-bridge call is not supported — the bridge relays ciphertext without decoding; a transcoded secure call can be teed"@,
            TeeRefusal::NoCallee => "the call has no callee leg to tee"@,
            TeeRefusal::Unserviceable { error } => error@,
            TeeRefusal::NoCallerCodec => "the caller leg has no negotiated codec"@,
            TeeRefusal::NoCalleeCodec => "the callee leg has no negotiated codec"@,
            TeeRefusal::Dial { ws_uri, error } => "dial "@ + ws_uri@ + ": "@ + error@,
            TeeRefusal::ActorUnavailable => "media actor unavailable"@,
            TeeRefusal::ForwardOnly { recording, dtmf_block } => "a WebSocket tee needs the call decoded, but "@
                + holders(recording, dtmf_block) + " holds this relay in a forward-only pipeline; stop it first"@,
        }
    }

    /// The message for the controller.
    pub fn message(&self) -> (message: String)
        ensures
            message@ == self.text(),
    {
        match self {
            TeeRefusal::CallGone => owned("call no longer exists"),
            TeeRefusal::TakenOver => owned(
                "a WebSocket-takeover call (ws_uri) has no relay path to tee; use one or the other",
            ),
            TeeRefusal::CryptoBridge => owned(
                "teeing a secure crypto-bridge call is not supported — the bridge relays ciphertext without decoding; a transcoded secure call can be teed",
            ),
            TeeRefusal::NoCallee => owned("the call has no callee leg to tee"),
            TeeRefusal::Unserviceable { error } => error.clone(),
            TeeRefusal::NoCallerCodec => owned("the caller leg has no negotiated codec"),
            TeeRefusal::NoCalleeCodec => owned("the callee leg has no negotiated codec"),
            TeeRefusal::Dial { ws_uri, error } => {
                let mut message = joined("dial ", ws_uri.as_str());
                message.push_str(": ");
                message.push_str(error.as_str());
                message
            },
            TeeRefusal::ActorUnavailable => owned("media actor unavailable"),
            TeeRefusal::ForwardOnly { recording, dtmf_block } => {
                let mut holder = if *recording {
                    owned("a pcap recording")
                } else {
                    owned("a DTMF block")
                };
                if *recording && *dtmf_block {
                    holder.push_str(" and ");
                    holder.push_str("a DTMF block");
                }
                let mut message = joined("a WebSocket tee needs the call decoded, but ", holder.as_str());
                message.push_str(" holds this relay in a forward-only pipeline; stop it first");
                message
            },
        }
    }
}

/// What a tee reads of a call.
#[derive(Debug)]
pub struct TeeFacts {
    pub pipeline: PipelineKind,
    /// A WebSocket server has the call's media.
    pub taken_over: bool,
    /// The packet time of the caller's codec.
    pub caller_ptime_ms: Option<u8>,
    /// The audio rate of the caller's codec, or why it is not served.
    pub caller_rate: Option<Result<u32, String>>,
    /// The audio rate of the callee's codec, or why it is not served.
    pub callee_rate: Option<Result<u32, String>>,
    /// The callee has answered.
    pub two_leg: bool,
}

/// One leg a tee taps.
#[derive(Clone, Copy, Debug, PartialEq, Eq, Structural)]
pub struct TeeTap {
    pub leg: Leg,
    /// The leg's audio rate.
    pub rate: Option<u32>,
}

/// How a tee is stood up.
#[derive(Clone, Debug)]
pub struct TeePlan {
    pub taps: Vec<TeeTap>,
    pub format: WsMediaFormat,
    /// Both parties are tapped.
    pub stereo_source: bool,
    /// Only the callee is tapped.
    pub callee_only: bool,
    pub stream_id: String,
}

/// Whether the caller is tapped.
pub open spec fn taps_caller(direction: WsTeeDirection) -> bool {
    !(direction is Callee)
}

/// Whether the callee is tapped. Asking for both parties of a call without a callee taps the caller
/// alone.
pub open spec fn taps_callee(direction: WsTeeDirection, two_leg: bool) -> bool {
    direction is Callee || (direction is Both && two_leg)
}

/// The audio rate of a leg, if it has a codec that is served.
pub open spec fn served_rate(rate: Option<Result<u32, String>>) -> Option<u32> {
    match rate {
        Some(Ok(hz)) => Some(hz),
        _ => None,
    }
}

/// The first error among the rates of the legs.
pub open spec fn rate_error(facts: TeeFacts) -> Option<String> {
    match facts.caller_rate {
        Some(Err(error)) => Some(error),
        _ => match facts.callee_rate {
            Some(Err(error)) => Some(error),
            _ => None,
        },
    }
}

/// The first reason, in order, why a tee is refused before anything is touched. `validated` is the
/// verdict on a requested wire rate.
pub open spec fn tee_refusal(
    facts: TeeFacts,
    direction: WsTeeDirection,
    validated: Option<Result<u32, String>>,
) -> Option<TeeRefusal> {
    if facts.taken_over || facts.pipeline is Ws {
        Some(TeeRefusal::TakenOver)
    } else if facts.pipeline.crypto_bridge() {
        Some(TeeRefusal::CryptoBridge)
    } else if taps_callee(direction, facts.two_leg) && !facts.two_leg {
        Some(TeeRefusal::NoCallee)
    } else if rate_error(facts) is Some {
        Some(TeeRefusal::Unserviceable { error: rate_error(facts)->Some_0 })
    } else if taps_caller(direction) && facts.caller_rate is None {
        Some(TeeRefusal::NoCallerCodec)
    } else if !taps_caller(direction) && facts.callee_rate is None {
        Some(TeeRefusal::NoCalleeCodec)
    } else {
        match validated {
            Some(Err(error)) => Some(TeeRefusal::Unserviceable { error }),
            _ => None,
        }
    }
}

/// The wire rate: the requested one, or that of the first tapped leg.
pub open spec fn tee_rate(facts: TeeFacts, direction: WsTeeDirection, validated: Option<Result<u32, String>>) -> u32 {
    match validated {
        Some(Ok(rate)) => rate,
        _ => if taps_caller(direction) {
            served_rate(facts.caller_rate)->Some_0
        } else {
            served_rate(facts.callee_rate)->Some_0
        },
    }
}

/// The channels on the wire: a tee of one party is mono whatever was asked for, one of both is stereo
/// unless mono was asked for.
pub open spec fn tee_channels(stereo_source: bool, requested: Option<u8>) -> u8 {
    if !stereo_source {
        1
    } else {
        match requested {
            Some(channels) => if channels <= 1 {
                1
            } else {
                2
            },
            None => 2,
        }
    }
}

/// The tapped legs, the caller first.
pub open spec fn tee_taps(facts: TeeFacts, direction: WsTeeDirection) -> Seq<TeeTap> {
    let caller = if taps_caller(direction) {
        seq![TeeTap { leg: Leg::A, rate: served_rate(facts.caller_rate) }]
    } else {
        Seq::empty()
    };
    let callee = if taps_callee(direction, facts.two_leg) {
        seq![TeeTap { leg: Leg::B, rate: served_rate(facts.callee_rate) }]
    } else {
        Seq::empty()
    };
    caller + callee
}

/// The stream identifier of a call's tee, which is also the tag of its taps.
pub open spec fn tee_stream_id(call_id: Seq<char>) -> Seq<char> {
    "tee-"@ + call_id
}

/// The plan of a tee that is not refused.
pub open spec fn tee_plan(
    plan: TeePlan,
    call_id: Seq<char>,
    facts: TeeFacts,
    direction: WsTeeDirection,
    channels: Option<u8>,
    validated: Option<Result<u32, String>>,
) -> bool {
    let stereo = taps_caller(direction) && taps_callee(direction, facts.two_leg);
    &&& plan.taps@ == tee_taps(facts, direction)
    &&& plan.stereo_source == stereo
    &&& plan.callee_only == !taps_caller(direction)
    &&& plan.stream_id@ == tee_stream_id(call_id)
    &&& plan.format.sample_rate == tee_rate(facts, direction, validated)
    &&& plan.format.channels == tee_channels(stereo, channels)
    &&& plan.format.bit_depth == 16
    &&& plan.format.ptime == (match facts.caller_ptime_ms {
        Some(ptime) => if ptime > 1 {
            ptime
        } else {
            1
        },
        None => 20,
    })
}

/// Plan a tee, or refuse it before anything is touched. `validated` is the verdict on a requested wire
/// rate, where one was requested.
pub fn start_ws_tee(
    call_id: &String,
    call: Option<TeeFacts>,
    direction: WsTeeDirection,
    channels: Option<u8>,
    validated: Option<Result<u32, String>>,
) -> (plan: Result<TeePlan, TeeRefusal>)
    ensures
        call is None ==> plan == Result::<TeePlan, TeeRefusal>::Err(TeeRefusal::CallGone),
        call matches Some(facts) ==> match tee_refusal(facts, direction, validated) {
            Some(refusal) => plan == Result::<TeePlan, TeeRefusal>::Err(refusal),
            None => plan is Ok && tee_plan(plan->Ok_0, call_id@, facts, direction, channels, validated),
        },
{
    let facts = match call {
        None => {
            return Err(TeeRefusal::CallGone);
        },
        Some(facts) => facts,
    };
    if facts.taken_over || facts.pipeline == PipelineKind::Ws {
        return Err(TeeRefusal::TakenOver);
    }
    if facts.pipeline.is_crypto_bridge() {
        return Err(TeeRefusal::CryptoBridge);
    }
    let tap_caller = match direction {
        WsTeeDirection::Callee => false,
        _ => true,
    };
    let tap_callee = match direction {
        WsTeeDirection::Caller => false,
        WsTeeDirection::Callee => true,
        WsTeeDirection::Both => facts.two_leg,
    };
    if tap_callee && !facts.two_leg {
        return Err(TeeRefusal::NoCallee);
    }
    let caller_rate: Option<u32> = match facts.caller_rate {
        Some(Err(error)) => {
            return Err(TeeRefusal::Unserviceable { error });
        },
        Some(Ok(rate)) => Some(rate),
        None => None,
    };
    let callee_rate: Option<u32> = match facts.callee_rate {
        Some(Err(error)) => {
            return Err(TeeRefusal::Unserviceable { error });
        },
        Some(Ok(rate)) => Some(rate),
        None => None,
    };
    let default_rate: u32 = if tap_caller {
        match caller_rate {
            None => {
                return Err(TeeRefusal::NoCallerCodec);
            },
            Some(rate) => rate,
        }
    } else {
        match callee_rate {
            None => {
                return Err(TeeRefusal::NoCalleeCodec);
            },
            Some(rate) => rate,
        }
    };
    let wire_rate: u32 = match validated {
        Some(Err(error)) => {
            return Err(TeeRefusal::Unserviceable { error });
        },
        Some(Ok(rate)) => rate,
        None => default_rate,
    };
    let stereo_source = tap_caller && tap_callee;
    let wire_channels: u8 = if !stereo_source {
        1
    } else {
        match channels {
            Some(requested) => if requested <= 1 {
                1
            } else {
                2
            },
            None => 2,
        }
    };
    let ptime: u8 = match facts.caller_ptime_ms {
        Some(ptime) => if ptime > 1 {
            ptime
        } else {
            1
        },
        None => 20,
    };
    let mut taps: Vec<TeeTap> = Vec::new();
    if tap_caller {
        taps.push(TeeTap { leg: Leg::A, rate: caller_rate });
    }
    if tap_callee {
        taps.push(TeeTap { leg: Leg::B, rate: callee_rate });
    }
    proof {
        assert(taps@ =~= tee_taps(facts, direction));
    }
    Ok(
        TeePlan {
            taps,
            format: WsMediaFormat { sample_rate: wire_rate, channels: wire_channels, bit_depth: 16, ptime },
            stereo_source,
            callee_only: !tap_caller,
            stream_id: joined("tee-", call_id.as_str()),
        },
    )
}

/// The next piece of work while taps are attached.
#[derive(Clone, Copy, Debug, PartialEq, Eq, Structural)]
pub enum AttachStep {
    /// Attach a tap to this leg.
    AddTap { leg: Leg },
    /// Every tap is attached: go on.
    Attached,
    /// Detach the taps of this leg again.
    RemoveTap { leg: Leg },
    /// Let go of the call.
    ReleaseHold,
}

/// The attaching of a tee's taps: all of them, or none.
#[derive(Debug)]
pub struct TeeAttach {
    /// The legs to tap, in order.
    pub legs: Vec<Leg>,
    /// How many taps are attached.
    pub attached: usize,
    /// How many taps have been detached again after a failure.
    pub undone: Option<usize>,
}

impl TeeAttach {
    /// The counters are in range.
    pub open spec fn wf(self) -> bool {
        &&& self.attached <= self.legs@.len()
        &&& self.undone matches Some(undone) ==> undone <= self.attached
    }

    /// What comes next.
    pub open spec fn next(self) -> AttachStep {
        match self.undone {
            None => if self.attached < self.legs@.len() {
                AttachStep::AddTap { leg: self.legs@[self.attached as int] }
            } else {
                AttachStep::Attached
            },
            Some(undone) => if undone < self.attached {
                AttachStep::RemoveTap { leg: self.legs@[undone as int] }
            } else {
                AttachStep::ReleaseHold
            },
        }
    }

    /// Begin with the first leg.
    pub fn begin(legs: Vec<Leg>) -> (attach: TeeAttach)
        ensures
            attach.wf(),
            attach.legs == legs,
            attach.attached == 0,
            attach.undone is None,
    {
        TeeAttach { legs, attached: 0, undone: None }
    }

    /// What comes next.
    pub fn step(&self) -> (step: AttachStep)
        requires
            self.wf(),
        ensures
            step == self.next(),
    {
        match self.undone {
            None => if self.attached < self.legs.len() {
                AttachStep::AddTap { leg: self.legs[self.attached] }
            } else {
                AttachStep::Attached
            },
            Some(undone) => if undone < self.attached {
                AttachStep::RemoveTap { leg: self.legs[undone] }
            } else {
                AttachStep::ReleaseHold
            },
        }
    }

    /// Go on once a tap was asked for. A refused tap undoes those before it.
    pub fn tap_added(&mut self, taken: bool)
        requires
            old(self).wf(),
            old(self).next() is AddTap,
        ensures
            final(self).wf(),
            final(self).legs == old(self).legs,
            taken ==> final(self).attached == old(self).attached + 1 && final(self).undone is None,
            !taken ==> final(self).attached == old(self).attached && final(self).undone == Some(0usize),
    {
        if taken && self.attached < self.legs.len() {
            self.attached = self.attached + 1;
        } else {
            self.undone = Some(0);
        }
    }

    /// Go on once a tap was detached again.
    pub fn tap_removed(&mut self)
        requires
            old(self).wf(),
            old(self).next() is RemoveTap,
        ensures
            final(self).wf(),
            final(self).legs == old(self).legs,
            final(self).attached == old(self).attached,
            final(self).undone == Some((old(self).undone->Some_0 + 1) as usize),
    {
        if let Some(undone) = self.undone {
            self.undone = Some(undone + 1);
        }
    }
}

/// A failed attach leaves no tap behind: once it lets go of the call, exactly the taps it attached
/// were detached.
pub proof fn law_failed_attach_is_undone(attach: TeeAttach)
    requires
        attach.wf(),
        attach.next() is ReleaseHold,
    ensures
        attach.undone == Some(attach.attached),
{
}

/// The next piece of work in standing a tee up.
#[derive(Clone, Copy, Debug, PartialEq, Eq, Structural)]
pub enum TeeStep {
    /// Build the converter of a leg's audio to the wire rate.
    BuildConverter { leg: Leg, leg_rate: u32, wire_rate: u32 },
    /// Dial the server.
    Dial,
    /// Turn the relay into a decoding call.
    Upgrade,
    /// Hold the call in a decoding pipeline.
    Hold,
    /// Attach a tap to a leg.
    AddTap { leg: Leg },
    /// Detach a tap again.
    RemoveTap { leg: Leg },
    /// Let go of the call.
    ReleaseHold,
    /// Stop the tee that is replaced.
    StopOld,
    /// Announce the tee, start its transport, and register it.
    Start,
    /// The setup failed.
    Refused,
}

/// The first tap at a place or later whose audio needs a converter built: one with a known rate.
pub open spec fn next_converter(taps: Seq<TeeTap>, from: int) -> int
    decreases taps.len() - from,
{
    if from >= taps.len() {
        taps.len() as int
    } else if taps[from].rate is Some {
        from
    } else {
        next_converter(taps, from + 1)
    }
}

/// What comes at a place among the converters: the next one, or the dial after the last.
pub open spec fn converter_step(taps: Seq<TeeTap>, wire_rate: u32, from: int) -> TeeStep {
    let next = next_converter(taps, from);
    if 0 <= next < taps.len() {
        TeeStep::BuildConverter { leg: taps[next].leg, leg_rate: taps[next].rate->Some_0, wire_rate }
    } else {
        TeeStep::Dial
    }
}

/// What comes while the taps are attached.
pub open spec fn attach_step(attach: TeeAttach) -> TeeStep {
    match attach.next() {
        AttachStep::AddTap { leg } => TeeStep::AddTap { leg },
        AttachStep::RemoveTap { leg } => TeeStep::RemoveTap { leg },
        AttachStep::ReleaseHold => TeeStep::ReleaseHold,
        AttachStep::Attached => TeeStep::Start,
    }
}

/// What comes once nothing stands in the way of holding the call: a relay that decodes nothing is
/// turned into a decoding call first.
pub open spec fn hold_step(relay_call: bool) -> TeeStep {
    if relay_call {
        TeeStep::Upgrade
    } else {
        TeeStep::Hold
    }
}

impl TeePlan {
    /// The legs that the plan taps, in order.
    pub open spec fn legs(self) -> Seq<Leg> {
        Seq::new(self.taps@.len(), |i: int| self.taps@[i].leg)
    }
}

/// The standing up of a tee. Every converter is built and the server is dialled before the call is
/// touched. A tee that is replaced is stopped next: stopping it detaches the taps under the stream's
/// name and lets go of the call, so the call is held and tapped for the new tee only after that. A
/// failure undoes what was done.
#[derive(Debug)]
pub struct TeeSetup {
    pub plan: TeePlan,
    pub ws_uri: String,
    /// The tap whose converter is being built.
    pub built: usize,
    /// Whether an older tee has still to be stopped.
    pub replacing: bool,
    /// Whether the call is held for this tee.
    pub held: bool,
    pub attach: TeeAttach,
    /// Why the setup failed.
    pub failure: Option<TeeRefusal>,
}

impl TeeSetup {
    /// The taps are those of the plan. None is attached, and the call is not held, while an older tee has
    /// still to be stopped; and none is attached to a call that is not held.
    pub open spec fn wf(self) -> bool {
        &&& self.attach.wf()
        &&& self.attach.legs@ == self.plan.legs()
        &&& self.replacing ==> !self.held
        &&& self.attach.undone is None && self.attach.attached > 0 ==> self.held
    }

    /// Nothing has been done to the call.
    pub open spec fn untouched(self) -> bool {
        !self.held && self.attach.attached == 0 && self.attach.undone is None
    }

    /// What a setup keeps from its beginning to its end.
    pub open spec fn same_plan(self, other: TeeSetup) -> bool {
        self.plan == other.plan && self.ws_uri == other.ws_uri && self.attach.legs == other.attach.legs
    }

    /// What has been done to the call stands.
    pub open spec fn same_call(self, other: TeeSetup) -> bool {
        self.replacing == other.replacing && self.held == other.held && self.attach == other.attach
    }

    /// Begin a setup.
    pub fn begin(plan: TeePlan, ws_uri: String) -> (setup: TeeSetup)
        ensures
            setup.wf(),
            setup.untouched(),
            !setup.replacing,
            setup.plan == plan,
            setup.ws_uri == ws_uri,
            setup.built == 0,
            setup.failure is None,
    {
        let mut legs: Vec<Leg> = Vec::new();
        let mut i: usize = 0;
        while i < plan.taps.len()
            invariant
                i <= plan.taps@.len(),
                legs@ =~= Seq::new(i as nat, |j: int| plan.taps@[j].leg),
            decreases plan.taps@.len() - i,
        {
            legs.push(plan.taps[i].leg);
            i = i + 1;
        }
        TeeSetup {
            plan,
            ws_uri,
            built: 0,
            replacing: false,
            held: false,
            attach: TeeAttach::begin(legs),
            failure: None,
        }
    }

    /// The first step.
    pub fn first(&mut self) -> (step: TeeStep)
        requires
            old(self).wf(),
            old(self).built == 0,
        ensures
            final(self).wf(),
            final(self).same_plan(*old(self)),
            final(self).same_call(*old(self)),
            final(self).failure == old(self).failure,
            final(self).built == next_converter(old(self).plan.taps@, 0),
            step == converter_step(old(self).plan.taps@, old(self).plan.format.sample_rate, 0),
    {
        self.seek(0)
    }

    /// Find the next converter to build.
    fn seek(&mut self, from: usize) -> (step: TeeStep)
        requires
            old(self).wf(),
            from <= old(self).plan.taps@.len(),
        ensures
            final(self).wf(),
            final(self).same_plan(*old(self)),
            final(self).same_call(*old(self)),
            final(self).failure == old(self).failure,
            final(self).built == next_converter(old(self).plan.taps@, from as int),
            step == converter_step(old(self).plan.taps@, old(self).plan.format.sample_rate, from as int),
    {
        let mut i: usize = from;
        while i < self.plan.taps.len()
            invariant
                from <= i <= self.plan.taps@.len(),
                *self == *old(self),
                self.wf(),
                next_converter(self.plan.taps@, from as int) == next_converter(self.plan.taps@, i as int),
            decreases self.plan.taps@.len() - i,
        {
            if let Some(leg_rate) = self.plan.taps[i].rate {
                self.built = i;
                return TeeStep::BuildConverter {
                    leg: self.plan.taps[i].leg,
                    leg_rate,
                    wire_rate: self.plan.format.sample_rate,
                };
            }
            i = i + 1;
        }
        self.built = i;
        TeeStep::Dial
    }

    /// Go on once a converter was built. A rate that is not served ends the setup with the call
    /// untouched.
    pub fn converter_built(&mut self, built: Result<(), String>) -> (step: TeeStep)
        requires
            old(self).wf(),
            old(self).built < old(self).plan.taps@.len(),
        ensures
            final(self).wf(),
            final(self).same_plan(*old(self)),
            final(self).same_call(*old(self)),
            built matches Err(error) ==> {
                &&& step == TeeStep::Refused
                &&& final(self).built == old(self).built
                &&& final(self).failure == Some(TeeRefusal::Unserviceable { error })
            },
            built is Ok ==> {
                &&& final(self).failure == old(self).failure
                &&& final(self).built == next_converter(old(self).plan.taps@, old(self).built + 1)
                &&& step == converter_step(
                    old(self).plan.taps@,
                    old(self).plan.format.sample_rate,
                    old(self).built + 1,
                )
            },
    {
        match built {
            Err(error) => {
                self.failure = Some(TeeRefusal::Unserviceable { error });
                TeeStep::Refused
            },
            Ok(_) => {
                if self.built < self.plan.taps.len() {
                    self.seek(self.built + 1)
                } else {
                    TeeStep::Dial
                }
            },
        }
    }

    /// Go on once the server was dialled. `replaces` says whether the call has a tee already, and
    /// `relay_call` whether it runs as a relay that decodes nothing.
    pub fn dialled(&mut self, connected: Result<(), String>, replaces: bool, relay_call: bool) -> (step: TeeStep)
        requires
            old(self).wf(),
            old(self).untouched(),
        ensures
            final(self).wf(),
            final(self).untouched(),
            final(self).same_plan(*old(self)),
            final(self).built == old(self).built,
            connected matches Err(error) ==> step == TeeStep::Refused && final(self).same_call(*old(self)) && (
            final(self).failure matches Some(TeeRefusal::Dial { ws_uri, error: reason }) && ws_uri@
                == old(self).ws_uri@ && reason == error),
            connected is Ok ==> {
                &&& final(self).failure == old(self).failure
                &&& final(self).replacing == replaces
                &&& step == (if replaces {
                    TeeStep::StopOld
                } else {
                    hold_step(relay_call)
                })
            },
    {
        match connected {
            Err(error) => {
                self.failure = Some(TeeRefusal::Dial { ws_uri: self.ws_uri.clone(), error });
                TeeStep::Refused
            },
            Ok(_) => {
                self.replacing = replaces;
                if replaces {
                    TeeStep::StopOld
                } else if relay_call {
                    TeeStep::Upgrade
                } else {
                    TeeStep::Hold
                }
            },
        }
    }

    /// Go on once the replaced tee was stopped, its taps detached and the call let go of.
    pub fn old_stopped(&mut self, relay_call: bool) -> (step: TeeStep)
        requires
            old(self).wf(),
            old(self).untouched(),
        ensures
            final(self).wf(),
            final(self).untouched(),
            final(self).same_plan(*old(self)),
            final(self).built == old(self).built,
            final(self).failure == old(self).failure,
            !final(self).replacing,
            step == hold_step(relay_call),
    {
        self.replacing = false;
        if relay_call {
            TeeStep::Upgrade
        } else {
            TeeStep::Hold
        }
    }

    /// Go on once the relay was turned into a decoding call.
    pub fn upgraded(&mut self, result: Result<(), TeeRefusal>) -> (step: TeeStep)
        requires
            old(self).wf(),
        ensures
            final(self).wf(),
            final(self).same_plan(*old(self)),
            final(self).built == old(self).built,
            final(self).same_call(*old(self)),
            result matches Err(refusal) ==> step == TeeStep::Refused && final(self).failure == Some(refusal),
            result is Ok ==> step == TeeStep::Hold && final(self).failure == old(self).failure,
    {
        match result {
            Err(refusal) => {
                self.failure = Some(refusal);
                TeeStep::Refused
            },
            Ok(_) => TeeStep::Hold,
        }
    }

    /// Go on once the call was held in a decoding pipeline.
    pub fn held(&mut self, result: Result<(), String>) -> (step: TeeStep)
        requires
            old(self).wf(),
            !old(self).replacing,
        ensures
            final(self).wf(),
            final(self).same_plan(*old(self)),
            final(self).built == old(self).built,
            final(self).attach == old(self).attach,
            !final(self).replacing,
            result matches Err(error) ==> {
                &&& step == TeeStep::Refused
                &&& final(self).held == old(self).held
                &&& final(self).failure == Some(TeeRefusal::Unserviceable { error })
            },
            result is Ok ==> step == attach_step(old(self).attach) && final(self).held && final(self).failure
                == old(self).failure,
    {
        match result {
            Err(error) => {
                self.failure = Some(TeeRefusal::Unserviceable { error });
                TeeStep::Refused
            },
            Ok(_) => {
                self.held = true;
                self.attaching()
            },
        }
    }

    /// The step that the taps are at.
    fn attaching(&self) -> (step: TeeStep)
        requires
            self.attach.wf(),
        ensures
            step == attach_step(self.attach),
    {
        match self.attach.step() {
            AttachStep::AddTap { leg } => TeeStep::AddTap { leg },
            AttachStep::RemoveTap { leg } => TeeStep::RemoveTap { leg },
            AttachStep::ReleaseHold => TeeStep::ReleaseHold,
            AttachStep::Attached => TeeStep::Start,
        }
    }

    /// Go on once a tap was asked for.
    pub fn tap_added(&mut self, taken: bool) -> (step: TeeStep)
        requires
            old(self).wf(),
            old(self).held,
            old(self).attach.next() is AddTap,
        ensures
            final(self).wf(),
            final(self).held,
            final(self).replacing == old(self).replacing,
            final(self).same_plan(*old(self)),
            final(self).built == old(self).built,
            final(self).failure == old(self).failure,
            taken ==> final(self).attach.attached == old(self).attach.attached + 1 && final(self).attach.undone is None,
            !taken ==> final(self).attach.attached == old(self).attach.attached && final(self).attach.undone == Some(
                0usize,
            ),
            step == attach_step(final(self).attach),
    {
        self.attach.tap_added(taken);
        self.attaching()
    }

    /// Go on once a tap was detached again.
    pub fn tap_removed(&mut self) -> (step: TeeStep)
        requires
            old(self).wf(),
            old(self).attach.next() is RemoveTap,
        ensures
            final(self).wf(),
            final(self).held == old(self).held,
            final(self).replacing == old(self).replacing,
            final(self).same_plan(*old(self)),
            final(self).built == old(self).built,
            final(self).failure == old(self).failure,
            final(self).attach.attached == old(self).attach.attached,
            final(self).attach.undone == Some((old(self).attach.undone->Some_0 + 1) as usize),
            step == attach_step(final(self).attach),
    {
        self.attach.tap_removed();
        self.attaching()
    }

    /// End a setup whose taps were refused, once the call was let go of.
    pub fn hold_released(&mut self) -> (step: TeeStep)
        requires
            old(self).wf(),
            old(self).attach.next() is ReleaseHold,
        ensures
            final(self).wf(),
            !final(self).held,
            final(self).replacing == old(self).replacing,
            final(self).same_plan(*old(self)),
            final(self).built == old(self).built,
            final(self).attach == old(self).attach,
            final(self).failure == Some(TeeRefusal::ActorUnavailable),
            step == TeeStep::Refused,
    {
        self.held = false;
        self.failure = Some(TeeRefusal::ActorUnavailable);
        TeeStep::Refused
    }

    /// The record of the tee that is started. `call` is the tag and owner of the call, if it still exists.
    pub fn started(self, call: Option<(String, ClientId)>) -> (tee: Result<WsTee, TeeRefusal>)
        ensures
            call is None ==> tee == Result::<WsTee, TeeRefusal>::Err(TeeRefusal::CallGone),
            call matches Some(known) ==> tee == Result::<WsTee, TeeRefusal>::Ok(
                WsTee {
                    stream_id: self.plan.stream_id,
                    from_tag: known.0,
                    owner: known.1,
                    tapped_legs: self.attach.legs,
                    ended: false,
                },
            ),
    {
        match call {
            None => Err(TeeRefusal::CallGone),
            Some((from_tag, owner)) => Ok(
                WsTee {
                    stream_id: self.plan.stream_id,
                    from_tag,
                    owner,
                    tapped_legs: self.attach.legs,
                    ended: false,
                },
            ),
        }
    }
}

/// What stands on a call under the name of a tee's stream.
pub struct TeeGround {
    /// The legs with a tap.
    pub taps: Seq<Leg>,
    /// Whether the call is held.
    pub held: bool,
}

/// What stands on a call after a step in standing a tee up. `done` says whether the step worked. Stopping
/// the older tee detaches every tap under the name and lets go of the call.
pub open spec fn after_step(ground: TeeGround, step: TeeStep, done: bool) -> TeeGround {
    match step {
        TeeStep::StopOld => TeeGround { taps: Seq::empty(), held: false },
        TeeStep::Hold if done => TeeGround { held: true, ..ground },
        TeeStep::AddTap { leg } if done => TeeGround { taps: ground.taps.push(leg), ..ground },
        TeeStep::ReleaseHold => TeeGround { held: false, ..ground },
        _ => ground,
    }
}

impl TeeSetup {
    /// What stands on the call is what the setup says, once no older tee has to be stopped and nothing
    /// has to be undone.
    pub open spec fn describes(self, ground: TeeGround) -> bool {
        self.attach.undone is None && !self.replacing ==> ground.held == self.held && ground.taps
            == self.plan.legs().take(self.attach.attached as int)
    }
}

/// When the start comes, every leg of the plan has its tap and the call is held, whatever stood on the
/// call before.
pub proof fn law_started_tee_is_tapped_and_held(setup: TeeSetup, ground: TeeGround)
    requires
        setup.wf(),
        setup.held,
        setup.describes(ground),
        attach_step(setup.attach) is Start,
    ensures
        ground.taps == setup.plan.legs(),
        ground.held,
{
    assert(setup.plan.legs().take(setup.attach.attached as int) =~= setup.plan.legs());
}

/// Stopping the older tee leaves a bare call, and the setup describes it: whatever was held or tapped
/// before, the hold and the taps of the new tee come after.
pub proof fn law_older_tee_is_stopped_first(before: TeeSetup, stopped: TeeSetup, ground: TeeGround)
    requires
        before.wf(),
        before.replacing,
        before.attach.undone is None,
        stopped.wf(),
        stopped.untouched(),
    ensures
        before.untouched(),
        stopped.describes(after_step(ground, TeeStep::StopOld, true)),
{
    assert(stopped.plan.legs().take(0) =~= Seq::empty());
}

/// Holding the call and attaching a tap are seen by the setup as they happen on the call.
pub proof fn law_setup_follows_the_call(before: TeeSetup, next: TeeSetup, ground: TeeGround, step: TeeStep)
    requires
        before.wf(),
        next.wf(),
        next.same_plan(before),
        !before.replacing,
        !next.replacing,
        before.attach.undone is None,
        before.describes(ground),
        step == TeeStep::Hold && next.held && next.attach == before.attach || step == attach_step(before.attach)
            && step is AddTap && next.held == before.held && next.attach.undone is None && next.attach.attached
            == before.attach.attached + 1,
    ensures
        next.describes(after_step(ground, step, true)),
{
    if step is AddTap {
        let done = before.attach.attached as int;
        assert(before.plan.legs().take(done + 1) =~= before.plan.legs().take(done).push(before.plan.legs()[done]));
    }
}

/// What stands on a call once taps were attached to some legs, one after the other.
pub open spec fn after_taps(ground: TeeGround, legs: Seq<Leg>) -> TeeGround
    decreases legs.len(),
{
    if legs.len() == 0 {
        ground
    } else {
        after_step(after_taps(ground, legs.drop_last()), TeeStep::AddTap { leg: legs.last() }, true)
    }
}

/// A tee that replaces another keeps its own taps and its hold: stopping the older one, holding the call
/// and attaching the taps, in this order, leaves exactly the new taps on a held call.
pub proof fn law_replacing_tee_keeps_its_taps(ground: TeeGround, legs: Seq<Leg>)
    ensures
        ({
            let bare = after_step(ground, TeeStep::StopOld, true);
            let stood_up = after_taps(after_step(bare, TeeStep::Hold, true), legs);
            stood_up.taps == legs && stood_up.held
        }),
    decreases legs.len(),
{
    if legs.len() > 0 {
        law_replacing_tee_keeps_its_taps(ground, legs.drop_last());
        assert(legs.drop_last().push(legs.last()) =~= legs);
    } else {
        assert(legs =~= Seq::empty());
    }
}

/// A subscription to the verbatim media of a call.
#[derive(Clone, Debug)]
pub struct Subscription {
    pub subscriber_endpoint: EndpointId,
    /// The recording server's address, once it has answered.
    pub srs_rtp: Option<SocketAddress>,
    /// The tapped legs.
    pub taps: Vec<Leg>,
}

/// The taps of one subscription: none before the recording server has answered.
pub open spec fn subscription_tees(subscription: Subscription) -> Seq<(Leg, RawTee)> {
    match subscription.srs_rtp {
        Some(srs_dst) => Seq::new(
            subscription.taps@.len(),
            |i: int|
                (
                    subscription.taps@[i],
                    RawTee { subscriber_endpoint: subscription.subscriber_endpoint, srs_dst },
                ),
        ),
        None => Seq::empty(),
    }
}

/// The taps of all subscriptions, in order.
pub open spec fn all_tees(subscriptions: Seq<Subscription>) -> Seq<(Leg, RawTee)>
    decreases subscriptions.len(),
{
    if subscriptions.len() == 0 {
        Seq::empty()
    } else {
        all_tees(subscriptions.drop_last()) + subscription_tees(subscriptions.last())
    }
}

/// What turning a relay into a decoding call needs: that neither a recording nor a key-press block
/// would be lost. On success the verbatim taps to attach again are returned.
pub fn upgrade_relay_to_processing(
    recording: bool,
    dtmf_block: bool,
    subscriptions: &Vec<Subscription>,
) -> (result: Result<Vec<(Leg, RawTee)>, TeeRefusal>)
    ensures
        recording || dtmf_block ==> result == Result::<Vec<(Leg, RawTee)>, TeeRefusal>::Err(
            TeeRefusal::ForwardOnly { recording, dtmf_block },
        ),
        !recording && !dtmf_block ==> result is Ok && result->Ok_0@ == all_tees(subscriptions@),
{
    if recording || dtmf_block {
        return Err(TeeRefusal::ForwardOnly { recording, dtmf_block });
    }
    let mut tees: Vec<(Leg, RawTee)> = Vec::new();
    let mut i: usize = 0;
    while i < subscriptions.len()
        invariant
            i <= subscriptions@.len(),
            tees@ == all_tees(subscriptions@.take(i as int)),
        decreases subscriptions@.len() - i,
    {
        let ghost before = tees@;
        let subscription = &subscriptions[i];
        if let Some(srs_dst) = subscription.srs_rtp {
            let mut j: usize = 0;
            while j < subscription.taps.len()
                invariant
                    j <= subscription.taps@.len(),
                    subscription.srs_rtp == Some(srs_dst),
                    tees@ =~= before + subscription_tees(*subscription).take(j as int),
                decreases subscription.taps@.len() - j,
            {
                tees.push(
                    (
                        subscription.taps[j],
                        RawTee { subscriber_endpoint: subscription.subscriber_endpoint, srs_dst },
                    ),
                );
                j = j + 1;
            }
            proof {
                assert(subscription_tees(*subscription).take(j as int) =~= subscription_tees(*subscription));
            }
        }
        proof {
            assert(subscriptions@.take(i + 1).drop_last() =~= subscriptions@.take(i as int));
            assert(tees@ =~= before + subscription_tees(*subscription));
        }
        i = i + 1;
    }
    proof {
        assert(subscriptions@.take(i as int) =~= subscriptions@);
    }
    Ok(tees)
}

/// Answer an attach, given what starting the tee came to.
pub fn attach_ws_tee(owned_call: bool, started: Result<(), String>) -> (outcome: CommandOutcome)
    ensures
        answers(outcome, owned_call, "attach_ws_tee"@, started),
{
    answer(owned_call, "attach_ws_tee", started)
}

/// Answer a detach. A call without a tee is fine.
pub fn detach_ws_tee(owned_call: bool) -> (outcome: CommandOutcome)
    ensures
        outcome == (if owned_call {
            CommandOutcome::Done
        } else {
            CommandOutcome::UnknownCall
        }),
{
    if owned_call {
        CommandOutcome::Done
    } else {
        CommandOutcome::UnknownCall
    }
}

/// Whether a tee is attached with an answer: the profile names a server and the answer is no error.
pub open spec fn tees(ws_tee: Option<String>, answered: CommandOutcome) -> bool {
    ws_tee is Some && !(answered is Error)
}

/// Whether a tee is attached with an answer.
pub fn tees_on_answer(ws_tee: &Option<String>, answered: &CommandOutcome) -> (attach: bool)
    ensures
        attach == tees(*ws_tee, *answered),
{
    match answered {
        CommandOutcome::Error { .. } => false,
        _ => ws_tee.is_some(),
    }
}

/// The answer to an answered call with a tee in its profile: a tee that could not be started fails it.
/// `started` is what starting the tee came to, where one was to be started.
pub fn apply_profile_ws_tee(answered: CommandOutcome, started: Option<Result<(), String>>) -> (outcome: CommandOutcome)
    ensures
        match started {
            Some(Err(error)) => {
                &&& outcome is Error
                &&& outcome->context@ == "ws_tee"@
                &&& outcome->reason == error
            },
            _ => outcome == answered,
        },
{
    match started {
        Some(Err(reason)) => CommandOutcome::Error { context: owned("ws_tee"), reason },
        _ => answered,
    }
}

/// A live tee.
#[derive(Clone, Debug)]
pub struct WsTee {
    pub stream_id: String,
    pub from_tag: String,
    pub owner: ClientId,
    /// The tapped legs.
    pub tapped_legs: Vec<Leg>,
    /// Whether its end has been reported.
    pub ended: bool,
}

impl WsTee {
    /// The event that announces the tee. It is sent before the transport is started.
    pub fn started_event(
        &self,
        call_id: &String,
        ws_uri: &String,
        direction: WsTeeDirection,
        format: WsMediaFormat,
    ) -> (event: Event)
        ensures
            event@ == (EventView::WsTeeStarted {
                call_id: call_id@,
                from_tag: self.from_tag@,
                stream_id: self.stream_id@,
                ws_uri: ws_uri@,
                direction,
                channels: format.channels,
                sample_rate: format.sample_rate,
            }),
    {
        Event::WsTeeStarted {
            call_id: call_id.clone(),
            from_tag: self.from_tag.clone(),
            stream_id: self.stream_id.clone(),
            ws_uri: ws_uri.clone(),
            direction,
            channels: format.channels,
            sample_rate: format.sample_rate,
        }
    }

    /// Report the end of the tee, unless it has been reported. `frames` is how many frames were sent
    /// and dropped, where that is known.
    pub fn end(&mut self, call_id: &String, reason: WsEndReason, frames: Option<(u64, u64)>) -> (event: Option<Event>)
        ensures
            final(self).ended,
            final(self).stream_id == old(self).stream_id,
            final(self).from_tag == old(self).from_tag,
            final(self).owner == old(self).owner,
            final(self).tapped_legs == old(self).tapped_legs,
            event is Some == !old(self).ended,
            event matches Some(raised) ==> raised@ == (EventView::WsTeeEnded {
                call_id: call_id@,
                from_tag: old(self).from_tag@,
                stream_id: old(self).stream_id@,
                reason,
                frames_sent: match frames {
                    Some(counted) => Some(counted.0),
                    None => None,
                },
                frames_dropped: match frames {
                    Some(counted) => Some(counted.1),
                    None => None,
                },
            }),
    {
        if self.ended {
            return None;
        }
        self.ended = true;
        let (sent, dropped) = match frames {
            Some((sent, dropped)) => (Some(sent), Some(dropped)),
            None => (None, None),
        };
        Some(
            Event::WsTeeEnded {
                call_id: call_id.clone(),
                from_tag: self.from_tag.clone(),
                stream_id: self.stream_id.clone(),
                reason,
                frames_sent: sent,
                frames_dropped: dropped,
            },
        )
    }
}

/// A step in stopping a tee.
#[derive(Clone, Copy, Debug, PartialEq, Eq, Structural)]
pub enum StopTeeAction {
    /// Detach the tee's own sinks from a leg. Other subscribers of the leg are not touched.
    RemoveTap { leg: Leg },
    /// Abort the transport and wait until it is gone.
    AbortTransport,
    /// Report the end, with the frame counts.
    Report,
    /// Let go of the call: a relay that nothing else holds goes back to the fast path.
    ReleaseHold,
}

/// The steps that stop a tee, in order.
pub open spec fn tee_stop(legs: Seq<Leg>) -> Seq<StopTeeAction> {
    Seq::new(legs.len(), |i: int| StopTeeAction::RemoveTap { leg: legs[i] }) + seq![
        StopTeeAction::AbortTransport,
        StopTeeAction::Report,
        StopTeeAction::ReleaseHold,
    ]
}

/// Stop a call's tee, if it has one.
pub fn stop_ws_tee(tee: Option<&WsTee>) -> (actions: Vec<StopTeeAction>)
    ensures
        actions@ == (match tee {
            None => Seq::empty(),
            Some(running) => tee_stop(running.tapped_legs@),
        }),
{
    let mut actions: Vec<StopTeeAction> = Vec::new();
    if let Some(running) = tee {
        let mut i: usize = 0;
        while i < running.tapped_legs.len()
            invariant
                i <= running.tapped_legs@.len(),
                actions@ =~= tee_stop(running.tapped_legs@).take(i as int),
            decreases running.tapped_legs@.len() - i,
        {
            actions.push(StopTeeAction::RemoveTap { leg: running.tapped_legs[i] });
            i = i + 1;
        }
        actions.push(StopTeeAction::AbortTransport);
        actions.push(StopTeeAction::Report);
        actions.push(StopTeeAction::ReleaseHold);
        proof {
            assert(actions@ =~= tee_stop(running.tapped_legs@));
        }
    }
    actions
}

/// A tee hears whom it names, each at the rate of their own leg and the caller first; asking for both
/// parties of a call without a callee hears the caller alone.
pub proof fn law_tee_hears_whom_it_names(
    plan: TeePlan,
    call_id: Seq<char>,
    facts: TeeFacts,
    direction: WsTeeDirection,
    channels: Option<u8>,
    validated: Option<Result<u32, String>>,
)
    requires
        tee_plan(plan, call_id, facts, direction, channels, validated),
        tee_refusal(facts, direction, validated) is None,
    ensures
        direction is Caller || (direction is Both && !facts.two_leg) ==> plan.taps@.len() == 1 && plan.taps@[0].leg
            == Leg::A,
        direction is Callee ==> plan.taps@.len() == 1 && plan.taps@[0].leg == Leg::B,
        direction is Both && facts.two_leg ==> plan.taps@.len() == 2 && plan.taps@[0].leg == Leg::A
            && plan.taps@[1].leg == Leg::B,
        forall|i: int| #![trigger plan.taps@[i]]
            0 <= i < plan.taps@.len() ==> match plan.taps@[i].rate {
                Some(rate) => (if plan.taps@[i].leg == Leg::A {
                    facts.caller_rate
                } else {
                    facts.callee_rate
                }) == Some(Result::<u32, String>::Ok(rate)),
                None => (if plan.taps@[i].leg == Leg::A {
                    facts.caller_rate
                } else {
                    facts.callee_rate
                }) is None,
            },
        plan.callee_only <==> direction is Callee,
        plan.stereo_source <==> direction is Both && facts.two_leg,
{
}

/// The wire of a tee: the rate that was asked for, or that of the first leg tapped; one channel for one
/// party, and for two parties two, unless at most one was asked for; samples of 16 bits; and packets as
/// long as the caller's, of one millisecond at least and of 20 where the caller has no codec.
pub proof fn law_wire_of_a_tee(
    plan: TeePlan,
    call_id: Seq<char>,
    facts: TeeFacts,
    direction: WsTeeDirection,
    channels: Option<u8>,
    validated: Option<Result<u32, String>>,
)
    requires
        tee_plan(plan, call_id, facts, direction, channels, validated),
        tee_refusal(facts, direction, validated) is None,
    ensures
        validated matches Some(verdict) ==> verdict == Result::<u32, String>::Ok(plan.format.sample_rate),
        validated is None ==> plan.taps@.len() > 0 && plan.taps@[0].rate == Some(plan.format.sample_rate),
        plan.format.channels == 1 || plan.format.channels == 2,
        plan.format.channels == 2 <==> plan.taps@.len() == 2 && !(channels matches Some(asked) && asked < 2),
        plan.format.bit_depth == 16,
        plan.format.ptime >= 1,
        facts.caller_ptime_ms matches Some(ptime) ==> (ptime >= 1 ==> plan.format.ptime == ptime) && (ptime == 0
            ==> plan.format.ptime == 1),
        facts.caller_ptime_ms is None ==> plan.format.ptime == 20,
        plan.stream_id@.len() == 4 + call_id.len(),
        plan.stream_id@.skip(4) == call_id,
        plan.stream_id@.take(4) == seq!['t', 'e', 'e', '-'],
{
    reveal_strlit("tee-");
    assert(plan.stream_id@.skip(4) =~= call_id);
    assert(plan.stream_id@.take(4) =~= seq!['t', 'e', 'e', '-']);
}

/// A tee is attached exactly where the call decodes on its way, the parties it names are there with codecs
/// that are served, and the wire rate that was asked for is served.
pub proof fn law_when_a_tee_is_attached(
    facts: TeeFacts,
    direction: WsTeeDirection,
    validated: Option<Result<u32, String>>,
)
    ensures
        tee_refusal(facts, direction, validated) is None <==> {
            &&& !facts.taken_over
            &&& facts.pipeline is Passthrough || facts.pipeline is Media || facts.pipeline is SrtpMedia
                || facts.pipeline is DtlsMedia
            &&& direction is Callee ==> facts.two_leg && facts.callee_rate is Some
            &&& !(direction is Callee) ==> facts.caller_rate is Some
            &&& facts.caller_rate matches Some(rate) ==> rate is Ok
            &&& facts.callee_rate matches Some(rate) ==> rate is Ok
            &&& validated matches Some(verdict) ==> verdict is Ok
        },
{
}

/// Why a tee is refused: what the call is comes before whom the tee names, that before the codecs, and
/// those before the wire rate.
pub proof fn law_why_a_tee_is_refused(
    facts: TeeFacts,
    direction: WsTeeDirection,
    validated: Option<Result<u32, String>>,
)
    ensures
        ({
            let refusal = tee_refusal(facts, direction, validated);
            let bridged = facts.taken_over || facts.pipeline is Ws;
            let secure = facts.pipeline is Srtp || facts.pipeline is Dtls;
            let alone = direction is Callee && !facts.two_leg;
            &&& bridged <==> refusal == Some(TeeRefusal::TakenOver)
            &&& !bridged && secure <==> refusal == Some(TeeRefusal::CryptoBridge)
            &&& !bridged && !secure && alone <==> refusal == Some(TeeRefusal::NoCallee)
            &&& !bridged && !secure && !alone ==> {
                &&& facts.caller_rate matches Some(Err(error)) ==> refusal == Some(TeeRefusal::Unserviceable { error })
                &&& facts.caller_rate matches Some(Ok(_)) ==> {
                    &&& facts.callee_rate matches Some(Err(error)) ==> refusal == Some(
                        TeeRefusal::Unserviceable { error },
                    )
                    &&& facts.callee_rate is None && direction is Callee ==> refusal == Some(TeeRefusal::NoCalleeCodec)
                    &&& facts.callee_rate matches Some(Ok(_)) ==> (validated matches Some(Err(error)) ==> refusal
                        == Some(TeeRefusal::Unserviceable { error }))
                }
                &&& facts.caller_rate is None && !(direction is Callee) && !(facts.callee_rate matches Some(Err(_)))
                    ==> refusal == Some(TeeRefusal::NoCallerCodec)
            }
        }),
{
}

/// Every leg whose rate is known gets its converter, from its own rate to the wire's, before the server is
/// dialled: between one place and the next converter no leg has a rate.
pub proof fn law_converters_are_built_before_the_dial(taps: Seq<TeeTap>, wire_rate: u32, from: int)
    requires
        0 <= from <= taps.len(),
    ensures
        converter_step(taps, wire_rate, from) is Dial <==> forall|i: int|
            from <= i < taps.len() ==> (#[trigger] taps[i]).rate is None,
        !(converter_step(taps, wire_rate, from) is Dial) ==> exists|i: int|
            {
                &&& from <= i < taps.len()
                &&& (#[trigger] taps[i]).rate is Some
                &&& converter_step(taps, wire_rate, from) == (TeeStep::BuildConverter {
                    leg: taps[i].leg,
                    leg_rate: taps[i].rate->Some_0,
                    wire_rate,
                })
                &&& next_converter(taps, from) == i
                &&& forall|j: int| from <= j < i ==> (#[trigger] taps[j]).rate is None
            },
    decreases taps.len() - from,
{
    if from < taps.len() {
        if taps[from].rate is None {
            law_converters_are_built_before_the_dial(taps, wire_rate, from + 1);
            assert(converter_step(taps, wire_rate, from) == converter_step(taps, wire_rate, from + 1));
        } else {
            assert(next_converter(taps, from) == from);
        }
    }
}

/// A relay is turned into a decoding call before it is held, and a call that decodes is held as it is.
pub proof fn law_relay_is_upgraded_before_it_is_held(relay_call: bool)
    ensures
        hold_step(relay_call) is Upgrade <==> relay_call,
        hold_step(relay_call) is Hold <==> !relay_call,
{
}

/// While nothing was refused the taps go on the legs in order and the tee starts once all are on; after a
/// refusal the attached taps come off in the same order, and the call is let go of once all are off.
pub proof fn law_taps_go_on_and_come_off(attach: TeeAttach)
    requires
        attach.wf(),
    ensures
        attach_step(attach) is Start <==> attach.undone is None && attach.attached == attach.legs@.len(),
        attach_step(attach) is ReleaseHold <==> attach.undone == Some(attach.attached),
        attach.undone is None && attach.attached < attach.legs@.len() ==> attach_step(attach) == (TeeStep::AddTap {
            leg: attach.legs@[attach.attached as int],
        }),
        attach.undone matches Some(undone) ==> (undone < attach.attached ==> attach_step(attach)
            == (TeeStep::RemoveTap { leg: attach.legs@[undone as int] })),
{
}

/// The verbatim taps of two lists of subscriptions, one after the other, are those of the first and then
/// those of the second.
pub proof fn law_subscriptions_add_up(first: Seq<Subscription>, second: Seq<Subscription>)
    ensures
        all_tees(first + second) == all_tees(first) + all_tees(second),
    decreases second.len(),
{
    if second.len() == 0 {
        assert(first + second =~= first);
        assert(all_tees(first) + all_tees(second) =~= all_tees(first));
    } else {
        law_subscriptions_add_up(first, second.drop_last());
        assert((first + second).drop_last() =~= first + second.drop_last());
        assert(all_tees(first + second) =~= all_tees(first) + all_tees(second));
    }
}

/// A subscription has one verbatim tap on each of its legs, which sends from its own endpoint to the
/// recording server; before the server has answered it has none.
pub proof fn law_subscription_taps_its_legs(subscription: Subscription)
    ensures
        ({
            let tees = all_tees(seq![subscription]);
            &&& subscription.srs_rtp is None ==> tees.len() == 0
            &&& subscription.srs_rtp matches Some(server) ==> {
                &&& tees.len() == subscription.taps@.len()
                &&& forall|i: int| #![trigger tees[i]]
                    0 <= i < tees.len() ==> {
                        &&& tees[i].0 == subscription.taps@[i]
                        &&& tees[i].1.subscriber_endpoint == subscription.subscriber_endpoint
                        &&& tees[i].1.srs_dst == server
                    }
            }
        }),
{
    let one = seq![subscription];
    assert(one.drop_last() =~= Seq::empty());
    assert(all_tees(one.drop_last()) =~= Seq::empty());
    assert(all_tees(one) =~= subscription_tees(subscription));
}

/// A tee that is stopped loses the tap of every leg first; then its transport goes, and only then is its
/// end reported and the call let go of, last of all.
pub proof fn law_tee_is_stopped_in_order(legs: Seq<Leg>)
    ensures
        ({
            let steps = tee_stop(legs);
            let n = legs.len() as int;
            &&& steps.len() == n + 3
            &&& forall|i: int| 0 <= i < n ==> #[trigger] steps[i] == (StopTeeAction::RemoveTap { leg: legs[i] })
            &&& steps[n] is AbortTransport
            &&& steps[n + 1] is Report
            &&& steps[n + 2] is ReleaseHold
        }),
{
}

/// An answer starts a tee exactly where the profile names a server and the answer was not refused.
pub proof fn law_when_an_answer_is_teed(ws_tee: Option<String>, answered: CommandOutcome)
    ensures
        ws_tee is None ==> !tees(ws_tee, answered),
        answered is Error ==> !tees(ws_tee, answered),
        ws_tee is Some && !(answered is Error) ==> tees(ws_tee, answered),
{
}

/// What stands in a tee's way is named: the recording, the key-press block, or both.
pub proof fn law_holders_are_named(recording: bool, dtmf_block: bool)
    requires
        recording || dtmf_block,
    ensures
        recording && !dtmf_block ==> holders(recording, dtmf_block) == "a pcap recording"@,
        dtmf_block && !recording ==> holders(recording, dtmf_block) == "a DTMF block"@,
        recording && dtmf_block ==> holders(recording, dtmf_block) == "a pcap recording and a DTMF block"@,
{
    reveal_strlit("a pcap recording");
    reveal_strlit(" and ");
    reveal_strlit("a DTMF block");
    reveal_strlit("a pcap recording and a DTMF block");
    if recording && dtmf_block {
        assert(holders(recording, dtmf_block) =~= "a pcap recording and a DTMF block"@);
    }
}

} // verus!
