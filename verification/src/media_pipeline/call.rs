//! A media call: two directions, the identity of the call, and what spans both directions.
use crate::event::{raises, Event, EventView, PlayEndReason};
use crate::media_pipeline::direction::{
    dtmf_event, fresh_direction, fresh_relay, play_finished_event, reference_frame, sinks, CallIdentity, ComfortNoise,
    Direction, DirectionConfig, DirectionView, FinishedPlay, Fork, ForkView, Injection, RelayConfig, ToolSupport,
};
use crate::media_pipeline::latch::{is_rtcp_datagram, rtcp_datagram};
use crate::media_pipeline::rtcp::{
    compound_notes, rtt_notes, RtcpRelay, RtcpReport, RtcpStep, RtcpStepView, RttNote,
};
use crate::media_pipeline::step::{
    sends, DtmfEvent, MediaStep, MediaStepView, Onward, Outbound, RawTee, RtpPacket, StreamTag, Treatment,
};
use crate::net::{EndpointId, RxPacket, SocketAddress};
use crate::text::optional_text;
use vstd::prelude::*;
use vstd::slice::slice_to_vec;

verus! {

/// A party of the call. The direction of a leg is the one that party sends into.
#[derive(Clone, Copy, Debug, PartialEq, Eq, Structural)]
pub enum Leg {
    /// The offerer.
    A,
    /// The answerer.
    B,
}

impl Leg {
    /// The opposite party.
    pub open spec fn other_spec(self) -> Leg {
        match self {
            Leg::A => Leg::B,
            Leg::B => Leg::A,
        }
    }

    /// The opposite party.
    pub fn other(self) -> (leg: Leg)
        ensures
            leg == self.other_spec(),
    {
        match self {
            Leg::A => Leg::B,
            Leg::B => Leg::A,
        }
    }
}

/// A raw capture under way: the engine-local address of each leg, which captured frames carry as
/// their destination.
#[derive(Clone, Copy, Debug, PartialEq, Eq, Structural)]
pub struct PcapCapture {
    pub a_local: SocketAddress,
    pub b_local: SocketAddress,
}

/// One captured datagram.
#[derive(Clone, Debug)]
pub struct CapturedPacket {
    pub source: SocketAddress,
    pub destination: SocketAddress,
    pub payload: Vec<u8>,
    pub timestamp_micros: u64,
}

/// The content of a [`CapturedPacket`].
pub struct CapturedPacketView {
    pub source: SocketAddress,
    pub destination: SocketAddress,
    pub payload: Seq<u8>,
    pub timestamp_micros: u64,
}

impl View for CapturedPacket {
    type V = CapturedPacketView;

    open spec fn view(&self) -> CapturedPacketView {
        CapturedPacketView {
            source: self.source,
            destination: self.destination,
            payload: self.payload@,
            timestamp_micros: self.timestamp_micros,
        }
    }
}

/// How a datagram enters a call.
#[derive(Clone, Debug)]
pub enum Entry {
    /// It does not belong to the call, or its source is not the signalled one.
    Dropped,
    /// It is one leg's media.
    Media { leg: Leg, capture: Option<CapturedPacket>, media: MediaStep },
    /// It is companion RTCP.
    Rtcp { relay: RtcpRelay, companion: RtcpStep },
}

/// What is left to do for a datagram once its walk is over.
#[derive(Clone, Copy, Debug, PartialEq, Eq, Structural)]
pub struct Completion {
    /// A mode request of the leg's decoder steers the encoder of the stream sent back to it
    /// (RFC 4867 section 4.3.1).
    pub steer_mode: bool,
    /// The datagram is plaintext RTCP, which the round trip can be read from.
    pub observe_rtt: bool,
}

/// The parameters a key-press sequence toward a party is built with.
#[derive(Clone, Copy, Debug, PartialEq, Eq, Structural)]
pub struct DtmfPlan {
    pub payload_type: u8,
    pub clock_rate: u32,
    pub ptime_ms: u8,
}

/// A recording to write when the call ends.
#[derive(Clone, Debug)]
pub struct RecordingFile {
    pub leg: Leg,
    pub path: String,
}

/// A quality reading of one direction.
#[derive(Clone, Copy, Debug)]
pub struct QualitySample<F> {
    pub mos: F,
    pub jitter_ms: F,
    pub loss_percent: F,
}

/// The periodic quality report of one leg.
#[derive(Clone, Debug)]
pub struct CallQuality<F> {
    pub call_id: String,
    pub from_tag: String,
    pub sample: QualitySample<F>,
}

/// A media-processing call.
pub struct MediaCall {
    identity: CallIdentity,
    a_to_b: Direction,
    b_to_a: Direction,
    latch: bool,
    echo: bool,
    record_path: Option<String>,
    rtcp: Vec<RtcpRelay>,
    capture: Option<PcapCapture>,
}

/// The state of a [`MediaCall`].
pub struct MediaCallView {
    pub identity: CallIdentity,
    /// Media from party A toward party B.
    pub a_to_b: DirectionView,
    /// Media from party B toward party A.
    pub b_to_a: DirectionView,
    /// Whether replies follow the observed source.
    pub latch: bool,
    /// Whether each party hears itself.
    pub echo: bool,
    /// The directory recordings go to.
    pub record_path: Option<Seq<char>>,
    /// Companion RTCP relays.
    pub rtcp: Seq<RtcpRelay>,
    /// The raw capture under way.
    pub capture: Option<PcapCapture>,
}

impl View for MediaCall {
    type V = MediaCallView;

    closed spec fn view(&self) -> MediaCallView {
        MediaCallView {
            identity: self.identity,
            a_to_b: self.a_to_b@,
            b_to_a: self.b_to_a@,
            latch: self.latch,
            echo: self.echo,
            record_path: optional_text(self.record_path),
            rtcp: self.rtcp@,
            capture: self.capture,
        }
    }
}

impl MediaCallView {
    /// The direction a party sends into.
    pub open spec fn direction(self, leg: Leg) -> DirectionView {
        match leg {
            Leg::A => self.a_to_b,
            Leg::B => self.b_to_a,
        }
    }

    /// The call with one direction replaced.
    pub open spec fn with_direction(self, leg: Leg, direction: DirectionView) -> MediaCallView {
        match leg {
            Leg::A => MediaCallView { a_to_b: direction, ..self },
            Leg::B => MediaCallView { b_to_a: direction, ..self },
        }
    }

    /// The leg whose ingress an endpoint is. A single-leg call has one endpoint for both: it counts
    /// as party A's.
    pub open spec fn leg_of(self, endpoint: EndpointId) -> Option<Leg> {
        if endpoint == self.a_to_b.ingress_endpoint {
            Some(Leg::A)
        } else if endpoint == self.b_to_a.ingress_endpoint {
            Some(Leg::B)
        } else {
            None
        }
    }

    /// The position of the companion RTCP relay an endpoint feeds: the first that matches.
    pub open spec fn relay_of(self, endpoint: EndpointId, index: int) -> bool {
        &&& self.leg_of(endpoint) is None
        &&& 0 <= index < self.rtcp.len()
        &&& self.rtcp[index].ingress_endpoint == endpoint
        &&& forall|i: int| 0 <= i < index ==> (#[trigger] self.rtcp[i]).ingress_endpoint != endpoint
    }

    /// Whether the endpoint belongs to the call at all.
    pub open spec fn owns(self, endpoint: EndpointId) -> bool {
        self.leg_of(endpoint) is Some || exists|index: int| #[trigger] self.relay_of(endpoint, index)
    }

    /// The captured form of a datagram of a leg, while a capture is under way.
    pub open spec fn captured(self, leg: Leg, packet: RxPacket) -> Option<CapturedPacketView> {
        match self.capture {
            Some(capture) => Some(
                CapturedPacketView {
                    source: packet.source,
                    destination: if leg is A {
                        capture.a_local
                    } else {
                        capture.b_local
                    },
                    payload: packet.data@,
                    timestamp_micros: packet.arrival,
                },
            ),
            None => None,
        }
    }

    /// The call once the walk of a datagram of `leg` reported `latch`.
    pub open spec fn completed(self, leg: Leg, source: SocketAddress, latch: Option<u32>) -> MediaCallView {
        match latch {
            Some(ssrc) if self.latch => {
                let sender = self.direction(leg);
                let reply = self.direction(leg.other_spec());
                self.with_direction(
                    leg,
                    DirectionView { source_latch: sender.source_latch.after(source, ssrc), ..sender },
                ).with_direction(
                    leg.other_spec(),
                    if sender.source_latch.follows(source, ssrc) {
                        DirectionView { egress_dst: source, ..reply }
                    } else {
                        reply
                    },
                )
            },
            _ => self,
        }
    }

    /// Whether the playout tick has something to do.
    pub open spec fn ticks(self) -> bool {
        self.a_to_b.injection is Some || self.b_to_a.injection is Some || (!self.echo && self.a_to_b.comfort is Some)
    }

    /// The events that end every prompt of the call, party A's direction first.
    pub open spec fn ended_plays(self, reason: PlayEndReason) -> Seq<EventView> {
        play_events(self.identity, self.a_to_b.finished_play(reason)) + play_events(
            self.identity,
            self.b_to_a.finished_play(reason),
        )
    }

    /// The call with nothing injected.
    pub open spec fn quiet(self) -> MediaCallView {
        MediaCallView {
            a_to_b: DirectionView { injection: None, ..self.a_to_b },
            b_to_a: DirectionView { injection: None, ..self.b_to_a },
            ..self
        }
    }
}

/// The event of a prompt that ended, if one did.
pub open spec fn play_events(identity: CallIdentity, finished: Option<FinishedPlay>) -> Seq<EventView> {
    match finished {
        Some(play) => seq![play_finished_event(identity, play)],
        None => Seq::empty(),
    }
}

/// The content of audio that may be there.
pub open spec fn pcm_view(pcm: Option<Vec<i16>>) -> Option<Seq<i16>> {
    match pcm {
        Some(frame) => Some(frame@),
        None => None,
    }
}

/// The leg whose direction a decoded packet goes on in: reflected audio turns round.
pub open spec fn decoded_home(leg: Leg, decodable: bool, treatment: Treatment) -> Leg {
    if decodable && treatment is Echo {
        leg.other_spec()
    } else {
        leg
    }
}

impl MediaCallView {
    /// How a datagram enters the call. A source that the filter of its leg or of its relay does not accept goes no
    /// further.
    pub open spec fn takes_in(self, packet: RxPacket, entry: Entry) -> bool {
        match self.leg_of(packet.endpoint) {
            Some(leg) => if self.direction(leg).accepted_source.accepts_spec(packet.source.ip) {
                &&& entry is Media
                &&& entry->leg == leg
                &&& capture_view(entry->capture) == self.captured(leg, packet)
                &&& entry->media@ == self.direction(leg).entry_step(packet.data@, self.echo)
            } else {
                entry is Dropped
            },
            None => {
                &&& !self.owns(packet.endpoint) ==> entry is Dropped
                &&& forall|index: int| #[trigger]
                    self.relay_of(packet.endpoint, index) ==> {
                        let relay = self.rtcp[index];
                        if relay.accepted_source.accepts_spec(packet.source.ip) {
                            &&& entry is Rtcp
                            &&& entry->relay == relay
                            &&& entry->companion@ == (if relay.secure_ingress {
                                RtcpStepView::Unprotect { data: packet.data@ }
                            } else {
                                relay.plaintext_step(packet.data@)
                            })
                        } else {
                            entry is Dropped
                        }
                    }
            },
        }
    }

    /// What a party's RTCP says about the round trip between the engine and that party.
    pub open spec fn round_trips(self, leg: Leg, compound: Seq<RtcpReport>) -> Seq<RttNote> {
        compound_notes(compound, self.direction(leg.other_spec()).egress_ssrc)
    }

    /// The reports of the prompts that end because the leg is gone.
    pub open spec fn failed_plays(self) -> Seq<EventView> {
        self.ended_plays(PlayEndReason::Error)
    }

    /// What is left to do for a datagram of a leg once its walk is over.
    pub open spec fn left_to_do(self, leg: Leg, data: Seq<u8>) -> Completion {
        Completion {
            steer_mode: !self.echo,
            observe_rtt: !self.direction(leg).secure_ingress && rtcp_datagram(data),
        }
    }

    /// The parameters of a key-press sequence toward a party.
    pub open spec fn key_plan(self, toward: Leg) -> Option<DtmfPlan> {
        let direction = self.direction(toward.other_spec());
        match direction.telephone_event_out {
            Some(payload_type) => Some(
                DtmfPlan {
                    payload_type,
                    clock_rate: direction.egress_sample_rate,
                    ptime_ms: (direction.ptime_ms() as u32) as u8,
                },
            ),
            None => None,
        }
    }

    /// The recordings to write when the call ends, given how much each direction recorded.
    pub open spec fn recordings(self, a_samples: u64, b_samples: u64) -> Seq<(Leg, Seq<char>)> {
        match self.record_path {
            Some(base) => recording_plan(
                self,
                base,
                self.a_to_b.recorder && a_samples > 0,
                self.b_to_a.recorder && b_samples > 0,
            ),
            None => Seq::empty(),
        }
    }

    /// What a playout tick of a direction does: comfort noise is held back while parties are reflected.
    pub open spec fn playout_step(self, leg: Leg) -> MediaStepView {
        self.direction(leg).tick_step(!self.echo)
    }

    /// The call with an encrypted far party.
    pub open spec fn far_secured(self) -> MediaCallView {
        MediaCallView {
            a_to_b: DirectionView { secure_egress: true, ..self.a_to_b },
            b_to_a: DirectionView { secure_ingress: true, ..self.b_to_a },
            ..self
        }
    }

    /// The call as a single-leg one, whose caller-facing egress idles on comfort noise.
    pub open spec fn idling(self, cn_pt: Option<u8>) -> MediaCallView {
        MediaCallView { a_to_b: DirectionView { comfort: Some(ComfortNoise { cn_pt }), ..self.a_to_b }, ..self }
    }

    /// What follows the decoding of a packet.
    pub open spec fn decoded_step(self, leg: Leg, pcm: Option<Seq<i16>>, stream: StreamTag, treatment: Treatment) -> MediaStepView {
        match pcm {
            None => MediaStepView::Done { latch: Some(stream.ssrc) },
            Some(frame) => if treatment is Echo {
                MediaStepView::Encode { pcm: frame, marker: stream.marker, after: Onward::ends(Some(stream.ssrc)) }
            } else if self.direction(leg).noise_suppressor {
                MediaStepView::SuppressNoise { pcm: frame, stream }
            } else {
                self.cancel_step(leg, frame, stream)
            },
        }
    }

    /// The call after the decoding of a packet.
    pub open spec fn decoded_on(self, leg: Leg, pcm: Option<Seq<i16>>, treatment: Treatment) -> MediaCallView {
        match pcm {
            None => self,
            Some(frame) => if treatment is Echo {
                self.with_direction(leg.other_spec(), self.direction(leg.other_spec()).heard(frame))
            } else if self.direction(leg).noise_suppressor {
                self
            } else {
                self.reference_taken(leg, frame.len())
            },
        }
    }
}

/// The optional capture of an entry.
pub open spec fn capture_view(capture: Option<CapturedPacket>) -> Option<CapturedPacketView> {
    match capture {
        Some(packet) => Some(packet@),
        None => None,
    }
}

impl MediaCall {
    /// Both directions are valid.
    pub closed spec fn wf(&self) -> bool {
        self.a_to_b.wf() && self.b_to_a.wf()
    }

    /// A transcoding call. `a_tools` and `b_tools` say which optional processors could be built.
    pub fn new(
        call_id: String,
        from_tag: String,
        to_tag: Option<String>,
        a_to_b: DirectionConfig,
        a_tools: ToolSupport,
        b_to_a: DirectionConfig,
        b_tools: ToolSupport,
        latch: bool,
        record_path: Option<String>,
    ) -> (call: Self)
        ensures
            call.wf(),
            call@ == (MediaCallView {
                identity: CallIdentity { call_id, from_tag, to_tag },
                a_to_b: fresh_direction(a_to_b, a_tools),
                b_to_a: fresh_direction(b_to_a, b_tools),
                latch,
                echo: false,
                record_path: optional_text(record_path),
                rtcp: Seq::empty(),
                capture: None,
            }),
    {
        MediaCall {
            identity: CallIdentity { call_id, from_tag, to_tag },
            a_to_b: Direction::new(a_to_b, a_tools),
            b_to_a: Direction::new(b_to_a, b_tools),
            latch,
            echo: false,
            record_path,
            rtcp: Vec::new(),
            capture: None,
        }
    }

    /// A relay-only call: both directions forward their ingress verbatim.
    pub fn new_relay(
        call_id: String,
        from_tag: String,
        to_tag: Option<String>,
        a_to_b: RelayConfig,
        b_to_a: RelayConfig,
        latch: bool,
    ) -> (call: Self)
        ensures
            call.wf(),
            call@ == (MediaCallView {
                identity: CallIdentity { call_id, from_tag, to_tag },
                a_to_b: fresh_relay(a_to_b),
                b_to_a: fresh_relay(b_to_a),
                latch,
                echo: false,
                record_path: None,
                rtcp: Seq::empty(),
                capture: None,
            }),
    {
        MediaCall {
            identity: CallIdentity { call_id, from_tag, to_tag },
            a_to_b: Direction::new_relay(a_to_b),
            b_to_a: Direction::new_relay(b_to_a),
            latch,
            echo: false,
            record_path: None,
            rtcp: Vec::new(),
            capture: None,
        }
    }

    /// The same call with an encrypted far party: the egress toward B is protected and the ingress
    /// from B unprotected.
    pub fn with_far_secure_leg(self) -> (call: Self)
        requires
            self.wf(),
        ensures
            call.wf(),
            call@ == self@.far_secured(),
    {
        let mut call = self;
        call.a_to_b.set_secure_egress(true);
        call.b_to_a.set_secure_ingress(true);
        call
    }

    /// Whether the call has an encrypted far party.
    pub fn far_secure_leg(&self) -> (secure: bool)
        ensures
            secure == self@.a_to_b.secure_egress,
    {
        self.a_to_b.secure_egress()
    }

    /// The same call with companion RTCP relays.
    pub fn with_rtcp_relays(self, relays: Vec<RtcpRelay>) -> (call: Self)
        requires
            self.wf(),
        ensures
            call.wf(),
            call@ == (MediaCallView { rtcp: relays@, ..self@ }),
    {
        let mut call = self;
        call.rtcp = relays;
        call
    }

    /// The same call as a single-leg one, whose caller-facing egress idles on comfort noise.
    pub fn with_comfort_idle(self, cn_pt: Option<u8>) -> (call: Self)
        requires
            self.wf(),
        ensures
            call.wf(),
            call@ == self@.idling(cn_pt),
    {
        let mut call = self;
        call.a_to_b.enable_comfort_idle(cn_pt);
        call
    }

    /// The companion RTCP endpoints, in order.
    pub fn rtcp_endpoints(&self) -> (endpoints: Vec<EndpointId>)
        ensures
            endpoints@ == Seq::new(self@.rtcp.len(), |i: int| self@.rtcp[i].ingress_endpoint),
    {
        let mut endpoints: Vec<EndpointId> = Vec::new();
        let mut i: usize = 0;
        while i < self.rtcp.len()
            invariant
                i <= self.rtcp@.len(),
                endpoints@ =~= Seq::new(i as nat, |j: int| self.rtcp@[j].ingress_endpoint),
            decreases self.rtcp@.len() - i,
        {
            endpoints.push(self.rtcp[i].ingress_endpoint);
            i = i + 1;
        }
        endpoints
    }

    /// The ingress endpoints of party A and party B.
    pub fn endpoints(&self) -> (endpoints: (EndpointId, EndpointId))
        ensures
            endpoints == (self@.a_to_b.ingress_endpoint, self@.b_to_a.ingress_endpoint),
    {
        (self.a_to_b.ingress_endpoint(), self.b_to_a.ingress_endpoint())
    }

    /// Whether both directions forward verbatim.
    pub fn is_relay_only(&self) -> (relay: bool)
        ensures
            relay == (self@.a_to_b.relay_only && self@.b_to_a.relay_only),
    {
        self.a_to_b.relay_only() && self.b_to_a.relay_only()
    }

    /// The call's identifier.
    pub fn call_id(&self) -> (call_id: String)
        ensures
            call_id@ == self@.identity.call_id@,
    {
        self.identity.call_id.clone()
    }

    /// The direction a party sends into.
    pub fn ingress_direction(&mut self, leg: Leg) -> (direction: &mut Direction)
        requires
            old(self).wf(),
        ensures
            direction.wf(),
            direction@ == old(self)@.direction(leg),
            final(direction).wf() ==> final(self).wf(),
            final(self)@ == old(self)@.with_direction(leg, final(direction)@),
    {
        match leg {
            Leg::A => &mut self.a_to_b,
            Leg::B => &mut self.b_to_a,
        }
    }

    /// Take in one datagram: check its source, capture it, and start its walk. Nothing in the call
    /// changes for a datagram that is dropped.
    pub fn process(&mut self, packet: &RxPacket, out: &mut Vec<Outbound>) -> (entry: Entry)
        requires
            old(self).wf(),
        ensures
            final(self).wf(),
            old(self)@.takes_in(*packet, entry),
            match old(self)@.leg_of(packet.endpoint) {
                Some(leg) => {
                    let direction = old(self)@.direction(leg);
                    if !direction.accepted_source.accepts_spec(packet.source.ip) {
                        entry is Dropped && final(self)@ == old(self)@ && final(out)@ == old(out)@
                    } else {
                        &&& entry is Media
                        &&& entry->leg == leg
                        &&& capture_view(entry->capture) == old(self)@.captured(leg, *packet)
                        &&& entry->media@ == direction.entry_step(packet.data@, old(self)@.echo)
                        &&& final(self)@ == old(self)@
                        &&& sends(old(out)@, final(out)@, direction.entry_sends(packet.data@, old(self)@.echo))
                    }
                },
                None => {
                    &&& final(self)@ == old(self)@
                    &&& !old(self)@.owns(packet.endpoint) ==> entry is Dropped && final(out)@ == old(out)@
                    &&& forall|index: int| #[trigger]
                        old(self)@.relay_of(packet.endpoint, index) ==> {
                            let relay = old(self)@.rtcp[index];
                            if !relay.accepted_source.accepts_spec(packet.source.ip) {
                                entry is Dropped && final(out)@ == old(out)@
                            } else {
                                &&& entry is Rtcp
                                &&& entry->relay == relay
                                &&& if relay.secure_ingress {
                                    &&& entry->companion@ == (RtcpStepView::Unprotect { data: packet.data@ })
                                    &&& final(out)@ == old(out)@
                                } else {
                                    &&& entry->companion@ == relay.plaintext_step(packet.data@)
                                    &&& sends(old(out)@, final(out)@, relay.plaintext_sends(packet.data@))
                                }
                            }
                        }
                },
            },
    {
        if packet.endpoint == self.a_to_b.ingress_endpoint() {
            return self.enter(Leg::A, packet, out);
        }
        if packet.endpoint == self.b_to_a.ingress_endpoint() {
            return self.enter(Leg::B, packet, out);
        }
        let mut i: usize = 0;
        while i < self.rtcp.len()
            invariant
                i <= self.rtcp@.len(),
                self@ == old(self)@,
                self.wf(),
                out@ == old(out)@,
                self@.leg_of(packet.endpoint) is None,
                forall|j: int| 0 <= j < i ==> (#[trigger] self.rtcp@[j]).ingress_endpoint != packet.endpoint,
            decreases self.rtcp@.len() - i,
        {
            let relay: RtcpRelay = self.rtcp[i];
            if relay.ingress_endpoint == packet.endpoint {
                proof {
                    assert(self@.relay_of(packet.endpoint, i as int));
                    assert forall|index: int| #[trigger] self@.relay_of(packet.endpoint, index) implies index == i by {
                        if index < i {
                            assert(self.rtcp@[index].ingress_endpoint != packet.endpoint);
                        } else if index > i {
                            assert(self@.rtcp[i as int].ingress_endpoint != packet.endpoint);
                        }
                    }
                }
                if !relay.accepted_source.accepts(packet.source.ip) {
                    return Entry::Dropped;
                }
                let step = relay.relay(packet.data.as_slice(), out);
                return Entry::Rtcp { relay, companion: step };
            }
            i = i + 1;
        }
        proof {
            assert forall|index: int| !(#[trigger] self@.relay_of(packet.endpoint, index)) by {
                if 0 <= index < self@.rtcp.len() {
                    assert(self.rtcp@[index].ingress_endpoint != packet.endpoint);
                }
            }
        }
        Entry::Dropped
    }

    /// Take in one datagram of a leg.
    fn enter(&mut self, leg: Leg, packet: &RxPacket, out: &mut Vec<Outbound>) -> (entry: Entry)
        requires
            old(self).wf(),
        ensures
            final(self).wf(),
            ({
                let direction = old(self)@.direction(leg);
                if !direction.accepted_source.accepts_spec(packet.source.ip) {
                    entry is Dropped && final(self)@ == old(self)@ && final(out)@ == old(out)@
                } else {
                    &&& entry is Media
                    &&& entry->leg == leg
                    &&& capture_view(entry->capture) == old(self)@.captured(leg, *packet)
                    &&& entry->media@ == direction.entry_step(packet.data@, old(self)@.echo)
                    &&& final(self)@ == old(self)@
                    &&& sends(old(out)@, final(out)@, direction.entry_sends(packet.data@, old(self)@.echo))
                }
            }),
    {
        let echo = self.echo;
        let capture = self.capture_ingress(leg, packet);
        let direction = self.ingress_direction(leg);
        if !direction.accepts(packet.source) {
            return Entry::Dropped;
        }
        let step = if echo {
            direction.echo_into(packet.data.as_slice())
        } else {
            direction.handle(packet.data.as_slice(), out)
        };
        Entry::Media { leg, capture, media: step }
    }

    /// The captured form of an accepted datagram, while a capture is under way.
    fn capture_ingress(&self, leg: Leg, packet: &RxPacket) -> (captured: Option<CapturedPacket>)
        ensures
            capture_view(captured) == self@.captured(leg, *packet),
    {
        match self.capture {
            None => None,
            Some(capture) => Some(
                CapturedPacket {
                    source: packet.source,
                    destination: match leg {
                        Leg::A => capture.a_local,
                        Leg::B => capture.b_local,
                    },
                    payload: slice_to_vec(packet.data.as_slice()),
                    timestamp_micros: packet.arrival,
                },
            ),
        }
    }

    /// Report a key press of a leg, then relay the telephone-event or end its walk.
    pub fn detected(
        &self,
        leg: Leg,
        packet: RtpPacket,
        treatment: Treatment,
        event: Option<DtmfEvent>,
        events: &mut Vec<Event>,
    ) -> (step: MediaStep)
        ensures
            step@ == self@.direction(leg).detected_step(packet@, treatment),
            event is None ==> final(events)@ == old(events)@,
            event matches Some(key) ==> raises(old(events)@, final(events)@, seq![dtmf_event(self@.identity, key)]),
    {
        match leg {
            Leg::A => self.a_to_b.detected(packet, treatment, event, &self.identity, events),
            Leg::B => self.b_to_a.detected(packet, treatment, event, &self.identity, events),
        }
    }

    /// Go on with a packet once it was decoded. An undecodable one still reports its SSRC. Reflected
    /// audio goes straight out of the direction that faces its sender, which the result names.
    pub fn decoded(&mut self, leg: Leg, pcm: Option<Vec<i16>>, stream: StreamTag, treatment: Treatment) -> (result: (
        Leg,
        MediaStep,
    ))
        requires
            old(self).wf(),
        ensures
            final(self).wf(),
            result.0 == decoded_home(leg, pcm is Some, treatment),
            result.1@ == old(self)@.decoded_step(leg, pcm_view(pcm), stream, treatment),
            final(self)@ == old(self)@.decoded_on(leg, pcm_view(pcm), treatment),
    {
        match pcm {
            None => (leg, MediaStep::Done { latch: Some(stream.ssrc) }),
            Some(frame) => {
                if let Treatment::Echo = treatment {
                    let home = leg.other();
                    let step = self.ingress_direction(home).emit_pcm(
                        frame,
                        stream.marker,
                        Onward { latch: Some(stream.ssrc), frames: false },
                    );
                    return (home, step);
                }
                let suppress = match leg {
                    Leg::A => self.a_to_b.noise_suppressor(),
                    Leg::B => self.b_to_a.noise_suppressor(),
                };
                if suppress {
                    return (leg, MediaStep::SuppressNoise { pcm: frame, stream });
                }
                let step = self.suppressed(leg, frame, stream);
                (leg, step)
            },
        }
    }

    /// Go on with a frame once its noise was suppressed: cancel the echo of what was last sent
    /// toward the party, or hand it on.
    pub fn suppressed(&mut self, leg: Leg, pcm: Vec<i16>, stream: StreamTag) -> (step: MediaStep)
        requires
            old(self).wf(),
        ensures
            final(self).wf(),
            step@ == old(self)@.cancel_step(leg, pcm@, stream),
            final(self)@ == old(self)@.reference_taken(leg, pcm@.len()),
    {
        let cancels = match leg {
            Leg::A => self.a_to_b.echo_canceller() && self.b_to_a.has_echo_reference(),
            Leg::B => self.b_to_a.echo_canceller() && self.a_to_b.has_echo_reference(),
        };
        if !cancels {
            return MediaStep::Tap { pcm, stream };
        }
        let samples: usize = pcm.len();
        let far_end = self.ingress_direction(leg.other()).read_reference(samples);
        MediaStep::CancelEcho { pcm, far_end, stream }
    }

    /// Go on with a frame once its echo was cancelled.
    pub fn cancelled(&self, pcm: Vec<i16>, stream: StreamTag) -> (step: MediaStep)
        ensures
            step@ == (MediaStepView::Tap { pcm: pcm@, stream }),
    {
        MediaStep::Tap { pcm, stream }
    }

    /// End the walk of a datagram of `leg`: an authentic packet is offered to the latch, which may
    /// re-point the reply toward its source.
    pub fn complete(&mut self, leg: Leg, packet: &RxPacket, latch: Option<u32>) -> (completion: Completion)
        requires
            old(self).wf(),
        ensures
            final(self).wf(),
            final(self)@ == old(self)@.completed(leg, packet.source, latch),
            completion == old(self)@.left_to_do(leg, packet.data@),
    {
        let secure = match leg {
            Leg::A => self.a_to_b.secure_ingress(),
            Leg::B => self.b_to_a.secure_ingress(),
        };
        if self.latch {
            if let Some(ssrc) = latch {
                let reply = self.ingress_direction(leg).observe_source(packet.source, ssrc);
                if let Some(dst) = reply {
                    self.ingress_direction(leg.other()).reply_to(dst);
                }
            }
        }
        Completion { steer_mode: !self.echo, observe_rtt: !secure && is_rtcp_datagram(packet.data.as_slice()) }
    }

    /// What a party's RTCP compound says about the round trip between the engine and that party.
    pub fn observe_rtcp_rtt(&self, leg: Leg, compound: &Vec<RtcpReport>) -> (notes: Vec<RttNote>)
        ensures
            notes@ == self@.round_trips(leg, compound@),
    {
        let egress_ssrc: u32 = match leg {
            Leg::A => self.b_to_a.egress_ssrc(),
            Leg::B => self.a_to_b.egress_ssrc(),
        };
        rtt_notes(compound, egress_ssrc)
    }
}

impl MediaCallView {
    /// Whether the echo on a party's uplink is cancelled: it asks for it, and what was sent toward
    /// it is kept.
    pub open spec fn cancels(self, leg: Leg) -> bool {
        self.direction(leg).echo_canceller && self.direction(leg.other_spec()).echo_reference is Some
    }

    /// What follows noise suppression.
    pub open spec fn cancel_step(self, leg: Leg, pcm: Seq<i16>, stream: StreamTag) -> MediaStepView {
        if self.cancels(leg) {
            MediaStepView::CancelEcho {
                pcm,
                far_end: reference_frame(
                    self.direction(leg.other_spec()).echo_reference->Some_0.samples,
                    pcm.len(),
                ),
                stream,
            }
        } else {
            MediaStepView::Tap { pcm, stream }
        }
    }

    /// The call once the echo canceller of `leg` took its reference.
    pub open spec fn reference_taken(self, leg: Leg, samples: nat) -> MediaCallView {
        if self.cancels(leg) {
            self.with_direction(leg.other_spec(), self.direction(leg.other_spec()).reference_read(samples))
        } else {
            self
        }
    }
}


impl MediaCall {
    /// Replace the egress audio of both directions by silence, or stop doing so.
    pub fn set_silenced(&mut self, silenced: bool)
        requires
            old(self).wf(),
        ensures
            final(self).wf(),
            final(self)@ == (MediaCallView {
                a_to_b: DirectionView { silenced, ..old(self)@.a_to_b },
                b_to_a: DirectionView { silenced, ..old(self)@.b_to_a },
                ..old(self)@
            }),
    {
        self.a_to_b.set_silenced(silenced);
        self.b_to_a.set_silenced(silenced);
    }

    /// Drop the egress audio of both directions, or stop doing so.
    pub fn set_blocked(&mut self, blocked: bool)
        requires
            old(self).wf(),
        ensures
            final(self).wf(),
            final(self)@ == (MediaCallView {
                a_to_b: DirectionView { blocked, ..old(self)@.a_to_b },
                b_to_a: DirectionView { blocked, ..old(self)@.b_to_a },
                ..old(self)@
            }),
    {
        self.a_to_b.set_blocked(blocked);
        self.b_to_a.set_blocked(blocked);
    }

    /// Reflect each party to itself, or stop doing so.
    pub fn set_echo(&mut self, echo: bool)
        requires
            old(self).wf(),
        ensures
            final(self).wf(),
            final(self)@ == (MediaCallView { echo, ..old(self)@ }),
    {
        self.echo = echo;
    }

    /// Keep one party's key presses from the other, or stop doing so.
    pub fn set_dtmf_blocked(&mut self, source: Leg, dtmf_blocked: bool)
        requires
            old(self).wf(),
        ensures
            final(self).wf(),
            final(self)@ == old(self)@.with_direction(
                source,
                DirectionView { dtmf_blocked, ..old(self)@.direction(source) },
            ),
    {
        self.ingress_direction(source).set_dtmf_blocked(dtmf_blocked);
    }

    /// Begin a raw capture, in place of one under way.
    pub fn start_recording(&mut self, capture: PcapCapture)
        requires
            old(self).wf(),
        ensures
            final(self).wf(),
            final(self)@ == (MediaCallView { capture: Some(capture), ..old(self)@ }),
    {
        self.capture = Some(capture);
    }

    /// Stop the raw capture, if one is under way.
    pub fn stop_recording(&mut self)
        requires
            old(self).wf(),
        ensures
            final(self).wf(),
            final(self)@ == (MediaCallView { capture: None, ..old(self)@ }),
    {
        self.capture = None;
    }

    /// Whether a raw capture is under way.
    pub fn is_recording(&self) -> (recording: bool)
        ensures
            recording == (self@.capture is Some),
    {
        self.capture.is_some()
    }

    /// Start a prompt toward a party. It replaces whatever plays there, and a replaced prompt is
    /// reported as superseded. `resampler_built` says whether a converter from the prompt's rate to
    /// the egress rate could be built.
    pub fn start_play_audio(
        &mut self,
        toward: Leg,
        source_rate_hz: u32,
        resampler_built: bool,
        play_id: u64,
        events: &mut Vec<Event>,
    )
        requires
            old(self).wf(),
        ensures
            final(self).wf(),
            ({
                let before = old(self)@.direction(toward.other_spec());
                &&& final(self)@ == old(self)@.with_direction(
                    toward.other_spec(),
                    DirectionView {
                        injection: Some(
                            Injection::Audio {
                                source_rate_hz,
                                resampled: source_rate_hz != before.egress_sample_rate && resampler_built,
                                play_id,
                                played_ms: 0,
                            },
                        ),
                        ..before
                    },
                )
                &&& raises(
                    old(events)@,
                    final(events)@,
                    play_events(old(self)@.identity, before.finished_play(PlayEndReason::Superseded)),
                )
            }),
    {
        let direction = self.ingress_direction(toward.other());
        let superseded = direction.take_finished_play(PlayEndReason::Superseded);
        let resampled = source_rate_hz != direction.egress_sample_rate() && resampler_built;
        direction.inject(Some(Injection::Audio { source_rate_hz, resampled, play_id, played_ms: 0 }));
        if let Some(finished) = superseded {
            events.push(self.identity.play_finished_event(finished));
        }
    }

    /// The parameters of a key-press sequence toward a party, or `None` when that party negotiated
    /// no telephone-events.
    pub fn dtmf_plan(&self, toward: Leg) -> (plan: Option<DtmfPlan>)
        requires
            self.wf(),
        ensures
            plan == self@.key_plan(toward),
    {
        let direction = match toward {
            Leg::A => &self.b_to_a,
            Leg::B => &self.a_to_b,
        };
        match direction.telephone_event_out() {
            None => None,
            Some(payload_type) => Some(
                DtmfPlan {
                    payload_type,
                    clock_rate: direction.egress_sample_rate(),
                    ptime_ms: {
                        let ptime: u32 = direction.egress_ptime_ms();
                        #[verifier::truncate]
                        (ptime as u8)
                    },
                },
            ),
        }
    }

    /// Start a key-press sequence toward a party. `sequence_built` says whether the digits made a
    /// sequence. Returns `false`, and changes nothing, when they did not or when the party negotiated
    /// no telephone-events. The sequence replaces whatever plays there, and a replaced prompt is reported
    /// as superseded.
    pub fn start_play_dtmf(&mut self, toward: Leg, sequence_built: bool, events: &mut Vec<Event>) -> (started: bool)
        requires
            old(self).wf(),
        ensures
            final(self).wf(),
            started == (sequence_built && old(self)@.direction(toward.other_spec()).telephone_event_out is Some),
            !started ==> final(self)@ == old(self)@ && final(events)@ == old(events)@,
            started ==> {
                let before = old(self)@.direction(toward.other_spec());
                &&& raises(
                    old(events)@,
                    final(events)@,
                    play_events(old(self)@.identity, before.finished_play(PlayEndReason::Superseded)),
                )
                &&& final(self)@ == old(self)@.with_direction(
                    toward.other_spec(),
                    DirectionView {
                        injection: Some(
                            Injection::Dtmf {
                                payload_type: before.telephone_event_out->Some_0,
                                base_timestamp: before.egress_timestamp,
                            },
                        ),
                        ..before
                    },
                )
            },
    {
        let direction = self.ingress_direction(toward.other());
        match direction.telephone_event_out() {
            None => false,
            Some(payload_type) => {
                if !sequence_built {
                    return false;
                }
                let superseded = direction.take_finished_play(PlayEndReason::Superseded);
                let base_timestamp: u32 = direction.egress_timestamp();
                direction.inject(Some(Injection::Dtmf { payload_type, base_timestamp }));
                if let Some(finished) = superseded {
                    events.push(self.identity.play_finished_event(finished));
                }
                true
            },
        }
    }

    /// Stop everything that is injected. Prompts are reported as stopped.
    pub fn stop_play(&mut self, events: &mut Vec<Event>)
        requires
            old(self).wf(),
        ensures
            final(self).wf(),
            final(self)@ == old(self)@.quiet(),
            raises(old(events)@, final(events)@, old(self)@.ended_plays(PlayEndReason::Stopped)),
    {
        self.end_all_plays(PlayEndReason::Stopped, events);
    }

    /// End everything that is injected because the leg is gone. Prompts are reported as failed.
    pub fn finish_pending_plays(&mut self, events: &mut Vec<Event>)
        requires
            old(self).wf(),
        ensures
            final(self).wf(),
            final(self)@ == old(self)@.quiet(),
            raises(old(events)@, final(events)@, old(self)@.failed_plays()),
    {
        self.end_all_plays(PlayEndReason::Error, events);
    }

    /// Stop everything that is injected and report each prompt with `reason`.
    fn end_all_plays(&mut self, reason: PlayEndReason, events: &mut Vec<Event>)
        requires
            old(self).wf(),
        ensures
            final(self).wf(),
            final(self)@ == old(self)@.quiet(),
            raises(old(events)@, final(events)@, old(self)@.ended_plays(reason)),
    {
        let a = self.a_to_b.take_finished_play(reason);
        let b = self.b_to_a.take_finished_play(reason);
        if let Some(finished) = a {
            events.push(self.identity.play_finished_event(finished));
        }
        if let Some(finished) = b {
            events.push(self.identity.play_finished_event(finished));
        }
    }

    /// Attach a fork to a party's decoded audio.
    pub fn add_fork(&mut self, source: Leg, fork: Fork)
        requires
            old(self).wf(),
        ensures
            final(self).wf(),
            final(self)@ == old(self)@.with_direction(
                source,
                DirectionView {
                    forks: old(self)@.direction(source).forks.push(fork@),
                    ..old(self)@.direction(source)
                },
            ),
    {
        self.ingress_direction(source).add_fork(fork);
    }

    /// Detach every fork of a party. Returns the sinks to finish.
    pub fn remove_forks(&mut self, source: Leg) -> (finished: Vec<u64>)
        requires
            old(self).wf(),
        ensures
            final(self).wf(),
            final(self)@ == old(self)@.with_direction(
                source,
                DirectionView { forks: Seq::empty(), ..old(self)@.direction(source) },
            ),
            finished@ == sinks(old(self)@.direction(source).forks),
    {
        self.ingress_direction(source).remove_forks()
    }

    /// Detach the forks of a party under one tag, and no others. Returns the sinks to finish.
    pub fn remove_forks_tagged(&mut self, source: Leg, tag: &String) -> (finished: Vec<u64>)
        requires
            old(self).wf(),
        ensures
            final(self).wf(),
            final(self)@ == old(self)@.with_direction(
                source,
                DirectionView {
                    forks: old(self)@.direction(source).forks.filter(|fork: ForkView| fork.tag != Some(tag@)),
                    ..old(self)@.direction(source)
                },
            ),
            finished@ == sinks(old(self)@.direction(source).forks.filter(|fork: ForkView| fork.tag == Some(tag@))),
    {
        self.ingress_direction(source).remove_forks_tagged(tag)
    }

    /// How many forks a party's decoded audio has.
    pub fn fork_count(&self, source: Leg) -> (count: usize)
        ensures
            count == self@.direction(source).forks.len(),
    {
        match source {
            Leg::A => self.a_to_b.fork_count(),
            Leg::B => self.b_to_a.fork_count(),
        }
    }

    /// Attach a verbatim subscriber to a party's ingress.
    pub fn add_raw_tee(&mut self, source: Leg, tee: RawTee)
        requires
            old(self).wf(),
        ensures
            final(self).wf(),
            final(self)@ == old(self)@.with_direction(
                source,
                DirectionView {
                    raw_tee: old(self)@.direction(source).raw_tee.push(tee),
                    ..old(self)@.direction(source)
                },
            ),
    {
        self.ingress_direction(source).add_raw_tee(tee);
    }

    /// Detach the verbatim subscribers at one endpoint from a party's ingress, and no others.
    pub fn remove_raw_tee(&mut self, source: Leg, subscriber_endpoint: EndpointId)
        requires
            old(self).wf(),
        ensures
            final(self).wf(),
            final(self)@ == old(self)@.with_direction(
                source,
                DirectionView {
                    raw_tee: old(self)@.direction(source).raw_tee.filter(
                        |tee: RawTee| tee.subscriber_endpoint != subscriber_endpoint,
                    ),
                    ..old(self)@.direction(source)
                },
            ),
    {
        self.ingress_direction(source).remove_raw_tee(subscriber_endpoint);
    }

    /// How many verbatim subscribers a party's ingress has.
    pub fn raw_tee_count(&self, source: Leg) -> (count: usize)
        ensures
            count == self@.direction(source).raw_tee.len(),
    {
        match source {
            Leg::A => self.a_to_b.raw_tee_count(),
            Leg::B => self.b_to_a.raw_tee_count(),
        }
    }

    /// One playout tick of a direction. Comfort noise is held back while parties are reflected.
    pub fn tick(&mut self, leg: Leg) -> (step: MediaStep)
        requires
            old(self).wf(),
        ensures
            final(self).wf(),
            step@ == old(self)@.playout_step(leg),
            final(self)@ == old(self)@.with_direction(leg, old(self)@.direction(leg).ticked(!old(self)@.echo)),
    {
        let comfort_enabled = !self.echo;
        self.ingress_direction(leg).tick_egress(comfort_enabled)
    }

    /// Go on with a prompt once its next frame is there. One that has run out is reported as
    /// completed.
    pub fn prompt_frame(&mut self, leg: Leg, frame: Option<Vec<i16>>, events: &mut Vec<Event>) -> (step: MediaStep)
        requires
            old(self).wf(),
            old(self)@.direction(leg).injection matches Some(Injection::Audio { .. }),
        ensures
            final(self).wf(),
            ({
                let before = old(self)@.direction(leg);
                &&& final(self)@ == old(self)@.with_direction(leg, before.after_prompt_frame(frame))
                &&& step@ == before.prompt_step(frame)
                &&& frame is None ==> raises(
                    old(events)@,
                    final(events)@,
                    play_events(old(self)@.identity, before.finished_play(PlayEndReason::Completed)),
                )
                &&& frame is Some ==> final(events)@ == old(events)@
            }),
    {
        let (step, finished) = self.ingress_direction(leg).prompt_frame(frame);
        if let Some(play) = finished {
            events.push(self.identity.play_finished_event(play));
        }
        step
    }

    /// Whether anything is injected.
    pub fn has_injection(&self) -> (injected: bool)
        ensures
            injected == (self@.a_to_b.injection is Some || self@.b_to_a.injection is Some),
    {
        self.a_to_b.injection().is_some() || self.b_to_a.injection().is_some()
    }

    /// Whether the playout tick has something to do: an injection, or the comfort noise of a
    /// single-leg call that is not reflected.
    pub fn needs_egress_tick(&self) -> (needed: bool)
        ensures
            needed == self@.ticks(),
    {
        self.has_injection() || (!self.echo && self.a_to_b.comfort().is_some())
    }

    /// The recordings to write when the call ends: one file per direction that recorded anything.
    /// The recorders are detached. Without a recording directory nothing is written.
    pub fn take_recordings(&mut self, a_samples: u64, b_samples: u64) -> (files: Vec<RecordingFile>)
        requires
            old(self).wf(),
        ensures
            final(self).wf(),
            recording_views(files@) == old(self)@.recordings(a_samples, b_samples),
            old(self)@.record_path is None ==> files@.len() == 0 && final(self)@ == old(self)@,
            old(self)@.record_path matches Some(base) ==> {
                &&& final(self)@ == (MediaCallView {
                    a_to_b: DirectionView { recorder: false, ..old(self)@.a_to_b },
                    b_to_a: DirectionView { recorder: false, ..old(self)@.b_to_a },
                    ..old(self)@
                })
                &&& recording_views(files@) == recording_plan(
                    old(self)@,
                    base,
                    old(self)@.a_to_b.recorder && a_samples > 0,
                    old(self)@.b_to_a.recorder && b_samples > 0,
                )
            },
    {
        let mut files: Vec<RecordingFile> = Vec::new();
        let base = match &self.record_path {
            None => {
                return files;
            },
            Some(base) => base.clone(),
        };
        if self.a_to_b.take_recorder() && a_samples > 0 {
            files.push(RecordingFile { leg: Leg::A, path: recording_path(&base, &self.identity.call_id, "-a.wav") });
        }
        if self.b_to_a.take_recorder() && b_samples > 0 {
            files.push(RecordingFile { leg: Leg::B, path: recording_path(&base, &self.identity.call_id, "-b.wav") });
        }
        proof {
            assert(recording_views(files@) =~= recording_plan(
                old(self)@,
                base@,
                old(self)@.a_to_b.recorder && a_samples > 0,
                old(self)@.b_to_a.recorder && b_samples > 0,
            ));
        }
        files
    }

    /// The quality a direction reports out of a reading of its reception statistics. A relay-only
    /// direction reports none.
    pub fn current_quality<F: Copy>(&self, leg: Leg, reading: Option<QualitySample<F>>) -> (quality: Option<
        QualitySample<F>,
    >)
        ensures
            quality == self@.quality(leg, reading),
    {
        let relay_only = match leg {
            Leg::A => self.a_to_b.relay_only(),
            Leg::B => self.b_to_a.relay_only(),
        };
        if relay_only {
            None
        } else {
            reading
        }
    }

    /// The periodic quality reports: party A's ingress under the offerer's tag, then party B's under
    /// the answerer's, where it has one. A reading is `None` before any packet arrived.
    pub fn build_quality_events<F: Copy>(
        &self,
        a_reading: Option<QualitySample<F>>,
        b_reading: Option<QualitySample<F>>,
    ) -> (reports: Vec<CallQuality<F>>)
        ensures
            quality_views(reports@) == leg_report(self@, Some(self@.identity.from_tag@), self@.quality(Leg::A, a_reading))
                + leg_report(self@, optional_text(self@.identity.to_tag), self@.quality(Leg::B, b_reading)),
    {
        let mut reports: Vec<CallQuality<F>> = Vec::new();
        if let Some(sample) = self.current_quality(Leg::A, a_reading) {
            reports.push(
                CallQuality {
                    call_id: self.identity.call_id.clone(),
                    from_tag: self.identity.from_tag.clone(),
                    sample,
                },
            );
        }
        if let Some(to_tag) = &self.identity.to_tag {
            if let Some(sample) = self.current_quality(Leg::B, b_reading) {
                reports.push(
                    CallQuality { call_id: self.identity.call_id.clone(), from_tag: to_tag.clone(), sample },
                );
            }
        }
        proof {
            assert(quality_views(reports@) =~= leg_report(
                self@,
                Some(self@.identity.from_tag@),
                self@.quality(Leg::A, a_reading),
            ) + leg_report(self@, optional_text(self@.identity.to_tag), self@.quality(Leg::B, b_reading)));
        }
        reports
    }
}

impl MediaCallView {
    /// The quality a direction reports out of a reading.
    pub open spec fn quality<F>(self, leg: Leg, reading: Option<QualitySample<F>>) -> Option<QualitySample<F>> {
        if self.direction(leg).relay_only {
            None
        } else {
            reading
        }
    }
}

/// The report of one leg, where it has both a tag and a reading: call, tag, reading.
pub open spec fn leg_report<F>(
    call: MediaCallView,
    tag: Option<Seq<char>>,
    reading: Option<QualitySample<F>>,
) -> Seq<(Seq<char>, Seq<char>, QualitySample<F>)> {
    match (tag, reading) {
        (Some(name), Some(sample)) => seq![(call.identity.call_id@, name, sample)],
        _ => Seq::empty(),
    }
}

/// The contents of a list of quality reports: call, tag, reading.
pub open spec fn quality_views<F>(reports: Seq<CallQuality<F>>) -> Seq<(Seq<char>, Seq<char>, QualitySample<F>)> {
    Seq::new(reports.len(), |i: int| (reports[i].call_id@, reports[i].from_tag@, reports[i].sample))
}

/// The contents of a list of recordings: leg and path.
pub open spec fn recording_views(files: Seq<RecordingFile>) -> Seq<(Leg, Seq<char>)> {
    Seq::new(files.len(), |i: int| (files[i].leg, files[i].path@))
}

/// The recordings of a call: one file per recorded leg, named after the call.
pub open spec fn recording_plan(call: MediaCallView, base: Seq<char>, a: bool, b: bool) -> Seq<(Leg, Seq<char>)> {
    let stem = base + "/"@ + call.identity.call_id@;
    let first = if a {
        seq![(Leg::A, stem + "-a.wav"@)]
    } else {
        Seq::empty()
    };
    let second = if b {
        seq![(Leg::B, stem + "-b.wav"@)]
    } else {
        Seq::empty()
    };
    first + second
}

/// The path of one recording.
fn recording_path(base: &String, call_id: &String, suffix: &str) -> (path: String)
    ensures
        path@ == base@ + "/"@ + call_id@ + suffix@,
{
    let mut path = base.clone();
    path.push_str("/");
    path.push_str(call_id.as_str());
    path.push_str(suffix);
    path
}

/// An endpoint that is a party's feeds no companion relay; any other feeds the first that listens on it, and no
/// second. The call owns exactly the endpoints of its parties and of its relays.
pub proof fn law_endpoints_of_a_call(call: MediaCallView, endpoint: EndpointId, first: int, second: int)
    ensures
        call.relay_of(endpoint, first) && call.relay_of(endpoint, second) ==> first == second,
        endpoint == call.a_to_b.ingress_endpoint || endpoint == call.b_to_a.ingress_endpoint ==> !call.relay_of(
            endpoint,
            first,
        ) && call.owns(endpoint),
        call.owns(endpoint) <==> endpoint == call.a_to_b.ingress_endpoint || endpoint == call.b_to_a.ingress_endpoint
            || exists|i: int| 0 <= i < call.rtcp.len() && (#[trigger] call.rtcp[i]).ingress_endpoint == endpoint,
{
    if call.relay_of(endpoint, first) && call.relay_of(endpoint, second) {
        if first < second {
            assert(call.rtcp[first].ingress_endpoint != endpoint);
        } else if second < first {
            assert(call.rtcp[second].ingress_endpoint != endpoint);
        }
    }
    if call.leg_of(endpoint) is None && exists|i: int|
        0 <= i < call.rtcp.len() && (#[trigger] call.rtcp[i]).ingress_endpoint == endpoint {
        let i = choose|i: int| 0 <= i < call.rtcp.len() && (#[trigger] call.rtcp[i]).ingress_endpoint == endpoint;
        let least = lemma_first_relay(call, endpoint, i);
        assert(call.relay_of(endpoint, least));
    }
    if call.owns(endpoint) && call.leg_of(endpoint) is None {
        let index = choose|index: int| #[trigger] call.relay_of(endpoint, index);
        assert(call.rtcp[index].ingress_endpoint == endpoint);
    }
}

/// Among the companion relays that listen on an endpoint there is a first.
proof fn lemma_first_relay(call: MediaCallView, endpoint: EndpointId, i: int) -> (least: int)
    requires
        0 <= i < call.rtcp.len(),
        call.rtcp[i].ingress_endpoint == endpoint,
    ensures
        0 <= least <= i,
        call.rtcp[least].ingress_endpoint == endpoint,
        forall|j: int| 0 <= j < least ==> (#[trigger] call.rtcp[j]).ingress_endpoint != endpoint,
    decreases i,
{
    if exists|j: int| 0 <= j < i && (#[trigger] call.rtcp[j]).ingress_endpoint == endpoint {
        let j = choose|j: int| 0 <= j < i && (#[trigger] call.rtcp[j]).ingress_endpoint == endpoint;
        lemma_first_relay(call, endpoint, j)
    } else {
        i
    }
}

/// Encrypting the far party's leg seals what is sent to that party and opens what comes from them; the near
/// party's leg stays as it was, and so does all else.
pub proof fn law_far_leg_is_encrypted_alone(call: MediaCallView)
    ensures
        ({
            let secured = call.far_secured();
            &&& secured.a_to_b.secure_egress && secured.b_to_a.secure_ingress
            &&& secured.a_to_b.secure_ingress == call.a_to_b.secure_ingress
            &&& secured.b_to_a.secure_egress == call.b_to_a.secure_egress
            &&& (DirectionView { secure_egress: call.a_to_b.secure_egress, ..secured.a_to_b }) == call.a_to_b
            &&& (DirectionView { secure_ingress: call.b_to_a.secure_ingress, ..secured.b_to_a }) == call.b_to_a
            &&& secured.identity == call.identity && secured.latch == call.latch && secured.echo == call.echo
            &&& secured.rtcp == call.rtcp && secured.capture == call.capture && secured.record_path
                == call.record_path
        }),
{
}

/// A single-leg call idles on comfort noise of the payload type it was given, toward the caller alone.
pub proof fn law_single_leg_idles_toward_the_caller(call: MediaCallView, cn_pt: Option<u8>)
    ensures
        ({
            let idle = call.idling(cn_pt);
            &&& idle.a_to_b.comfort is Some && idle.a_to_b.comfort->Some_0.cn_pt == cn_pt
            &&& (DirectionView { comfort: call.a_to_b.comfort, ..idle.a_to_b }) == call.a_to_b
            &&& idle.b_to_a == call.b_to_a
        }),
{
}

/// A datagram gets no further than the filter it meets: that of the party whose endpoint it came to, or else that
/// of the first companion relay there. What is let in is handled for that party or relay; an encrypted relay opens
/// it first. A datagram for another's endpoint is dropped.
pub proof fn law_only_accepted_sources_get_in(call: MediaCallView, packet: RxPacket, entry: Entry, index: int)
    requires
        call.takes_in(packet, entry),
    ensures
        entry matches Entry::Media { leg, .. } ==> {
            let direction = if leg is A {
                call.a_to_b
            } else {
                call.b_to_a
            };
            &&& packet.endpoint == direction.ingress_endpoint
            &&& direction.accepted_source.accepts_spec(packet.source.ip)
        },
        packet.endpoint == call.a_to_b.ingress_endpoint && call.a_to_b.accepted_source.accepts_spec(packet.source.ip)
            ==> (entry matches Entry::Media { leg, .. } && leg is A),
        packet.endpoint == call.b_to_a.ingress_endpoint && packet.endpoint != call.a_to_b.ingress_endpoint
            && call.b_to_a.accepted_source.accepts_spec(packet.source.ip) ==> (entry matches Entry::Media { leg, .. }
            && leg is B),
        !call.owns(packet.endpoint) ==> entry is Dropped,
        call.relay_of(packet.endpoint, index) ==> {
            let relay = call.rtcp[index];
            let accepted = relay.accepted_source.accepts_spec(packet.source.ip);
            &&& entry is Dropped <==> !accepted
            &&& accepted ==> entry is Rtcp && entry->relay == relay
            &&& accepted && relay.secure_ingress ==> entry->companion@ == (RtcpStepView::Unprotect {
                data: packet.data@,
            })
        },
{
    if call.leg_of(packet.endpoint) is None && call.owns(packet.endpoint) {
        let found = choose|found: int| #[trigger] call.relay_of(packet.endpoint, found);
        assert(call.relay_of(packet.endpoint, found));
    }
}

/// Once a walk is over, the round trip is read off RTCP in the clear alone, and a mode request steers the encoder
/// unless parties are reflected.
pub proof fn law_what_is_left_to_do(call: MediaCallView, leg: Leg, data: Seq<u8>)
    ensures
        call.left_to_do(leg, data).steer_mode <==> !call.echo,
        leg is A ==> (call.left_to_do(leg, data).observe_rtt <==> rtcp_datagram(data) && !call.a_to_b.secure_ingress),
        leg is B ==> (call.left_to_do(leg, data).observe_rtt <==> rtcp_datagram(data) && !call.b_to_a.secure_ingress),
{
}

/// Keys toward a party are played on the stream that this party hears: its telephone-event type, its clock and
/// its packet time; and not at all where it has no such type.
pub proof fn law_keys_fit_the_stream_they_ride_on(call: MediaCallView)
    ensures
        call.key_plan(Leg::A) is Some <==> call.b_to_a.telephone_event_out is Some,
        call.key_plan(Leg::B) is Some <==> call.a_to_b.telephone_event_out is Some,
        call.key_plan(Leg::A) matches Some(plan) ==> call.b_to_a.telephone_event_out == Some(plan.payload_type)
            && plan.clock_rate == call.b_to_a.egress_sample_rate && (call.b_to_a.ptime_ms() <= 255 ==> plan.ptime_ms
            == call.b_to_a.ptime_ms()),
        call.key_plan(Leg::B) matches Some(plan) ==> call.a_to_b.telephone_event_out == Some(plan.payload_type)
            && plan.clock_rate == call.a_to_b.egress_sample_rate && (call.a_to_b.ptime_ms() <= 255 ==> plan.ptime_ms
            == call.a_to_b.ptime_ms()),
{
    crate::media_pipeline::behaviour::law_packet_time(call.a_to_b);
    crate::media_pipeline::behaviour::law_packet_time(call.b_to_a);
}

/// A recording is written of each party that was recorded and said something, and only where there is a place to
/// write it.
pub proof fn law_what_is_written_at_the_end(call: MediaCallView, a_samples: u64, b_samples: u64)
    ensures
        ({
            let files = call.recordings(a_samples, b_samples);
            let a = call.a_to_b.recorder && a_samples > 0;
            let b = call.b_to_a.recorder && b_samples > 0;
            &&& call.record_path is None ==> files.len() == 0
            &&& call.record_path is Some ==> {
                &&& a && b ==> files.len() == 2 && files[0].0 is A && files[1].0 is B
                &&& a && !b ==> files.len() == 1 && files[0].0 is A
                &&& !a && b ==> files.len() == 1 && files[0].0 is B
                &&& !a && !b ==> files.len() == 0
            }
        }),
{
}

/// While parties are reflected no comfort noise is played, and what is injected goes on.
pub proof fn law_reflection_holds_comfort_noise_back(call: MediaCallView, leg: Leg)
    requires
        call.echo,
    ensures
        call.direction(leg).injection is None ==> call.playout_step(leg) == (MediaStepView::Done { latch: None }),
        (MediaCallView { echo: false, ..call }).direction(leg).injection is Some ==> call.playout_step(leg)
            == (MediaCallView { echo: false, ..call }).playout_step(leg),
{
}

/// A party's reports speak of the stream that this party is sent, and of no other: what is read of the round trip
/// is read for that stream.
pub proof fn law_round_trip_is_of_the_stream_sent_there(call: MediaCallView, compound: Seq<RtcpReport>)
    ensures
        call.round_trips(Leg::A, compound) == compound_notes(compound, call.b_to_a.egress_ssrc),
        call.round_trips(Leg::B, compound) == compound_notes(compound, call.a_to_b.egress_ssrc),
{
}

/// A prompt that its leg takes along fails, and so does no other injection: one report for each prompt, the one
/// out of party A's direction first.
pub proof fn law_prompts_of_a_lost_leg_fail(call: MediaCallView)
    ensures
        ({
            let a = call.a_to_b.injection is Some && call.a_to_b.injection->Some_0 is Audio;
            let b = call.b_to_a.injection is Some && call.b_to_a.injection->Some_0 is Audio;
            let reports = call.failed_plays();
            &&& reports.len() == (if a {
                1int
            } else {
                0
            }) + (if b {
                1int
            } else {
                0
            })
            &&& forall|i: int| #![trigger reports[i]]
                0 <= i < reports.len() ==> (reports[i] matches EventView::PlayFinished { reason, .. } && reason is Error)
        }),
{
}

} // verus!
