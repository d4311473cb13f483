//! What holds of every media call.
use crate::event::PlayEndReason;
use crate::media_pipeline::call::{play_events, Leg, MediaCallView};
use crate::media_pipeline::direction::{
    entry_treatment, fresh_direction, fresh_relay, silence, timestamp_increment, CodecParams, DirectionConfig, DirectionView,
    RelayConfig, ToolSupport,
};
use crate::media_pipeline::latch::rtcp_datagram;
use crate::media_pipeline::step::{
    Advance, DtmfStep, MediaStepView, Onward, OutboundView, RtpHeader, RtpPacketView, Treatment,
};
use crate::net::SocketAddress;
use vstd::prelude::*;

verus! {

/// Subscribers get every plaintext datagram byte for byte, and first, whether or not the leg is
/// blocked.
pub proof fn law_subscribers_get_everything(direction: DirectionView, data: Seq<u8>, blocked: bool)
    ensures
        ({
            let held = DirectionView { blocked, ..direction };
            &&& held.plaintext_sends(data).len() >= direction.raw_tee.len()
            &&& held.plaintext_sends(data).take(direction.raw_tee.len() as int) == direction.tees(data)
            &&& forall|i: int| 0 <= i < direction.raw_tee.len() ==> (#[trigger] direction.tees(data)[i]).data == data
        }),
{
    let held = DirectionView { blocked, ..direction };
    assert(held.tees(data) =~= direction.tees(data));
    assert(held.plaintext_sends(data).take(direction.raw_tee.len() as int) =~= direction.tees(data));
}

/// A relay forwards what it gets byte for byte, and nothing at all while it is blocked.
pub proof fn law_relay_is_verbatim(direction: DirectionView, data: Seq<u8>)
    requires
        direction.relay_only,
        !direction.drops_event(data),
    ensures
        direction.blocked ==> direction.plaintext_sends(data) == direction.tees(data),
        !direction.blocked ==> direction.plaintext_sends(data) == direction.tees(data).push(direction.outbound(data)),
{
}

/// A packet that was not authenticated never moves the reply, and neither does RTCP.
pub proof fn law_unauthenticated_never_moves_the_reply(call: MediaCallView, leg: Leg, source: SocketAddress)
    ensures
        call.completed(leg, source, None) == call,
{
}

/// On a secure leg a datagram does nothing before it was authenticated, whether it goes on to the peer or is
/// reflected: it sends nothing, and offers nothing to the latch.
pub proof fn law_secure_leg_authenticates_first(direction: DirectionView, data: Seq<u8>, echo: bool)
    requires
        direction.secure_ingress,
    ensures
        direction.entry_sends(data, echo) == Seq::<OutboundView>::empty(),
        direction.entry_step(data, echo) == (MediaStepView::Done { latch: None }) || direction.entry_step(data, echo)
            == (MediaStepView::Unprotect { data, treatment: entry_treatment(echo) }),
{
}

/// RTCP leaves the reply where it is: whatever a plaintext RTCP datagram leads to, it offers nothing to
/// the latch.
pub proof fn law_rtcp_offers_nothing(direction: DirectionView, data: Seq<u8>)
    requires
        rtcp_datagram(data),
    ensures
        direction.plaintext_step(data) == (MediaStepView::Done { latch: None }) || direction.plaintext_step(data) == (
        MediaStepView::Protect { data, after: Onward::ends(None) }),
        direction.reflect_step(data) == (MediaStepView::Done { latch: None }),
{
}

/// The reply follows a stream that changes its source but keeps its SSRC.
pub proof fn law_reply_follows_a_rebind(call: MediaCallView, leg: Leg, first: SocketAddress, next: SocketAddress, ssrc: u32)
    requires
        call.latch,
        call.direction(leg).source_latch.follows(first, ssrc),
    ensures
        call.completed(leg, first, Some(ssrc)).direction(leg.other_spec()).egress_dst == first,
        call.completed(leg, first, Some(ssrc)).completed(leg, next, Some(ssrc)).direction(leg.other_spec()).egress_dst
            == next,
{
}

/// Once a stream is followed, another stream from elsewhere changes nothing.
pub proof fn law_reply_resists_a_hijack(
    call: MediaCallView,
    leg: Leg,
    genuine: SocketAddress,
    ssrc: u32,
    intruder: SocketAddress,
    other_ssrc: u32,
)
    requires
        call.latch,
        call.direction(leg).source_latch.follows(genuine, ssrc),
        intruder != genuine,
        other_ssrc != ssrc,
    ensures
        call.completed(leg, genuine, Some(ssrc)).completed(leg, intruder, Some(other_ssrc)) == call.completed(
            leg,
            genuine,
            Some(ssrc),
        ),
{
}

/// The state after a number of written packets.
pub open spec fn after_packets(direction: DirectionView, advance: Advance, packets: nat) -> DirectionView
    decreases packets,
{
    if packets == 0 {
        direction
    } else {
        after_packets(direction, advance, (packets - 1) as nat).advanced(advance)
    }
}

/// An egress stream is contiguous: each packet is one sequence number on, and each audio packet one
/// frame later, around the end of either range.
pub proof fn law_stream_is_contiguous(direction: DirectionView, packets: nat)
    ensures
        ({
            let audio = after_packets(direction, Advance::Stream, packets);
            let keys = after_packets(direction, Advance::SequenceOnly, packets);
            &&& audio.egress_sequence == (direction.egress_sequence + packets) % 0x1_0000
            &&& audio.egress_timestamp == (direction.egress_timestamp + packets * direction.egress_timestamp_increment)
                % 0x1_0000_0000
            &&& keys.egress_sequence == (direction.egress_sequence + packets) % 0x1_0000
            &&& keys.egress_timestamp == direction.egress_timestamp
            &&& audio.egress_timestamp_increment == direction.egress_timestamp_increment
        }),
    decreases packets,
{
    if packets > 0 {
        let prior = (packets - 1) as nat;
        law_stream_is_contiguous(direction, prior);
        let step = direction.egress_timestamp_increment as int;
        assert(packets * step == prior * step + step) by (nonlinear_arith)
            requires
                packets == prior + 1,
        ;
    } else {
        assert(0 * direction.egress_timestamp_increment == 0);
    }
}

/// The datagrams that the audio waiting in a plaintext direction leaves in, when every frame can be
/// encoded by `encode` and written by `write`.
pub open spec fn walk(
    direction: DirectionView,
    encode: spec_fn(Seq<i16>) -> Seq<u8>,
    write: spec_fn(RtpHeader, Seq<u8>) -> Seq<u8>,
) -> Seq<OutboundView>
    decreases direction.repacketizer.pending.len(),
{
    if direction.repacketizer.has_frame() {
        let taken = direction.drained();
        let header = taken.header(direction.pending_marker, taken.egress_payload_type, taken.egress_timestamp);
        seq![taken.outbound(write(header, encode(direction.repacketizer.frame())))] + walk(
            taken.advanced(Advance::Stream),
            encode,
            write,
        )
    } else {
        Seq::empty()
    }
}

/// The direction after that.
pub open spec fn walked(direction: DirectionView) -> DirectionView
    decreases direction.repacketizer.pending.len(),
{
    if direction.repacketizer.has_frame() {
        walked(direction.drained().advanced(Advance::Stream))
    } else {
        direction
    }
}

/// The header of the `i`-th packet of a walk: one sequence number and one frame of time after the one
/// before it. Only the first carries the start of a talkspurt.
pub open spec fn walk_header(direction: DirectionView, i: int) -> RtpHeader {
    RtpHeader {
        marker: i == 0 && direction.pending_marker,
        payload_type: direction.egress_payload_type,
        sequence: ((direction.egress_sequence + i) % 0x1_0000) as u16,
        timestamp: ((direction.egress_timestamp + i * direction.egress_timestamp_increment) % 0x1_0000_0000) as u32,
        ssrc: direction.egress_ssrc,
    }
}

/// A walk sends every whole frame of the audio that waits, in order and each once, as one contiguous
/// stream, and keeps less than a frame for later.
pub proof fn law_walk_sends_every_frame(
    direction: DirectionView,
    encode: spec_fn(Seq<i16>) -> Seq<u8>,
    write: spec_fn(RtpHeader, Seq<u8>) -> Seq<u8>,
)
    requires
        direction.repacketizer.frame_samples > 0,
    ensures
        ({
            let sent = walk(direction, encode, write);
            let frames = direction.repacketizer.frames();
            &&& sent.len() == frames.len()
            &&& forall|i: int|
                0 <= i < sent.len() ==> #[trigger] sent[i] == direction.outbound(
                    write(walk_header(direction, i), encode(frames[i])),
                )
            &&& walked(direction).repacketizer.pending == direction.repacketizer.leftover()
            &&& walked(direction).egress_sequence == (direction.egress_sequence + sent.len()) % 0x1_0000
            &&& walked(direction).egress_timestamp == (direction.egress_timestamp + sent.len()
                * direction.egress_timestamp_increment) % 0x1_0000_0000
            &&& walked(direction).pending_marker == (direction.pending_marker && sent.len() == 0)
        }),
    decreases direction.repacketizer.pending.len(),
{
    let sent = walk(direction, encode, write);
    let frames = direction.repacketizer.frames();
    let step = direction.egress_timestamp_increment as int;
    if direction.repacketizer.has_frame() {
        let taken = direction.drained();
        let next = taken.advanced(Advance::Stream);
        law_walk_sends_every_frame(next, encode, write);
        let later = walk(next, encode, write);
        assert(next.egress_timestamp == (direction.egress_timestamp + step) % 0x1_0000_0000);
        assert forall|i: int| 0 <= i < sent.len() implies #[trigger] sent[i] == direction.outbound(
            write(walk_header(direction, i), encode(frames[i])),
        ) by {
            if i == 0 {
                assert(0 * step == 0);
                assert(walk_header(direction, 0) == taken.header(
                    direction.pending_marker,
                    taken.egress_payload_type,
                    taken.egress_timestamp,
                ));
            } else {
                assert(sent[i] == later[i - 1]);
                assert(frames[i] == next.repacketizer.frames()[i - 1]);
                assert(i * step == (i - 1) * step + step) by (nonlinear_arith);
                assert(walk_header(direction, i) == walk_header(next, i - 1));
            }
        }
        assert(sent.len() == 1 + later.len());
        assert(sent.len() * step == later.len() * step + step) by (nonlinear_arith)
            requires
                sent.len() == 1 + later.len(),
        ;
    } else {
        assert(0 * step == 0);
    }
}

/// The outside work of an egress walk, as functions of what it is given: `None` where it fails.
pub struct EgressTools {
    /// The next frame of the prompt that plays.
    pub prompt: Option<Vec<i16>>,
    /// The next step of the key-press sequence that plays.
    pub keys: DtmfStep,
    pub resample: spec_fn(Seq<i16>) -> Seq<i16>,
    pub noise: spec_fn(u8, nat) -> Seq<i16>,
    pub encode: spec_fn(Seq<i16>) -> Option<Seq<u8>>,
    pub write: spec_fn(RtpHeader, Seq<u8>) -> Option<Seq<u8>>,
    pub protect: spec_fn(Seq<u8>) -> Option<Seq<u8>>,
}

/// What an egress walk sends, and the direction at its end.
pub struct EgressWalk {
    pub sent: Seq<OutboundView>,
    pub end: DirectionView,
}

impl EgressWalk {
    /// The walk with one more datagram in front.
    pub open spec fn after(self, datagram: OutboundView) -> EgressWalk {
        EgressWalk { sent: seq![datagram] + self.sent, ..self }
    }

    /// The walk with some datagrams in front.
    pub open spec fn behind(self, datagrams: Seq<OutboundView>) -> EgressWalk {
        EgressWalk { sent: datagrams + self.sent, ..self }
    }
}

/// How far a frame is from the wire.
pub open spec fn stage(step: MediaStepView) -> nat {
    match step {
        MediaStepView::Encode { .. } => 3,
        MediaStepView::Frame { .. } => 2,
        MediaStepView::Protect { .. } => 1,
        _ => 0,
    }
}

/// What follows the packet that a step is about.
pub open spec fn onward(step: MediaStepView) -> Onward {
    match step {
        MediaStepView::Encode { after, .. } => after,
        MediaStepView::Frame { after, .. } => after,
        MediaStepView::Protect { after, .. } => after,
        _ => Onward::ends(None),
    }
}

/// The walk from a frame to be encoded, a packet to be written or one to be protected, up to its end: each
/// result selects the next step as the direction's own functions say.
pub open spec fn egress_walk(direction: DirectionView, step: MediaStepView, tools: EgressTools) -> EgressWalk
    decreases direction.repacketizer.pending.len(), stage(step),
{
    match step {
        MediaStepView::Encode { pcm, marker, after } => {
            let payload = (tools.encode)(pcm);
            egress_walk(direction.encoded_on(payload, after), direction.encoded_step(payload, marker, after), tools)
        },
        MediaStepView::Frame { header, payload, advance, after } => {
            let packet = (tools.write)(header, payload);
            egress_walk(
                direction.framed_on(packet, advance, after),
                direction.framed_step(packet, advance, after),
                tools,
            ).behind(direction.framed_sends(packet))
        },
        MediaStepView::Protect { data, after } => egress_walk(
            direction.went_on(after),
            direction.onward_step(after),
            tools,
        ).behind(direction.protected_sends((tools.protect)(data))),
        _ => EgressWalk { sent: Seq::empty(), end: direction },
    }
}

/// A walk through re-framed audio ends with no whole frame waiting. Every other walk sends at most one
/// datagram, and leaves what waits as it is.
pub proof fn law_walk_ends_at_rest(direction: DirectionView, step: MediaStepView, tools: EgressTools)
    ensures
        onward(step).frames ==> egress_walk(direction, step, tools).end.at_rest(),
        !onward(step).frames ==> {
            &&& egress_walk(direction, step, tools).sent.len() <= 1
            &&& egress_walk(direction, step, tools).end.repacketizer == direction.repacketizer
            &&& egress_walk(direction, step, tools).end.pending_marker == direction.pending_marker
            &&& stage(step) == 0 ==> egress_walk(direction, step, tools).sent.len() == 0
        },
    decreases direction.repacketizer.pending.len(), stage(step),
{
    match step {
        MediaStepView::Encode { pcm, marker, after } => {
            let payload = (tools.encode)(pcm);
            let next = direction.encoded_step(payload, marker, after);
            let state = direction.encoded_on(payload, after);
            if stage(next) > 0 {
                law_walk_ends_at_rest(state, next, tools);
            }
        },
        MediaStepView::Frame { header, payload, advance, after } => {
            let packet = (tools.write)(header, payload);
            let next = direction.framed_step(packet, advance, after);
            let state = direction.framed_on(packet, advance, after);
            if stage(next) > 0 {
                law_walk_ends_at_rest(state, next, tools);
            }
        },
        MediaStepView::Protect { data, after } => {
            let next = direction.onward_step(after);
            let state = direction.went_on(after);
            if stage(next) > 0 {
                law_walk_ends_at_rest(state, next, tools);
            }
        },
        _ => {},
    }
}

/// What a packet is when it goes out: sealed where the egress is encrypted.
pub open spec fn on_the_wire(direction: DirectionView, tools: EgressTools, header: RtpHeader, pcm: Seq<i16>) -> Seq<u8> {
    let packet = (tools.write)(header, (tools.encode)(pcm)->Some_0)->Some_0;
    if direction.secure_egress {
        (tools.protect)(packet)->Some_0
    } else {
        packet
    }
}

/// The first of the frames that wait leaves, and then the others.
proof fn lemma_first_frame_leaves(direction: DirectionView, latch: Option<u32>, tools: EgressTools)
    requires
        direction.repacketizer.has_frame(),
        forall|pcm: Seq<i16>| #[trigger] (tools.encode)(pcm) is Some,
        forall|header: RtpHeader, payload: Seq<u8>| #[trigger] (tools.write)(header, payload) is Some,
        forall|data: Seq<u8>| #[trigger] (tools.protect)(data) is Some,
    ensures
        ({
            let next = direction.drained().advanced(Advance::Stream);
            let header = RtpHeader {
                marker: direction.pending_marker,
                payload_type: direction.egress_payload_type,
                sequence: direction.egress_sequence,
                timestamp: direction.egress_timestamp,
                ssrc: direction.egress_ssrc,
            };
            egress_walk(direction.drained(), direction.drain_step(latch), tools) == egress_walk(
                next.drained(),
                next.drain_step(latch),
                tools,
            ).behind(
                seq![
                    OutboundView {
                        endpoint: direction.egress_endpoint,
                        dst: direction.egress_dst,
                        data: on_the_wire(direction, tools, header, direction.repacketizer.frame()),
                    },
                ],
            )
        }),
{
    let leaves = egress_walk(direction.drained(), direction.drain_step(latch), tools);
    let taken = direction.drained();
    let next = taken.advanced(Advance::Stream);
    let frame = direction.repacketizer.frame();
    let after = Onward::drains(latch);
    let header = taken.header(direction.pending_marker, taken.egress_payload_type, taken.egress_timestamp);
    let payload = (tools.encode)(frame);
    assert(payload is Some);
    let packet = (tools.write)(header, payload->Some_0);
    assert(packet is Some);
    let written = MediaStepView::Frame { header, payload: payload->Some_0, advance: Advance::Stream, after };
    assert(direction.drain_step(latch) == MediaStepView::Encode {
        pcm: frame,
        marker: direction.pending_marker,
        after,
    });
    assert(taken.encoded_step(payload, direction.pending_marker, after) == written);
    assert(leaves == egress_walk(taken, written, tools));
    let later = egress_walk(next.drained(), next.drain_step(latch), tools);
    if direction.secure_egress {
        let sealing = MediaStepView::Protect { data: packet->Some_0, after };
        assert((tools.protect)(packet->Some_0) is Some);
        let sealed = egress_walk(next, sealing, tools);
        assert(taken.framed_step(packet, Advance::Stream, after) == sealing);
        assert(taken.framed_on(packet, Advance::Stream, after) == next);
        assert(leaves == sealed.behind(Seq::empty()));
        assert(leaves.sent =~= sealed.sent);
    }
}

/// A piece of what is left after the first samples is the piece that far on.
proof fn lemma_piece_of_the_rest(pending: Seq<i16>, size: int, low: int, high: int)
    requires
        0 <= size <= low <= high <= pending.len(),
    ensures
        pending.skip(size).subrange(low - size, high - size) == pending.subrange(low, high),
{
    assert(pending.skip(size).subrange(low - size, high - size) =~= pending.subrange(low, high));
}

/// The `i`-th datagram of audio that waits: the `i`-th frame, from the party's endpoint to the party's address,
/// `i` sequence numbers and `i` frames of time on from where the stream stands, around the end of either range.
pub open spec fn nth_datagram(direction: DirectionView, tools: EgressTools, i: int) -> OutboundView {
    let size = direction.repacketizer.frame_samples as int;
    OutboundView {
        endpoint: direction.egress_endpoint,
        dst: direction.egress_dst,
        data: on_the_wire(
            direction,
            tools,
            RtpHeader {
                marker: i == 0 && direction.pending_marker,
                payload_type: direction.egress_payload_type,
                sequence: ((direction.egress_sequence + i) % 0x1_0000) as u16,
                timestamp: ((direction.egress_timestamp + i * direction.egress_timestamp_increment)
                    % 0x1_0000_0000) as u32,
                ssrc: direction.egress_ssrc,
            },
            direction.repacketizer.pending.subrange(i * size, (i + 1) * size),
        ),
    }
}

/// The first datagram is the first frame as the stream stands, and the others are those of the rest.
proof fn lemma_nth_datagram(direction: DirectionView, tools: EgressTools, i: int)
    requires
        direction.repacketizer.has_frame(),
        0 <= i,
        (i + 1) * direction.repacketizer.frame_samples <= direction.repacketizer.pending.len(),
    ensures
        i == 0 ==> nth_datagram(direction, tools, i) == (OutboundView {
            endpoint: direction.egress_endpoint,
            dst: direction.egress_dst,
            data: on_the_wire(
                direction,
                tools,
                RtpHeader {
                    marker: direction.pending_marker,
                    payload_type: direction.egress_payload_type,
                    sequence: direction.egress_sequence,
                    timestamp: direction.egress_timestamp,
                    ssrc: direction.egress_ssrc,
                },
                direction.repacketizer.frame(),
            ),
        }),
        i > 0 ==> nth_datagram(direction, tools, i) == nth_datagram(
            direction.drained().advanced(Advance::Stream),
            tools,
            i - 1,
        ),
{
    let size = direction.repacketizer.frame_samples as int;
    let step = direction.egress_timestamp_increment as int;
    let pending = direction.repacketizer.pending;
    let next = direction.drained().advanced(Advance::Stream);
    if i == 0 {
        assert(i * size == 0 && (i + 1) * size == size && i * step == 0) by (nonlinear_arith)
            requires
                i == 0,
        ;
        assert(pending.subrange(0, size) =~= direction.repacketizer.frame());
    } else {
        assert(i * step == (i - 1) * step + step) by (nonlinear_arith);
        assert(i * size == (i - 1) * size + size && (i + 1) * size == i * size + size) by (nonlinear_arith);
        assert(size <= i * size) by (nonlinear_arith)
            requires
                size > 0,
                1 <= i,
        ;
        lemma_piece_of_the_rest(pending, size, i * size, (i + 1) * size);
        lemma_around(direction.egress_sequence as int, 1, i - 1, 0x1_0000);
        lemma_around(direction.egress_timestamp as int, step, (i - 1) * step, 0x1_0000_0000);
        assert(next.egress_sequence == (direction.egress_sequence + 1) % 0x1_0000);
        assert(next.egress_timestamp == (direction.egress_timestamp + step) % 0x1_0000_0000);
        assert(walk_header(direction, i) == walk_header(next, i - 1));
    }
}

/// Going around the end of a range midway changes nothing.
pub proof fn lemma_around(base: int, first: int, more: int, range: int)
    requires
        range > 0,
    ensures
        ((base + first) % range + more) % range == (base + first + more) % range,
{
    vstd::arithmetic::div_mod::lemma_add_mod_noop(base + first, more, range);
    vstd::arithmetic::div_mod::lemma_add_mod_noop((base + first) % range, more, range);
    vstd::arithmetic::div_mod::lemma_mod_twice(base + first, range);
}

/// Re-framed audio leaves as one contiguous stream: every whole frame once and in order, each from the party's
/// endpoint to the party's address, sealed where that leg is encrypted; each packet one sequence number and
/// one frame of time after the one before it, around the end of either range, under the stream's SSRC and
/// payload type; and only the first with the mark of a talkspurt that began. What is less than a frame waits.
#[verifier::rlimit(50)]
#[verifier::spinoff_prover]
pub proof fn law_frames_leave_in_order(direction: DirectionView, latch: Option<u32>, tools: EgressTools)
    requires
        direction.repacketizer.frame_samples > 0,
        forall|pcm: Seq<i16>| #[trigger] (tools.encode)(pcm) is Some,
        forall|header: RtpHeader, payload: Seq<u8>| #[trigger] (tools.write)(header, payload) is Some,
        forall|data: Seq<u8>| #[trigger] (tools.protect)(data) is Some,
    ensures
        ({
            let leaves = egress_walk(direction.drained(), direction.drain_step(latch), tools);
            let size = direction.repacketizer.frame_samples as int;
            let pending = direction.repacketizer.pending;
            let count = pending.len() as int / size;
            &&& leaves.sent.len() == count
            &&& forall|i: int| 0 <= i < count ==> #[trigger] leaves.sent[i] == nth_datagram(direction, tools, i)
            &&& leaves.end.repacketizer.pending == pending.skip(count * size)
            &&& leaves.end.egress_sequence == (direction.egress_sequence + count) % 0x1_0000
            &&& leaves.end.egress_timestamp == (direction.egress_timestamp + count
                * direction.egress_timestamp_increment) % 0x1_0000_0000
        }),
    decreases direction.repacketizer.pending.len(),
{
    let leaves = egress_walk(direction.drained(), direction.drain_step(latch), tools);
    let size = direction.repacketizer.frame_samples as int;
    let pending = direction.repacketizer.pending;
    let count = pending.len() as int / size;
    let step = direction.egress_timestamp_increment as int;
    vstd::arithmetic::div_mod::lemma_fundamental_div_mod(pending.len() as int, size);
    vstd::arithmetic::div_mod::lemma_mod_bound(pending.len() as int, size);
    assert(count * size <= pending.len()) by (nonlinear_arith)
        requires
            pending.len() == size * count + pending.len() as int % size,
            0 <= pending.len() as int % size,
    ;
    if direction.repacketizer.has_frame() {
        let next = direction.drained().advanced(Advance::Stream);
        let later = egress_walk(next.drained(), next.drain_step(latch), tools);
        let rest = next.repacketizer.pending;
        assert(rest == pending.skip(size));
        assert(rest.len() as int / size == count - 1) by (nonlinear_arith)
            requires
                size > 0,
                rest.len() == pending.len() - size,
                count == pending.len() as int / size,
        ;
        assert(count >= 1) by (nonlinear_arith)
            requires
                size > 0,
                pending.len() >= size,
                count == pending.len() as int / size,
        ;
        lemma_first_frame_leaves(direction, latch, tools);
        law_frames_leave_in_order(next, latch, tools);
        assert forall|i: int| 0 <= i < count implies #[trigger] leaves.sent[i] == nth_datagram(direction, tools, i) by {
            assert((i + 1) * size <= count * size) by (nonlinear_arith)
                requires
                    size > 0,
                    i + 1 <= count,
            ;
            lemma_nth_datagram(direction, tools, i);
            if i > 0 {
                assert(leaves.sent[i] == later.sent[i - 1]);
            }
        }
        assert(count * size == (count - 1) * size + size) by (nonlinear_arith);
        assert(0 <= (count - 1) * size) by (nonlinear_arith)
            requires
                count >= 1,
                size > 0,
        ;
        assert(pending.skip(size).skip((count - 1) * size) =~= pending.skip(count * size));
        assert(count * step == (count - 1) * step + step) by (nonlinear_arith);
        lemma_around(direction.egress_sequence as int, 1, count - 1, 0x1_0000);
        lemma_around(direction.egress_timestamp as int, step, (count - 1) * step, 0x1_0000_0000);
        assert(next.egress_sequence == (direction.egress_sequence + 1) % 0x1_0000);
        assert(next.egress_timestamp == (direction.egress_timestamp + step) % 0x1_0000_0000);
    } else {
        assert(count == 0) by (nonlinear_arith)
            requires
                size > 0,
                0 <= pending.len() < size,
                count == pending.len() as int / size,
        ;
        assert(count * step == 0 && count * size == 0) by (nonlinear_arith)
            requires
                count == 0,
        ;
        assert(pending.skip(0) =~= pending);
    }
}

/// Only re-framed audio leaves in more than one packet: a datagram that is relayed, reflected or sent on as a
/// telephone-event does not touch what waits to be framed.
pub proof fn law_only_framing_drains(
    direction: DirectionView,
    data: Seq<u8>,
    echo: bool,
    packet: RtpPacketView,
    treatment: Treatment,
)
    ensures
        !onward(direction.entry_step(data, echo)).frames,
        !onward(direction.plaintext_step(data)).frames,
        !onward(direction.reflect_step(data)).frames,
        !onward(direction.detected_step(packet, treatment)).frames,
{
}

/// The first step of what a playout tick sends, and the direction at that step.
pub open spec fn tick_begins(direction: DirectionView, comfort_enabled: bool, tools: EgressTools) -> (
    DirectionView,
    MediaStepView,
) {
    let begun = direction.ticked(comfort_enabled);
    match direction.tick_step(comfort_enabled) {
        MediaStepView::NextPrompt { .. } => {
            let played = begun.after_prompt_frame(tools.prompt);
            match tools.prompt {
                None => (played, MediaStepView::Done { latch: None }),
                Some(frame) => if begun.injection->Some_0->resampled {
                    let pcm = (tools.resample)(frame@);
                    (played.heard(pcm), MediaStepView::Encode { pcm, marker: false, after: Onward::ends(None) })
                } else {
                    (played, MediaStepView::Encode { pcm: frame@, marker: false, after: Onward::ends(None) })
                },
            }
        },
        MediaStepView::NextDtmf => (begun.after_keys(tools.keys), begun.keys_step(tools.keys)),
        MediaStepView::FillNoise { level, samples } => {
            let pcm = (tools.noise)(level, samples);
            (begun.heard(pcm), MediaStepView::Encode { pcm, marker: false, after: Onward::ends(None) })
        },
        step => (begun, step),
    }
}

/// Everything a playout tick of a direction does.
pub open spec fn tick_walk(direction: DirectionView, comfort_enabled: bool, tools: EgressTools) -> EgressWalk {
    let (begun, step) = tick_begins(direction, comfort_enabled, tools);
    egress_walk(begun, step, tools)
}

/// A playout tick of a direction sends at most one datagram, whatever waits to be framed, and leaves that as
/// it is.
pub proof fn law_tick_sends_at_most_one(direction: DirectionView, comfort_enabled: bool, tools: EgressTools)
    ensures
        tick_walk(direction, comfort_enabled, tools).sent.len() <= 1,
        tick_walk(direction, comfort_enabled, tools).end.repacketizer == direction.repacketizer,
        direction.at_rest() ==> tick_walk(direction, comfort_enabled, tools).end.at_rest(),
{
    let (begun, step) = tick_begins(direction, comfort_enabled, tools);
    law_walk_ends_at_rest(begun, step, tools);
}

/// A direction begins at rest, and the walk of any audio that is taken in for framing ends at rest, whatever
/// waited before and whatever can be encoded, written or protected.
pub proof fn law_framing_ends_at_rest(
    config: DirectionConfig,
    support: ToolSupport,
    relay: RelayConfig,
    direction: DirectionView,
    pcm: Seq<i16>,
    marker: bool,
    latch: Option<u32>,
    tools: EgressTools,
)
    ensures
        fresh_direction(config, support).at_rest(),
        fresh_relay(relay).at_rest(),
        egress_walk(
            direction.repacketized(pcm, marker),
            direction.repacketize_step(pcm, marker, latch),
            tools,
        ).end.at_rest(),
{
    law_walk_ends_at_rest(
        direction.repacketized(pcm, marker),
        direction.repacketize_step(pcm, marker, latch),
        tools,
    );
}

/// Whatever is encoded for a party becomes reference for the echo canceller of what that party sends: framed
/// audio, reflected audio, prompts, noise and silence.
pub proof fn law_sent_audio_is_reference(direction: DirectionView, pcm: Seq<i16>)
    requires
        direction.echo_reference is Some,
        pcm.len() <= direction.echo_reference->Some_0.capacity,
    ensures
        ({
            let kept = direction.heard(pcm).echo_reference->Some_0.samples;
            &&& kept.len() >= pcm.len()
            &&& kept.skip(kept.len() - pcm.len()) == pcm
        }),
        !direction.at_rest() ==> direction.drained().echo_reference == direction.heard(
            direction.repacketizer.frame(),
        ).echo_reference,
{
    let ring = direction.echo_reference->Some_0;
    let kept = direction.heard(pcm).echo_reference->Some_0.samples;
    assert(kept.skip(kept.len() - pcm.len()) =~= pcm);
}

/// The timestamp of a stream moves on the RTP clock: by a frame where that clock is the sample rate,
/// and by half a frame where it is half of it.
pub proof fn law_timestamps_use_the_rtp_clock(frame_samples: u32, encoder: CodecParams)
    requires
        encoder.sample_rate_hz > 0,
    ensures
        encoder.rtp_clock_rate_hz == encoder.sample_rate_hz ==> timestamp_increment(frame_samples, encoder)
            == frame_samples,
        encoder.sample_rate_hz == 2 * encoder.rtp_clock_rate_hz ==> timestamp_increment(frame_samples, encoder)
            == frame_samples / 2,
{
    let frame = frame_samples as int;
    let clock = encoder.rtp_clock_rate_hz as int;
    let rate = encoder.sample_rate_hz as int;
    assert(0 <= frame * clock <= 0xffff_ffff * 0xffff_ffff) by (nonlinear_arith)
        requires
            0 <= frame <= 0xffff_ffff,
            0 <= clock <= 0xffff_ffff,
    ;
    if clock == rate {
        assert(frame * clock / rate == frame) by (nonlinear_arith)
            requires
                clock == rate,
                rate > 0,
        ;
    }
    if rate == 2 * clock {
        assert(frame * clock / rate == frame / 2) by (nonlinear_arith)
            requires
                rate == 2 * clock,
                clock > 0,
                frame >= 0,
        ;
    }
}

/// A blocked direction, or one that plays something, sends no transcoded audio, and its stream is still
/// followed.
pub proof fn law_blocked_audio_is_dropped(direction: DirectionView, packet: RtpPacketView)
    requires
        direction.blocked || direction.injection is Some,
        direction.telephone_event_in != Some(packet.payload_type),
    ensures
        direction.received_step(packet) == (MediaStepView::Done { latch: Some(packet.ssrc) }),
{
}

/// A blocked key press is detected, and never sent on, whether the call transcodes, relays or
/// reflects.
pub proof fn law_blocked_keys_are_dropped(direction: DirectionView, packet: RtpPacketView, treatment: Treatment)
    requires
        direction.dtmf_blocked || !(treatment is Transcode),
    ensures
        direction.detected_step(packet, treatment) is Done,
{
}

/// A single-leg call never sends the caller's own key presses back.
pub proof fn law_single_leg_never_returns_keys(direction: DirectionView, packet: RtpPacketView, treatment: Treatment)
    requires
        direction.comfort is Some,
    ensures
        direction.detected_step(packet, treatment) is Done,
{
}

/// While parties are reflected, an idle single-leg call adds no noise of its own.
pub proof fn law_no_noise_while_reflecting(direction: DirectionView)
    requires
        direction.injection is None,
    ensures
        direction.tick_step(false) == (MediaStepView::Done { latch: None }),
{
}

/// A talkspurt start rides to the first frame that follows it, and to no other.
pub proof fn law_marker_rides_once(direction: DirectionView, pcm: Seq<i16>, latch: Option<u32>)
    requires
        direction.repacketizer.frame_samples > 0,
    ensures
        ({
            let taken = direction.framing(pcm, true);
            if taken.repacketizer.has_frame() {
                &&& direction.repacketize_step(pcm, true, latch) == (MediaStepView::Encode {
                    pcm: taken.repacketizer.frame(),
                    marker: true,
                    after: Onward::drains(latch),
                })
                &&& !direction.repacketized(pcm, true).pending_marker
            } else {
                &&& direction.repacketize_step(pcm, true, latch) == (MediaStepView::Done { latch })
                &&& direction.repacketized(pcm, true).pending_marker
            }
        }),
{
}

/// A silenced frame keeps its length and has no sound.
pub proof fn law_silence_keeps_the_frame(direction: DirectionView, pcm: Seq<i16>)
    requires
        direction.silenced,
    ensures
        direction.voiced(pcm).len() == pcm.len(),
        forall|i: int| 0 <= i < pcm.len() ==> #[trigger] direction.voiced(pcm)[i] == 0,
        direction.voiced(pcm) == silence(pcm.len()),
{
}

/// A prompt's end is reported once: after everything was stopped there is nothing left to report, for
/// any reason.
pub proof fn law_prompts_end_once(call: MediaCallView, reason: PlayEndReason)
    ensures
        call.quiet().ended_plays(reason).len() == 0,
        call.quiet().quiet() == call.quiet(),
        play_events(call.identity, None).len() == 0,
{
}

} // verus!
