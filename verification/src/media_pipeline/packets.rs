//! What becomes of a datagram on its way through a call.
use crate::media_pipeline::actor::{controlled, MediaControl};
use crate::media_pipeline::call::{decoded_home, leg_report, recording_plan, Leg, MediaCallView, QualitySample};
use crate::media_pipeline::direction::{dtmf_event, CallIdentity, DirectionView, Fork};
use crate::media_pipeline::latch::{rtcp_datagram, source_ssrc, SymmetricLatch};
use crate::media_pipeline::rtcp::{compound_notes, RtcpRelay, RtcpReport, RtcpStepView, RttNote};
use crate::media_pipeline::step::{
    Advance, DtmfEvent, MediaStepView, OutboundView, RtpPacketView, StreamTag, Treatment,
};
use crate::net::{EndpointId, SocketAddress};
use vstd::prelude::*;

verus! {

/// RTCP is told from RTP by its second byte, whose upper bit does not count: 64 to 95 (RFC 5761 section 4).
pub proof fn law_rtcp_is_told_by_its_type(data: Seq<u8>)
    ensures
        rtcp_datagram(data) <==> data.len() >= 2 && 64 <= data[1] as int % 128 <= 95,
{
    if data.len() >= 2 {
        let kind = data[1];
        assert(kind & 0x7f == kind % 128) by (bit_vector);
    }
}

/// The SSRC of an RTP packet is its ninth to twelfth byte, the most significant first. Anything shorter, of
/// another version or that is RTCP has none.
pub proof fn law_ssrc_is_read_off_the_header(data: Seq<u8>)
    ensures
        source_ssrc(data) is Some <==> data.len() >= 12 && data[0] as int / 64 == 2 && !(64 <= data[1] as int % 128
            <= 95),
        source_ssrc(data) matches Some(ssrc) ==> ssrc == 0x1000000 * data[8] + 0x10000 * data[9] + 0x100 * data[10]
            + data[11],
{
    if data.len() >= 12 {
        let first = data[0];
        assert(first >> 6 == first / 64) by (bit_vector);
        law_rtcp_is_told_by_its_type(data);
    }
}

/// What a transcoding direction does with a plaintext datagram: the subscribers get it; RTCP goes to the peer as
/// it is, sealed where the peer's leg is encrypted; and RTP is parsed to be transcoded.
pub proof fn law_transcoding_takes_rtp_and_relays_rtcp(direction: DirectionView, data: Seq<u8>)
    requires
        !direction.relay_only,
        data.len() >= 2,
    ensures
        ({
            let rtcp = 64 <= data[1] as int % 128 <= 95;
            let sent = direction.plaintext_sends(data);
            let copies = direction.raw_tee.len();
            &&& !rtcp ==> direction.plaintext_step(data) == (MediaStepView::Parse {
                data,
                treatment: Treatment::Transcode,
            }) && sent.len() == copies
            &&& rtcp && !direction.secure_egress ==> {
                &&& direction.plaintext_step(data) == (MediaStepView::Done { latch: None })
                &&& sent.len() == copies + 1
                &&& sent.last() == (OutboundView {
                    endpoint: direction.egress_endpoint,
                    dst: direction.egress_dst,
                    data,
                })
            }
            &&& rtcp && direction.secure_egress ==> {
                &&& direction.plaintext_step(data) is Protect
                &&& direction.plaintext_step(data)->Protect_data == data
                &&& !direction.plaintext_step(data)->Protect_after.frames
                &&& direction.plaintext_step(data)->Protect_after.latch is None
                &&& sent.len() == copies
            }
            &&& forall|i: int|
                0 <= i < copies ==> #[trigger] sent[i] == (OutboundView {
                    endpoint: direction.raw_tee[i].subscriber_endpoint,
                    dst: direction.raw_tee[i].srs_dst,
                    data,
                })
        }),
{
    law_rtcp_is_told_by_its_type(data);
}

/// What a relay does with a plaintext datagram: the subscribers get it, and so does the peer, as it is, unless
/// the leg is blocked or it is a key press that is kept back. RTP offers its SSRC to the latch, and RTCP nothing.
pub proof fn law_relay_passes_datagrams_on(direction: DirectionView, data: Seq<u8>)
    requires
        direction.relay_only,
        data.len() >= 2,
    ensures
        ({
            let kind = data[1] as int % 128;
            let rtcp = 64 <= kind <= 95;
            let kept_back = direction.dtmf_blocked && !rtcp && direction.telephone_event_in is Some
                && direction.telephone_event_in->Some_0 == kind;
            let sent = direction.plaintext_sends(data);
            let copies = direction.raw_tee.len();
            &&& kept_back ==> direction.plaintext_step(data) == (MediaStepView::Parse {
                data,
                treatment: Treatment::BlockedEvent,
            })
            &&& !kept_back ==> direction.plaintext_step(data) == (MediaStepView::Done { latch: source_ssrc(data) })
            &&& kept_back || direction.blocked ==> sent.len() == copies
            &&& !kept_back && !direction.blocked ==> sent.len() == copies + 1 && sent.last() == (OutboundView {
                endpoint: direction.egress_endpoint,
                dst: direction.egress_dst,
                data,
            })
            &&& forall|i: int|
                0 <= i < copies ==> #[trigger] sent[i] == (OutboundView {
                    endpoint: direction.raw_tee[i].subscriber_endpoint,
                    dst: direction.raw_tee[i].srs_dst,
                    data,
                })
        }),
{
    let byte = data[1];
    assert(byte & 0x7f == byte % 128) by (bit_vector);
}

/// A plaintext datagram that is accepted is reflected where the call reflects, and otherwise goes on its way at
/// once. What is too short to judge is ignored.
pub proof fn law_accepted_datagrams_go_on(direction: DirectionView, data: Seq<u8>, echo: bool)
    requires
        !direction.secure_ingress,
    ensures
        data.len() < 2 ==> direction.entry_step(data, echo) == (MediaStepView::Done { latch: None })
            && direction.entry_sends(data, echo).len() == 0,
        data.len() >= 2 && !echo ==> direction.entry_step(data, echo) == direction.plaintext_step(data)
            && direction.entry_sends(data, echo) == direction.plaintext_sends(data),
        data.len() >= 2 && echo ==> {
            &&& direction.entry_sends(data, echo).len() == 0
            &&& 64 <= data[1] as int % 128 <= 95 ==> direction.entry_step(data, echo) == (MediaStepView::Done {
                latch: None,
            })
            &&& !(64 <= data[1] as int % 128 <= 95) ==> direction.entry_step(data, echo) == (MediaStepView::Parse {
                data,
                treatment: Treatment::Echo,
            })
        },
{
    law_rtcp_is_told_by_its_type(data);
}

/// On an encrypted leg every datagram that is long enough to judge is unprotected first, and then treated as
/// one that arrived in the clear.
pub proof fn law_encrypted_datagrams_are_opened(direction: DirectionView, data: Seq<u8>, echo: bool)
    requires
        direction.secure_ingress,
        data.len() >= 2,
    ensures
        direction.entry_sends(data, echo).len() == 0,
        direction.entry_step(data, echo) is Unprotect,
        direction.entry_step(data, echo)->Unprotect_data == data,
        direction.entry_step(data, echo)->Unprotect_treatment == (if echo {
            Treatment::Echo
        } else {
            Treatment::Transcode
        }),
{
}

/// A parsed packet: transcoded ones are counted first; of reflected ones key presses are looked for, and the
/// rest is decoded; blocked key presses are looked for.
pub proof fn law_parsed_packets_are_sorted(direction: DirectionView, packet: RtpPacketView)
    ensures
        direction.parsed_step(packet, Treatment::Transcode) == (MediaStepView::Receive { packet }),
        direction.parsed_step(packet, Treatment::BlockedEvent) == (MediaStepView::Detect {
            packet,
            treatment: Treatment::BlockedEvent,
        }),
        direction.telephone_event_in == Some(packet.payload_type) ==> direction.parsed_step(packet, Treatment::Echo)
            == (MediaStepView::Detect { packet, treatment: Treatment::Echo }),
        direction.telephone_event_in != Some(packet.payload_type) ==> direction.parsed_step(packet, Treatment::Echo)
            == (MediaStepView::Decode { packet, treatment: Treatment::Echo }),
{
}

/// A counted packet of the key-press type goes to the detector. Any other is decoded, unless the leg is blocked
/// or something plays toward the peer: then its stream is only followed.
pub proof fn law_received_packets_are_sorted(direction: DirectionView, packet: RtpPacketView)
    ensures
        ({
            let key = direction.telephone_event_in == Some(packet.payload_type);
            let step = direction.received_step(packet);
            &&& key ==> step == (MediaStepView::Detect { packet, treatment: Treatment::Transcode })
            &&& !key && !direction.blocked && direction.injection is None ==> step == (MediaStepView::Decode {
                packet,
                treatment: Treatment::Transcode,
            })
            &&& !key && (direction.blocked || direction.injection is Some) ==> step == (MediaStepView::Done {
                latch: Some(packet.ssrc),
            })
        }),
{
}

/// A key press is sent on with its own time, mark and bytes, under the type the peer negotiated and in the
/// sequence of the stream toward the peer, whose timestamp it does not move; and it is sent on exactly where
/// nothing keeps it back: no block, no reflection, no single-leg call, and a peer that takes it. Its stream is
/// followed either way.
pub proof fn law_key_press_is_sent_on(direction: DirectionView, packet: RtpPacketView, treatment: Treatment)
    ensures
        ({
            let step = direction.detected_step(packet, treatment);
            let passes = treatment is Transcode && !direction.dtmf_blocked && direction.comfort is None
                && direction.telephone_event_out is Some;
            &&& step is Frame <==> passes
            &&& !passes ==> step == (MediaStepView::Done { latch: Some(packet.ssrc) })
            &&& passes ==> {
                &&& step->header.timestamp == packet.timestamp
                &&& step->header.marker == packet.marker
                &&& step->header.payload_type == direction.telephone_event_out->Some_0
                &&& step->header.sequence == direction.egress_sequence
                &&& step->header.ssrc == direction.egress_ssrc
                &&& step->Frame_payload == packet.payload
                &&& step->Frame_after.latch == Some(packet.ssrc)
                &&& !step->Frame_after.frames
                &&& direction.advanced(step->advance).egress_timestamp == direction.egress_timestamp
                &&& direction.advanced(step->advance).egress_sequence == (direction.egress_sequence + 1) % 0x1_0000
            }
        }),
{
}

/// A key press is reported by its digit, for the call and its parties, in milliseconds of the 8 kHz clock it is
/// counted on, rounded down, and as so many decibels below full scale.
pub proof fn law_key_press_is_reported(identity: CallIdentity, event: DtmfEvent)
    ensures
        ({
            let report = dtmf_event(identity, event);
            &&& report is Dtmf
            &&& report->Dtmf_call_id == identity.call_id@
            &&& report->Dtmf_from_tag == identity.from_tag@
            &&& report->Dtmf_to_tag is Some <==> identity.to_tag is Some
            &&& identity.to_tag matches Some(tag) ==> report->Dtmf_to_tag == Some(tag@)
            &&& report->digit.len() == 1 && report->digit[0] == event.digit
            &&& report->duration_ms * 8 <= event.duration < (report->duration_ms + 1) * 8
            &&& report->volume + event.volume == 0
        }),
{
}

/// A decoded packet: what cannot be decoded only has its stream followed. Reflected audio turns round to the
/// direction that faces its sender and is sent as it is. Otherwise noise is suppressed first, where that is
/// asked for.
pub proof fn law_decoded_audio_goes_on(
    call: MediaCallView,
    leg: Leg,
    pcm: Option<Seq<i16>>,
    stream: StreamTag,
    treatment: Treatment,
)
    ensures
        ({
            let step = call.decoded_step(leg, pcm, stream, treatment);
            let after = call.decoded_on(leg, pcm, treatment);
            let home = decoded_home(leg, pcm is Some, treatment);
            &&& pcm is None ==> step == (MediaStepView::Done { latch: Some(stream.ssrc) }) && after == call && home
                == leg
            &&& pcm matches Some(audio) ==> {
                &&& treatment is Echo ==> {
                    &&& home != leg
                    &&& step is Encode && step->Encode_pcm == audio && step->Encode_marker == stream.marker
                    &&& step->Encode_after.latch == Some(stream.ssrc) && !step->Encode_after.frames
                    &&& after.direction(leg) == call.direction(leg)
                    &&& after.direction(home) == call.direction(home).heard(audio)
                }
                &&& !(treatment is Echo) ==> home == leg
                &&& !(treatment is Echo) && call.direction(leg).noise_suppressor ==> step == (
                MediaStepView::SuppressNoise { pcm: audio, stream }) && after == call
                &&& !(treatment is Echo) && !call.direction(leg).noise_suppressor ==> step == call.cancel_step(
                    leg,
                    audio,
                    stream,
                )
            }
        }),
{
}

/// The echo canceller of a party's uplink gets what was sent toward that party: the oldest that it has not had,
/// as long as the audio it is for, with silence where less was sent. It runs exactly where a canceller was built
/// for the party and a reference is kept of what the party hears; otherwise the audio goes to the taps.
pub proof fn law_echo_is_cancelled_against_what_was_heard(
    call: MediaCallView,
    leg: Leg,
    pcm: Seq<i16>,
    stream: StreamTag,
    heard: Seq<i16>,
)
    requires
        heard.len() == pcm.len(),
        call.direction(leg).echo_canceller,
        (if leg is A {
            call.b_to_a
        } else {
            call.a_to_b
        }).echo_reference is Some,
        (if leg is A {
            call.b_to_a
        } else {
            call.a_to_b
        }).echo_reference->Some_0.samples.len() == 0,
        heard.len() <= (if leg is A {
            call.b_to_a
        } else {
            call.a_to_b
        }).echo_reference->Some_0.capacity,
    ensures
        ({
            let sent = if leg is A {
                MediaCallView { b_to_a: call.b_to_a.heard(heard), ..call }
            } else {
                MediaCallView { a_to_b: call.a_to_b.heard(heard), ..call }
            };
            let once = sent.reference_taken(leg, pcm.len());
            let first = sent.cancel_step(leg, pcm, stream);
            let again = once.cancel_step(leg, pcm, stream);
            &&& first is CancelEcho && first->CancelEcho_pcm == pcm && first->far_end == heard
            &&& again is CancelEcho && again->far_end.len() == pcm.len()
            &&& forall|i: int| 0 <= i < pcm.len() ==> #[trigger] again->far_end[i] == 0
        }),
{
    let sent = if leg is A {
        MediaCallView { b_to_a: call.b_to_a.heard(heard), ..call }
    } else {
        MediaCallView { a_to_b: call.a_to_b.heard(heard), ..call }
    };
    let ring = sent.direction(leg.other_spec()).echo_reference->Some_0;
    assert(ring.samples =~= heard);
    let first = sent.cancel_step(leg, pcm, stream);
    assert(first->far_end =~= heard);
}

/// Where there is no canceller, or no reference is kept, audio goes to the taps as it is and nothing is taken.
pub proof fn law_uncancelled_audio_is_tapped(call: MediaCallView, leg: Leg, pcm: Seq<i16>, stream: StreamTag)
    requires
        !call.direction(leg).echo_canceller || (if leg is A {
            call.b_to_a
        } else {
            call.a_to_b
        }).echo_reference is None,
    ensures
        call.cancel_step(leg, pcm, stream) == (MediaStepView::Tap { pcm, stream }),
        call.reference_taken(leg, pcm.len()) == call,
{
}

/// Reading a reference in two parts is reading it once, in order.
pub proof fn law_reference_is_read_in_order(direction: DirectionView, first: nat, second: nat)
    requires
        direction.echo_reference is Some,
        first + second <= direction.echo_reference->Some_0.samples.len(),
    ensures
        direction.reference_read(first).reference_read(second) == direction.reference_read(first + second),
        direction.reference_read(first).echo_reference->Some_0.samples
            == direction.echo_reference->Some_0.samples.skip(first as int),
{
    assert(direction.reference_read(first).reference_read(second).echo_reference->Some_0.samples
        =~= direction.reference_read(first + second).echo_reference->Some_0.samples);
}

/// A tap takes audio before it is silenced, converted or framed. A single-leg call goes no further, and its
/// stream is followed.
pub proof fn law_single_leg_audio_stops_at_the_taps(direction: DirectionView, pcm: Seq<i16>, stream: StreamTag)
    ensures
        direction.comfort is Some ==> direction.tapped_step(pcm, stream) == (MediaStepView::Done {
            latch: Some(stream.ssrc),
        }) && direction.tapped_on(pcm, stream) == direction,
        direction.comfort is None && direction.resampler ==> direction.tapped_step(pcm, stream) is Resample
            && direction.tapped_on(pcm, stream) == direction,
{
}

/// Audio waits for framing behind what waits already, sample by sample and in order, and a talkspurt that began
/// is marked on the first packet that leaves after that.
pub proof fn law_audio_queues_for_framing(direction: DirectionView, pcm: Seq<i16>, marker: bool, latch: Option<u32>)
    requires
        direction.repacketizer.frame_samples > 0,
    ensures
        ({
            let size = direction.repacketizer.frame_samples as int;
            let all = direction.repacketizer.pending + pcm;
            let after = direction.repacketized(pcm, marker);
            let step = direction.repacketize_step(pcm, marker, latch);
            &&& all.len() < size ==> {
                &&& step == (MediaStepView::Done { latch })
                &&& after.repacketizer.pending == all
                &&& after.pending_marker == (direction.pending_marker || marker)
            }
            &&& all.len() >= size ==> {
                &&& step is Encode && step->Encode_pcm == all.take(size)
                &&& step->Encode_marker == (direction.pending_marker || marker)
                &&& step->Encode_after.latch == latch && step->Encode_after.frames
                &&& after.repacketizer.pending == all.skip(size)
                &&& !after.pending_marker
            }
            &&& after.repacketizer.frame_samples == size
        }),
{
}

/// An idle single-leg call is kept alive by the playout tick while it is neither blocked nor reflected and
/// nothing plays: by silence while it is silenced, by one comfort-noise packet in the stream where that was
/// negotiated, and by a frame of faint noise otherwise. Any other direction at rest sends nothing.
pub proof fn law_idle_single_leg_sends_noise(direction: DirectionView, comfort_enabled: bool)
    requires
        direction.injection is None,
    ensures
        ({
            let step = direction.tick_step(comfort_enabled);
            let idles = direction.comfort is Some && comfort_enabled && !direction.blocked;
            &&& !idles ==> step == (MediaStepView::Done { latch: None }) && direction.ticked(comfort_enabled) == direction
            &&& idles && direction.silenced ==> {
                &&& step is Encode && step->Encode_pcm.len() == direction.egress_frame_samples
                &&& forall|i: int| 0 <= i < step->Encode_pcm.len() ==> #[trigger] step->Encode_pcm[i] == 0
                &&& !step->Encode_marker
            }
            &&& idles && !direction.silenced && direction.comfort->Some_0.cn_pt is Some ==> {
                &&& step is Frame
                &&& step->header.payload_type == direction.comfort->Some_0.cn_pt->Some_0
                &&& step->header.timestamp == direction.egress_timestamp
                &&& step->header.sequence == direction.egress_sequence
                &&& step->header.ssrc == direction.egress_ssrc
                &&& !step->header.marker
                &&& step->Frame_payload == seq![75u8]
                &&& step->advance is Stream
            }
            &&& idles && !direction.silenced && direction.comfort->Some_0.cn_pt is None ==> step == (
            MediaStepView::FillNoise { level: 75, samples: direction.egress_frame_samples as nat })
            &&& idles && !direction.silenced ==> direction.ticked(comfort_enabled) == direction
        }),
{
}

/// Which leg a datagram belongs to: the one whose endpoint it arrived on. Both legs of a single-leg call share
/// one, which counts as the caller's.
pub proof fn law_endpoint_names_the_leg(call: MediaCallView, endpoint: EndpointId)
    ensures
        call.leg_of(endpoint) == Some(Leg::A) <==> endpoint == call.a_to_b.ingress_endpoint,
        call.leg_of(endpoint) == Some(Leg::B) <==> endpoint == call.b_to_a.ingress_endpoint && endpoint
            != call.a_to_b.ingress_endpoint,
{
}

/// The playout tick has something to do exactly while something plays in either direction, or a single-leg call
/// idles unreflected.
pub proof fn law_when_the_tick_is_needed(call: MediaCallView)
    ensures
        call.ticks() <==> call.a_to_b.injection is Some || call.b_to_a.injection is Some || (call.a_to_b.comfort is Some
            && !call.echo),
        call.ticks() <== call.a_to_b.tick_step(!call.echo) is NextPrompt || call.b_to_a.tick_step(!call.echo) is NextPrompt
            || call.a_to_b.tick_step(!call.echo) is NextDtmf || call.b_to_a.tick_step(!call.echo) is NextDtmf,
{
}

/// A latch follows the first stream it is offered, its own source whatever SSRC that sends, and its own SSRC
/// wherever that comes from; and then it holds that source and that SSRC. Nothing else moves it.
pub proof fn law_latch_follows_source_or_stream(latch: SymmetricLatch, source: SocketAddress, ssrc: u32)
    ensures
        ({
            let moved = latch.source is None || latch.source == Some(source) || latch.ssrc == Some(ssrc);
            let after = latch.after(source, ssrc);
            &&& latch.follows(source, ssrc) <==> moved
            &&& moved ==> after.source == Some(source) && after.ssrc == Some(ssrc)
            &&& !moved ==> after == latch
        }),
{
}

/// The reply to a party goes where the party's authentic stream was followed to, and only then, and only where
/// the call latches at all.
pub proof fn law_reply_goes_where_the_stream_came_from(
    call: MediaCallView,
    leg: Leg,
    source: SocketAddress,
    latch: Option<u32>,
)
    ensures
        ({
            let held = call.direction(leg).source_latch;
            let after = call.completed(leg, source, latch);
            let followed = call.latch && latch is Some && (held.source is None || held.source == Some(source)
                || held.ssrc == latch);
            &&& followed ==> after.direction(leg.other_spec()).egress_dst == source
            &&& !followed ==> after == call
            &&& followed ==> after.direction(leg).source_latch.source == Some(source) && after.direction(
                leg,
            ).source_latch.ssrc == latch
        }),
{
}

/// Following a stream touches nothing but where the reply goes and what the latch holds.
pub proof fn law_following_touches_nothing_else(
    call: MediaCallView,
    leg: Leg,
    source: SocketAddress,
    latch: Option<u32>,
)
    ensures
        ({
            let after = call.completed(leg, source, latch);
            let reply = after.direction(leg.other_spec());
            let sender = after.direction(leg);
            &&& reply == (DirectionView { egress_dst: reply.egress_dst, ..call.direction(leg.other_spec()) })
            &&& sender == (DirectionView { source_latch: sender.source_latch, ..call.direction(leg) })
            &&& after == (MediaCallView { a_to_b: after.a_to_b, b_to_a: after.b_to_a, ..call })
        }),
{
}

/// The two parties of a call are each other's opposite, and each has a direction of its own.
pub proof fn law_parties_are_opposite(call: MediaCallView, leg: Leg, direction: DirectionView)
    ensures
        leg.other_spec() != leg,
        leg.other_spec().other_spec() == leg,
        call.direction(Leg::A) == call.a_to_b,
        call.direction(Leg::B) == call.b_to_a,
        call.with_direction(leg, direction).direction(leg) == direction,
        call.with_direction(leg, direction).direction(leg.other_spec()) == call.direction(leg.other_spec()),
{
}

/// Companion RTCP is relayed as it is, from the far endpoint to the far address; sealed first where that side
/// is encrypted.
pub proof fn law_companion_rtcp_is_relayed(relay: RtcpRelay, data: Seq<u8>)
    ensures
        relay.outbound(data) == (OutboundView { endpoint: relay.egress_endpoint, dst: relay.egress_dst, data }),
        relay.secure_egress ==> relay.plaintext_step(data) == (RtcpStepView::Protect { data }) && relay.plaintext_sends(
            data,
        ).len() == 0,
        !relay.secure_egress ==> relay.plaintext_step(data) == RtcpStepView::Done && relay.plaintext_sends(data).len()
            == 1 && relay.plaintext_sends(data)[0] == relay.outbound(data),
{
}

/// What an RTCP compound says of the round trip: each sender report is remembered by its time, each reception
/// block counts for the stream that the party is sent, in the order they stand in; and a compound says what its
/// two parts say, one after the other.
pub proof fn law_rtcp_reports_are_noted(first: Seq<RtcpReport>, second: Seq<RtcpReport>, report: RtcpReport, ssrc: u32)
    ensures
        compound_notes(first + second, ssrc) == compound_notes(first, ssrc) + compound_notes(second, ssrc),
        ({
            let notes = compound_notes(seq![report], ssrc);
            match report {
                RtcpReport::Sender { ntp_timestamp, blocks } => {
                    &&& notes.len() == 1 + blocks@.len()
                    &&& notes[0] == (RttNote::SentReport { ntp_timestamp })
                    &&& forall|i: int|
                        0 < i < notes.len() ==> #[trigger] notes[i] == (RttNote::Reception {
                            egress_ssrc: ssrc,
                            block: blocks@[i - 1],
                        })
                },
                RtcpReport::Receiver { blocks } => {
                    &&& notes.len() == blocks@.len()
                    &&& forall|i: int|
                        0 <= i < notes.len() ==> #[trigger] notes[i] == (RttNote::Reception {
                            egress_ssrc: ssrc,
                            block: blocks@[i],
                        })
                },
                RtcpReport::Other => notes.len() == 0,
            }
        }),
    decreases second.len(),
{
    reveal_with_fuel(compound_notes, 2);
    assert(seq![report].drop_last() =~= Seq::empty());
    if second.len() == 0 {
        assert(first + second =~= first);
        assert(compound_notes(first, ssrc) + Seq::empty() =~= compound_notes(first, ssrc));
    } else {
        law_rtcp_reports_are_noted(first, second.drop_last(), report, ssrc);
        assert((first + second).drop_last() =~= first + second.drop_last());
        assert(compound_notes(first + second, ssrc) =~= compound_notes(first, ssrc) + compound_notes(second, ssrc));
    }
}

/// Each party's reading is reported under that party's tag, where the direction transcodes, was measured, and
/// the party has one.
pub proof fn law_quality_is_reported_by_party<F>(
    call: MediaCallView,
    leg: Leg,
    tag: Option<Seq<char>>,
    reading: Option<QualitySample<F>>,
)
    ensures
        ({
            let report = leg_report(call, tag, call.quality(leg, reading));
            let due = tag is Some && reading is Some && !(if leg is A {
                call.a_to_b
            } else {
                call.b_to_a
            }).relay_only;
            &&& report.len() == (if due {
                1int
            } else {
                0
            })
            &&& due ==> report[0] == (call.identity.call_id@, tag->Some_0, reading->Some_0)
        }),
{
}

/// A recorded leg is written to its own file, named after the call: party A's first, under `-a`, and party B's
/// under `-b`.
pub proof fn law_recordings_are_named_by_leg(call: MediaCallView, base: Seq<char>, a: bool, b: bool)
    ensures
        ({
            let files = recording_plan(call, base, a, b);
            let name = call.identity.call_id@;
            &&& files.len() == (if a {
                1int
            } else {
                0
            }) + (if b {
                1int
            } else {
                0
            })
            &&& a ==> files[0] == (Leg::A, base + "/"@ + name + "-a.wav"@)
            &&& b ==> files.last() == (Leg::B, base + "/"@ + name + "-b.wav"@)
        }),
{
}

/// Attaching and detaching taps touches nothing but the taps.
pub proof fn law_taps_touch_nothing_else(call: MediaCallView, source: Leg, fork: Fork, tag: String)
    ensures
        ({
            let was = call.direction(source);
            let added = controlled(call, MediaControl::AddFork { source, fork }).direction(source);
            let cleared = controlled(call, MediaControl::RemoveFork { source }).direction(source);
            let detached = controlled(call, MediaControl::RemoveForkTagged { source, tag }).direction(source);
            &&& added == (DirectionView { forks: added.forks, ..was })
            &&& cleared == (DirectionView { forks: cleared.forks, ..was })
            &&& detached == (DirectionView { forks: detached.forks, ..was })
        }),
{
}

/// The counters of a stream: a packet of audio takes the next sequence number and moves the timestamp by one
/// frame, and a key press takes a sequence number only; both go round at the end of their range.
pub proof fn law_counters_move_by_one_packet(direction: DirectionView)
    ensures
        ({
            let audio = direction.advanced(Advance::Stream);
            let key = direction.advanced(Advance::SequenceOnly);
            &&& audio.egress_sequence == (direction.egress_sequence + 1) % 0x1_0000
            &&& audio.egress_timestamp == (direction.egress_timestamp + direction.egress_timestamp_increment)
                % 0x1_0000_0000
            &&& key.egress_sequence == (direction.egress_sequence + 1) % 0x1_0000
            &&& key.egress_timestamp == direction.egress_timestamp
        }),
{
}

/// An encrypted datagram that does not authenticate leaves no trace: nothing is sent, tapped or latched on to. One
/// that does is handled as if it had come in the clear; and one to be reflected is sent nowhere else.
pub proof fn law_what_does_not_authenticate_leaves_no_trace(direction: DirectionView, data: Seq<u8>)
    ensures
        direction.opened_step(None, Treatment::Transcode) == (MediaStepView::Done { latch: None }),
        direction.opened_step(None, Treatment::Echo) == (MediaStepView::Done { latch: None }),
        direction.opened_sends(None, Treatment::Transcode).len() == 0,
        direction.opened_sends(None, Treatment::Echo).len() == 0,
        direction.opened_sends(Some(data), Treatment::Echo).len() == 0,
        data.len() >= 2 ==> {
            let clear = DirectionView { secure_ingress: false, ..direction };
            &&& direction.opened_step(Some(data), Treatment::Transcode) == clear.entry_step(data, false)
            &&& direction.opened_sends(Some(data), Treatment::Transcode) == clear.entry_sends(data, false)
            &&& direction.opened_step(Some(data), Treatment::Echo) == clear.entry_step(data, true)
        },
{
    let clear = DirectionView { secure_ingress: false, ..direction };
    assert(clear.plaintext_sends(data) =~= direction.plaintext_sends(data));
}

} // verus!
