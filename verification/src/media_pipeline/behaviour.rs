//! What a media call does for its parties: how long audio lasts, when a prompt or a key press sounds, and
//! which party a control operation is about.
use crate::event::{EventView, PlayEndReason};
use crate::media_pipeline::actor::{control_events, control_sinks, controlled, MediaControl};
use crate::media_pipeline::call::{Leg, MediaCallView, PcapCapture};
use crate::media_pipeline::direction::{
    fresh_direction, fresh_relay, CodecParams, DirectionConfig, DirectionView, Fork, ForkView, Injection, RelayConfig,
    ToolSupport,
};
use crate::media_pipeline::step::{
    Advance, DtmfStep, MediaStepView, OutboundView, RawTee, RtpPacketView, StreamTag, Treatment,
};
use crate::net::{EndpointId, RxPacket};
use vstd::prelude::*;

verus! {

/// Transcoded audio lasts as long as it did: it is converted between rates exactly where the two codecs
/// differ in rate, whichever is the higher, and otherwise reaches framing as it is. `convert` is the
/// conversion, which keeps the time a piece of audio lasts.
pub proof fn law_audio_keeps_its_duration(
    config: DirectionConfig,
    support: ToolSupport,
    pcm: Seq<i16>,
    stream: StreamTag,
    convert: spec_fn(Seq<i16>) -> Seq<i16>,
)
    requires
        support.resampler,
        convert(pcm).len() * config.decoder.sample_rate_hz == pcm.len() * config.encoder.sample_rate_hz,
    ensures
        ({
            let direction = fresh_direction(config, support);
            let step = direction.tapped_step(pcm, stream);
            let framed = match step {
                MediaStepView::Resample { pcm: audio, .. } => convert(audio),
                _ => pcm,
            };
            &&& framed.len() * config.decoder.sample_rate_hz == pcm.len() * config.encoder.sample_rate_hz
            &&& step is Resample <==> config.decoder.sample_rate_hz != config.encoder.sample_rate_hz
            &&& step matches MediaStepView::Resample { pcm: audio, stream: tag } ==> audio == pcm && tag == stream
            &&& config.decoder.sample_rate_hz == config.encoder.sample_rate_hz ==> {
                &&& step == direction.repacketize_step(pcm, stream.marker, Some(stream.ssrc))
                &&& direction.tapped_on(pcm, stream) == direction.repacketized(pcm, stream.marker)
            }
        }),
{
}

/// Without a converter audio reaches framing as it is. Which codecs a direction has, and whether it converts
/// between them, no control operation changes.
pub proof fn law_conversion_is_settled_at_the_start(
    config: DirectionConfig,
    support: ToolSupport,
    pcm: Seq<i16>,
    stream: StreamTag,
    call: MediaCallView,
    control: MediaControl,
    leg: Leg,
)
    ensures
        !support.resampler ==> !(fresh_direction(config, support).tapped_step(pcm, stream) is Resample),
        controlled(call, control).direction(leg).resampler == call.direction(leg).resampler,
        controlled(call, control).direction(leg).egress_sample_rate == call.direction(leg).egress_sample_rate,
        controlled(call, control).direction(leg).egress_frame_samples == call.direction(leg).egress_frame_samples,
        controlled(call, control).direction(leg).repacketizer == call.direction(leg).repacketizer,
{
}

/// A direction sends in the frames of its encoder, up to the largest frame, on the encoder's RTP clock: from
/// one packet to the next the timestamp moves by as much of that clock as the frame lasts.
pub proof fn law_packets_are_timed_by_the_encoder(config: DirectionConfig, support: ToolSupport)
    requires
        config.encoder.sample_rate_hz > 0,
        config.encoder.frame_samples * config.encoder.rtp_clock_rate_hz < 0x1_0000_0000 * config.encoder.sample_rate_hz,
    ensures
        ({
            let direction = fresh_direction(config, support);
            let frame = direction.egress_frame_samples as int;
            let step = direction.egress_timestamp_increment as int;
            let rate = config.encoder.sample_rate_hz as int;
            let clock = config.encoder.rtp_clock_rate_hz as int;
            &&& config.encoder.frame_samples <= 1920 ==> frame == config.encoder.frame_samples
            &&& config.encoder.frame_samples > 1920 ==> frame == 1920
            &&& direction.repacketizer.frame_samples == frame
            &&& direction.repacketizer.pending.len() == 0
            &&& step * rate <= frame * clock < (step + 1) * rate
            &&& direction.egress_sequence == 0 && direction.egress_timestamp == 0
            &&& direction.egress_sample_rate == rate
            &&& direction.egress_ssrc == config.egress_ssrc
            &&& direction.egress_payload_type == config.egress_payload_type
        }),
{
    let encoder: CodecParams = config.encoder;
    let direction = fresh_direction(config, support);
    let frame = direction.egress_frame_samples as int;
    let rate = encoder.sample_rate_hz as int;
    let clock = encoder.rtp_clock_rate_hz as int;
    let product = frame * clock;
    assert(0 <= product <= 1920 * 0xffff_ffff) by (nonlinear_arith)
        requires
            product == frame * clock,
            0 <= frame <= 1920,
            0 <= clock <= 0xffff_ffff,
    ;
    assert(product <= encoder.frame_samples as int * clock) by (nonlinear_arith)
        requires
            product == frame * clock,
            frame <= encoder.frame_samples,
            0 <= clock,
    ;
    vstd::arithmetic::div_mod::lemma_fundamental_div_mod(product, rate);
    vstd::arithmetic::div_mod::lemma_mod_bound(product, rate);
    let step = product / rate;
    assert(0 <= step < 0x1_0000_0000) by (nonlinear_arith)
        requires
            rate > 0,
            product == rate * step + product % rate,
            0 <= product % rate,
            0 <= product < 0x1_0000_0000 * rate,
            product % rate < rate,
    ;
    assert(step * rate == rate * step && (step + 1) * rate == rate * step + rate) by (nonlinear_arith);
}

/// A direction is what its configuration asks for: its endpoints and addresses, its key-press types, and of
/// the processors those that are asked for and could be built. Nothing is silenced, blocked, tapped or played.
pub proof fn law_direction_is_built_as_configured(config: DirectionConfig, support: ToolSupport, relay: RelayConfig)
    ensures
        ({
            let direction = fresh_direction(config, support);
            &&& direction.ingress_endpoint == config.ingress_endpoint
            &&& direction.egress_endpoint == config.egress_endpoint
            &&& direction.egress_dst == config.egress_dst
            &&& direction.accepted_source == config.accepted_source
            &&& direction.telephone_event_in == config.telephone_event_in
            &&& direction.telephone_event_out == config.telephone_event_out
            &&& direction.recorder == config.recorder
            &&& direction.noise_suppressor <==> config.noise_suppression && support.noise_suppressor
            &&& direction.echo_canceller <==> config.echo_cancellation && support.echo_canceller
            &&& direction.echo_reference is Some <==> config.produce_echo_reference
            &&& direction.echo_reference matches Some(ring) ==> ring.samples.len() == 0 && ring.capacity == 3840
                && ring.sample_rate_hz == config.encoder.sample_rate_hz
            &&& !direction.relay_only && !direction.silenced && !direction.blocked && !direction.dtmf_blocked
            &&& !direction.secure_ingress && !direction.secure_egress && !direction.pending_marker
            &&& direction.egress_sequence == 0 && direction.egress_timestamp == 0
            &&& direction.egress_ssrc == config.egress_ssrc
            &&& direction.egress_payload_type == config.egress_payload_type
            &&& direction.repacketizer.pending.len() == 0
            &&& direction.injection is None && direction.comfort is None
            &&& direction.raw_tee.len() == 0 && direction.forks.len() == 0
            &&& direction.source_latch.source is None && direction.source_latch.ssrc is None
        }),
        ({
            let direction = fresh_relay(relay);
            &&& direction.relay_only
            &&& direction.ingress_endpoint == relay.ingress_endpoint
            &&& direction.egress_endpoint == relay.egress_endpoint
            &&& direction.egress_dst == relay.egress_dst
            &&& direction.accepted_source == relay.accepted_source
            &&& direction.egress_sequence == 0 && direction.egress_timestamp == 0 && direction.egress_ssrc == 0
            &&& direction.egress_payload_type == 0 && direction.egress_timestamp_increment == 0
            &&& direction.egress_sample_rate == 0 && direction.egress_frame_samples == 0
            &&& direction.repacketizer.frame_samples == 0 && direction.repacketizer.pending.len() == 0
            &&& !direction.pending_marker
            &&& direction.telephone_event_in == relay.telephone_event
            &&& direction.telephone_event_out is None
            &&& !direction.noise_suppressor && !direction.echo_canceller && !direction.resampler && !direction.recorder
            &&& direction.echo_reference is None && direction.injection is None && direction.comfort is None
            &&& !direction.silenced && !direction.blocked && !direction.dtmf_blocked
            &&& !direction.secure_ingress && !direction.secure_egress
            &&& direction.raw_tee.len() == 0 && direction.forks.len() == 0
            &&& direction.source_latch.source is None && direction.source_latch.ssrc is None
        }),
{
}

/// A packet time is what a frame lasts, in whole milliseconds: at least one, and twenty where there is no rate.
pub proof fn law_packet_time(direction: DirectionView)
    ensures
        ({
            let packet_ms = direction.ptime_ms();
            let frame = direction.egress_frame_samples as int;
            let rate = direction.egress_sample_rate as int;
            &&& packet_ms >= 1
            &&& rate == 0 ==> packet_ms == 20
            &&& rate > 0 && frame * 1000 >= rate ==> packet_ms * rate <= frame * 1000 < (packet_ms + 1) * rate
            &&& rate > 0 && frame * 1000 < rate ==> packet_ms == 1
        }),
{
    let frame = direction.egress_frame_samples as int;
    let rate = direction.egress_sample_rate as int;
    if rate > 0 {
        let whole = frame * 1000 / rate;
        vstd::arithmetic::div_mod::lemma_fundamental_div_mod(frame * 1000, rate);
        vstd::arithmetic::div_mod::lemma_mod_bound(frame * 1000, rate);
        assert(whole * rate == rate * whole && (whole + 1) * rate == rate * whole + rate) by (nonlinear_arith);
        if frame * 1000 >= rate {
            assert(whole >= 1) by (nonlinear_arith)
                requires
                    rate > 0,
                    frame * 1000 >= rate,
                    frame * 1000 == rate * whole + frame * 1000 % rate,
                    frame * 1000 % rate < rate,
            ;
        } else {
            assert(whole <= 0) by (nonlinear_arith)
                requires
                    rate > 0,
                    frame * 1000 < rate,
                    frame * 1000 == rate * whole + frame * 1000 % rate,
                    0 <= frame * 1000 % rate,
            ;
        }
    }
}

/// A playout tick takes one packet time of the prompt, measured at the prompt's own rate whatever the stream's:
/// as many samples as that lasts, rounded down, at least one and at most the largest frame.
pub proof fn law_tick_takes_one_packet_time(direction: DirectionView, comfort_enabled: bool, packet_ms: int)
    requires
        direction.injection is Some,
        direction.injection->Some_0 is Audio,
        packet_ms == direction.ptime_ms(),
    ensures
        ({
            let rate = direction.injection->Some_0->source_rate_hz as int;
            let step = direction.tick_step(comfort_enabled);
            let samples = step->NextPrompt_samples as int;
            &&& step is NextPrompt
            &&& 1 <= samples <= 1920
            &&& 1000 <= rate * packet_ms < 1_921_000 ==> samples * 1000 <= rate * packet_ms < (samples + 1) * 1000
            &&& rate * packet_ms < 1000 ==> samples == 1
            &&& rate * packet_ms >= 1_921_000 ==> samples == 1920
        }),
{
    law_packet_time(direction);
    let rate = direction.injection->Some_0->source_rate_hz as int;
    assert(0 <= rate * packet_ms) by (nonlinear_arith)
        requires
            0 <= rate,
            0 <= packet_ms,
    ;
}

/// How much of a prompt a tick takes depends on the prompt and on how long a packet lasts, and on nothing else:
/// two streams with one packet time take as much of it, whatever their rates.
pub proof fn law_prompt_speed_is_its_own(first: DirectionView, second: DirectionView, comfort_enabled: bool)
    requires
        first.injection is Some,
        first.injection->Some_0 is Audio,
        second.injection is Some,
        second.injection->Some_0 is Audio,
        first.injection->Some_0->source_rate_hz == second.injection->Some_0->source_rate_hz,
        first.ptime_ms() == second.ptime_ms(),
    ensures
        first.tick_step(comfort_enabled) == second.tick_step(comfort_enabled),
{
}

/// A prompt frame that sounds adds one packet time to what was played, and keeps the prompt's name and rate. A
/// prompt that has run out ends. What waits to be framed and the stream's counters stay as they are.
pub proof fn law_prompt_counts_what_it_played(direction: DirectionView, frame: Vec<i16>)
    requires
        direction.injection is Some,
        direction.injection->Some_0 is Audio,
        direction.ptime_ms() <= u64::MAX,
    ensures
        ({
            let before = direction.injection->Some_0;
            let after = direction.after_prompt_frame(Some(frame));
            &&& after.injection is Some && after.injection->Some_0 is Audio
            &&& after.injection->Some_0->source_rate_hz == before->source_rate_hz
            &&& after.injection->Some_0->resampled == before->resampled
            &&& after.injection->Some_0->play_id == before->play_id
            &&& after.injection->Some_0->played_ms == (before->played_ms + direction.ptime_ms()) % 0x1_0000_0000_0000_0000
            &&& after.repacketizer == direction.repacketizer
            &&& after.egress_sequence == direction.egress_sequence
            &&& after.egress_timestamp == direction.egress_timestamp
        }),
        direction.after_prompt_frame(None) == (DirectionView { injection: None, ..direction }),
        direction.prompt_step(None) == (MediaStepView::Done { latch: None }),
{
    law_packet_time(direction);
}

/// A prompt toward a party plays in what that party hears, and in nothing else, and from the start. It is
/// converted exactly where its rate differs from the stream's and a converter could be built, whichever rate is
/// the higher, so that a frame of it lasts on the stream as long as it did.
pub proof fn law_prompt_sounds_toward_its_party(
    call: MediaCallView,
    toward: Leg,
    source_rate_hz: u32,
    resampler_built: bool,
    play_id: u64,
    frame: Vec<i16>,
    convert: spec_fn(Seq<i16>) -> Seq<i16>,
)
    requires
        convert(frame@).len() * source_rate_hz == frame@.len() * (if toward is A {
            call.b_to_a.egress_sample_rate
        } else {
            call.a_to_b.egress_sample_rate
        }),
    ensures
        ({
            let play = MediaControl::PlayAudio { toward, source_rate_hz, resampler_built, play_id };
            let after = controlled(call, play);
            let (heard, spoken, was_heard, was_spoken) = if toward is A {
                (after.b_to_a, after.a_to_b, call.b_to_a, call.a_to_b)
            } else {
                (after.a_to_b, after.b_to_a, call.a_to_b, call.b_to_a)
            };
            let step = heard.prompt_step(Some(frame));
            let sent = match step {
                MediaStepView::ResamplePrompt { pcm } => convert(pcm),
                MediaStepView::Encode { pcm, .. } => pcm,
                _ => Seq::empty(),
            };
            &&& spoken == was_spoken
            &&& heard.injection is Some && heard.injection->Some_0 is Audio
            &&& heard.injection->Some_0->source_rate_hz == source_rate_hz
            &&& heard.injection->Some_0->play_id == play_id
            &&& heard.injection->Some_0->played_ms == 0
            &&& heard == (DirectionView { injection: heard.injection, ..was_heard })
            &&& step is ResamplePrompt <==> source_rate_hz != was_heard.egress_sample_rate && resampler_built
            &&& step is ResamplePrompt || step is Encode
            &&& step matches MediaStepView::ResamplePrompt { pcm } ==> pcm == frame@
            &&& step matches MediaStepView::Encode { pcm, marker, .. } ==> pcm == frame@ && !marker
            &&& resampler_built ==> sent.len() * source_rate_hz == frame@.len() * was_heard.egress_sample_rate
        }),
{
}

/// Prompts end with the reason they ended for: replaced ones as superseded, stopped ones as stopped, in the
/// name they were started under and with what they had played; and nothing but prompts is reported.
pub proof fn law_prompt_end_is_reported(call: MediaCallView, toward: Leg, source_rate_hz: u32, built: bool, play_id: u64)
    ensures
        ({
            let heard = if toward is A {
                call.b_to_a
            } else {
                call.a_to_b
            };
            let events = control_events(
                call,
                MediaControl::PlayAudio { toward, source_rate_hz, resampler_built: built, play_id },
            );
            match heard.injection {
                Some(Injection::Audio { play_id: old_id, played_ms, .. }) => {
                    &&& events.len() == 1
                    &&& events[0] == (EventView::PlayFinished {
                        call_id: call.identity.call_id@,
                        from_tag: call.identity.from_tag@,
                        to_tag: match call.identity.to_tag {
                            Some(tag) => Some(tag@),
                            None => None,
                        },
                        play_id: old_id,
                        reason: PlayEndReason::Superseded,
                        played_ms: Some(played_ms),
                    })
                },
                _ => events.len() == 0,
            }
        }),
        ({
            let events = control_events(call, MediaControl::StopPlay);
            let prompts = (if call.a_to_b.injection is Some && call.a_to_b.injection->Some_0 is Audio {
                1int
            } else {
                0
            }) + (if call.b_to_a.injection is Some && call.b_to_a.injection->Some_0 is Audio {
                1int
            } else {
                0
            });
            &&& events.len() == prompts
            &&& forall|i: int|
                0 <= i < events.len() ==> (#[trigger] events[i]) is PlayFinished && events[i]->PlayFinished_reason
                    == PlayEndReason::Stopped && events[i]->PlayFinished_call_id == call.identity.call_id@
            &&& controlled(call, MediaControl::StopPlay).a_to_b.injection is None
            &&& controlled(call, MediaControl::StopPlay).b_to_a.injection is None
        }),
{
}

/// Key presses toward a party sound in what that party hears, each at its own time on the stream's clock: the
/// stream's timestamp when the sequence began plus the press's own offset, around the end of the range. A
/// press with a later offset is later by the difference. They carry the type the party negotiated, the
/// stream's SSRC and next sequence number, the mark at the start of a press, and their bytes as they are; and
/// the stream's timestamp stays where it was.
pub proof fn law_key_presses_follow_the_clock(
    call: MediaCallView,
    toward: Leg,
    earlier: DtmfStep,
    press: DtmfStep,
)
    requires
        earlier is Event,
        press is Event,
        (if toward is A {
            call.b_to_a
        } else {
            call.a_to_b
        }).telephone_event_out is Some,
    ensures
        ({
            let after = controlled(call, MediaControl::PlayDtmf { toward, sequence_built: true });
            let (heard, spoken, was_heard, was_spoken) = if toward is A {
                (after.b_to_a, after.a_to_b, call.b_to_a, call.a_to_b)
            } else {
                (after.a_to_b, after.b_to_a, call.a_to_b, call.b_to_a)
            };
            let first = heard.keys_step(earlier);
            let later = heard.after_keys(earlier).advanced(Advance::SequenceOnly);
            let next = later.keys_step(press);
            &&& spoken == was_spoken
            &&& first is Frame && next is Frame
            &&& first->header.timestamp == (was_heard.egress_timestamp + earlier->timestamp_offset) % 0x1_0000_0000
            &&& next->header.timestamp == (was_heard.egress_timestamp + press->timestamp_offset) % 0x1_0000_0000
            &&& earlier->timestamp_offset <= press->timestamp_offset ==> next->header.timestamp == (
            first->header.timestamp + (press->timestamp_offset - earlier->timestamp_offset)) % 0x1_0000_0000
            &&& first->header.payload_type == was_heard.telephone_event_out->Some_0
            &&& first->header.ssrc == was_heard.egress_ssrc
            &&& first->header.sequence == was_heard.egress_sequence
            &&& next->header.sequence == (was_heard.egress_sequence + 1) % 0x1_0000
            &&& first->header.marker == earlier->is_first
            &&& first->Frame_payload == earlier->bytes@
            &&& first->advance is SequenceOnly
            &&& later.egress_timestamp == was_heard.egress_timestamp
            &&& later.injection == heard.injection
            &&& heard.after_keys(DtmfStep::Silence) == heard
            &&& heard.keys_step(DtmfStep::Silence) == (MediaStepView::Done { latch: None })
            &&& heard.after_keys(DtmfStep::Done) == (DirectionView { injection: None, ..heard })
            &&& heard.tick_step(true) is NextDtmf && heard.tick_step(false) is NextDtmf
        }),
{
}

/// A key-press sequence that did not come about, or that the party cannot take, changes nothing.
pub proof fn law_refused_keys_change_nothing(call: MediaCallView, toward: Leg, sequence_built: bool)
    requires
        !sequence_built || (if toward is A {
            call.b_to_a
        } else {
            call.a_to_b
        }).telephone_event_out is None,
    ensures
        controlled(call, MediaControl::PlayDtmf { toward, sequence_built }) == call,
        control_events(call, MediaControl::PlayDtmf { toward, sequence_built }).len() == 0,
{
}

/// A block on one party's key presses keeps them from the other party, whether the call transcodes, relays or
/// reflects, and lifting it lets them through again where the other party takes them. What the other party
/// sends is treated as before.
pub proof fn law_key_block_is_on_its_party(
    call: MediaCallView,
    source: Leg,
    blocked: bool,
    packet: RtpPacketView,
    treatment: Treatment,
    data: Seq<u8>,
)
    ensures
        ({
            let after = controlled(call, MediaControl::BlockDtmf { source, blocked });
            let (named, other, was_named, was_other) = if source is A {
                (after.a_to_b, after.b_to_a, call.a_to_b, call.b_to_a)
            } else {
                (after.b_to_a, after.a_to_b, call.b_to_a, call.a_to_b)
            };
            &&& other == was_other
            &&& blocked ==> named.detected_step(packet, treatment) == (MediaStepView::Done { latch: Some(packet.ssrc) })
            &&& !blocked ==> (named.detected_step(packet, treatment) is Frame <==> treatment is Transcode
                && was_named.comfort is None && was_named.telephone_event_out is Some)
            &&& was_named.relay_only && data.len() >= 2 && was_named.telephone_event_in == Some(data[1] & 0x7f) && !(64
                <= (data[1] & 0x7f) <= 95) ==> {
                &&& blocked ==> named.plaintext_sends(data).len() == was_named.raw_tee.len()
                    && named.plaintext_step(data) is Parse
                &&& !blocked && !was_named.blocked ==> named.plaintext_sends(data).len() == was_named.raw_tee.len() + 1
                    && named.plaintext_sends(data).last() == (OutboundView {
                    endpoint: was_named.egress_endpoint,
                    dst: was_named.egress_dst,
                    data,
                })
            }
            &&& named == (DirectionView { dtmf_blocked: blocked, ..was_named })
        }),
{
}

/// Silencing a call replaces what both parties hear by silence that lasts as long, and lifting it lets them
/// hear each other again.
pub proof fn law_silence_is_for_both(call: MediaCallView, silenced: bool, leg: Leg, pcm: Seq<i16>)
    ensures
        ({
            let after = controlled(call, MediaControl::Silence(silenced)).direction(leg);
            &&& after.voiced(pcm).len() == pcm.len()
            &&& forall|i: int|
                0 <= i < pcm.len() ==> #[trigger] after.voiced(pcm)[i] == (if silenced {
                    0i16
                } else {
                    pcm[i]
                })
            &&& after == (DirectionView { silenced, ..call.direction(leg) })
        }),
{
}

/// Blocking a call keeps both parties' audio from the other, transcoded or relayed, and lifting it lets it
/// through where nothing is played. Key presses and subscribers are not concerned.
pub proof fn law_block_is_for_both(call: MediaCallView, blocked: bool, leg: Leg, packet: RtpPacketView, data: Seq<u8>)
    requires
        data.len() >= 2,
    ensures
        ({
            let was = call.direction(leg);
            let after = controlled(call, MediaControl::Block(blocked)).direction(leg);
            &&& after == (DirectionView { blocked, ..was })
            &&& was.telephone_event_in != Some(packet.payload_type) ==> (after.received_step(packet) is Decode
                <==> !blocked && was.injection is None)
            &&& was.telephone_event_in != Some(packet.payload_type) && !(after.received_step(packet) is Decode)
                ==> after.received_step(packet) == (MediaStepView::Done { latch: Some(packet.ssrc) })
            &&& was.telephone_event_in == Some(packet.payload_type) ==> after.received_step(packet) == (
            MediaStepView::Detect { packet, treatment: Treatment::Transcode })
            &&& was.relay_only && !was.dtmf_blocked ==> after.plaintext_sends(data).len() == was.raw_tee.len() + (
            if blocked {
                0int
            } else {
                1
            })
        }),
{
}

/// Reflection is switched for the call as a whole, and touches neither direction.
pub proof fn law_echo_is_for_the_call(call: MediaCallView, echo: bool)
    ensures
        controlled(call, MediaControl::Echo(echo)).echo == echo,
        controlled(call, MediaControl::Echo(echo)).a_to_b == call.a_to_b,
        controlled(call, MediaControl::Echo(echo)).b_to_a == call.b_to_a,
{
}

/// A fork that is attached to a party comes last among that party's forks. Detaching a tag takes exactly the
/// forks under it, finishes exactly their sinks, and keeps the order of the rest; detaching all takes all. The
/// other party's forks stay.
#[verifier::rlimit(60)]
#[verifier::spinoff_prover]
pub proof fn law_forks_belong_to_their_party(call: MediaCallView, source: Leg, fork: Fork, tag: String)
    ensures
        ({
            let was = call.direction(source).forks;
            let added = controlled(call, MediaControl::AddFork { source, fork });
            let cleared = controlled(call, MediaControl::RemoveFork { source });
            let detached = controlled(call, MediaControl::RemoveForkTagged { source, tag });
            let finished = control_sinks(call, MediaControl::RemoveForkTagged { source, tag });
            let all = control_sinks(call, MediaControl::RemoveFork { source });
            &&& added.direction(source).forks.len() == was.len() + 1
            &&& added.direction(source).forks.drop_last() == was
            &&& added.direction(source).forks.last().sink == fork.sink
            &&& added.direction(source).forks.last().tag == (match fork.tag {
                Some(name) => Some(name@),
                None => None,
            })
            &&& cleared.direction(source).forks.len() == 0
            &&& all.len() == was.len()
            &&& forall|i: int| 0 <= i < was.len() ==> #[trigger] all[i] == was[i].sink
            &&& detached.direction(source).forks.len() + finished.len() == was.len()
            &&& forall|i: int|
                0 <= i < detached.direction(source).forks.len() ==> (#[trigger] detached.direction(source).forks[i]).tag
                    != Some(tag@) && was.contains(detached.direction(source).forks[i])
            &&& forall|i: int|
                0 <= i < was.len() && (#[trigger] was[i]).tag != Some(tag@) ==> detached.direction(source).forks.contains(
                    was[i],
                )
            &&& forall|i: int|
                0 <= i < was.len() && (#[trigger] was[i]).tag == Some(tag@) ==> finished.contains(was[i].sink)
            &&& added.direction(source.other_spec()) == call.direction(source.other_spec())
            &&& cleared.direction(source.other_spec()) == call.direction(source.other_spec())
            &&& detached.direction(source.other_spec()) == call.direction(source.other_spec())
        }),
{
    let was = call.direction(source).forks;
    let keep = |held: ForkView| held.tag != Some(tag@);
    let take = |held: ForkView| held.tag == Some(tag@);
    lemma_split(was, keep, take);
    let added = controlled(call, MediaControl::AddFork { source, fork });
    assert(added.direction(source).forks.drop_last() =~= was);
    let finished = control_sinks(call, MediaControl::RemoveForkTagged { source, tag });
    assert forall|i: int| 0 <= i < was.len() && (#[trigger] was[i]).tag == Some(tag@) implies finished.contains(
        was[i].sink,
    ) by {
        assert(take(was[i]));
        let j = choose|j: int| 0 <= j < was.filter(take).len() && was.filter(take)[j] == was[i];
        assert(finished[j] == was[i].sink);
    }
}

/// A filter and its opposite split a list.
proof fn lemma_split<A>(items: Seq<A>, keep: spec_fn(A) -> bool, take: spec_fn(A) -> bool)
    requires
        forall|item: A| #[trigger] keep(item) == !take(item),
    ensures
        items.filter(keep).len() + items.filter(take).len() == items.len(),
        forall|i: int| 0 <= i < items.filter(keep).len() ==> keep(#[trigger] items.filter(keep)[i]) && items.contains(
            items.filter(keep)[i],
        ),
        forall|i: int| 0 <= i < items.len() && keep(#[trigger] items[i]) ==> items.filter(keep).contains(items[i]),
        forall|i: int| 0 <= i < items.len() && take(#[trigger] items[i]) ==> exists|j: int|
            0 <= j < items.filter(take).len() && items.filter(take)[j] == items[i],
    decreases items.len(),
{
    reveal(Seq::filter);
    if items.len() > 0 {
        let prior = items.drop_last();
        lemma_split(prior, keep, take);
        let kept = items.filter(keep);
        let taken = items.filter(take);
        assert forall|i: int| 0 <= i < kept.len() implies keep(#[trigger] kept[i]) && items.contains(kept[i]) by {
            if i < prior.filter(keep).len() {
                assert(kept[i] == prior.filter(keep)[i]);
                let j = choose|j: int| 0 <= j < prior.len() && prior[j] == kept[i];
                assert(items[j] == kept[i]);
            } else {
                assert(items[items.len() - 1] == kept[i]);
            }
        }
        assert forall|i: int| 0 <= i < items.len() && keep(#[trigger] items[i]) implies kept.contains(items[i]) by {
            if i < prior.len() {
                assert(prior[i] == items[i]);
                let j = choose|j: int| 0 <= j < prior.filter(keep).len() && prior.filter(keep)[j] == prior[i];
                assert(kept[j] == items[i]);
            } else {
                assert(kept[kept.len() - 1] == items[i]);
            }
        }
        assert forall|i: int| 0 <= i < items.len() && take(#[trigger] items[i]) implies exists|j: int|
            0 <= j < taken.len() && taken[j] == items[i] by {
            if i < prior.len() {
                assert(prior[i] == items[i]);
                let j = choose|j: int| 0 <= j < prior.filter(take).len() && prior.filter(take)[j] == prior[i];
                assert(taken[j] == items[i]);
            } else {
                assert(taken[taken.len() - 1] == items[i]);
            }
        }
    }
}

/// A subscriber that is attached to what a party sends gets a copy of it, last of all, and one that is detached
/// gets none any more; the others go on, and so do the other party's.
pub proof fn law_subscribers_belong_to_their_party(
    call: MediaCallView,
    source: Leg,
    tee: RawTee,
    subscriber_endpoint: EndpointId,
    data: Seq<u8>,
)
    ensures
        ({
            let was = call.direction(source).raw_tee;
            let added = controlled(call, MediaControl::AddRawTee { source, tee });
            let removed = controlled(call, MediaControl::RemoveRawTee { source, subscriber_endpoint });
            let copies = added.direction(source).tees(data);
            let left = removed.direction(source).tees(data);
            &&& copies.len() == was.len() + 1
            &&& copies.last() == (OutboundView { endpoint: tee.subscriber_endpoint, dst: tee.srs_dst, data })
            &&& copies.drop_last() == call.direction(source).tees(data)
            &&& forall|i: int| 0 <= i < left.len() ==> (#[trigger] left[i]).endpoint != subscriber_endpoint
            &&& forall|i: int|
                0 <= i < was.len() && (#[trigger] was[i]).subscriber_endpoint != subscriber_endpoint
                    ==> removed.direction(source).raw_tee.contains(was[i])
            &&& forall|i: int|
                0 <= i < removed.direction(source).raw_tee.len() ==> was.contains(
                    #[trigger] removed.direction(source).raw_tee[i],
                )
            &&& added.direction(source.other_spec()) == call.direction(source.other_spec())
            &&& removed.direction(source.other_spec()) == call.direction(source.other_spec())
        }),
{
    let was = call.direction(source).raw_tee;
    let keep = |held: RawTee| held.subscriber_endpoint != subscriber_endpoint;
    let take = |held: RawTee| held.subscriber_endpoint == subscriber_endpoint;
    lemma_split(was, keep, take);
    let added = controlled(call, MediaControl::AddRawTee { source, tee });
    assert(added.direction(source).tees(data).drop_last() =~= call.direction(source).tees(data));
    let removed = controlled(call, MediaControl::RemoveRawTee { source, subscriber_endpoint });
    assert forall|i: int| 0 <= i < removed.direction(source).tees(data).len() implies (
    #[trigger] removed.direction(source).tees(data)[i]).endpoint != subscriber_endpoint by {
        assert(keep(was.filter(keep)[i]));
    }
}

/// While a capture is under way, what each party sends is captured as it is, from where it came to that party's
/// own address, with its time of arrival; and nothing is captured otherwise.
pub proof fn law_capture_names_the_leg(call: MediaCallView, capture: PcapCapture, packet: RxPacket)
    ensures
        ({
            let started = controlled(call, MediaControl::StartRecording { capture });
            let stopped = controlled(call, MediaControl::StopRecording);
            let a = started.captured(Leg::A, packet);
            let b = started.captured(Leg::B, packet);
            &&& a is Some && b is Some
            &&& a->Some_0.destination == capture.a_local && b->Some_0.destination == capture.b_local
            &&& a->Some_0.source == packet.source && b->Some_0.source == packet.source
            &&& a->Some_0.payload == packet.data@ && b->Some_0.payload == packet.data@
            &&& a->Some_0.timestamp_micros == packet.arrival && b->Some_0.timestamp_micros == packet.arrival
            &&& stopped.captured(Leg::A, packet) is None && stopped.captured(Leg::B, packet) is None
            &&& started.a_to_b == call.a_to_b && started.b_to_a == call.b_to_a
            &&& stopped.a_to_b == call.a_to_b && stopped.b_to_a == call.b_to_a
        }),
{
}

/// A control operation leaves a call what it is: its name and its settings. Reflection and capture are only
/// switched by their own operations.
#[verifier::rlimit(60)]
#[verifier::spinoff_prover]
pub proof fn law_control_leaves_the_call(call: MediaCallView, control: MediaControl)
    ensures
        controlled(call, control).identity == call.identity,
        controlled(call, control).latch == call.latch,
        controlled(call, control).record_path == call.record_path,
        controlled(call, control).rtcp == call.rtcp,
        !(control is Echo) ==> controlled(call, control).echo == call.echo,
        !(control is StartRecording) && !(control is StopRecording) ==> controlled(call, control).capture == call.capture,
{
    match control {
        MediaControl::BlockDtmf { source, blocked } => {
            assert(controlled(call, control) == call.with_direction(
                source,
                DirectionView { dtmf_blocked: blocked, ..call.direction(source) },
            ));
        },
        MediaControl::PlayAudio { .. } => {},
        MediaControl::PlayDtmf { .. } => {},
        MediaControl::StopPlay => {},
        MediaControl::AddFork { .. } => {},
        MediaControl::RemoveFork { .. } => {},
        MediaControl::RemoveForkTagged { .. } => {},
        MediaControl::AddRawTee { .. } => {},
        MediaControl::RemoveRawTee { .. } => {},
        _ => {},
    }
}

/// A report and the end of a call change nothing of it, and only what plays or is detached is reported.
pub proof fn law_control_reports_only_ends(call: MediaCallView, control: MediaControl)
    ensures
        controlled(call, MediaControl::Report) == call,
        controlled(call, MediaControl::Stop) == call,
        !(control is PlayAudio) && !(control is PlayDtmf) && !(control is StopPlay) ==> control_events(call, control).len()
            == 0,
        !(control is RemoveFork) && !(control is RemoveForkTagged) ==> control_sinks(call, control).len() == 0,
{
}

} // verus!
