//! One direction of a call: the flow of media from one party toward the other.
use crate::event::{raises, Event, EventView, PlayEndReason};
use crate::media_pipeline::echo::{newest, EchoReference, EchoReferenceView};
use crate::media_pipeline::latch::{
    is_rtcp_datagram, is_rtcp_type, packet_type, rtcp_datagram, rtp_source_ssrc, source_ssrc, SymmetricLatch,
};
use crate::media_pipeline::repacketize::{Repacketizer, RepacketizerView};
use crate::media_pipeline::step::{
    lemma_sends_concat, sends, Advance, DtmfEvent, DtmfStep, MediaStep, MediaStepView, Onward, Outbound, OutboundView,
    RawTee, RtpHeader, RtpPacket, RtpPacketView, StreamTag, Treatment, COMFORT_NOISE_LEVEL_DBOV, MAX_PCM,
};
use crate::net::{EndpointId, SocketAddress, SourceFilter};
use crate::text::{char_text, copy_optional, optional_text};
use vstd::prelude::*;
use vstd::slice::slice_to_vec;

verus! {

/// The identifiers that name a call and its legs.
#[derive(Clone, Debug)]
pub struct CallIdentity {
    pub call_id: String,
    pub from_tag: String,
    pub to_tag: Option<String>,
}

/// Idle-egress comfort noise of a single-leg call (RFC 3389).
#[derive(Clone, Copy, Debug, PartialEq, Eq, Structural)]
pub struct ComfortNoise {
    /// The negotiated comfort-noise payload type, or `None` to encode noise in the leg's codec.
    pub cn_pt: Option<u8>,
}

/// Media injected onto an egress direction.
#[derive(Clone, Copy, Debug, PartialEq, Eq, Structural)]
pub enum Injection {
    /// A prompt.
    Audio {
        /// The prompt's own sample rate.
        source_rate_hz: u32,
        /// Whether its frames are converted to the egress rate.
        resampled: bool,
        /// Names the prompt in the event that reports its end.
        play_id: u64,
        /// Milliseconds played so far.
        played_ms: u64,
    },
    /// A key-press sequence.
    Dtmf {
        payload_type: u8,
        /// The RTP timestamp of the sequence's first event.
        base_timestamp: u32,
    },
}

/// A prompt that just ended.
#[derive(Clone, Copy, Debug, PartialEq, Eq, Structural)]
pub struct FinishedPlay {
    pub play_id: u64,
    pub reason: PlayEndReason,
    pub played_ms: u64,
}

/// A subscriber fed the decoded audio of one leg.
#[derive(Clone, Debug)]
pub struct Fork {
    /// Names a group of forks that are detached together.
    pub tag: Option<String>,
    /// The sink that takes the audio.
    pub sink: u64,
}

/// The content of a [`Fork`].
pub struct ForkView {
    pub tag: Option<Seq<char>>,
    pub sink: u64,
}

impl View for Fork {
    type V = ForkView;

    open spec fn view(&self) -> ForkView {
        ForkView { tag: optional_text(self.tag), sink: self.sink }
    }
}

/// The rates and frame size of a codec.
#[derive(Clone, Copy, Debug, PartialEq, Eq, Structural)]
pub struct CodecParams {
    /// Sample rate of the audio.
    pub sample_rate_hz: u32,
    /// Rate of the RTP timestamp clock. It differs from the sample rate for some codecs (RFC 3551
    /// section 4.5.2).
    pub rtp_clock_rate_hz: u32,
    /// Samples in one frame.
    pub frame_samples: u32,
}

/// Which optional signal processors could be built for a direction.
#[derive(Clone, Copy, Debug, PartialEq, Eq, Structural)]
pub struct ToolSupport {
    pub resampler: bool,
    pub noise_suppressor: bool,
    pub echo_canceller: bool,
}

/// How a transcoding direction is built.
#[derive(Clone, Copy, Debug, PartialEq, Eq, Structural)]
pub struct DirectionConfig {
    pub ingress_endpoint: EndpointId,
    pub accepted_source: SourceFilter,
    pub egress_endpoint: EndpointId,
    pub egress_dst: SocketAddress,
    pub decoder: CodecParams,
    pub encoder: CodecParams,
    pub egress_ssrc: u32,
    pub egress_payload_type: u8,
    pub telephone_event_in: Option<u8>,
    pub telephone_event_out: Option<u8>,
    pub recorder: bool,
    pub noise_suppression: bool,
    pub echo_cancellation: bool,
    pub produce_echo_reference: bool,
}

/// How a relay-only direction is built.
#[derive(Clone, Copy, Debug, PartialEq, Eq, Structural)]
pub struct RelayConfig {
    pub ingress_endpoint: EndpointId,
    pub accepted_source: SourceFilter,
    pub egress_endpoint: EndpointId,
    pub egress_dst: SocketAddress,
    pub telephone_event: Option<u8>,
}

/// One direction of a media call: ingress codec, optional processing, egress codec.
pub struct Direction {
    ingress_endpoint: EndpointId,
    accepted_source: SourceFilter,
    source_latch: SymmetricLatch,
    egress_endpoint: EndpointId,
    egress_dst: SocketAddress,
    relay_only: bool,
    raw_tee: Vec<RawTee>,
    resampler: bool,
    noise_suppressor: bool,
    echo_canceller: bool,
    echo_reference: Option<EchoReference>,
    egress_sequence: u16,
    egress_timestamp: u32,
    egress_ssrc: u32,
    egress_payload_type: u8,
    egress_frame_samples: u32,
    egress_timestamp_increment: u32,
    repacketizer: Repacketizer,
    pending_marker: bool,
    telephone_event_in: Option<u8>,
    telephone_event_out: Option<u8>,
    recorder: bool,
    forks: Vec<Fork>,
    silenced: bool,
    blocked: bool,
    dtmf_blocked: bool,
    egress_sample_rate: u32,
    injection: Option<Injection>,
    comfort: Option<ComfortNoise>,
    secure_ingress: bool,
    secure_egress: bool,
}

/// The state of a [`Direction`].
pub struct DirectionView {
    /// The endpoint its datagrams arrive on.
    pub ingress_endpoint: EndpointId,
    /// The filter on the sending party's source.
    pub accepted_source: SourceFilter,
    /// The latch on the sending party's stream.
    pub source_latch: SymmetricLatch,
    /// The endpoint it transmits from.
    pub egress_endpoint: EndpointId,
    /// Where it transmits to.
    pub egress_dst: SocketAddress,
    /// Whether it forwards verbatim, without codecs.
    pub relay_only: bool,
    /// Subscribers to its verbatim ingress.
    pub raw_tee: Seq<RawTee>,
    /// Whether it converts between rates.
    pub resampler: bool,
    /// Whether it suppresses noise.
    pub noise_suppressor: bool,
    /// Whether it cancels echo.
    pub echo_canceller: bool,
    /// The egress audio kept for the opposite direction's echo canceller.
    pub echo_reference: Option<EchoReferenceView>,
    /// The sequence number of the next egress packet.
    pub egress_sequence: u16,
    /// The timestamp of the next egress audio packet.
    pub egress_timestamp: u32,
    pub egress_ssrc: u32,
    pub egress_payload_type: u8,
    /// Samples in one egress frame.
    pub egress_frame_samples: u32,
    /// Timestamp step from one egress frame to the next.
    pub egress_timestamp_increment: u32,
    /// Audio not framed yet.
    pub repacketizer: RepacketizerView,
    /// A talkspurt start that the next egress packet carries.
    pub pending_marker: bool,
    pub telephone_event_in: Option<u8>,
    pub telephone_event_out: Option<u8>,
    /// Whether its decoded ingress is recorded.
    pub recorder: bool,
    /// Subscribers to its decoded ingress.
    pub forks: Seq<ForkView>,
    /// Whether its egress audio is replaced by silence.
    pub silenced: bool,
    /// Whether its egress audio is dropped.
    pub blocked: bool,
    /// Whether its key presses are kept from the peer.
    pub dtmf_blocked: bool,
    pub egress_sample_rate: u32,
    /// What plays instead of the transcoded audio.
    pub injection: Option<Injection>,
    /// Set on the caller-facing egress of a single-leg call.
    pub comfort: Option<ComfortNoise>,
    /// Whether its ingress is encrypted.
    pub secure_ingress: bool,
    /// Whether its egress is encrypted.
    pub secure_egress: bool,
}

/// The treatment that a datagram gets on its way in.
pub open spec fn entry_treatment(echo: bool) -> Treatment {
    if echo {
        Treatment::Echo
    } else {
        Treatment::Transcode
    }
}

impl DirectionView {
    /// What follows the opening of an encrypted datagram. One that did not authenticate goes no further, and
    /// reports no SSRC.
    pub open spec fn opened_step(self, plain: Option<Seq<u8>>, treatment: Treatment) -> MediaStepView {
        match plain {
            None => MediaStepView::Done { latch: None },
            Some(data) => if treatment is Echo {
                self.reflect_step(data)
            } else {
                self.plaintext_step(data)
            },
        }
    }

    /// What is sent at once when an encrypted datagram was opened.
    pub open spec fn opened_sends(self, plain: Option<Seq<u8>>, treatment: Treatment) -> Seq<OutboundView> {
        match plain {
            Some(data) if !(treatment is Echo) => self.plaintext_sends(data),
            _ => Seq::empty(),
        }
    }

    /// The header of the next egress packet.
    pub open spec fn header(self, marker: bool, payload_type: u8, timestamp: u32) -> RtpHeader {
        RtpHeader { marker, payload_type, sequence: self.egress_sequence, timestamp, ssrc: self.egress_ssrc }
    }

    /// A datagram toward this direction's peer.
    pub open spec fn outbound(self, data: Seq<u8>) -> OutboundView {
        OutboundView { endpoint: self.egress_endpoint, dst: self.egress_dst, data }
    }

    /// The verbatim copies every subscriber gets of one ingress datagram.
    pub open spec fn tees(self, data: Seq<u8>) -> Seq<OutboundView> {
        Seq::new(
            self.raw_tee.len(),
            |i: int|
                OutboundView {
                    endpoint: self.raw_tee[i].subscriber_endpoint,
                    dst: self.raw_tee[i].srs_dst,
                    data,
                },
        )
    }

    /// The state once a packet has been written.
    pub open spec fn advanced(self, advance: Advance) -> DirectionView {
        DirectionView {
            egress_sequence: self.egress_sequence.wrapping_add(1),
            egress_timestamp: match advance {
                Advance::Stream => self.egress_timestamp.wrapping_add(self.egress_timestamp_increment),
                Advance::SequenceOnly => self.egress_timestamp,
            },
            ..self
        }
    }

    /// The state once `pcm` has been sent toward the party: it becomes echo reference.
    pub open spec fn heard(self, pcm: Seq<i16>) -> DirectionView {
        DirectionView {
            echo_reference: match self.echo_reference {
                Some(ring) => Some(
                    EchoReferenceView { samples: newest(ring.samples + pcm, ring.capacity), ..ring },
                ),
                None => None,
            },
            ..self
        }
    }

    /// The state once a waiting frame has been taken for sending, unchanged when none waits.
    pub open spec fn drained(self) -> DirectionView {
        if self.repacketizer.has_frame() {
            DirectionView { repacketizer: self.repacketizer.rest(), pending_marker: false, ..self }.heard(
                self.repacketizer.frame(),
            )
        } else {
            self
        }
    }

    /// What follows an emission: encode the next waiting frame, or finish.
    pub open spec fn drain_step(self, latch: Option<u32>) -> MediaStepView {
        if self.repacketizer.has_frame() {
            MediaStepView::Encode {
                pcm: self.repacketizer.frame(),
                marker: self.pending_marker,
                after: Onward::drains(latch),
            }
        } else {
            MediaStepView::Done { latch }
        }
    }

    /// No whole frame of re-framed audio waits to be sent. So it is whenever no walk is under way.
    pub open spec fn at_rest(self) -> bool {
        !self.repacketizer.has_frame()
    }

    /// What follows a packet that was sent or given up: the next waiting frame where it belongs to re-framed
    /// audio, and the end otherwise.
    pub open spec fn onward_step(self, after: Onward) -> MediaStepView {
        if after.frames {
            self.drain_step(after.latch)
        } else {
            MediaStepView::Done { latch: after.latch }
        }
    }

    /// The state once a packet was sent or given up.
    pub open spec fn went_on(self, after: Onward) -> DirectionView {
        if after.frames {
            self.drained()
        } else {
            self
        }
    }

    /// Egress packet time in milliseconds: the frame size over the rate, at least one, and 20 where
    /// there is no rate.
    pub open spec fn ptime_ms(self) -> int {
        if self.egress_sample_rate == 0 {
            20
        } else {
            vstd::math::max(self.egress_frame_samples as int * 1000 / self.egress_sample_rate as int, 1)
        }
    }

    /// What an accepted datagram leads to first. An encrypted one is unprotected before anything else, whether
    /// it goes on to the peer or is reflected.
    pub open spec fn entry_step(self, data: Seq<u8>, echo: bool) -> MediaStepView {
        if data.len() < 2 {
            MediaStepView::Done { latch: None }
        } else if self.secure_ingress {
            MediaStepView::Unprotect { data, treatment: entry_treatment(echo) }
        } else if echo {
            self.reflect_step(data)
        } else {
            self.plaintext_step(data)
        }
    }

    /// What an accepted datagram sends at once.
    pub open spec fn entry_sends(self, data: Seq<u8>, echo: bool) -> Seq<OutboundView> {
        if data.len() < 2 || self.secure_ingress || echo {
            Seq::empty()
        } else {
            self.plaintext_sends(data)
        }
    }

    /// What the direction does with a plaintext datagram that is reflected. RTCP and fragments are ignored.
    pub open spec fn reflect_step(self, data: Seq<u8>) -> MediaStepView {
        if data.len() < 2 || rtcp_datagram(data) {
            MediaStepView::Done { latch: None }
        } else {
            MediaStepView::Parse { data, treatment: Treatment::Echo }
        }
    }

    /// What the direction does with a plaintext datagram, after the subscribers got their copies.
    pub open spec fn plaintext_step(self, data: Seq<u8>) -> MediaStepView {
        if self.relay_only {
            if self.drops_event(data) {
                MediaStepView::Parse { data, treatment: Treatment::BlockedEvent }
            } else {
                MediaStepView::Done { latch: source_ssrc(data) }
            }
        } else if is_rtcp_type(packet_type(data)) {
            if self.secure_egress {
                MediaStepView::Protect { data, after: Onward::ends(None) }
            } else {
                MediaStepView::Done { latch: None }
            }
        } else {
            MediaStepView::Parse { data, treatment: Treatment::Transcode }
        }
    }

    /// The datagrams a plaintext datagram causes at once: the subscribers' copies, and the datagram
    /// itself where it is forwarded untouched.
    pub open spec fn plaintext_sends(self, data: Seq<u8>) -> Seq<OutboundView> {
        let forwarded = if self.relay_only {
            !self.drops_event(data) && !self.blocked
        } else {
            is_rtcp_type(packet_type(data)) && !self.secure_egress
        };
        if forwarded {
            self.tees(data).push(self.outbound(data))
        } else {
            self.tees(data)
        }
    }

    /// Whether a relay-only direction keeps this datagram from the peer as a blocked key press.
    pub open spec fn drops_event(self, data: Seq<u8>) -> bool {
        self.dtmf_blocked && !is_rtcp_type(packet_type(data)) && self.telephone_event_in == Some(packet_type(data))
    }

    /// Whether a received audio packet is decoded, rather than ignored because the egress is blocked
    /// or plays something else.
    pub open spec fn decodes(self) -> bool {
        !self.blocked && self.injection is None
    }

    /// Whether a detected key press is sent on to the peer.
    pub open spec fn relays_events(self) -> bool {
        !self.dtmf_blocked && self.comfort is None && self.telephone_event_out is Some
    }

    /// The state once egress audio has been taken in for framing.
    pub open spec fn framing(self, pcm: Seq<i16>, marker: bool) -> DirectionView {
        DirectionView {
            repacketizer: RepacketizerView { pending: self.repacketizer.pending + pcm, ..self.repacketizer },
            pending_marker: self.pending_marker || marker,
            ..self
        }
    }

    /// The state after a piece of egress audio has been taken in and a frame taken out.
    pub open spec fn repacketized(self, pcm: Seq<i16>, marker: bool) -> DirectionView {
        if self.repacketizer.frame_samples == 0 {
            DirectionView { pending_marker: false, ..self }.heard(pcm)
        } else {
            self.framing(pcm, marker).drained()
        }
    }

    /// The step after a piece of egress audio has been taken in.
    pub open spec fn repacketize_step(self, pcm: Seq<i16>, marker: bool, latch: Option<u32>) -> MediaStepView {
        if self.repacketizer.frame_samples == 0 {
            MediaStepView::Encode { pcm, marker: self.pending_marker || marker, after: Onward::ends(latch) }
        } else {
            self.framing(pcm, marker).drain_step(latch)
        }
    }

    /// The audio that goes on toward the peer: silence in place of a silenced frame.
    pub open spec fn voiced(self, pcm: Seq<i16>) -> Seq<i16> {
        if self.silenced {
            silence(pcm.len())
        } else {
            pcm
        }
    }

    /// The prompt that an injection reports when it ends, if it is a prompt.
    pub open spec fn finished_play(self, reason: PlayEndReason) -> Option<FinishedPlay> {
        match self.injection {
            Some(Injection::Audio { play_id, played_ms, .. }) => Some(
                FinishedPlay { play_id, reason, played_ms },
            ),
            _ => None,
        }
    }

    /// How many samples of a prompt make one egress frame: the packet time at the prompt's rate,
    /// within one and the largest frame.
    pub open spec fn prompt_samples(self, source_rate_hz: u32) -> nat {
        let samples = source_rate_hz as int * self.ptime_ms() / 1000;
        if samples < 1 {
            1
        } else if samples > MAX_PCM {
            MAX_PCM as nat
        } else {
            samples as nat
        }
    }

    /// What a playout tick does.
    pub open spec fn tick_step(self, comfort_enabled: bool) -> MediaStepView {
        match self.injection {
            Some(Injection::Audio { source_rate_hz, .. }) => MediaStepView::NextPrompt {
                samples: self.prompt_samples(source_rate_hz),
            },
            Some(Injection::Dtmf { .. }) => MediaStepView::NextDtmf,
            None => match self.comfort {
                Some(comfort) if comfort_enabled && !self.blocked => self.comfort_step(comfort),
                _ => MediaStepView::Done { latch: None },
            },
        }
    }

    /// The state once a playout tick has begun: the silence that it sends becomes echo reference.
    pub open spec fn ticked(self, comfort_enabled: bool) -> DirectionView {
        if self.injection is None && self.comfort is Some && comfort_enabled && !self.blocked && self.silenced {
            self.heard(silence(self.egress_frame_samples as nat))
        } else {
            self
        }
    }

    /// What an idle single-leg call sends: silence while silenced, a comfort-noise packet where one
    /// was negotiated, and encoded noise otherwise.
    pub open spec fn comfort_step(self, comfort: ComfortNoise) -> MediaStepView {
        if self.silenced {
            MediaStepView::Encode {
                pcm: silence(self.egress_frame_samples as nat),
                marker: false,
                after: Onward::ends(None),
            }
        } else {
            match comfort.cn_pt {
                Some(payload_type) => MediaStepView::Frame {
                    header: self.header(false, payload_type, self.egress_timestamp),
                    payload: seq![COMFORT_NOISE_LEVEL_DBOV],
                    advance: Advance::Stream,
                    after: Onward::ends(None),
                },
                None => MediaStepView::FillNoise {
                    level: COMFORT_NOISE_LEVEL_DBOV,
                    samples: self.egress_frame_samples as nat,
                },
            }
        }
    }
}

/// Digital silence.
pub open spec fn silence(samples: nat) -> Seq<i16> {
    Seq::new(samples, |i: int| 0i16)
}

/// The event that reports a key press on a leg.
pub open spec fn dtmf_event(identity: CallIdentity, event: DtmfEvent) -> EventView {
    EventView::Dtmf {
        call_id: identity.call_id@,
        from_tag: identity.from_tag@,
        to_tag: optional_text(identity.to_tag),
        digit: seq![event.digit],
        duration_ms: (event.duration / 8) as u32,
        volume: -(event.volume as int) as i32,
    }
}

/// The event that reports the end of a prompt.
pub open spec fn play_finished_event(identity: CallIdentity, finished: FinishedPlay) -> EventView {
    EventView::PlayFinished {
        call_id: identity.call_id@,
        from_tag: identity.from_tag@,
        to_tag: optional_text(identity.to_tag),
        play_id: finished.play_id,
        reason: finished.reason,
        played_ms: Some(finished.played_ms),
    }
}

impl CallIdentity {
    /// The event that reports a key press on a leg of this call.
    pub fn dtmf_event(&self, event: DtmfEvent) -> (raised: Event)
        ensures
            raised@ == dtmf_event(*self, event),
    {
        Event::Dtmf {
            call_id: self.call_id.clone(),
            from_tag: self.from_tag.clone(),
            to_tag: copy_optional(&self.to_tag),
            digit: char_text(event.digit),
            duration_ms: event.duration as u32 / 8,
            volume: -(event.volume as i32),
        }
    }

    /// The event that reports the end of a prompt of this call.
    pub fn play_finished_event(&self, finished: FinishedPlay) -> (raised: Event)
        ensures
            raised@ == play_finished_event(*self, finished),
    {
        Event::PlayFinished {
            call_id: self.call_id.clone(),
            from_tag: self.from_tag.clone(),
            to_tag: copy_optional(&self.to_tag),
            play_id: finished.play_id,
            reason: finished.reason,
            played_ms: Some(finished.played_ms),
        }
    }
}

/// The timestamp step of an egress frame: its samples measured on the RTP clock.
pub open spec fn timestamp_increment(frame_samples: u32, encoder: CodecParams) -> u32 {
    if encoder.sample_rate_hz == 0 {
        frame_samples
    } else {
        (((frame_samples as u64) * (encoder.rtp_clock_rate_hz as u64)) as u64 / (encoder.sample_rate_hz as u64)) as u32
    }
}

/// The frame size of an egress direction, within the largest frame.
pub open spec fn egress_frame(encoder: CodecParams) -> u32 {
    if encoder.frame_samples < MAX_PCM as u32 {
        encoder.frame_samples
    } else {
        MAX_PCM as u32
    }
}

/// The state of a freshly built transcoding direction.
pub open spec fn fresh_direction(config: DirectionConfig, tools: ToolSupport) -> DirectionView {
    DirectionView {
        ingress_endpoint: config.ingress_endpoint,
        accepted_source: config.accepted_source,
        source_latch: SymmetricLatch { source: None, ssrc: None },
        egress_endpoint: config.egress_endpoint,
        egress_dst: config.egress_dst,
        relay_only: false,
        raw_tee: Seq::empty(),
        resampler: config.decoder.sample_rate_hz != config.encoder.sample_rate_hz && tools.resampler,
        noise_suppressor: config.noise_suppression && tools.noise_suppressor,
        echo_canceller: config.echo_cancellation && tools.echo_canceller,
        echo_reference: if config.produce_echo_reference {
            Some(
                EchoReferenceView {
                    samples: Seq::empty(),
                    capacity: (2 * MAX_PCM) as nat,
                    sample_rate_hz: config.encoder.sample_rate_hz,
                },
            )
        } else {
            None
        },
        egress_sequence: 0,
        egress_timestamp: 0,
        egress_ssrc: config.egress_ssrc,
        egress_payload_type: config.egress_payload_type,
        egress_frame_samples: egress_frame(config.encoder),
        egress_timestamp_increment: timestamp_increment(egress_frame(config.encoder), config.encoder),
        repacketizer: RepacketizerView {
            frame_samples: egress_frame(config.encoder) as nat,
            pending: Seq::empty(),
        },
        pending_marker: false,
        telephone_event_in: config.telephone_event_in,
        telephone_event_out: config.telephone_event_out,
        recorder: config.recorder,
        forks: Seq::empty(),
        silenced: false,
        blocked: false,
        dtmf_blocked: false,
        egress_sample_rate: config.encoder.sample_rate_hz,
        injection: None,
        comfort: None,
        secure_ingress: false,
        secure_egress: false,
    }
}

/// The state of a freshly built relay-only direction.
pub open spec fn fresh_relay(config: RelayConfig) -> DirectionView {
    DirectionView {
        ingress_endpoint: config.ingress_endpoint,
        accepted_source: config.accepted_source,
        source_latch: SymmetricLatch { source: None, ssrc: None },
        egress_endpoint: config.egress_endpoint,
        egress_dst: config.egress_dst,
        relay_only: true,
        raw_tee: Seq::empty(),
        resampler: false,
        noise_suppressor: false,
        echo_canceller: false,
        echo_reference: None,
        egress_sequence: 0,
        egress_timestamp: 0,
        egress_ssrc: 0,
        egress_payload_type: 0,
        egress_frame_samples: 0,
        egress_timestamp_increment: 0,
        repacketizer: RepacketizerView { frame_samples: 0, pending: Seq::empty() },
        pending_marker: false,
        telephone_event_in: config.telephone_event,
        telephone_event_out: None,
        recorder: false,
        forks: Seq::empty(),
        silenced: false,
        blocked: false,
        dtmf_blocked: false,
        egress_sample_rate: 0,
        injection: None,
        comfort: None,
        secure_ingress: false,
        secure_egress: false,
    }
}

/// The contents of a list of forks.
pub open spec fn fork_views(forks: Seq<Fork>) -> Seq<ForkView> {
    Seq::new(forks.len(), |i: int| forks[i]@)
}

impl View for Direction {
    type V = DirectionView;

    closed spec fn view(&self) -> DirectionView {
        DirectionView {
            ingress_endpoint: self.ingress_endpoint,
            accepted_source: self.accepted_source,
            source_latch: self.source_latch,
            egress_endpoint: self.egress_endpoint,
            egress_dst: self.egress_dst,
            relay_only: self.relay_only,
            raw_tee: self.raw_tee@,
            resampler: self.resampler,
            noise_suppressor: self.noise_suppressor,
            echo_canceller: self.echo_canceller,
            echo_reference: match self.echo_reference {
                Some(ring) => Some(ring@),
                None => None,
            },
            egress_sequence: self.egress_sequence,
            egress_timestamp: self.egress_timestamp,
            egress_ssrc: self.egress_ssrc,
            egress_payload_type: self.egress_payload_type,
            egress_frame_samples: self.egress_frame_samples,
            egress_timestamp_increment: self.egress_timestamp_increment,
            repacketizer: self.repacketizer@,
            pending_marker: self.pending_marker,
            telephone_event_in: self.telephone_event_in,
            telephone_event_out: self.telephone_event_out,
            recorder: self.recorder,
            forks: fork_views(self.forks@),
            silenced: self.silenced,
            blocked: self.blocked,
            dtmf_blocked: self.dtmf_blocked,
            egress_sample_rate: self.egress_sample_rate,
            injection: self.injection,
            comfort: self.comfort,
            secure_ingress: self.secure_ingress,
            secure_egress: self.secure_egress,
        }
    }
}

impl Direction {
    /// The frame sizes agree and stay within the largest frame, and the echo reference is sound.
    pub closed spec fn wf(&self) -> bool {
        &&& self.egress_frame_samples <= MAX_PCM
        &&& self.repacketizer@.frame_samples == self.egress_frame_samples
        &&& self.echo_reference matches Some(ring) ==> ring.wf()
    }

    /// An egress frame never exceeds the largest frame, and audio is cut to exactly that size.
    pub proof fn law_frames_fit(&self)
        requires
            self.wf(),
        ensures
            self@.egress_frame_samples <= MAX_PCM,
            self@.repacketizer.frame_samples == self@.egress_frame_samples,
    {
    }

    /// Build a transcoding direction.
    pub fn new(config: DirectionConfig, tools: ToolSupport) -> (direction: Self)
        ensures
            direction.wf(),
            direction@ == fresh_direction(config, tools),
    {
        let egress_rate: u32 = config.encoder.sample_rate_hz;
        let frame: u32 = if config.encoder.frame_samples < MAX_PCM as u32 {
            config.encoder.frame_samples
        } else {
            MAX_PCM as u32
        };
        let increment: u32 = if egress_rate == 0 {
            frame
        } else {
            proof {
                assert(frame as u64 * (config.encoder.rtp_clock_rate_hz as u64) <= 1920 * 0xffff_ffff)
                    by (nonlinear_arith)
                    requires
                        frame <= 1920,
                        config.encoder.rtp_clock_rate_hz <= 0xffff_ffff,
                ;
            }
            ((frame as u64 * config.encoder.rtp_clock_rate_hz as u64) / egress_rate as u64) as u32
        };
        let echo_reference = if config.produce_echo_reference {
            Some(EchoReference::new(2 * MAX_PCM, egress_rate))
        } else {
            None
        };
        let direction = Direction {
            ingress_endpoint: config.ingress_endpoint,
            accepted_source: config.accepted_source,
            source_latch: SymmetricLatch::default(),
            egress_endpoint: config.egress_endpoint,
            egress_dst: config.egress_dst,
            relay_only: false,
            raw_tee: Vec::new(),
            resampler: config.decoder.sample_rate_hz != egress_rate && tools.resampler,
            noise_suppressor: config.noise_suppression && tools.noise_suppressor,
            echo_canceller: config.echo_cancellation && tools.echo_canceller,
            echo_reference,
            egress_sequence: 0,
            egress_timestamp: 0,
            egress_ssrc: config.egress_ssrc,
            egress_payload_type: config.egress_payload_type,
            egress_frame_samples: frame,
            egress_timestamp_increment: increment,
            repacketizer: Repacketizer::new(frame as usize),
            pending_marker: false,
            telephone_event_in: config.telephone_event_in,
            telephone_event_out: config.telephone_event_out,
            recorder: config.recorder,
            forks: Vec::new(),
            silenced: false,
            blocked: false,
            dtmf_blocked: false,
            egress_sample_rate: egress_rate,
            injection: None,
            comfort: None,
            secure_ingress: false,
            secure_egress: false,
        };
        proof {
            assert(direction@.forks =~= Seq::empty());
        }
        direction
    }

    /// Build a relay-only direction: its ingress is forwarded verbatim.
    pub fn new_relay(config: RelayConfig) -> (direction: Self)
        ensures
            direction.wf(),
            direction@ == fresh_relay(config),
    {
        let direction = Direction {
            ingress_endpoint: config.ingress_endpoint,
            accepted_source: config.accepted_source,
            source_latch: SymmetricLatch::default(),
            egress_endpoint: config.egress_endpoint,
            egress_dst: config.egress_dst,
            relay_only: true,
            raw_tee: Vec::new(),
            resampler: false,
            noise_suppressor: false,
            echo_canceller: false,
            echo_reference: None,
            egress_sequence: 0,
            egress_timestamp: 0,
            egress_ssrc: 0,
            egress_payload_type: 0,
            egress_frame_samples: 0,
            egress_timestamp_increment: 0,
            repacketizer: Repacketizer::new(0),
            pending_marker: false,
            telephone_event_in: config.telephone_event,
            telephone_event_out: None,
            recorder: false,
            forks: Vec::new(),
            silenced: false,
            blocked: false,
            dtmf_blocked: false,
            egress_sample_rate: 0,
            injection: None,
            comfort: None,
            secure_ingress: false,
            secure_egress: false,
        };
        proof {
            assert(direction@.forks =~= Seq::empty());
        }
        direction
    }

    /// Copy one ingress datagram verbatim to every subscriber.
    fn tee_raw(&self, data: &[u8], out: &mut Vec<Outbound>)
        ensures
            sends(old(out)@, final(out)@, self@.tees(data@)),
    {
        let ghost before = out@;
        let mut i: usize = 0;
        while i < self.raw_tee.len()
            invariant
                i <= self.raw_tee@.len(),
                out@.len() == before.len() + i,
                out@.subrange(0, before.len() as int) =~= before,
                forall|k: int|
                    before.len() <= k < out@.len() ==> (#[trigger] out@[k])@ == self@.tees(data@)[k - before.len()],
            decreases self.raw_tee@.len() - i,
        {
            let tee: RawTee = self.raw_tee[i];
            out.push(Outbound { endpoint: tee.subscriber_endpoint, dst: tee.srs_dst, data: slice_to_vec(data) });
            i = i + 1;
        }
    }

    /// Egress packet time in milliseconds.
    pub fn egress_ptime_ms(&self) -> (ptime: u32)
        requires
            self.wf(),
        ensures
            ptime == self@.ptime_ms(),
    {
        if self.egress_sample_rate == 0 {
            return 20;
        }
        let ptime: u32 = self.egress_frame_samples * 1000 / self.egress_sample_rate;
        if ptime > 1 {
            ptime
        } else {
            1
        }
    }

    /// Take in one accepted datagram. An encrypted one is unprotected first.
    pub fn handle(&mut self, data: &[u8], out: &mut Vec<Outbound>) -> (step: MediaStep)
        requires
            old(self).wf(),
        ensures
            final(self).wf(),
            final(self)@ == old(self)@,
            step@ == old(self)@.entry_step(data@, false),
            sends(old(out)@, final(out)@, old(self)@.entry_sends(data@, false)),
    {
        if data.len() < 2 {
            return MediaStep::Done { latch: None };
        }
        if self.secure_ingress {
            return MediaStep::Unprotect { data: slice_to_vec(data), treatment: Treatment::Transcode };
        }
        self.plaintext(data, out)
    }

    /// Go on with a datagram once it was unprotected: reflect it, or copy, relay and transcode it. One that
    /// failed authentication is dropped, and reports no SSRC.
    pub fn unprotected(&mut self, plain: Option<Vec<u8>>, treatment: Treatment, out: &mut Vec<Outbound>) -> (step:
        MediaStep)
        requires
            old(self).wf(),
            plain matches Some(data) ==> treatment is Echo || data@.len() >= 2 || (old(self)@.relay_only
                && !old(self)@.dtmf_blocked),
        ensures
            final(self).wf(),
            step@ == old(self)@.opened_step(bytes_view(plain), treatment),
            sends(old(out)@, final(out)@, old(self)@.opened_sends(bytes_view(plain), treatment)),
            plain is None ==> step@ == (MediaStepView::Done { latch: None }) && final(out)@ == old(out)@
                && final(self)@ == old(self)@,
            plain matches Some(data) ==> if treatment is Echo {
                &&& step@ == old(self)@.reflect_step(data@)
                &&& final(out)@ == old(out)@
                &&& final(self)@ == old(self)@
            } else {
                &&& step@ == old(self)@.plaintext_step(data@)
                &&& sends(old(out)@, final(out)@, old(self)@.plaintext_sends(data@))
                &&& final(self)@ == old(self)@
            },
    {
        match plain {
            None => MediaStep::Done { latch: None },
            Some(data) => match treatment {
                Treatment::Echo => self.reflect(data.as_slice()),
                _ => self.plaintext(data.as_slice(), out),
            },
        }
    }

    /// Copy a plaintext datagram to the subscribers, then relay it or have it parsed.
    fn plaintext(&mut self, data: &[u8], out: &mut Vec<Outbound>) -> (step: MediaStep)
        requires
            old(self).wf(),
            data@.len() >= 2 || (old(self)@.relay_only && !old(self)@.dtmf_blocked),
        ensures
            final(self).wf(),
            step@ == old(self)@.plaintext_step(data@),
            sends(old(out)@, final(out)@, old(self)@.plaintext_sends(data@)),
            final(self)@ == old(self)@,
    {
        let ghost before = out@;
        self.tee_raw(data, out);
        let ghost teed = out@;
        let rtcp = is_rtcp_datagram(data);
        if self.relay_only {
            if self.dtmf_blocked && !rtcp && self.telephone_event_in == Some(data[1] & 0x7f) {
                return MediaStep::Parse { data: slice_to_vec(data), treatment: Treatment::BlockedEvent };
            }
            if !self.blocked {
                self.transmit(slice_to_vec(data), out);
                proof {
                    lemma_sends_concat(before, teed, out@, self@.tees(data@), seq![self@.outbound(data@)]);
                    assert(self@.tees(data@) + seq![self@.outbound(data@)] =~= self@.plaintext_sends(data@));
                }
            }
            return MediaStep::Done { latch: rtp_source_ssrc(data) };
        }
        if rtcp {
            if self.secure_egress {
                return MediaStep::Protect {
                    data: slice_to_vec(data),
                    after: Onward { latch: None, frames: false },
                };
            }
            self.transmit(slice_to_vec(data), out);
            proof {
                lemma_sends_concat(before, teed, out@, self@.tees(data@), seq![self@.outbound(data@)]);
                assert(self@.tees(data@) + seq![self@.outbound(data@)] =~= self@.plaintext_sends(data@));
            }
            return MediaStep::Done { latch: None };
        }
        MediaStep::Parse { data: slice_to_vec(data), treatment: Treatment::Transcode }
    }

    /// Append one datagram toward the peer.
    fn transmit(&self, data: Vec<u8>, out: &mut Vec<Outbound>)
        ensures
            sends(old(out)@, final(out)@, seq![self@.outbound(data@)]),
    {
        out.push(Outbound { endpoint: self.egress_endpoint, dst: self.egress_dst, data });
    }

    /// Take the next waiting frame for encoding, or finish.
    fn drain(&mut self, latch: Option<u32>) -> (step: MediaStep)
        requires
            old(self).wf(),
        ensures
            final(self).wf(),
            step@ == old(self)@.drain_step(latch),
            final(self)@ == old(self)@.drained(),
    {
        match self.repacketizer.next_frame() {
            Some(frame) => {
                let marker = self.pending_marker;
                self.pending_marker = false;
                self.emit_pcm(frame, marker, Onward { latch, frames: true })
            },
            None => MediaStep::Done { latch },
        }
    }

    /// Go on after a packet: take the next waiting frame where it belongs to re-framed audio, and finish
    /// otherwise.
    fn go_on(&mut self, after: Onward) -> (step: MediaStep)
        requires
            old(self).wf(),
        ensures
            final(self).wf(),
            step@ == old(self)@.onward_step(after),
            final(self)@ == old(self)@.went_on(after),
    {
        if after.frames {
            self.drain(after.latch)
        } else {
            MediaStep::Done { latch: after.latch }
        }
    }

    /// Send a frame toward the party: keep it as echo reference and have it encoded.
    pub fn emit_pcm(&mut self, pcm: Vec<i16>, marker: bool, after: Onward) -> (step: MediaStep)
        requires
            old(self).wf(),
        ensures
            final(self).wf(),
            step@ == (MediaStepView::Encode { pcm: pcm@, marker, after }),
            final(self)@ == old(self)@.heard(pcm@),
    {
        let mut taken = None;
        std::mem::swap(&mut taken, &mut self.echo_reference);
        if let Some(mut ring) = taken {
            ring.push(pcm.as_slice());
            self.echo_reference = Some(ring);
        }
        MediaStep::Encode { pcm, marker, after }
    }
}

impl Direction {
    /// Go on with a datagram once it was parsed. A malformed one is dropped.
    pub fn parsed(&self, packet: Option<RtpPacket>, treatment: Treatment) -> (step: MediaStep)
        ensures
            packet is None ==> step@ == (MediaStepView::Done { latch: None }),
            packet matches Some(rtp) ==> step@ == self@.parsed_step(rtp@, treatment),
    {
        match packet {
            None => MediaStep::Done { latch: None },
            Some(rtp) => match treatment {
                Treatment::Transcode => MediaStep::Receive { packet: rtp },
                Treatment::BlockedEvent => MediaStep::Detect { packet: rtp, treatment },
                Treatment::Echo => {
                    if self.telephone_event_in == Some(rtp.payload_type) {
                        MediaStep::Detect { packet: rtp, treatment }
                    } else {
                        MediaStep::Decode { packet: rtp, treatment }
                    }
                },
            },
        }
    }

    /// Go on with a packet once it was counted: look for a key press, ignore it, or decode it.
    pub fn received(&self, packet: RtpPacket) -> (step: MediaStep)
        ensures
            step@ == self@.received_step(packet@),
    {
        if self.telephone_event_in == Some(packet.payload_type) {
            return MediaStep::Detect { packet, treatment: Treatment::Transcode };
        }
        if self.blocked || self.injection.is_some() {
            return MediaStep::Done { latch: Some(packet.ssrc) };
        }
        MediaStep::Decode { packet, treatment: Treatment::Transcode }
    }

    /// Go on with a telephone-event once the detector has seen it. A recognised key press is always
    /// reported, and sent on to the peer only where nothing forbids it.
    pub fn detected(
        &self,
        packet: RtpPacket,
        treatment: Treatment,
        event: Option<DtmfEvent>,
        identity: &CallIdentity,
        events: &mut Vec<Event>,
    ) -> (step: MediaStep)
        ensures
            step@ == self@.detected_step(packet@, treatment),
            event is None ==> final(events)@ == old(events)@,
            event matches Some(key) ==> raises(old(events)@, final(events)@, seq![dtmf_event(*identity, key)]),
    {
        if let Some(key) = event {
            events.push(identity.dtmf_event(key));
        }
        match treatment {
            Treatment::BlockedEvent => MediaStep::Done { latch: Some(packet.ssrc) },
            Treatment::Echo => MediaStep::Done { latch: Some(packet.ssrc) },
            Treatment::Transcode => {
                if !self.dtmf_blocked && self.comfort.is_none() {
                    self.relay_telephone_event(packet)
                } else {
                    MediaStep::Done { latch: Some(packet.ssrc) }
                }
            },
        }
    }

    /// Send a telephone-event on: its own timestamp and marker, this stream's SSRC and sequence.
    fn relay_telephone_event(&self, packet: RtpPacket) -> (step: MediaStep)
        ensures
            step@ == (match self@.telephone_event_out {
                Some(payload_type) => MediaStepView::Frame {
                    header: self@.header(packet.marker, payload_type, packet.timestamp),
                    payload: packet.payload@,
                    advance: Advance::SequenceOnly,
                    after: Onward::ends(Some(packet.ssrc)),
                },
                None => MediaStepView::Done { latch: Some(packet.ssrc) },
            }),
    {
        match self.telephone_event_out {
            None => MediaStep::Done { latch: Some(packet.ssrc) },
            Some(payload_type) => MediaStep::Frame {
                header: RtpHeader {
                    marker: packet.marker,
                    payload_type,
                    sequence: self.egress_sequence,
                    timestamp: packet.timestamp,
                    ssrc: self.egress_ssrc,
                },
                after: Onward { latch: Some(packet.ssrc), frames: false },
                payload: packet.payload,
                advance: Advance::SequenceOnly,
            },
        }
    }

    /// Go on with a frame once the recorder and the forks have it. A single-leg call stops here: it
    /// never sends the caller's own audio back.
    pub fn tapped(&mut self, pcm: Vec<i16>, stream: StreamTag) -> (step: MediaStep)
        requires
            old(self).wf(),
        ensures
            final(self).wf(),
            step@ == old(self)@.tapped_step(pcm@, stream),
            final(self)@ == old(self)@.tapped_on(pcm@, stream),
    {
        if self.comfort.is_some() {
            return MediaStep::Done { latch: Some(stream.ssrc) };
        }
        let voiced = if self.silenced {
            silent_frame(pcm.len())
        } else {
            pcm
        };
        if self.resampler {
            return MediaStep::Resample { pcm: voiced, stream };
        }
        self.repacketize(voiced, stream.marker, Some(stream.ssrc))
    }

    /// Take egress audio in for framing, and the first whole frame out.
    pub fn repacketize(&mut self, pcm: Vec<i16>, marker: bool, latch: Option<u32>) -> (step: MediaStep)
        requires
            old(self).wf(),
        ensures
            final(self).wf(),
            step@ == old(self)@.repacketize_step(pcm@, marker, latch),
            final(self)@ == old(self)@.repacketized(pcm@, marker),
            step@ is Done ==> final(self)@.at_rest(),
    {
        if marker {
            self.pending_marker = true;
        }
        if self.repacketizer.frame_samples() == 0 {
            let pending = self.pending_marker;
            self.pending_marker = false;
            return self.emit_pcm(pcm, pending, Onward { latch, frames: false });
        }
        self.repacketizer.push(pcm.as_slice());
        self.drain(latch)
    }

    /// Go on with a frame once it was encoded. A frame the encoder refuses is skipped.
    pub fn encoded(&mut self, payload: Option<Vec<u8>>, marker: bool, after: Onward) -> (step: MediaStep)
        requires
            old(self).wf(),
        ensures
            final(self).wf(),
            step@ is Done && (after.frames || old(self)@.at_rest()) ==> final(self)@.at_rest(),
            step@ == old(self)@.encoded_step(bytes_view(payload), marker, after),
            final(self)@ == old(self)@.encoded_on(bytes_view(payload), after),
    {
        match payload {
            None => self.go_on(after),
            Some(bytes) => MediaStep::Frame {
                header: RtpHeader {
                    marker,
                    payload_type: self.egress_payload_type,
                    sequence: self.egress_sequence,
                    timestamp: self.egress_timestamp,
                    ssrc: self.egress_ssrc,
                },
                payload: bytes,
                advance: Advance::Stream,
                after,
            },
        }
    }

    /// Go on once a packet was written: the stream counters move, and the packet is protected or
    /// transmitted. A packet that could not be written leaves the counters alone.
    pub fn framed(
        &mut self,
        packet: Option<Vec<u8>>,
        advance: Advance,
        after: Onward,
        out: &mut Vec<Outbound>,
    ) -> (step: MediaStep)
        requires
            old(self).wf(),
        ensures
            final(self).wf(),
            step@ is Done && (after.frames || old(self)@.at_rest()) ==> final(self)@.at_rest(),
            step@ == old(self)@.framed_step(bytes_view(packet), advance, after),
            final(self)@ == old(self)@.framed_on(bytes_view(packet), advance, after),
            sends(old(out)@, final(out)@, old(self)@.framed_sends(bytes_view(packet))),
    {
        match packet {
            None => self.go_on(after),
            Some(bytes) => {
                self.egress_sequence = self.egress_sequence.wrapping_add(1);
                if let Advance::Stream = advance {
                    self.egress_timestamp = self.egress_timestamp.wrapping_add(self.egress_timestamp_increment);
                }
                if self.secure_egress {
                    return MediaStep::Protect { data: bytes, after };
                }
                self.transmit(bytes, out);
                self.go_on(after)
            },
        }
    }

    /// Go on once a packet was protected: transmit it. One that could not be protected is dropped.
    pub fn protected(&mut self, sealed: Option<Vec<u8>>, after: Onward, out: &mut Vec<Outbound>) -> (step:
        MediaStep)
        requires
            old(self).wf(),
        ensures
            final(self).wf(),
            step@ is Done && (after.frames || old(self)@.at_rest()) ==> final(self)@.at_rest(),
            step@ == old(self)@.onward_step(after),
            final(self)@ == old(self)@.went_on(after),
            sends(old(out)@, final(out)@, old(self)@.protected_sends(bytes_view(sealed))),
    {
        if let Some(bytes) = sealed {
            self.transmit(bytes, out);
        }
        self.go_on(after)
    }

    /// Begin reflecting an accepted datagram to its sender. An encrypted one is unprotected first.
    pub fn echo_into(&self, data: &[u8]) -> (step: MediaStep)
        ensures
            step@ == self@.entry_step(data@, true),
    {
        if data.len() >= 2 && self.secure_ingress {
            return MediaStep::Unprotect { data: slice_to_vec(data), treatment: Treatment::Echo };
        }
        self.reflect(data)
    }

    /// Have a plaintext datagram parsed to be reflected.
    fn reflect(&self, data: &[u8]) -> (step: MediaStep)
        ensures
            step@ == self@.reflect_step(data@),
    {
        if data.len() < 2 || is_rtcp_datagram(data) {
            return MediaStep::Done { latch: None };
        }
        MediaStep::Parse { data: slice_to_vec(data), treatment: Treatment::Echo }
    }

    /// One playout tick: an injection goes first, then the comfort noise of an idle single-leg call.
    pub fn tick_egress(&mut self, comfort_enabled: bool) -> (step: MediaStep)
        requires
            old(self).wf(),
        ensures
            final(self).wf(),
            step@ == old(self)@.tick_step(comfort_enabled),
            final(self)@ == old(self)@.ticked(comfort_enabled),
    {
        match self.injection {
            Some(Injection::Audio { source_rate_hz, .. }) => {
                let ptime: u32 = self.egress_ptime_ms();
                proof {
                    assert(source_rate_hz as u64 * (ptime as u64) <= 0xffff_ffff * 0xffff_ffff) by (nonlinear_arith)
                        requires
                            source_rate_hz <= 0xffff_ffff,
                            ptime <= 0xffff_ffff,
                    ;
                    assert(source_rate_hz as u64 * (ptime as u64) >= 0) by (nonlinear_arith);
                }
                let samples: u64 = source_rate_hz as u64 * ptime as u64 / 1000;
                let bounded: usize = if samples < 1 {
                    1
                } else if samples > MAX_PCM as u64 {
                    MAX_PCM
                } else {
                    samples as usize
                };
                MediaStep::NextPrompt { samples: bounded }
            },
            Some(Injection::Dtmf { .. }) => MediaStep::NextDtmf,
            None => match self.comfort {
                Some(comfort) => {
                    if comfort_enabled && !self.blocked {
                        self.emit_comfort(comfort)
                    } else {
                        MediaStep::Done { latch: None }
                    }
                },
                None => MediaStep::Done { latch: None },
            },
        }
    }

    /// One idle frame of a single-leg call.
    fn emit_comfort(&mut self, comfort: ComfortNoise) -> (step: MediaStep)
        requires
            old(self).wf(),
        ensures
            final(self).wf(),
            step@ == old(self)@.comfort_step(comfort),
            final(self)@ == (if old(self)@.silenced {
                old(self)@.heard(silence(old(self)@.egress_frame_samples as nat))
            } else {
                old(self)@
            }),
    {
        if self.silenced {
            let pcm = silent_frame(self.egress_frame_samples as usize);
            return self.emit_pcm(pcm, false, Onward { latch: None, frames: false });
        }
        match comfort.cn_pt {
            Some(payload_type) => {
                let mut payload: Vec<u8> = Vec::new();
                payload.push(COMFORT_NOISE_LEVEL_DBOV);
                proof {
                    assert(payload@ =~= seq![COMFORT_NOISE_LEVEL_DBOV]);
                }
                MediaStep::Frame {
                    header: RtpHeader {
                        marker: false,
                        payload_type,
                        sequence: self.egress_sequence,
                        timestamp: self.egress_timestamp,
                        ssrc: self.egress_ssrc,
                    },
                    payload,
                    advance: Advance::Stream,
                    after: Onward { latch: None, frames: false },
                }
            },
            None => MediaStep::FillNoise {
                level: COMFORT_NOISE_LEVEL_DBOV,
                samples: self.egress_frame_samples as usize,
            },
        }
    }

    /// Go on with an injected or generated frame: keep it as echo reference and have it encoded, with no
    /// marker.
    pub fn emit_encoded(&mut self, pcm: Vec<i16>) -> (step: MediaStep)
        requires
            old(self).wf(),
        ensures
            final(self).wf(),
            step@ == (MediaStepView::Encode { pcm: pcm@, marker: false, after: Onward::ends(None) }),
            final(self)@ == old(self)@.heard(pcm@),
    {
        self.emit_pcm(pcm, false, Onward { latch: None, frames: false })
    }

    /// Go on with a prompt once its next frame is there. A prompt that has run out is cleared and
    /// reported as completed.
    pub fn prompt_frame(&mut self, frame: Option<Vec<i16>>) -> (result: (MediaStep, Option<FinishedPlay>))
        requires
            old(self).wf(),
            old(self)@.injection matches Some(Injection::Audio { .. }),
        ensures
            final(self).wf(),
            final(self)@ == old(self)@.after_prompt_frame(frame),
            result.0@ == old(self)@.prompt_step(frame),
            frame is None ==> result.1 == old(self)@.finished_play(PlayEndReason::Completed),
            frame is Some ==> result.1 is None,
    {
        match frame {
            None => (MediaStep::Done { latch: None }, self.take_finished_play(PlayEndReason::Completed)),
            Some(pcm) => {
                let ptime: u32 = self.egress_ptime_ms();
                match self.injection {
                    Some(Injection::Audio { source_rate_hz, resampled, play_id, played_ms }) => {
                        self.injection = Some(
                            Injection::Audio {
                                source_rate_hz,
                                resampled,
                                play_id,
                                played_ms: played_ms.wrapping_add(ptime as u64),
                            },
                        );
                        if resampled {
                            (MediaStep::ResamplePrompt { pcm }, None)
                        } else {
                            (self.emit_encoded(pcm), None)
                        }
                    },
                    _ => (MediaStep::Done { latch: None }, None),
                }
            },
        }
    }

    /// Go on with a key-press sequence once its next step is known.
    pub fn dtmf_step(&mut self, next: DtmfStep) -> (step: MediaStep)
        requires
            old(self)@.injection matches Some(Injection::Dtmf { .. }),
            old(self).wf(),
        ensures
            final(self).wf(),
            final(self)@ == old(self)@.after_keys(next),
            step@ == old(self)@.keys_step(next),
    {
        match next {
            DtmfStep::Silence => MediaStep::Done { latch: None },
            DtmfStep::Done => {
                self.injection = None;
                MediaStep::Done { latch: None }
            },
            DtmfStep::Event { bytes, is_first, timestamp_offset } => match self.injection {
                Some(Injection::Dtmf { payload_type, base_timestamp }) => MediaStep::Frame {
                    header: RtpHeader {
                        marker: is_first,
                        payload_type,
                        sequence: self.egress_sequence,
                        timestamp: base_timestamp.wrapping_add(timestamp_offset),
                        ssrc: self.egress_ssrc,
                    },
                    payload: bytes,
                    advance: Advance::SequenceOnly,
                    after: Onward { latch: None, frames: false },
                },
                _ => MediaStep::Done { latch: None },
            },
        }
    }

    /// Stop whatever is injected. A prompt is reported, with the reason it ended.
    pub fn take_finished_play(&mut self, reason: PlayEndReason) -> (finished: Option<FinishedPlay>)
        requires
            old(self).wf(),
        ensures
            final(self).wf(),
            finished == old(self)@.finished_play(reason),
            final(self)@ == (DirectionView { injection: None, ..old(self)@ }),
    {
        let ended = self.injection;
        self.injection = None;
        match ended {
            Some(Injection::Audio { play_id, played_ms, .. }) => Some(FinishedPlay { play_id, reason, played_ms }),
            _ => None,
        }
    }
}

/// The content of bytes that may be there.
pub open spec fn bytes_view(bytes: Option<Vec<u8>>) -> Option<Seq<u8>> {
    match bytes {
        Some(content) => Some(content@),
        None => None,
    }
}

impl DirectionView {
    /// What follows the taps: nothing for a single-leg call, which never sends the caller's own audio back; the
    /// conversion between rates where there is one; and framing.
    pub open spec fn tapped_step(self, pcm: Seq<i16>, stream: StreamTag) -> MediaStepView {
        if self.comfort is Some {
            MediaStepView::Done { latch: Some(stream.ssrc) }
        } else if self.resampler {
            MediaStepView::Resample { pcm: self.voiced(pcm), stream }
        } else {
            self.repacketize_step(self.voiced(pcm), stream.marker, Some(stream.ssrc))
        }
    }

    /// The state after the taps.
    pub open spec fn tapped_on(self, pcm: Seq<i16>, stream: StreamTag) -> DirectionView {
        if self.comfort is Some || self.resampler {
            self
        } else {
            self.repacketized(self.voiced(pcm), stream.marker)
        }
    }

    /// What follows the encoding of a frame: its packet, or the next frame where it could not be encoded.
    pub open spec fn encoded_step(self, payload: Option<Seq<u8>>, marker: bool, after: Onward) -> MediaStepView {
        match payload {
            Some(bytes) => MediaStepView::Frame {
                header: self.header(marker, self.egress_payload_type, self.egress_timestamp),
                payload: bytes,
                advance: Advance::Stream,
                after,
            },
            None => self.onward_step(after),
        }
    }

    /// The state after the encoding of a frame.
    pub open spec fn encoded_on(self, payload: Option<Seq<u8>>, after: Onward) -> DirectionView {
        match payload {
            Some(_) => self,
            None => self.went_on(after),
        }
    }

    /// What follows the writing of a packet: its protection where the egress is encrypted.
    pub open spec fn framed_step(self, packet: Option<Seq<u8>>, advance: Advance, after: Onward) -> MediaStepView {
        match packet {
            Some(bytes) => if self.secure_egress {
                MediaStepView::Protect { data: bytes, after }
            } else {
                self.advanced(advance).onward_step(after)
            },
            None => self.onward_step(after),
        }
    }

    /// The state after the writing of a packet: the counters move with a packet that could be written.
    pub open spec fn framed_on(self, packet: Option<Seq<u8>>, advance: Advance, after: Onward) -> DirectionView {
        match packet {
            Some(_) => if self.secure_egress {
                self.advanced(advance)
            } else {
                self.advanced(advance).went_on(after)
            },
            None => self.went_on(after),
        }
    }

    /// What the writing of a packet sends at once.
    pub open spec fn framed_sends(self, packet: Option<Seq<u8>>) -> Seq<OutboundView> {
        match packet {
            Some(bytes) if !self.secure_egress => seq![self.outbound(bytes)],
            _ => Seq::empty(),
        }
    }

    /// What the protection of a packet sends.
    pub open spec fn protected_sends(self, sealed: Option<Seq<u8>>) -> Seq<OutboundView> {
        match sealed {
            Some(bytes) => seq![self.outbound(bytes)],
            None => Seq::empty(),
        }
    }

    /// What follows the next frame of a prompt: its conversion where there is one, and its encoding.
    pub open spec fn prompt_step(self, frame: Option<Vec<i16>>) -> MediaStepView {
        match frame {
            None => MediaStepView::Done { latch: None },
            Some(pcm) => if self.injection->Some_0->resampled {
                MediaStepView::ResamplePrompt { pcm: pcm@ }
            } else {
                MediaStepView::Encode { pcm: pcm@, marker: false, after: Onward::ends(None) }
            },
        }
    }

    /// What follows the parsing of a datagram.
    pub open spec fn parsed_step(self, packet: RtpPacketView, treatment: Treatment) -> MediaStepView {
        match treatment {
            Treatment::Transcode => MediaStepView::Receive { packet },
            Treatment::BlockedEvent => MediaStepView::Detect { packet, treatment },
            Treatment::Echo => if self.telephone_event_in == Some(packet.payload_type) {
                MediaStepView::Detect { packet, treatment }
            } else {
                MediaStepView::Decode { packet, treatment }
            },
        }
    }

    /// What follows the counting of a packet.
    pub open spec fn received_step(self, packet: RtpPacketView) -> MediaStepView {
        if self.telephone_event_in == Some(packet.payload_type) {
            MediaStepView::Detect { packet, treatment: Treatment::Transcode }
        } else if self.decodes() {
            MediaStepView::Decode { packet, treatment: Treatment::Transcode }
        } else {
            MediaStepView::Done { latch: Some(packet.ssrc) }
        }
    }

    /// What follows the detection of a telephone-event.
    pub open spec fn detected_step(self, packet: RtpPacketView, treatment: Treatment) -> MediaStepView {
        if treatment is Transcode && self.relays_events() {
            MediaStepView::Frame {
                header: self.header(packet.marker, self.telephone_event_out->Some_0, packet.timestamp),
                payload: packet.payload,
                advance: Advance::SequenceOnly,
                after: Onward::ends(Some(packet.ssrc)),
            }
        } else {
            MediaStepView::Done { latch: Some(packet.ssrc) }
        }
    }

    /// The state once the next step of a key-press sequence is known: it is over after the last.
    pub open spec fn after_keys(self, next: DtmfStep) -> DirectionView {
        DirectionView {
            injection: if next is Done {
                None
            } else {
                self.injection
            },
            ..self
        }
    }

    /// What the next step of a key-press sequence sends: a telephone-event, its time counted from the start of
    /// the sequence, or nothing.
    pub open spec fn keys_step(self, next: DtmfStep) -> MediaStepView {
        match next {
            DtmfStep::Event { bytes, is_first, timestamp_offset } => MediaStepView::Frame {
                header: self.header(
                    is_first,
                    self.injection->Some_0->payload_type,
                    self.injection->Some_0->base_timestamp.wrapping_add(timestamp_offset),
                ),
                payload: bytes@,
                advance: Advance::SequenceOnly,
                after: Onward::ends(None),
            },
            _ => MediaStepView::Done { latch: None },
        }
    }

    /// The state once the next frame of a prompt is there, or the prompt has run out. A frame that needs
    /// no conversion is sent at once, and becomes echo reference.
    pub open spec fn after_prompt_frame(self, frame: Option<Vec<i16>>) -> DirectionView {
        match frame {
            None => DirectionView { injection: None, ..self },
            Some(pcm) => {
                let played = DirectionView { injection: self.played_on(), ..self };
                if self.injection->Some_0->resampled {
                    played
                } else {
                    played.heard(pcm@)
                }
            },
        }
    }

    /// The injection once one more prompt frame has played.
    pub open spec fn played_on(self) -> Option<Injection> {
        match self.injection {
            Some(Injection::Audio { source_rate_hz, resampled, play_id, played_ms }) => Some(
                Injection::Audio {
                    source_rate_hz,
                    resampled,
                    play_id,
                    played_ms: played_ms.wrapping_add(self.ptime_ms() as u64),
                },
            ),
            other => other,
        }
    }
}

/// A frame of digital silence.
fn silent_frame(samples: usize) -> (frame: Vec<i16>)
    ensures
        frame@ == silence(samples as nat),
{
    let frame: Vec<i16> = vec![0i16; samples];
    proof {
        assert(frame@ =~= silence(samples as nat));
    }
    frame
}

impl Direction {
    /// Replace the egress audio by silence, or stop doing so.
    pub fn set_silenced(&mut self, silenced: bool)
        requires
            old(self).wf(),
        ensures
            final(self).wf(),
            final(self)@ == (DirectionView { silenced, ..old(self)@ }),
    {
        self.silenced = silenced;
    }

    /// Drop the egress audio, or stop doing so.
    pub fn set_blocked(&mut self, blocked: bool)
        requires
            old(self).wf(),
        ensures
            final(self).wf(),
            final(self)@ == (DirectionView { blocked, ..old(self)@ }),
    {
        self.blocked = blocked;
    }

    /// Keep key presses from the peer, or stop doing so.
    pub fn set_dtmf_blocked(&mut self, dtmf_blocked: bool)
        requires
            old(self).wf(),
        ensures
            final(self).wf(),
            final(self)@ == (DirectionView { dtmf_blocked, ..old(self)@ }),
    {
        self.dtmf_blocked = dtmf_blocked;
    }

    /// Say whether the ingress is encrypted.
    pub fn set_secure_ingress(&mut self, secure_ingress: bool)
        requires
            old(self).wf(),
        ensures
            final(self).wf(),
            final(self)@ == (DirectionView { secure_ingress, ..old(self)@ }),
    {
        self.secure_ingress = secure_ingress;
    }

    /// Say whether the egress is encrypted.
    pub fn set_secure_egress(&mut self, secure_egress: bool)
        requires
            old(self).wf(),
        ensures
            final(self).wf(),
            final(self)@ == (DirectionView { secure_egress, ..old(self)@ }),
    {
        self.secure_egress = secure_egress;
    }

    /// Point the egress at an address.
    pub fn reply_to(&mut self, egress_dst: SocketAddress)
        requires
            old(self).wf(),
        ensures
            final(self).wf(),
            final(self)@ == (DirectionView { egress_dst, ..old(self)@ }),
    {
        self.egress_dst = egress_dst;
    }

    /// Play an injection in place of the transcoded audio.
    pub fn inject(&mut self, injection: Option<Injection>)
        requires
            old(self).wf(),
        ensures
            final(self).wf(),
            final(self)@ == (DirectionView { injection, ..old(self)@ }),
    {
        self.injection = injection;
    }

    /// The endpoint datagrams arrive on.
    pub fn ingress_endpoint(&self) -> (value: EndpointId)
        ensures
            value == self@.ingress_endpoint,
    {
        self.ingress_endpoint
    }

    /// Whether the direction forwards verbatim.
    pub fn relay_only(&self) -> (value: bool)
        ensures
            value == self@.relay_only,
    {
        self.relay_only
    }

    /// Whether the ingress is encrypted.
    pub fn secure_ingress(&self) -> (value: bool)
        ensures
            value == self@.secure_ingress,
    {
        self.secure_ingress
    }

    /// Whether the egress is encrypted.
    pub fn secure_egress(&self) -> (value: bool)
        ensures
            value == self@.secure_egress,
    {
        self.secure_egress
    }

    /// Whether noise is suppressed.
    pub fn noise_suppressor(&self) -> (value: bool)
        ensures
            value == self@.noise_suppressor,
    {
        self.noise_suppressor
    }

    /// Whether echo is cancelled.
    pub fn echo_canceller(&self) -> (value: bool)
        ensures
            value == self@.echo_canceller,
    {
        self.echo_canceller
    }

    /// The SSRC of the egress stream.
    pub fn egress_ssrc(&self) -> (value: u32)
        ensures
            value == self@.egress_ssrc,
    {
        self.egress_ssrc
    }

    /// Where the egress goes.
    pub fn egress_dst(&self) -> (value: SocketAddress)
        ensures
            value == self@.egress_dst,
    {
        self.egress_dst
    }

    /// Whether its key presses are kept from the peer.
    pub fn dtmf_blocked(&self) -> (value: bool)
        ensures
            value == self@.dtmf_blocked,
    {
        self.dtmf_blocked
    }

    /// The sample rate of the egress codec.
    pub fn egress_sample_rate(&self) -> (value: u32)
        ensures
            value == self@.egress_sample_rate,
    {
        self.egress_sample_rate
    }

    /// The timestamp of the next egress audio packet.
    pub fn egress_timestamp(&self) -> (value: u32)
        ensures
            value == self@.egress_timestamp,
    {
        self.egress_timestamp
    }

    /// The payload type key presses are sent with, if one was negotiated.
    pub fn telephone_event_out(&self) -> (value: Option<u8>)
        ensures
            value == self@.telephone_event_out,
    {
        self.telephone_event_out
    }

    /// What plays in place of the transcoded audio.
    pub fn injection(&self) -> (value: Option<Injection>)
        ensures
            value == self@.injection,
    {
        self.injection
    }

    /// The comfort noise of a single-leg call.
    pub fn comfort(&self) -> (value: Option<ComfortNoise>)
        ensures
            value == self@.comfort,
    {
        self.comfort
    }

    /// Whether a datagram from `source` passes the filter of this direction.
    pub fn accepts(&self, source: SocketAddress) -> (accepted: bool)
        ensures
            accepted == self@.accepted_source.accepts_spec(source.ip),
    {
        self.accepted_source.accepts(source.ip)
    }

    /// Mark the egress as the caller-facing one of a single-leg call. `cn_pt` is the negotiated
    /// comfort-noise payload type.
    pub fn enable_comfort_idle(&mut self, cn_pt: Option<u8>)
        requires
            old(self).wf(),
        ensures
            final(self).wf(),
            final(self)@ == (DirectionView { comfort: Some(ComfortNoise { cn_pt }), ..old(self)@ }),
    {
        self.comfort = Some(ComfortNoise { cn_pt });
    }

    /// Offer the source and SSRC of an authentic packet to the latch.
    pub fn observe_source(&mut self, source: SocketAddress, ssrc: u32) -> (reply: Option<SocketAddress>)
        requires
            old(self).wf(),
        ensures
            final(self).wf(),
            final(self)@ == (DirectionView {
                source_latch: old(self)@.source_latch.after(source, ssrc),
                ..old(self)@
            }),
            reply == (if old(self)@.source_latch.follows(source, ssrc) {
                Some(source)
            } else {
                None
            }),
    {
        self.source_latch.observe(source, ssrc)
    }

    /// Whether echo reference audio is kept.
    pub fn has_echo_reference(&self) -> (kept: bool)
        ensures
            kept == (self@.echo_reference is Some),
    {
        self.echo_reference.is_some()
    }

    /// Take `samples` samples of echo reference, padded with silence where fewer are held.
    pub fn read_reference(&mut self, samples: usize) -> (far_end: Vec<i16>)
        requires
            old(self).wf(),
        ensures
            final(self).wf(),
            old(self)@.echo_reference is None ==> far_end@ == silence(samples as nat) && final(self)@
                == old(self)@,
            old(self)@.echo_reference matches Some(ring) ==> {
                &&& far_end@ == reference_frame(ring.samples, samples as nat)
                &&& final(self)@ == old(self)@.reference_read(samples as nat)
            },
    {
        let mut far_end = silent_frame(samples);
        let mut taken = None;
        std::mem::swap(&mut taken, &mut self.echo_reference);
        if let Some(mut ring) = taken {
            let ghost held = ring@.samples;
            let count: usize = ring.read_into(&mut far_end);
            self.echo_reference = Some(ring);
            proof {
                assert forall|i: int| 0 <= i < samples implies far_end@[i] == reference_frame(held, samples as nat)[i] by {
                    if i < count {
                        assert(far_end@.take(count as int)[i] == held.take(count as int)[i]);
                    }
                }
                assert(far_end@ =~= reference_frame(held, samples as nat));
            }
        }
        far_end
    }

    /// Whether a recorder is attached. It is detached.
    pub fn take_recorder(&mut self) -> (attached: bool)
        requires
            old(self).wf(),
        ensures
            final(self).wf(),
            attached == old(self)@.recorder,
            final(self)@ == (DirectionView { recorder: false, ..old(self)@ }),
    {
        let attached = self.recorder;
        self.recorder = false;
        attached
    }

    /// Attach a subscriber to the decoded ingress.
    pub fn add_fork(&mut self, fork: Fork)
        requires
            old(self).wf(),
        ensures
            final(self).wf(),
            final(self)@ == (DirectionView { forks: old(self)@.forks.push(fork@), ..old(self)@ }),
    {
        let ghost before = self@.forks;
        self.forks.push(fork);
        proof {
            assert(self@.forks =~= before.push(fork@));
        }
    }

    /// How many subscribers the decoded ingress has.
    pub fn fork_count(&self) -> (count: usize)
        ensures
            count == self@.forks.len(),
    {
        self.forks.len()
    }

    /// Detach every fork. Returns the sinks, in order, so that they can be finished.
    pub fn remove_forks(&mut self) -> (finished: Vec<u64>)
        requires
            old(self).wf(),
        ensures
            final(self).wf(),
            final(self)@ == (DirectionView { forks: Seq::empty(), ..old(self)@ }),
            finished@ == sinks(old(self)@.forks),
    {
        let mut finished: Vec<u64> = Vec::new();
        let mut i: usize = 0;
        while i < self.forks.len()
            invariant
                i <= self.forks@.len(),
                finished@ =~= sinks(fork_views(self.forks@).take(i as int)),
            decreases self.forks@.len() - i,
        {
            finished.push(self.forks[i].sink);
            i = i + 1;
        }
        proof {
            assert(fork_views(self.forks@).take(i as int) =~= fork_views(self.forks@));
        }
        self.forks = Vec::new();
        proof {
            assert(self@.forks =~= Seq::empty());
        }
        finished
    }

    /// Detach the forks under one tag and leave the others. Returns the detached sinks, in order.
    pub fn remove_forks_tagged(&mut self, tag: &String) -> (finished: Vec<u64>)
        requires
            old(self).wf(),
        ensures
            final(self).wf(),
            final(self)@ == (DirectionView {
                forks: old(self)@.forks.filter(|fork: ForkView| fork.tag != Some(tag@)),
                ..old(self)@
            }),
            finished@ == sinks(old(self)@.forks.filter(|fork: ForkView| fork.tag == Some(tag@))),
    {
        let ghost before = self@;
        let ghost keep = |fork: ForkView| fork.tag != Some(tag@);
        let ghost drop = |fork: ForkView| fork.tag == Some(tag@);
        let mut all: Vec<Fork> = Vec::new();
        std::mem::swap(&mut all, &mut self.forks);
        let mut kept: Vec<Fork> = Vec::new();
        let mut finished: Vec<u64> = Vec::new();
        let mut i: usize = 0;
        let total: usize = all.len();
        let ghost forks = fork_views(all@);
        proof {
            assert(forks =~= before.forks);
            assert(forks.take(0) =~= Seq::empty());
            reveal(Seq::filter);
            assert(forks.take(0).filter(keep) =~= Seq::empty());
            assert(forks.take(0).filter(drop) =~= Seq::empty());
            assert(fork_views(kept@) =~= Seq::empty());
            assert(sinks(Seq::empty()) =~= Seq::empty());
        }
        while i < total
            invariant
                i <= total == all@.len(),
                forks == fork_views(all@),
                forall|f: ForkView| #[trigger] keep(f) == (f.tag != Some(tag@)),
                forall|f: ForkView| #[trigger] drop(f) == (f.tag == Some(tag@)),
                fork_views(kept@) == forks.take(i as int).filter(keep),
                finished@ == sinks(forks.take(i as int).filter(drop)),
            decreases total - i,
        {
            let fork = Fork { tag: copy_optional(&all[i].tag), sink: all[i].sink };
            let ghost current = all@[i as int]@;
            proof {
                lemma_filter_step(forks, i as int, keep);
                lemma_filter_step(forks, i as int, drop);
                assert(fork@ == current);
                assert(forks[i as int] == current);
            }
            let ghost kept_before = kept@;
            let ghost finished_before = finished@;
            if tag_matches(&fork.tag, tag) {
                finished.push(fork.sink);
                proof {
                    assert(finished@ =~= sinks(forks.take(i + 1).filter(drop)));
                }
            } else {
                kept.push(fork);
                proof {
                    assert(fork_views(kept@) =~= fork_views(kept_before).push(current));
                }
            }
            i = i + 1;
        }
        self.forks = kept;
        proof {
            assert(forks.take(i as int) =~= forks);
        }
        finished
    }

    /// Attach a subscriber to the verbatim ingress.
    pub fn add_raw_tee(&mut self, tee: RawTee)
        requires
            old(self).wf(),
        ensures
            final(self).wf(),
            final(self)@ == (DirectionView { raw_tee: old(self)@.raw_tee.push(tee), ..old(self)@ }),
    {
        self.raw_tee.push(tee);
    }

    /// Detach the subscribers at one endpoint and leave the others.
    pub fn remove_raw_tee(&mut self, subscriber_endpoint: EndpointId)
        requires
            old(self).wf(),
        ensures
            final(self).wf(),
            final(self)@ == (DirectionView {
                raw_tee: old(self)@.raw_tee.filter(|tee: RawTee| tee.subscriber_endpoint != subscriber_endpoint),
                ..old(self)@
            }),
    {
        let ghost before = self@.raw_tee;
        let ghost keep = |tee: RawTee| tee.subscriber_endpoint != subscriber_endpoint;
        let mut kept: Vec<RawTee> = Vec::new();
        let mut i: usize = 0;
        proof {
            reveal(Seq::filter);
            assert(before.take(0).filter(keep) =~= Seq::empty());
        }
        while i < self.raw_tee.len()
            invariant
                i <= self.raw_tee@.len(),
                before == self.raw_tee@,
                forall|t: RawTee| #[trigger] keep(t) == (t.subscriber_endpoint != subscriber_endpoint),
                kept@ == before.take(i as int).filter(keep),
            decreases self.raw_tee@.len() - i,
        {
            let tee: RawTee = self.raw_tee[i];
            proof {
                lemma_filter_step(before, i as int, keep);
            }
            if tee.subscriber_endpoint != subscriber_endpoint {
                kept.push(tee);
            }
            i = i + 1;
        }
        proof {
            assert(before.take(i as int) =~= before);
        }
        self.raw_tee = kept;
    }

    /// How many subscribers the verbatim ingress has.
    pub fn raw_tee_count(&self) -> (count: usize)
        ensures
            count == self@.raw_tee.len(),
    {
        self.raw_tee.len()
    }
}

/// Filtering one more element adds it exactly when it passes.
pub proof fn lemma_filter_step<A>(items: Seq<A>, i: int, pred: spec_fn(A) -> bool)
    requires
        0 <= i < items.len(),
    ensures
        items.take(i + 1).filter(pred) == (if pred(items[i]) {
            items.take(i).filter(pred).push(items[i])
        } else {
            items.take(i).filter(pred)
        }),
{
    reveal(Seq::filter);
    assert(items.take(i + 1).drop_last() =~= items.take(i));
    assert(items.take(i + 1).last() == items[i]);
}

/// Whether an optional tag is this one.
fn tag_matches(tag: &Option<String>, wanted: &String) -> (same: bool)
    ensures
        same == (optional_text(*tag) == Some(wanted@)),
{
    match tag {
        Some(text) => *text == *wanted,
        None => false,
    }
}

/// The sinks of a list of forks.
pub open spec fn sinks(forks: Seq<ForkView>) -> Seq<u64> {
    Seq::new(forks.len(), |i: int| forks[i].sink)
}

/// The next `samples` samples out of a reference ring: its oldest, then silence.
pub open spec fn reference_frame(held: Seq<i16>, samples: nat) -> Seq<i16> {
    Seq::new(samples, |i: int| if i < held.len() { held[i] } else { 0i16 })
}

impl DirectionView {
    /// The state once `samples` samples of echo reference were taken.
    pub open spec fn reference_read(self, samples: nat) -> DirectionView {
        DirectionView {
            echo_reference: match self.echo_reference {
                Some(ring) => Some(
                    EchoReferenceView {
                        samples: ring.samples.skip(
                            vstd::math::min(samples as int, ring.samples.len() as int),
                        ),
                        ..ring
                    },
                ),
                None => None,
            },
            ..self
        }
    }
}

} // verus!
