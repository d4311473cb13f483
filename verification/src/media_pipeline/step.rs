//! The steps a datagram or a playout tick walks through, and the values they carry.
use crate::net::{EndpointId, SocketAddress};
use vstd::prelude::*;

verus! {

/// Largest RTP packet the egress accommodates.
pub const MAX_RTP: usize = 1500;

/// Largest decoded audio frame, in samples.
pub const MAX_PCM: usize = 1920;

/// The comfort-noise level (RFC 3389, `-dBov`) of an idle single-leg call.
pub const COMFORT_NOISE_LEVEL_DBOV: u8 = 75;

/// An RTP or RTCP datagram to transmit: from `endpoint` toward `dst`.
#[derive(Clone, Debug, PartialEq, Eq)]
pub struct Outbound {
    pub endpoint: EndpointId,
    pub dst: SocketAddress,
    pub data: Vec<u8>,
}

/// The content of an [`Outbound`].
pub struct OutboundView {
    pub endpoint: EndpointId,
    pub dst: SocketAddress,
    pub data: Seq<u8>,
}

impl View for Outbound {
    type V = OutboundView;

    open spec fn view(&self) -> OutboundView {
        OutboundView { endpoint: self.endpoint, dst: self.dst, data: self.data@ }
    }
}

/// `after` is `before` with the datagrams `sent` appended.
pub open spec fn sends(before: Seq<Outbound>, after: Seq<Outbound>, sent: Seq<OutboundView>) -> bool {
    &&& after.len() == before.len() + sent.len()
    &&& after.subrange(0, before.len() as int) =~= before
    &&& forall|k: int| before.len() <= k < after.len() ==> (#[trigger] after[k])@ == sent[k - before.len()]
}

/// Appending in two goes is appending the concatenation.
pub proof fn lemma_sends_concat(
    before: Seq<Outbound>,
    middle: Seq<Outbound>,
    after: Seq<Outbound>,
    first: Seq<OutboundView>,
    second: Seq<OutboundView>,
)
    requires
        sends(before, middle, first),
        sends(middle, after, second),
    ensures
        sends(before, after, first + second),
{
    assert forall|i: int| 0 <= i < before.len() implies after[i] == before[i] by {
        assert(after.subrange(0, middle.len() as int)[i] == middle[i]);
        assert(middle.subrange(0, before.len() as int)[i] == before[i]);
    }
    let all = first + second;
    assert forall|k: int| before.len() <= k < after.len() implies (#[trigger] after[k])@ == all[k - before.len()] by {
        if k < middle.len() {
            assert(after.subrange(0, middle.len() as int)[k] == middle[k]);
        }
    }
}

/// A subscriber that gets a verbatim copy of one leg's ingress (RFC 7866 section 6).
#[derive(Clone, Copy, Debug, PartialEq, Eq, Structural)]
pub struct RawTee {
    /// The endpoint the copy is transmitted from.
    pub subscriber_endpoint: EndpointId,
    /// The recording server's RTP address.
    pub srs_dst: SocketAddress,
}

/// The header of an RTP packet to write (RFC 3550 section 5.1).
#[derive(Clone, Copy, Debug, PartialEq, Eq, Structural)]
pub struct RtpHeader {
    pub marker: bool,
    pub payload_type: u8,
    pub sequence: u16,
    pub timestamp: u32,
    pub ssrc: u32,
}

/// A parsed RTP packet.
#[derive(Clone, Debug)]
pub struct RtpPacket {
    pub marker: bool,
    pub payload_type: u8,
    pub sequence: u16,
    pub timestamp: u32,
    pub ssrc: u32,
    pub payload: Vec<u8>,
}

/// The content of an [`RtpPacket`].
pub struct RtpPacketView {
    pub marker: bool,
    pub payload_type: u8,
    pub sequence: u16,
    pub timestamp: u32,
    pub ssrc: u32,
    pub payload: Seq<u8>,
}

impl View for RtpPacket {
    type V = RtpPacketView;

    open spec fn view(&self) -> RtpPacketView {
        RtpPacketView {
            marker: self.marker,
            payload_type: self.payload_type,
            sequence: self.sequence,
            timestamp: self.timestamp,
            ssrc: self.ssrc,
            payload: self.payload@,
        }
    }
}

/// A key press a telephone-event detector recognised (RFC 4733).
#[derive(Clone, Copy, Debug, PartialEq, Eq, Structural)]
pub struct DtmfEvent {
    pub digit: char,
    /// Duration in samples of the 8 kHz telephone-event clock.
    pub duration: u16,
    /// Power level, in `-dBm0`.
    pub volume: u8,
}

/// What a key-press sequence plays next.
#[derive(Clone, Debug)]
pub enum DtmfStep {
    /// Send this telephone-event payload, `timestamp_offset` after the start of the sequence.
    Event { bytes: Vec<u8>, is_first: bool, timestamp_offset: u32 },
    /// Pause between digits.
    Silence,
    /// The sequence is over.
    Done,
}

/// How a direction's stream counters move once a packet has been written.
#[derive(Clone, Copy, Debug, PartialEq, Eq, Structural)]
pub enum Advance {
    /// An audio or comfort-noise packet: the sequence and the timestamp move on.
    Stream,
    /// A telephone-event packet: only the sequence moves on.
    SequenceOnly,
}

/// What follows a packet on its way out.
#[derive(Clone, Copy, Debug, PartialEq, Eq, Structural)]
pub struct Onward {
    /// What the walk reports to the latch at its end.
    pub latch: Option<u32>,
    /// Whether the next whole frame of the same re-framed audio comes first, while there is one. Everything
    /// else is one packet.
    pub frames: bool,
}

impl Onward {
    /// The walk ends.
    pub open spec fn ends(latch: Option<u32>) -> Onward {
        Onward { latch, frames: false }
    }

    /// The next frame follows.
    pub open spec fn drains(latch: Option<u32>) -> Onward {
        Onward { latch, frames: true }
    }
}

/// Which treatment a datagram under way gets.
#[derive(Clone, Copy, Debug, PartialEq, Eq, Structural)]
pub enum Treatment {
    /// Normal transcoding toward the peer.
    Transcode,
    /// A telephone-event that a blocked relay detects and then drops.
    BlockedEvent,
    /// Reflected to its sender.
    Echo,
}

/// The stream properties of an ingress packet that its decoded audio keeps.
#[derive(Clone, Copy, Debug, PartialEq, Eq, Structural)]
pub struct StreamTag {
    pub marker: bool,
    pub ssrc: u32,
}

/// The next piece of outside work for a direction, or the end of the walk.
#[derive(Clone, Debug)]
pub enum MediaStep {
    /// Unprotect this datagram on the ingress secure leg.
    Unprotect { data: Vec<u8>, treatment: Treatment },
    /// Parse this datagram as RTP.
    Parse { data: Vec<u8>, treatment: Treatment },
    /// Fold this packet into the reception statistics.
    Receive { packet: RtpPacket },
    /// Offer this telephone-event packet to the key-press detector.
    Detect { packet: RtpPacket, treatment: Treatment },
    /// Decode this packet's payload.
    Decode { packet: RtpPacket, treatment: Treatment },
    /// Suppress noise in this frame.
    SuppressNoise { pcm: Vec<i16>, stream: StreamTag },
    /// Cancel the echo of `far_end` in this frame.
    CancelEcho { pcm: Vec<i16>, far_end: Vec<i16>, stream: StreamTag },
    /// Hand this frame to the recorder, if one is attached, and to every fork.
    Tap { pcm: Vec<i16>, stream: StreamTag },
    /// Convert this frame to the egress rate.
    Resample { pcm: Vec<i16>, stream: StreamTag },
    /// Encode this frame.
    Encode { pcm: Vec<i16>, marker: bool, after: Onward },
    /// Write an RTP packet of this header and payload.
    Frame { header: RtpHeader, payload: Vec<u8>, advance: Advance, after: Onward },
    /// Protect this packet on the egress secure leg.
    Protect { data: Vec<u8>, after: Onward },
    /// Take the next `samples` samples of the prompt that plays.
    NextPrompt { samples: usize },
    /// Convert this prompt frame to the egress rate.
    ResamplePrompt { pcm: Vec<i16> },
    /// Take the next step of the key-press sequence that plays.
    NextDtmf,
    /// Generate this many samples of noise at this level.
    FillNoise { level: u8, samples: usize },
    /// The walk is over. An authentic RTP packet reports its SSRC for the latch.
    Done { latch: Option<u32> },
}

/// The content of a [`MediaStep`].
pub enum MediaStepView {
    Unprotect { data: Seq<u8>, treatment: Treatment },
    Parse { data: Seq<u8>, treatment: Treatment },
    Receive { packet: RtpPacketView },
    Detect { packet: RtpPacketView, treatment: Treatment },
    Decode { packet: RtpPacketView, treatment: Treatment },
    SuppressNoise { pcm: Seq<i16>, stream: StreamTag },
    CancelEcho { pcm: Seq<i16>, far_end: Seq<i16>, stream: StreamTag },
    Tap { pcm: Seq<i16>, stream: StreamTag },
    Resample { pcm: Seq<i16>, stream: StreamTag },
    Encode { pcm: Seq<i16>, marker: bool, after: Onward },
    Frame { header: RtpHeader, payload: Seq<u8>, advance: Advance, after: Onward },
    Protect { data: Seq<u8>, after: Onward },
    NextPrompt { samples: nat },
    ResamplePrompt { pcm: Seq<i16> },
    NextDtmf,
    FillNoise { level: u8, samples: nat },
    Done { latch: Option<u32> },
}

impl View for MediaStep {
    type V = MediaStepView;

    open spec fn view(&self) -> MediaStepView {
        match *self {
            MediaStep::Unprotect { data, treatment } => MediaStepView::Unprotect { data: data@, treatment },
            MediaStep::Parse { data, treatment } => MediaStepView::Parse { data: data@, treatment },
            MediaStep::Receive { packet } => MediaStepView::Receive { packet: packet@ },
            MediaStep::Detect { packet, treatment } => MediaStepView::Detect { packet: packet@, treatment },
            MediaStep::Decode { packet, treatment } => MediaStepView::Decode { packet: packet@, treatment },
            MediaStep::SuppressNoise { pcm, stream } => MediaStepView::SuppressNoise { pcm: pcm@, stream },
            MediaStep::CancelEcho { pcm, far_end, stream } => MediaStepView::CancelEcho {
                pcm: pcm@,
                far_end: far_end@,
                stream,
            },
            MediaStep::Tap { pcm, stream } => MediaStepView::Tap { pcm: pcm@, stream },
            MediaStep::Resample { pcm, stream } => MediaStepView::Resample { pcm: pcm@, stream },
            MediaStep::Encode { pcm, marker, after } => MediaStepView::Encode { pcm: pcm@, marker, after },
            MediaStep::Frame { header, payload, advance, after } => MediaStepView::Frame {
                header,
                payload: payload@,
                advance,
                after,
            },
            MediaStep::Protect { data, after } => MediaStepView::Protect { data: data@, after },
            MediaStep::NextPrompt { samples } => MediaStepView::NextPrompt { samples: samples as nat },
            MediaStep::ResamplePrompt { pcm } => MediaStepView::ResamplePrompt { pcm: pcm@ },
            MediaStep::NextDtmf => MediaStepView::NextDtmf,
            MediaStep::FillNoise { level, samples } => MediaStepView::FillNoise { level, samples: samples as nat },
            MediaStep::Done { latch } => MediaStepView::Done { latch },
        }
    }
}

} // verus!
