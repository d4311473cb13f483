//! Telling RTP from RTCP, and following a stream's source without being hijacked.
use crate::net::SocketAddress;
use vstd::prelude::*;

verus! {

/// The RTP payload type (or RTCP packet type) field: the low seven bits of the second byte.
pub open spec fn packet_type(data: Seq<u8>) -> u8 {
    data[1] & 0x7f
}

/// Whether a payload type field marks RTCP on a muxed flow (RFC 5761 section 4).
pub open spec fn is_rtcp_type(packet_type: u8) -> bool {
    64 <= packet_type <= 95
}

/// Whether a datagram is RTCP (RFC 5761): long enough to hold the field, and marked.
pub open spec fn rtcp_datagram(data: Seq<u8>) -> bool {
    data.len() >= 2 && is_rtcp_type(packet_type(data))
}

/// A big-endian 32-bit number out of its four bytes.
pub open spec fn be32(b0: u8, b1: u8, b2: u8, b3: u8) -> u32 {
    (b0 * 0x1000000 + b1 * 0x10000 + b2 * 0x100 + b3) as u32
}

/// The SSRC of an RTP media packet (RFC 3550 section 5.1), or `None` for anything else: too short,
/// another version, or RTCP.
pub open spec fn source_ssrc(data: Seq<u8>) -> Option<u32> {
    if data.len() < 12 || data[0] >> 6 != 2u8 || is_rtcp_type(packet_type(data)) {
        None
    } else {
        Some(be32(data[8], data[9], data[10], data[11]))
    }
}

/// Whether a datagram is RTCP on a flow that carries both (RFC 5761).
pub fn is_rtcp_datagram(data: &[u8]) -> (rtcp: bool)
    ensures
        rtcp == rtcp_datagram(data@),
{
    if data.len() < 2 {
        return false;
    }
    let kind: u8 = data[1] & 0x7f;
    64 <= kind && kind <= 95
}

/// The SSRC of an RTP media packet, or `None` when `data` is not one.
pub fn rtp_source_ssrc(data: &[u8]) -> (ssrc: Option<u32>)
    ensures
        ssrc == source_ssrc(data@),
{
    if data.len() < 12 || data[0] >> 6 != 2 {
        return None;
    }
    let kind: u8 = data[1] & 0x7f;
    if 64 <= kind && kind <= 95 {
        return None;
    }
    let ssrc: u32 = data[8] as u32 * 0x1000000 + data[9] as u32 * 0x10000 + data[10] as u32 * 0x100
        + data[11] as u32;
    Some(ssrc)
}

/// The symmetric-RTP latch of one leg: the source its stream was last followed to, and the SSRC the
/// stream carries.
#[derive(Clone, Copy, Debug, PartialEq, Eq, Structural)]
pub struct SymmetricLatch {
    pub source: Option<SocketAddress>,
    pub ssrc: Option<u32>,
}

impl Default for SymmetricLatch {
    fn default() -> (latch: Self)
        ensures
            latch.source is None,
            latch.ssrc is None,
    {
        SymmetricLatch { source: None, ssrc: None }
    }
}

impl SymmetricLatch {
    /// Whether an offer is followed: the first one, one from the latched source, or one from
    /// elsewhere that carries the latched SSRC.
    pub open spec fn follows(self, source: SocketAddress, ssrc: u32) -> bool {
        self.source is None || self.source == Some(source) || self.ssrc == Some(ssrc)
    }

    /// The latch after an offer.
    pub open spec fn after(self, source: SocketAddress, ssrc: u32) -> SymmetricLatch {
        if self.follows(source, ssrc) {
            SymmetricLatch { source: Some(source), ssrc: Some(ssrc) }
        } else {
            self
        }
    }

    /// Offer an accepted RTP packet. Returns the source when the reply should be pointed there, and
    /// `None` to keep the latch: a new source with another SSRC is not followed.
    pub fn observe(&mut self, source: SocketAddress, ssrc: u32) -> (reply: Option<SocketAddress>)
        ensures
            *final(self) == old(self).after(source, ssrc),
            reply == (if old(self).follows(source, ssrc) { Some(source) } else { None }),
    {
        match self.source {
            None => {
                self.source = Some(source);
                self.ssrc = Some(ssrc);
                Some(source)
            },
            Some(current) => {
                if current == source {
                    self.ssrc = Some(ssrc);
                    Some(source)
                } else {
                    match self.ssrc {
                        Some(latched) => {
                            if latched == ssrc {
                                self.source = Some(source);
                                Some(source)
                            } else {
                                None
                            }
                        },
                        None => None,
                    }
                }
            },
        }
    }
}

/// A stream that keeps its SSRC is followed through any number of source changes.
pub proof fn law_rebind_is_followed(latch: SymmetricLatch, first: SocketAddress, next: SocketAddress, ssrc: u32)
    requires
        latch.follows(first, ssrc),
    ensures
        latch.after(first, ssrc).follows(next, ssrc),
        latch.after(first, ssrc).after(next, ssrc).source == Some(next),
{
}

/// Once latched, a different source with a different SSRC never moves the latch.
pub proof fn law_hijack_is_rejected(
    latch: SymmetricLatch,
    genuine: SocketAddress,
    ssrc: u32,
    intruder: SocketAddress,
    other_ssrc: u32,
)
    requires
        latch.follows(genuine, ssrc),
        intruder != genuine,
        other_ssrc != ssrc,
    ensures
        !latch.after(genuine, ssrc).follows(intruder, other_ssrc),
        latch.after(genuine, ssrc).after(intruder, other_ssrc) == latch.after(genuine, ssrc),
{
}

/// RTCP never yields an SSRC to latch on.
pub proof fn law_rtcp_never_latches(data: Seq<u8>)
    requires
        rtcp_datagram(data),
    ensures
        source_ssrc(data) is None,
{
}

} // verus!
