//! Companion RTCP of a call whose RTCP rides its own port, and what RTCP reports tell about the
//! round trip.
use crate::media_pipeline::step::{sends, Outbound, OutboundView};
use crate::net::{EndpointId, SocketAddress, SourceFilter};
use vstd::prelude::*;
use vstd::slice::slice_to_vec;

verus! {

/// A relay of one leg's RTCP. It is never transcoded, only unprotected and protected where a side is
/// encrypted.
#[derive(Clone, Copy, Debug, PartialEq, Eq, Structural)]
pub struct RtcpRelay {
    pub ingress_endpoint: EndpointId,
    pub accepted_source: SourceFilter,
    pub egress_endpoint: EndpointId,
    pub egress_dst: SocketAddress,
    pub secure_ingress: bool,
    pub secure_egress: bool,
}

/// The next piece of crypto work for a relayed RTCP datagram.
#[derive(Clone, Debug)]
pub enum RtcpStep {
    Unprotect { data: Vec<u8> },
    Protect { data: Vec<u8> },
    Done,
}

/// The content of an [`RtcpStep`].
pub enum RtcpStepView {
    Unprotect { data: Seq<u8> },
    Protect { data: Seq<u8> },
    Done,
}

impl View for RtcpStep {
    type V = RtcpStepView;

    open spec fn view(&self) -> RtcpStepView {
        match *self {
            RtcpStep::Unprotect { data } => RtcpStepView::Unprotect { data: data@ },
            RtcpStep::Protect { data } => RtcpStepView::Protect { data: data@ },
            RtcpStep::Done => RtcpStepView::Done,
        }
    }
}

impl RtcpRelay {
    /// A plaintext relay.
    pub fn new(
        ingress_endpoint: EndpointId,
        accepted_source: SourceFilter,
        egress_endpoint: EndpointId,
        egress_dst: SocketAddress,
    ) -> (relay: Self)
        ensures
            relay == (RtcpRelay {
                ingress_endpoint,
                accepted_source,
                egress_endpoint,
                egress_dst,
                secure_ingress: false,
                secure_egress: false,
            }),
    {
        RtcpRelay {
            ingress_endpoint,
            accepted_source,
            egress_endpoint,
            egress_dst,
            secure_ingress: false,
            secure_egress: false,
        }
    }

    /// The same relay, with an encrypted ingress.
    pub fn with_secure_ingress(self) -> (relay: Self)
        ensures
            relay == (RtcpRelay { secure_ingress: true, ..self }),
    {
        let mut relay = self;
        relay.secure_ingress = true;
        relay
    }

    /// The same relay, with an encrypted egress.
    pub fn with_secure_egress(self) -> (relay: Self)
        ensures
            relay == (RtcpRelay { secure_egress: true, ..self }),
    {
        let mut relay = self;
        relay.secure_egress = true;
        relay
    }

    /// The datagram a plaintext packet becomes on the way out.
    pub open spec fn outbound(self, data: Seq<u8>) -> OutboundView {
        OutboundView { endpoint: self.egress_endpoint, dst: self.egress_dst, data }
    }

    /// What happens to a plaintext packet.
    pub open spec fn plaintext_step(self, data: Seq<u8>) -> RtcpStepView {
        if self.secure_egress {
            RtcpStepView::Protect { data }
        } else {
            RtcpStepView::Done
        }
    }

    /// The datagrams a plaintext packet sends at once.
    pub open spec fn plaintext_sends(self, data: Seq<u8>) -> Seq<OutboundView> {
        if self.secure_egress {
            Seq::empty()
        } else {
            seq![self.outbound(data)]
        }
    }

    /// Take in one accepted datagram.
    pub fn relay(&self, data: &[u8], out: &mut Vec<Outbound>) -> (step: RtcpStep)
        ensures
            self.secure_ingress ==> step@ == (RtcpStepView::Unprotect { data: data@ }) && final(out)@ == old(out)@,
            !self.secure_ingress ==> step@ == self.plaintext_step(data@) && sends(
                old(out)@,
                final(out)@,
                self.plaintext_sends(data@),
            ),
    {
        if self.secure_ingress {
            return RtcpStep::Unprotect { data: slice_to_vec(data) };
        }
        self.plaintext(slice_to_vec(data), out)
    }

    /// Protect or transmit a plaintext packet.
    fn plaintext(&self, data: Vec<u8>, out: &mut Vec<Outbound>) -> (step: RtcpStep)
        ensures
            step@ == self.plaintext_step(data@),
            sends(old(out)@, final(out)@, self.plaintext_sends(data@)),
    {
        if self.secure_egress {
            return RtcpStep::Protect { data };
        }
        out.push(Outbound { endpoint: self.egress_endpoint, dst: self.egress_dst, data });
        RtcpStep::Done
    }

    /// Go on once the datagram was unprotected. One that failed is dropped.
    pub fn unprotected(&self, plain: Option<Vec<u8>>, out: &mut Vec<Outbound>) -> (step: RtcpStep)
        ensures
            plain is None ==> step@ == RtcpStepView::Done && final(out)@ == old(out)@,
            plain matches Some(data) ==> step@ == self.plaintext_step(data@) && sends(
                old(out)@,
                final(out)@,
                self.plaintext_sends(data@),
            ),
    {
        match plain {
            None => RtcpStep::Done,
            Some(data) => self.plaintext(data, out),
        }
    }

    /// Go on once the packet was protected. One that failed is dropped.
    pub fn protected(&self, sealed: Option<Vec<u8>>, out: &mut Vec<Outbound>)
        ensures
            sealed is None ==> final(out)@ == old(out)@,
            sealed matches Some(data) ==> sends(old(out)@, final(out)@, seq![self.outbound(data@)]),
    {
        if let Some(data) = sealed {
            out.push(Outbound { endpoint: self.egress_endpoint, dst: self.egress_dst, data });
        }
    }
}

/// A reception report block (RFC 3550 section 6.4.1).
#[derive(Clone, Copy, Debug, PartialEq, Eq, Structural)]
pub struct ReceptionBlock {
    pub ssrc: u32,
    pub fraction_lost: u8,
    pub cumulative_lost: u32,
    pub highest_sequence: u32,
    pub jitter: u32,
    pub last_sender_report: u32,
    pub delay_since_last_sender_report: u32,
}

/// One packet of an RTCP compound.
#[derive(Clone, Debug)]
pub enum RtcpReport {
    Sender { ntp_timestamp: u64, blocks: Vec<ReceptionBlock> },
    Receiver { blocks: Vec<ReceptionBlock> },
    Other,
}

/// What one RTCP packet from a party says about the round trip.
#[derive(Clone, Copy, Debug, PartialEq, Eq, Structural)]
pub enum RttNote {
    /// The peer will echo this sender report: remember on the peer's ingress that it went out.
    SentReport { ntp_timestamp: u64 },
    /// The party reports on the stream with `egress_ssrc` it receives: fold it into its own ingress.
    Reception { egress_ssrc: u32, block: ReceptionBlock },
}

/// The notes a list of blocks makes.
pub open spec fn block_notes(blocks: Seq<ReceptionBlock>, egress_ssrc: u32) -> Seq<RttNote> {
    Seq::new(blocks.len(), |i: int| RttNote::Reception { egress_ssrc, block: blocks[i] })
}

/// The notes one packet makes: a sender report is remembered first, then every block counts.
pub open spec fn report_notes(report: RtcpReport, egress_ssrc: u32) -> Seq<RttNote> {
    match report {
        RtcpReport::Sender { ntp_timestamp, blocks } => seq![RttNote::SentReport { ntp_timestamp }] + block_notes(
            blocks@,
            egress_ssrc,
        ),
        RtcpReport::Receiver { blocks } => block_notes(blocks@, egress_ssrc),
        RtcpReport::Other => Seq::empty(),
    }
}

/// The notes a compound makes, packet by packet.
pub open spec fn compound_notes(compound: Seq<RtcpReport>, egress_ssrc: u32) -> Seq<RttNote>
    decreases compound.len(),
{
    if compound.len() == 0 {
        Seq::empty()
    } else {
        compound_notes(compound.drop_last(), egress_ssrc) + report_notes(compound.last(), egress_ssrc)
    }
}

/// Append the notes of a list of blocks.
fn push_blocks(notes: &mut Vec<RttNote>, blocks: &Vec<ReceptionBlock>, egress_ssrc: u32)
    ensures
        final(notes)@ == old(notes)@ + block_notes(blocks@, egress_ssrc),
{
    let ghost before = notes@;
    let mut i: usize = 0;
    while i < blocks.len()
        invariant
            i <= blocks@.len(),
            notes@ =~= before + block_notes(blocks@, egress_ssrc).take(i as int),
        decreases blocks@.len() - i,
    {
        notes.push(RttNote::Reception { egress_ssrc, block: blocks[i] });
        i = i + 1;
    }
    proof {
        assert(block_notes(blocks@, egress_ssrc).take(i as int) =~= block_notes(blocks@, egress_ssrc));
    }
}

/// The round-trip notes of one party's RTCP compound. `egress_ssrc` is the SSRC of the stream sent
/// toward that party.
pub fn rtt_notes(compound: &Vec<RtcpReport>, egress_ssrc: u32) -> (notes: Vec<RttNote>)
    ensures
        notes@ == compound_notes(compound@, egress_ssrc),
{
    let mut notes: Vec<RttNote> = Vec::new();
    let mut i: usize = 0;
    while i < compound.len()
        invariant
            i <= compound@.len(),
            notes@ == compound_notes(compound@.take(i as int), egress_ssrc),
        decreases compound@.len() - i,
    {
        let ghost before = notes@;
        match &compound[i] {
            RtcpReport::Sender { ntp_timestamp, blocks } => {
                notes.push(RttNote::SentReport { ntp_timestamp: *ntp_timestamp });
                push_blocks(&mut notes, blocks, egress_ssrc);
            },
            RtcpReport::Receiver { blocks } => {
                push_blocks(&mut notes, blocks, egress_ssrc);
            },
            RtcpReport::Other => {},
        }
        proof {
            assert(compound@.take(i + 1).drop_last() =~= compound@.take(i as int));
            assert(notes@ =~= before + report_notes(compound@[i as int], egress_ssrc));
        }
        i = i + 1;
    }
    proof {
        assert(compound@.take(i as int) =~= compound@);
    }
    notes
}

} // verus!
