//! The end of a call: its record, and everything it held.
use crate::engine::call::{CallLeg, ClientId, CodecSpec, CommandOutcome};
use crate::net::{EndpointId, SocketAddress};
use crate::text::{decimal, decimal_text, decimal_value, digit, law_decimal_reads_back, optional_text, owned};
use vstd::prelude::*;

verus! {

/// How long the end of a call waits for the media actor's quality report, in milliseconds.
pub const CDR_QUALITY_TIMEOUT_MS: u64 = 500;

/// The counters of one datapath endpoint.
#[derive(Clone, Copy, Debug, PartialEq, Eq, Structural)]
pub struct EndpointStats {
    pub packets_in: u64,
    pub packets_out: u64,
    pub bytes_in: u64,
    pub bytes_out: u64,
    pub packets_dropped: u64,
    pub packets_lost: u64,
}

impl Default for EndpointStats {
    fn default() -> (stats: Self)
        ensures
            stats == no_traffic(),
    {
        EndpointStats {
            packets_in: 0,
            packets_out: 0,
            bytes_in: 0,
            bytes_out: 0,
            packets_dropped: 0,
            packets_lost: 0,
        }
    }
}

/// Counters of an endpoint that saw nothing.
pub open spec fn no_traffic() -> EndpointStats {
    EndpointStats { packets_in: 0, packets_out: 0, bytes_in: 0, bytes_out: 0, packets_dropped: 0, packets_lost: 0 }
}

/// Whether two sets of counters can be added up.
pub open spec fn addable(a: EndpointStats, b: EndpointStats) -> bool {
    &&& a.packets_in + b.packets_in <= u64::MAX
    &&& a.packets_out + b.packets_out <= u64::MAX
    &&& a.bytes_in + b.bytes_in <= u64::MAX
    &&& a.bytes_out + b.bytes_out <= u64::MAX
    &&& a.packets_dropped + b.packets_dropped <= u64::MAX
    &&& a.packets_lost + b.packets_lost <= u64::MAX
}

/// Two sets of counters added up.
pub open spec fn total(a: EndpointStats, b: EndpointStats) -> EndpointStats {
    EndpointStats {
        packets_in: (a.packets_in + b.packets_in) as u64,
        packets_out: (a.packets_out + b.packets_out) as u64,
        bytes_in: (a.bytes_in + b.bytes_in) as u64,
        bytes_out: (a.bytes_out + b.bytes_out) as u64,
        packets_dropped: (a.packets_dropped + b.packets_dropped) as u64,
        packets_lost: (a.packets_lost + b.packets_lost) as u64,
    }
}

/// The counters of a list of endpoints added up.
pub open spec fn totals(stats: Seq<EndpointStats>) -> EndpointStats
    decreases stats.len(),
{
    if stats.len() == 0 {
        no_traffic()
    } else {
        total(totals(stats.drop_last()), stats.last())
    }
}

/// Whether the counters of a list of endpoints can be added up, one after the other.
pub open spec fn all_addable(stats: Seq<EndpointStats>) -> bool {
    forall|i: int| 0 <= i < stats.len() ==> addable(totals(stats.take(i)), #[trigger] stats[i])
}

/// Two sets of counters added up.
pub fn add_counters(a: EndpointStats, b: EndpointStats) -> (sum: EndpointStats)
    requires
        addable(a, b),
    ensures
        sum == total(a, b),
{
    EndpointStats {
        packets_in: a.packets_in + b.packets_in,
        packets_out: a.packets_out + b.packets_out,
        bytes_in: a.bytes_in + b.bytes_in,
        bytes_out: a.bytes_out + b.bytes_out,
        packets_dropped: a.packets_dropped + b.packets_dropped,
        packets_lost: a.packets_lost + b.packets_lost,
    }
}

/// The counters of a leg: those of all its endpoints added up.
pub fn leg_counters(stats: &Vec<EndpointStats>) -> (sum: EndpointStats)
    requires
        all_addable(stats@),
    ensures
        sum == totals(stats@),
{
    let mut sum = EndpointStats::default();
    let mut i: usize = 0;
    while i < stats.len()
        invariant
            i <= stats@.len(),
            all_addable(stats@),
            sum == totals(stats@.take(i as int)),
        decreases stats@.len() - i,
    {
        proof {
            assert(stats@.take(i + 1).drop_last() =~= stats@.take(i as int));
            assert(addable(totals(stats@.take(i as int)), stats@[i as int]));
        }
        sum = add_counters(sum, stats[i]);
        i = i + 1;
    }
    proof {
        assert(stats@.take(i as int) =~= stats@);
    }
    sum
}

/// The quality of one direction at the end of a call. `F` is the type of its measurements.
#[derive(Clone, Copy, Debug, Default)]
pub struct DirectionQuality<F> {
    pub ssrc: Option<u32>,
    pub packets_received: u64,
    pub packets_expected: u32,
    pub packets_lost: u32,
    pub loss_percent: F,
    pub jitter_ms: F,
    pub jitter_ms_max: F,
    pub loss_percent_max: F,
    pub rtt_ms: Option<F>,
    pub mos_samples: u32,
    pub mos_average: Option<F>,
    pub mos_min: Option<F>,
    pub mos_min_at_ms: u64,
    pub mos_max: Option<F>,
    pub mos_max_at_ms: u64,
    /// The SSRC of the stream this direction sends.
    pub egress_ssrc: Option<u32>,
}

/// The quality of both directions at the end of a call.
#[derive(Clone, Copy, Debug, Default)]
pub struct FinalCallQuality<F> {
    /// What the offerer sent.
    pub a_to_b: DirectionQuality<F>,
    /// What the answerer sent.
    pub b_to_a: DirectionQuality<F>,
}

/// What a quality score rests on.
#[derive(Clone, Copy, Debug, PartialEq, Eq, Structural)]
pub enum MosBasis {
    /// Loss, jitter and delay.
    Full,
    /// Loss and jitter alone: no round trip was measured.
    LossJitter,
}

impl MosBasis {
    /// The name of the basis in a record.
    pub fn text(self) -> (text: String)
        ensures
            text@ == (match self {
                MosBasis::Full => "full"@,
                MosBasis::LossJitter => "loss+jitter"@,
            }),
    {
        match self {
            MosBasis::Full => owned("full"),
            MosBasis::LossJitter => owned("loss+jitter"),
        }
    }
}

/// Counters of a real-time text stream.
#[derive(Clone, Copy, Debug, PartialEq, Eq, Structural)]
pub struct TextStreamStats {
    pub packets: u64,
    pub characters: u64,
    pub missing_markers: u64,
    pub recovered_from_redundancy: u64,
}

/// Where one leg's media ran.
#[derive(Clone, Copy, Debug, PartialEq, Eq, Structural)]
pub struct LegMedia {
    /// The address the party was told to send to.
    pub local_address: SocketAddress,
    /// Where the party sent from.
    pub remote_address: Option<SocketAddress>,
    /// The SSRC of the stream sent to the party.
    pub egress_ssrc: Option<u32>,
}

/// The record of one leg. `F` is the type of its measurements.
#[derive(Debug)]
pub struct LegSummary<F> {
    pub tag: String,
    pub codec: Option<String>,
    pub payload_type: Option<u8>,
    pub local_address: Option<SocketAddress>,
    pub remote_address: Option<SocketAddress>,
    pub egress_ssrc: Option<u32>,
    pub packets_in: u64,
    pub bytes_in: u64,
    pub packets_out: u64,
    pub bytes_out: u64,
    pub packets_dropped: u64,
    pub ssrc: Option<u32>,
    pub packets_lost: Option<u32>,
    pub loss_percent: Option<F>,
    pub jitter_ms: Option<F>,
    pub rtt_ms: Option<F>,
    pub mos_average: Option<F>,
    pub mos_min: Option<F>,
    pub mos_max: Option<F>,
    pub mos_basis: Option<MosBasis>,
    pub text: Option<TextStreamStats>,
}

/// Whether a direction measured a stream.
pub open spec fn measured<F>(quality: Option<DirectionQuality<F>>) -> bool {
    quality matches Some(reading) && (reading.ssrc is Some || reading.packets_received > 0)
}

/// What the score of a direction rests on.
pub open spec fn basis_of<F>(quality: DirectionQuality<F>) -> MosBasis {
    if quality.rtt_ms is Some {
        MosBasis::Full
    } else {
        MosBasis::LossJitter
    }
}

/// The codec name of a leg.
pub open spec fn codec_name(codec: Option<CodecSpec>) -> Option<Seq<char>> {
    match codec {
        Some(spec) => Some(spec.encoding_name@),
        None => None,
    }
}

/// The identity half of a leg's record: who, what, where, and the counters.
pub open spec fn identified<F>(
    summary: LegSummary<F>,
    tag: Seq<char>,
    codec: Option<CodecSpec>,
    counters: EndpointStats,
    text: Option<TextStreamStats>,
    media: LegMedia,
) -> bool {
    &&& summary.tag@ == tag
    &&& optional_text(summary.codec) == codec_name(codec)
    &&& summary.payload_type == (match codec {
        Some(spec) => Some(spec.payload_type),
        None => None,
    })
    &&& summary.local_address == Some(media.local_address)
    &&& summary.remote_address == media.remote_address
    &&& summary.egress_ssrc == media.egress_ssrc
    &&& summary.packets_in == counters.packets_in
    &&& summary.bytes_in == counters.bytes_in
    &&& summary.packets_out == counters.packets_out
    &&& summary.bytes_out == counters.bytes_out
    &&& summary.packets_dropped == counters.packets_dropped
    &&& summary.text == text
}

/// The quality half of a leg's record: the measurements where a direction took any. Otherwise only the
/// datapath's own loss count, where there is loss.
pub open spec fn qualified<F>(
    summary: LegSummary<F>,
    counters: EndpointStats,
    quality: Option<DirectionQuality<F>>,
) -> bool {
    if measured(quality) {
        let reading = quality->Some_0;
        &&& summary.ssrc == reading.ssrc
        &&& summary.packets_lost == Some(reading.packets_lost)
        &&& summary.loss_percent == Some(reading.loss_percent)
        &&& summary.jitter_ms == Some(reading.jitter_ms)
        &&& summary.rtt_ms == reading.rtt_ms
        &&& summary.mos_average == reading.mos_average
        &&& summary.mos_min == reading.mos_min
        &&& summary.mos_max == reading.mos_max
        &&& summary.mos_basis == Some(basis_of(reading))
    } else {
        &&& summary.ssrc is None
        &&& summary.packets_lost == (if counters.packets_lost == 0 {
            None
        } else if counters.packets_lost <= u32::MAX {
            Some(counters.packets_lost as u32)
        } else {
            Some(u32::MAX)
        })
        &&& summary.loss_percent is None
        &&& summary.jitter_ms is None
        &&& summary.rtt_ms is None
        &&& summary.mos_average is None
        &&& summary.mos_min is None
        &&& summary.mos_max is None
        &&& summary.mos_basis is None
    }
}

/// The record of one leg.
pub fn leg_summary<F: Copy>(
    tag: String,
    codec: &Option<CodecSpec>,
    counters: EndpointStats,
    quality: Option<DirectionQuality<F>>,
    text: Option<TextStreamStats>,
    media: LegMedia,
) -> (summary: LegSummary<F>)
    ensures
        identified(summary, tag@, *codec, counters, text, media),
        qualified(summary, counters, quality),
{
    let (name, payload_type) = match codec {
        Some(spec) => (Some(spec.encoding_name.clone()), Some(spec.payload_type)),
        None => (None, None),
    };
    let mut summary: LegSummary<F> = LegSummary {
        tag,
        codec: name,
        payload_type,
        local_address: Some(media.local_address),
        remote_address: media.remote_address,
        egress_ssrc: media.egress_ssrc,
        packets_in: counters.packets_in,
        bytes_in: counters.bytes_in,
        packets_out: counters.packets_out,
        bytes_out: counters.bytes_out,
        packets_dropped: counters.packets_dropped,
        ssrc: None,
        packets_lost: None,
        loss_percent: None,
        jitter_ms: None,
        rtt_ms: None,
        mos_average: None,
        mos_min: None,
        mos_max: None,
        mos_basis: None,
        text,
    };
    if let Some(reading) = quality {
        if reading.ssrc.is_some() || reading.packets_received > 0 {
            summary.ssrc = reading.ssrc;
            summary.packets_lost = Some(reading.packets_lost);
            summary.loss_percent = Some(reading.loss_percent);
            summary.jitter_ms = Some(reading.jitter_ms);
            summary.rtt_ms = reading.rtt_ms;
            summary.mos_average = reading.mos_average;
            summary.mos_min = reading.mos_min;
            summary.mos_max = reading.mos_max;
            summary.mos_basis = Some(
                if reading.rtt_ms.is_some() {
                    MosBasis::Full
                } else {
                    MosBasis::LossJitter
                },
            );
            return summary;
        }
    }
    if counters.packets_lost > 0 {
        summary.packets_lost = Some(
            if counters.packets_lost <= u32::MAX as u64 {
                counters.packets_lost as u32
            } else {
                u32::MAX
            },
        );
    }
    summary
}

/// A leg's media address as its party sees it.
pub open spec fn advertised(leg: CallLeg) -> SocketAddress {
    SocketAddress::plain(leg.advertised_ip, leg.rtp.local_addr.port)
}

/// A leg's media address as its party sees it.
pub fn advertised_address(leg: &CallLeg) -> (address: SocketAddress)
    ensures
        address == advertised(*leg),
{
    SocketAddress::new(leg.advertised_ip, leg.rtp.local_addr.port)
}

/// Where a leg's party was seen to send from: by the datapath, the crypto bridge or the media actor, in this
/// order, or else the address it signalled.
pub open spec fn seen_at(
    datapath: Option<SocketAddress>,
    bridge: Option<SocketAddress>,
    media: Option<SocketAddress>,
    signalled: Option<SocketAddress>,
) -> Option<SocketAddress> {
    if datapath is Some {
        datapath
    } else if bridge is Some {
        bridge
    } else if media is Some {
        media
    } else {
        signalled
    }
}

/// Where a leg's party actually sent from: what the datapath, the crypto bridge or the media actor
/// observed, in this order, or else the address it signalled.
pub fn observed_remote(
    datapath: Option<SocketAddress>,
    bridge: Option<SocketAddress>,
    media: Option<SocketAddress>,
    signalled: Option<SocketAddress>,
) -> (remote: Option<SocketAddress>)
    ensures
        remote == seen_at(datapath, bridge, media, signalled),
{
    if datapath.is_some() {
        datapath
    } else if bridge.is_some() {
        bridge
    } else if media.is_some() {
        media
    } else {
        signalled
    }
}

/// What the end of a call reads of it.
#[derive(Debug)]
pub struct FinishFacts<F> {
    pub from_tag: String,
    pub to_tag: Option<String>,
    pub near: CallLeg,
    pub far: Option<CallLeg>,
    /// The call has one party, whatever legs it holds.
    pub single_leg: bool,
    /// The leg the caller of a single-leg call reaches.
    pub caller_leg: CallLeg,
    pub near_codec: Option<CodecSpec>,
    pub far_codec: Option<CodecSpec>,
    pub near_counters: EndpointStats,
    pub far_counters: EndpointStats,
    pub quality: Option<FinalCallQuality<F>>,
    pub near_text: Option<TextStreamStats>,
    pub far_text: Option<TextStreamStats>,
    /// Where each party was observed to send from.
    pub near_remote: Option<SocketAddress>,
    pub far_remote: Option<SocketAddress>,
    /// Where the datapath observed the caller of a single-leg call.
    pub caller_latched: Option<SocketAddress>,
}

impl<F> FinishFacts<F> {
    /// Whether the call has two parties.
    pub open spec fn two_party(self) -> bool {
        self.far is Some && !self.single_leg
    }

    /// The quality of what the offerer sent.
    pub open spec fn a_to_b(self) -> Option<DirectionQuality<F>> {
        match self.quality {
            Some(quality) => Some(quality.a_to_b),
            None => None,
        }
    }

    /// The quality of what the answerer sent.
    pub open spec fn b_to_a(self) -> Option<DirectionQuality<F>> {
        match self.quality {
            Some(quality) => Some(quality.b_to_a),
            None => None,
        }
    }

    /// The SSRC a direction sends.
    pub open spec fn sent_ssrc(quality: Option<DirectionQuality<F>>) -> Option<u32> {
        match quality {
            Some(reading) => reading.egress_ssrc,
            None => None,
        }
    }

    /// The tag of the answerer, or a dash.
    pub open spec fn answerer(self) -> Seq<char> {
        match self.to_tag {
            Some(tag) => tag@,
            None => "-"@,
        }
    }

    /// The offerer's media. The stream it gets is the one the opposite direction sends.
    pub open spec fn near_media(self) -> LegMedia {
        LegMedia {
            local_address: advertised(self.near),
            remote_address: self.near_remote,
            egress_ssrc: Self::sent_ssrc(self.b_to_a()),
        }
    }

    /// The answerer's media.
    pub open spec fn far_media(self) -> LegMedia {
        LegMedia {
            local_address: advertised(self.far->Some_0),
            remote_address: self.far_remote,
            egress_ssrc: Self::sent_ssrc(self.a_to_b()),
        }
    }

    /// The media of a single-leg call's caller, which may reach either leg's socket.
    pub open spec fn caller_media(self) -> LegMedia {
        LegMedia {
            local_address: advertised(self.caller_leg),
            remote_address: if self.caller_latched is Some {
                self.caller_latched
            } else {
                self.near.remote_rtp
            },
            egress_ssrc: Self::sent_ssrc(self.b_to_a()),
        }
    }

    /// The counters of a single-leg call: those of both legs together.
    pub open spec fn caller_counters(self) -> EndpointStats {
        total(self.near_counters, self.far_counters)
    }
}

/// Whether some leg records are those of a finished call: one per party. A single-leg call has one, with the
/// counters of both its legs.
pub open spec fn records_call<F>(legs: Seq<LegSummary<F>>, facts: FinishFacts<F>) -> bool {
    if facts.two_party() {
        &&& legs.len() == 2
        &&& identified(
            legs[0],
            facts.from_tag@,
            facts.near_codec,
            facts.near_counters,
            facts.near_text,
            facts.near_media(),
        )
        &&& qualified(legs[0], facts.near_counters, facts.a_to_b())
        &&& identified(
            legs[1],
            facts.answerer(),
            facts.far_codec,
            facts.far_counters,
            facts.far_text,
            facts.far_media(),
        )
        &&& qualified(legs[1], facts.far_counters, facts.b_to_a())
    } else {
        &&& legs.len() == 1
        &&& identified(
            legs[0],
            facts.from_tag@,
            facts.near_codec,
            facts.caller_counters(),
            facts.near_text,
            facts.caller_media(),
        )
        &&& qualified(legs[0], facts.caller_counters(), facts.a_to_b())
    }
}

/// The leg records of a finished call: one per party. A single-leg call has one, with the counters of
/// both its legs.
pub fn finish_call<F: Copy>(facts: FinishFacts<F>) -> (legs: Vec<LegSummary<F>>)
    requires
        facts.two_party() || addable(facts.near_counters, facts.far_counters),
    ensures
        records_call(legs@, facts),
{
    let (a_to_b, b_to_a) = match facts.quality {
        Some(quality) => (Some(quality.a_to_b), Some(quality.b_to_a)),
        None => (None, None),
    };
    let a_sent: Option<u32> = match &a_to_b {
        Some(reading) => reading.egress_ssrc,
        None => None,
    };
    let b_sent: Option<u32> = match &b_to_a {
        Some(reading) => reading.egress_ssrc,
        None => None,
    };
    let mut legs: Vec<LegSummary<F>> = Vec::new();
    if let Some(far) = facts.far {
        if !facts.single_leg {
            let near_media = LegMedia {
                local_address: advertised_address(&facts.near),
                remote_address: facts.near_remote,
                egress_ssrc: b_sent,
            };
            let far_media = LegMedia {
                local_address: advertised_address(&far),
                remote_address: facts.far_remote,
                egress_ssrc: a_sent,
            };
            let answerer = match &facts.to_tag {
                Some(tag) => tag.clone(),
                None => owned("-"),
            };
            legs.push(
                leg_summary(
                    facts.from_tag.clone(),
                    &facts.near_codec,
                    facts.near_counters,
                    a_to_b,
                    facts.near_text,
                    near_media,
                ),
            );
            legs.push(
                leg_summary(answerer, &facts.far_codec, facts.far_counters, b_to_a, facts.far_text, far_media),
            );
            return legs;
        }
    }
    let caller_counters = add_counters(facts.near_counters, facts.far_counters);
    let caller_media = LegMedia {
        local_address: advertised_address(&facts.caller_leg),
        remote_address: if facts.caller_latched.is_some() {
            facts.caller_latched
        } else {
            facts.near.remote_rtp
        },
        egress_ssrc: b_sent,
    };
    legs.push(
        leg_summary(
            facts.from_tag.clone(),
            &facts.near_codec,
            caller_counters,
            a_to_b,
            facts.near_text,
            caller_media,
        ),
    );
    legs
}

/// How long a call lasted in milliseconds, from ticks of one second. It saturates.
pub open spec fn lasted_ms(created_tick: u64, now_ticks: u64) -> int {
    if now_ticks <= created_tick {
        0
    } else if (now_ticks - created_tick) * 1000 > u64::MAX {
        u64::MAX as int
    } else {
        (now_ticks - created_tick) * 1000
    }
}

/// How long a call lasted, in milliseconds, out of the ticks of a clock of seconds.
pub fn call_duration_ms(created_tick: u64, now_ticks: u64) -> (duration: u64)
    ensures
        duration == lasted_ms(created_tick, now_ticks),
{
    let seconds: u64 = now_ticks.saturating_sub(created_tick);
    match seconds.checked_mul(1000) {
        Some(milliseconds) => milliseconds,
        None => u64::MAX,
    }
}

/// Something to release at the end of a call.
#[derive(Clone, Copy, Debug, PartialEq, Eq, Structural)]
pub enum TeardownAction {
    /// Abort prompts that are still being fetched, and report them.
    CancelFetches,
    /// Drop the subscriptions to the call's media.
    DropSubscriptions,
    /// Stop the WebSocket tee.
    StopTee,
    /// Stop the recordings, and wait until they are written.
    StopRecordings,
    /// Stop the interception.
    StopInterception,
    /// Take the endpoints out of the crypto bridge.
    DeregisterBridge,
    /// Stop the media actor.
    DeregisterMedia,
    /// Stop the text processor.
    DeregisterText,
    /// Stop the WebSocket takeover.
    StopWsBridge,
    /// Forget the consent checks.
    UnregisterConsent,
    /// Forget the ICE agents.
    UnregisterAgents,
    /// Free an endpoint.
    RemoveEndpoint { endpoint: EndpointId },
    /// Give the owner's session back.
    ReleaseSession,
}

/// The endpoints freed, in order.
pub open spec fn removals(endpoints: Seq<EndpointId>) -> Seq<TeardownAction> {
    Seq::new(endpoints.len(), |i: int| TeardownAction::RemoveEndpoint { endpoint: endpoints[i] })
}

/// Everything a finished call releases, in order: what rides on the media actor before the actor,
/// the actor before the endpoints, and the owner's session last.
pub open spec fn finish_order(endpoints: Seq<EndpointId>) -> Seq<TeardownAction> {
    seq![
        TeardownAction::DropSubscriptions,
        TeardownAction::StopTee,
        TeardownAction::StopRecordings,
        TeardownAction::StopInterception,
        TeardownAction::DeregisterBridge,
        TeardownAction::DeregisterMedia,
        TeardownAction::DeregisterText,
        TeardownAction::StopWsBridge,
        TeardownAction::UnregisterConsent,
        TeardownAction::UnregisterAgents,
    ] + removals(endpoints) + seq![TeardownAction::ReleaseSession]
}

/// Everything a half-built call releases, in order.
pub open spec fn abandon_order(endpoints: Seq<EndpointId>) -> Seq<TeardownAction> {
    seq![
        TeardownAction::CancelFetches,
        TeardownAction::DropSubscriptions,
        TeardownAction::StopTee,
        TeardownAction::StopRecordings,
        TeardownAction::StopInterception,
        TeardownAction::DeregisterBridge,
        TeardownAction::DeregisterMedia,
        TeardownAction::StopWsBridge,
        TeardownAction::UnregisterConsent,
        TeardownAction::UnregisterAgents,
    ] + removals(endpoints) + seq![TeardownAction::ReleaseSession]
}

/// Append the freeing of every endpoint and of the owner's session.
fn push_removals(actions: &mut Vec<TeardownAction>, endpoints: &Vec<EndpointId>)
    ensures
        final(actions)@ == old(actions)@ + removals(endpoints@) + seq![TeardownAction::ReleaseSession],
{
    let ghost before = actions@;
    let mut i: usize = 0;
    while i < endpoints.len()
        invariant
            i <= endpoints@.len(),
            actions@ =~= before + removals(endpoints@).take(i as int),
        decreases endpoints@.len() - i,
    {
        actions.push(TeardownAction::RemoveEndpoint { endpoint: endpoints[i] });
        i = i + 1;
    }
    proof {
        assert(removals(endpoints@).take(i as int) =~= removals(endpoints@));
    }
    actions.push(TeardownAction::ReleaseSession);
    proof {
        assert(actions@ =~= before + removals(endpoints@) + seq![TeardownAction::ReleaseSession]);
    }
}

/// Everything a finished call releases, in order.
pub fn finish_actions(endpoints: &Vec<EndpointId>) -> (actions: Vec<TeardownAction>)
    ensures
        actions@ == finish_order(endpoints@),
{
    let mut actions: Vec<TeardownAction> = vec![
        TeardownAction::DropSubscriptions,
        TeardownAction::StopTee,
        TeardownAction::StopRecordings,
        TeardownAction::StopInterception,
        TeardownAction::DeregisterBridge,
        TeardownAction::DeregisterMedia,
        TeardownAction::DeregisterText,
        TeardownAction::StopWsBridge,
        TeardownAction::UnregisterConsent,
        TeardownAction::UnregisterAgents,
    ];
    push_removals(&mut actions, endpoints);
    actions
}

/// Everything a half-built call releases, in order.
pub fn teardown_call(endpoints: &Vec<EndpointId>) -> (actions: Vec<TeardownAction>)
    ensures
        actions@ == abandon_order(endpoints@),
{
    let mut actions: Vec<TeardownAction> = vec![
        TeardownAction::CancelFetches,
        TeardownAction::DropSubscriptions,
        TeardownAction::StopTee,
        TeardownAction::StopRecordings,
        TeardownAction::StopInterception,
        TeardownAction::DeregisterBridge,
        TeardownAction::DeregisterMedia,
        TeardownAction::StopWsBridge,
        TeardownAction::UnregisterConsent,
        TeardownAction::UnregisterAgents,
    ];
    push_removals(&mut actions, endpoints);
    actions
}

/// No endpoint outlives its call: each is freed by both ways a call can end.
pub proof fn law_every_endpoint_is_freed(endpoints: Seq<EndpointId>, i: int)
    requires
        0 <= i < endpoints.len(),
    ensures
        finish_order(endpoints).contains(TeardownAction::RemoveEndpoint { endpoint: endpoints[i] }),
        abandon_order(endpoints).contains(TeardownAction::RemoveEndpoint { endpoint: endpoints[i] }),
{
    assert(finish_order(endpoints)[10 + i] == TeardownAction::RemoveEndpoint { endpoint: endpoints[i] });
    assert(abandon_order(endpoints)[10 + i] == TeardownAction::RemoveEndpoint { endpoint: endpoints[i] });
}

/// The answer to a delete.
pub open spec fn deletion(owner: Option<ClientId>, client: ClientId) -> CommandOutcome {
    if owner == Some(client) {
        CommandOutcome::Done
    } else {
        CommandOutcome::UnknownCall
    }
}

/// Answer a delete: only the client that made a call ends it, and another learns nothing of it.
/// `owner` is the owner of the call, where it exists.
pub fn delete(owner: Option<ClientId>, client: ClientId) -> (outcome: CommandOutcome)
    ensures
        outcome == deletion(owner, client),
{
    match owner {
        Some(creator) => {
            if creator == client {
                CommandOutcome::Done
            } else {
                CommandOutcome::UnknownCall
            }
        },
        None => CommandOutcome::UnknownCall,
    }
}

/// The report that ends a call.
#[derive(Debug)]
pub struct CallSummary<F> {
    pub call_id: String,
    pub reason: String,
    pub duration_ms: u64,
    pub started_at_unix_ms: u64,
    pub ended_at_unix_ms: u64,
    pub legs: Vec<LegSummary<F>>,
}

/// The report that ends a call, from its age in ticks of one second and its legs.
pub fn call_summary<F>(
    call_id: &String,
    reason: &str,
    created_tick: u64,
    now_ticks: u64,
    started_at_unix_ms: u64,
    ended_at_unix_ms: u64,
    legs: Vec<LegSummary<F>>,
) -> (summary: CallSummary<F>)
    ensures
        summary.call_id@ == call_id@,
        summary.reason@ == reason@,
        summary.duration_ms == lasted_ms(created_tick, now_ticks),
        summary.started_at_unix_ms == started_at_unix_ms,
        summary.ended_at_unix_ms == ended_at_unix_ms,
        summary.legs == legs,
{
    CallSummary {
        call_id: call_id.clone(),
        reason: owned(reason),
        duration_ms: call_duration_ms(created_tick, now_ticks),
        started_at_unix_ms,
        ended_at_unix_ms,
        legs,
    }
}

/// A point in a call as minutes and two-digit seconds.
pub open spec fn call_offset(milliseconds: u64) -> Seq<char> {
    let seconds = milliseconds as nat / 1000;
    decimal(seconds / 60) + ":"@ + seq![digit(seconds % 60 / 10), digit(seconds % 60 % 10)]
}

/// A point in a call as minutes and two-digit seconds.
pub fn format_call_offset(milliseconds: u64) -> (text: String)
    ensures
        text@ == call_offset(milliseconds),
{
    let seconds: u64 = milliseconds / 1000;
    let rest: u64 = seconds % 60;
    let mut text = decimal_text(seconds / 60);
    text.push_str(":");
    text.push((48 + (rest / 10) as u8) as char);
    text.push((48 + (rest % 10) as u8) as char);
    proof {
        assert(text@ =~= call_offset(milliseconds));
    }
    text
}

/// The quality part of one leg's line in the call record.
#[derive(Debug)]
pub struct CdrQuality {
    /// The SSRC of the measured stream.
    pub ssrc: Option<u32>,
    pub mos_min_at: String,
    pub mos_max_at: String,
    pub mos_basis: MosBasis,
}

/// Whether the quality part of a line is about what a direction measured.
pub open spec fn tells_quality<F>(part: CdrQuality, quality: DirectionQuality<F>) -> bool {
    &&& part.ssrc == quality.ssrc
    &&& part.mos_min_at@ == call_offset(quality.mos_min_at_ms)
    &&& part.mos_max_at@ == call_offset(quality.mos_max_at_ms)
    &&& part.mos_basis == basis_of(quality)
}

/// The quality part of one leg's line in the call record, where a direction measured a stream.
pub fn log_cdr_leg<F: Copy>(quality: Option<DirectionQuality<F>>) -> (line: Option<CdrQuality>)
    ensures
        line is Some == measured(quality),
        line matches Some(part) ==> tells_quality(part, quality->Some_0),
{
    match quality {
        Some(reading) => {
            if reading.ssrc.is_none() && reading.packets_received == 0 {
                return None;
            }
            Some(
                CdrQuality {
                    ssrc: reading.ssrc,
                    mos_min_at: format_call_offset(reading.mos_min_at_ms),
                    mos_max_at: format_call_offset(reading.mos_max_at_ms),
                    mos_basis: if reading.rtt_ms.is_some() {
                        MosBasis::Full
                    } else {
                        MosBasis::LossJitter
                    },
                },
            )
        },
        None => None,
    }
}

/// Counters add up field by field, in whichever order, and an endpoint that saw nothing adds nothing.
pub proof fn law_counters_add_up(a: EndpointStats, b: EndpointStats, stats: Seq<EndpointStats>)
    requires
        addable(a, b),
        stats.len() > 0,
        addable(totals(stats.drop_last()), stats.last()),
    ensures
        total(a, b).packets_in == a.packets_in + b.packets_in,
        total(a, b).packets_out == a.packets_out + b.packets_out,
        total(a, b).bytes_in == a.bytes_in + b.bytes_in,
        total(a, b).bytes_out == a.bytes_out + b.bytes_out,
        total(a, b).packets_dropped == a.packets_dropped + b.packets_dropped,
        total(a, b).packets_lost == a.packets_lost + b.packets_lost,
        total(a, b) == total(b, a),
        total(a, totals(Seq::empty())) == a,
        totals(stats).packets_in == totals(stats.drop_last()).packets_in + stats.last().packets_in,
        totals(stats).packets_out == totals(stats.drop_last()).packets_out + stats.last().packets_out,
        totals(stats).bytes_in == totals(stats.drop_last()).bytes_in + stats.last().bytes_in,
        totals(stats).bytes_out == totals(stats.drop_last()).bytes_out + stats.last().bytes_out,
        totals(stats).packets_dropped == totals(stats.drop_last()).packets_dropped + stats.last().packets_dropped,
        totals(stats).packets_lost == totals(stats.drop_last()).packets_lost + stats.last().packets_lost,
{
}

/// Two-party records keep the parties apart: the offerer's record holds the near leg's counters, codec, text and
/// addresses, the quality of what the offerer sent, and the SSRC of what the offerer was sent; the answerer's
/// holds the far leg's, and the other way round.
pub proof fn law_records_keep_the_parties_apart<F>(legs: Seq<LegSummary<F>>, facts: FinishFacts<F>)
    requires
        records_call(legs, facts),
        facts.far is Some,
        !facts.single_leg,
    ensures
        legs.len() == 2,
        legs[0].tag@ == facts.from_tag@,
        facts.to_tag matches Some(tag) ==> legs[1].tag@ == tag@,
        facts.to_tag is None ==> legs[1].tag@ == "-"@,
        legs[0].packets_in == facts.near_counters.packets_in && legs[1].packets_in == facts.far_counters.packets_in,
        legs[0].packets_out == facts.near_counters.packets_out && legs[1].packets_out == facts.far_counters.packets_out,
        legs[0].bytes_in == facts.near_counters.bytes_in && legs[1].bytes_in == facts.far_counters.bytes_in,
        legs[0].bytes_out == facts.near_counters.bytes_out && legs[1].bytes_out == facts.far_counters.bytes_out,
        legs[0].packets_dropped == facts.near_counters.packets_dropped && legs[1].packets_dropped
            == facts.far_counters.packets_dropped,
        legs[0].text == facts.near_text && legs[1].text == facts.far_text,
        legs[0].remote_address == facts.near_remote && legs[1].remote_address == facts.far_remote,
        legs[0].local_address matches Some(address) && address.ip == facts.near.advertised_ip && address.port
            == facts.near.rtp.local_addr.port,
        legs[1].local_address matches Some(address) && address.ip == facts.far->Some_0.advertised_ip && address.port
            == facts.far->Some_0.rtp.local_addr.port,
        facts.near_codec matches Some(codec) ==> (legs[0].codec matches Some(name) && name@ == codec.encoding_name@)
            && legs[0].payload_type == Some(codec.payload_type),
        facts.near_codec is None ==> legs[0].codec is None && legs[0].payload_type is None,
        facts.far_codec matches Some(codec) ==> (legs[1].codec matches Some(name) && name@ == codec.encoding_name@)
            && legs[1].payload_type == Some(codec.payload_type),
        facts.far_codec is None ==> legs[1].codec is None && legs[1].payload_type is None,
        facts.quality matches Some(quality) ==> {
            &&& legs[0].egress_ssrc == quality.b_to_a.egress_ssrc && legs[1].egress_ssrc == quality.a_to_b.egress_ssrc
            &&& quality.a_to_b.ssrc is Some ==> legs[0].ssrc == quality.a_to_b.ssrc && legs[0].packets_lost == Some(
                quality.a_to_b.packets_lost,
            )
            &&& quality.b_to_a.ssrc is Some ==> legs[1].ssrc == quality.b_to_a.ssrc && legs[1].packets_lost == Some(
                quality.b_to_a.packets_lost,
            )
        },
        facts.quality is None ==> legs[0].egress_ssrc is None && legs[1].egress_ssrc is None && legs[0].ssrc is None
            && legs[1].ssrc is None,
{
}

/// A single-leg record has the counters of both its legs together, and says where the caller was: at the socket
/// the caller reached, and where the datapath saw the caller, or else where the offer said.
pub proof fn law_single_leg_record_is_whole<F>(legs: Seq<LegSummary<F>>, facts: FinishFacts<F>)
    requires
        records_call(legs, facts),
        facts.far is None || facts.single_leg,
        addable(facts.near_counters, facts.far_counters),
    ensures
        legs.len() == 1,
        legs[0].tag@ == facts.from_tag@,
        legs[0].packets_in == facts.near_counters.packets_in + facts.far_counters.packets_in,
        legs[0].packets_out == facts.near_counters.packets_out + facts.far_counters.packets_out,
        legs[0].bytes_in == facts.near_counters.bytes_in + facts.far_counters.bytes_in,
        legs[0].bytes_out == facts.near_counters.bytes_out + facts.far_counters.bytes_out,
        legs[0].packets_dropped == facts.near_counters.packets_dropped + facts.far_counters.packets_dropped,
        legs[0].text == facts.near_text,
        legs[0].local_address matches Some(address) && address.ip == facts.caller_leg.advertised_ip && address.port
            == facts.caller_leg.rtp.local_addr.port,
        facts.caller_latched is Some ==> legs[0].remote_address == facts.caller_latched,
        facts.caller_latched is None ==> legs[0].remote_address == facts.near.remote_rtp,
        facts.quality matches Some(quality) ==> {
            &&& legs[0].egress_ssrc == quality.b_to_a.egress_ssrc
            &&& quality.a_to_b.ssrc is Some ==> legs[0].ssrc == quality.a_to_b.ssrc
        },
        facts.near_codec matches Some(codec) ==> legs[0].payload_type == Some(codec.payload_type),
{
}

/// The quality half of a record is that of the direction that measured a stream: one with an SSRC or with
/// packets. Its score rests on the delay too exactly where a round trip was measured. Without a measurement
/// there is none of it, but for the datapath's own count of lost packets where it lost any, as far as the field
/// goes.
pub proof fn law_record_is_as_good_as_its_measurement<F>(
    summary: LegSummary<F>,
    counters: EndpointStats,
    quality: Option<DirectionQuality<F>>,
)
    requires
        qualified(summary, counters, quality),
    ensures
        quality matches Some(reading) ==> (reading.ssrc is Some || reading.packets_received >= 1 ==> {
            &&& summary.ssrc == reading.ssrc
            &&& summary.packets_lost == Some(reading.packets_lost)
            &&& summary.loss_percent == Some(reading.loss_percent)
            &&& summary.jitter_ms == Some(reading.jitter_ms)
            &&& summary.rtt_ms == reading.rtt_ms
            &&& summary.mos_average == reading.mos_average
            &&& summary.mos_min == reading.mos_min
            &&& summary.mos_max == reading.mos_max
            &&& summary.mos_basis == Some(MosBasis::Full) <==> reading.rtt_ms is Some
            &&& summary.mos_basis == Some(MosBasis::LossJitter) <==> reading.rtt_ms is None
        }),
        quality is None || (quality->Some_0.ssrc is None && quality->Some_0.packets_received == 0) ==> {
            &&& summary.ssrc is None && summary.loss_percent is None && summary.jitter_ms is None
            &&& summary.rtt_ms is None && summary.mos_average is None && summary.mos_min is None
            &&& summary.mos_max is None && summary.mos_basis is None
            &&& summary.packets_lost is None <==> counters.packets_lost == 0
            &&& 0 < counters.packets_lost <= 0xffff_ffff ==> summary.packets_lost->Some_0 == counters.packets_lost
            &&& counters.packets_lost > 0xffff_ffff ==> summary.packets_lost == Some(0xffff_ffffu32)
        },
{
}

/// A call lasted as many thousands of milliseconds as the clock ticked since it began, and none where the clock
/// went back.
pub proof fn law_call_lasts_from_its_beginning(created_tick: u64, now_ticks: u64)
    ensures
        now_ticks < created_tick ==> lasted_ms(created_tick, now_ticks) == 0,
        created_tick <= now_ticks && (now_ticks - created_tick) * 1000 <= u64::MAX ==> lasted_ms(created_tick, now_ticks)
            == (now_ticks - created_tick) * 1000,
        created_tick <= now_ticks && (now_ticks - created_tick) * 1000 > u64::MAX ==> lasted_ms(created_tick, now_ticks)
            == u64::MAX,
{
}

/// What rides on the media of a call is stopped before the media actor, recordings and interception included,
/// and the actor before the endpoints; the owner's session comes back last, once everything is free. Each is done
/// once, however the call ends.
pub proof fn law_call_is_taken_down_in_order(endpoints: Seq<EndpointId>, i: int)
    ensures
        ({
            let finish = finish_order(endpoints);
            let abandon = abandon_order(endpoints);
            let count = endpoints.len() as int;
            &&& finish.len() == 11 + count && abandon.len() == 11 + count
            &&& finish[0] == TeardownAction::DropSubscriptions && finish[1] == TeardownAction::StopTee
            &&& finish[2] == TeardownAction::StopRecordings && finish[3] == TeardownAction::StopInterception
            &&& finish[4] == TeardownAction::DeregisterBridge && finish[5] == TeardownAction::DeregisterMedia
            &&& finish[6] == TeardownAction::DeregisterText && finish[7] == TeardownAction::StopWsBridge
            &&& finish[8] == TeardownAction::UnregisterConsent && finish[9] == TeardownAction::UnregisterAgents
            &&& abandon[0] == TeardownAction::CancelFetches && abandon[1] == TeardownAction::DropSubscriptions
            &&& abandon[2] == TeardownAction::StopTee && abandon[3] == TeardownAction::StopRecordings
            &&& abandon[4] == TeardownAction::StopInterception && abandon[5] == TeardownAction::DeregisterBridge
            &&& abandon[6] == TeardownAction::DeregisterMedia && abandon[7] == TeardownAction::StopWsBridge
            &&& abandon[8] == TeardownAction::UnregisterConsent && abandon[9] == TeardownAction::UnregisterAgents
            &&& 0 <= i < count ==> finish[10 + i] == (TeardownAction::RemoveEndpoint { endpoint: endpoints[i] })
                && abandon[10 + i] == (TeardownAction::RemoveEndpoint { endpoint: endpoints[i] })
            &&& finish[10 + count] == TeardownAction::ReleaseSession && abandon[10 + count]
                == TeardownAction::ReleaseSession
        }),
{
}

/// A point in a call reads as its whole minutes, a colon, and the rest of its seconds in two digits.
pub proof fn law_call_offset_reads_back(milliseconds: u64)
    ensures
        ({
            let text = call_offset(milliseconds);
            let size = text.len() as int;
            let seconds = decimal_value(text.subrange(size - 2, size));
            &&& size >= 4
            &&& text[size - 3] == ':'
            &&& 0 <= seconds < 60
            &&& decimal_value(text.take(size - 3)) * 60 + seconds == milliseconds as int / 1000
        }),
{
    let text = call_offset(milliseconds);
    let size = text.len() as int;
    let whole = milliseconds as nat / 1000;
    reveal_strlit(":");
    reveal_with_fuel(decimal_value, 3);
    law_decimal_reads_back(whole / 60);
    assert(text.take(size - 3) =~= decimal(whole / 60));
    let pair = text.subrange(size - 2, size);
    assert(pair.drop_last().drop_last() =~= Seq::empty());
    assert(pair =~= seq![digit(whole % 60 / 10), digit(whole % 60 % 10)]);
}

/// What was seen counts before what was signalled: the address of a party is the signalled one only where nobody
/// saw another, and what the datapath saw counts before all.
pub proof fn law_seen_counts_before_signalled(
    datapath: Option<SocketAddress>,
    bridge: Option<SocketAddress>,
    media: Option<SocketAddress>,
    signalled: Option<SocketAddress>,
    address: SocketAddress,
)
    ensures
        seen_at(Some(address), bridge, media, signalled) == Some(address),
        seen_at(None, Some(address), media, signalled) == Some(address),
        seen_at(None, None, Some(address), signalled) == Some(address),
        seen_at(None, None, None, signalled) == signalled,
        datapath is Some || bridge is Some || media is Some ==> seen_at(datapath, bridge, media, signalled) == seen_at(
            datapath,
            bridge,
            media,
            None,
        ),
{
}

/// A call is ended by the client that made it alone, and another is told what they would be told of no call.
pub proof fn law_only_the_owner_ends_a_call(owner: ClientId, client: ClientId)
    ensures
        deletion(Some(owner), client) is Done <==> owner == client,
        owner != client ==> deletion(Some(owner), client) == deletion(None, client),
        deletion(None, client) is UnknownCall,
{
}

/// The line about a leg names the stream that was measured, says when it was worst and when it was best, and rests
/// on the round trip exactly where that was measured.
pub proof fn law_line_tells_worst_and_best<F>(part: CdrQuality, quality: DirectionQuality<F>)
    requires
        tells_quality(part, quality),
    ensures
        part.ssrc == quality.ssrc,
        part.mos_min_at@ == call_offset(quality.mos_min_at_ms),
        part.mos_max_at@ == call_offset(quality.mos_max_at_ms),
        part.mos_basis is Full <==> quality.rtt_ms is Some,
{
}

} // verus!
