//! What is reported to a collector about a call.
use crate::engine::call::{CallLeg, ClientId, CodecSpec};
use crate::engine::teardown::TextStreamStats;
use crate::ha::EndpointRole;
use crate::media_pipeline::call::{CallQuality, QualitySample};
use crate::media_pipeline::rtcp::{ReceptionBlock, RtcpReport};
use crate::net::{EndpointId, SocketAddress};
use crate::text::{optional_text, owned};
use vstd::prelude::*;
use vstd::slice::slice_to_vec;

verus! {

/// Whether an endpoint is on the answerer's side. One whose role is unknown counts as the offerer's.
pub open spec fn far_side(role: Option<EndpointRole>) -> bool {
    role == Some(EndpointRole::FarRtp) || role == Some(EndpointRole::FarRtcp)
}

/// Whether an endpoint is on the answerer's side.
fn is_far_side(role: Option<EndpointRole>) -> (far: bool)
    ensures
        far == far_side(role),
{
    match role {
        Some(EndpointRole::FarRtp) => true,
        Some(EndpointRole::FarRtcp) => true,
        _ => false,
    }
}

/// Who gets the quality events of an endpoint, and the tag they name: the owner of the call, and the
/// answerer's tag for its side, where it has one, and the offerer's otherwise.
pub fn owner_and_tag_for_endpoint(
    owner: ClientId,
    role: Option<EndpointRole>,
    from_tag: &String,
    to_tag: &Option<String>,
) -> (named: (ClientId, String))
    ensures
        named.0 == owner,
        named.1@ == leg_tag(role, from_tag@, optional_text(*to_tag)),
{
    if is_far_side(role) {
        if let Some(answerer) = to_tag {
            return (owner, answerer.clone());
        }
    }
    (owner, from_tag.clone())
}

/// The tag of the party whose side an endpoint is on.
pub open spec fn leg_tag(role: Option<EndpointRole>, from_tag: Seq<char>, to_tag: Option<Seq<char>>) -> Seq<char> {
    match to_tag {
        Some(answerer) if far_side(role) => answerer,
        _ => from_tag,
    }
}

/// The codec a quality report is about. Without a name it counts as G.711.
#[derive(Clone, Debug)]
pub struct QosCodec {
    pub name: Option<String>,
    pub clock_rate_hz: u32,
}

/// A quality report of an endpoint is about the codec of its side of the call.
pub open spec fn judged_by(
    codec: QosCodec,
    role: Option<EndpointRole>,
    near_codec: Option<CodecSpec>,
    far_codec: Option<CodecSpec>,
) -> bool {
    match (if far_side(role) {
        far_codec
    } else {
        near_codec
    }) {
        Some(spec) => {
            &&& optional_text(codec.name) == Some(spec.encoding_name@)
            &&& codec.clock_rate_hz == vstd::math::max(spec.clock_rate_hz as int, 1)
        },
        None => codec.name is None && codec.clock_rate_hz == 8000,
    }
}

/// The codec a quality report of an endpoint is about: that of its side of the call. One that is not
/// known yet counts as G.711 at 8 kHz.
pub fn qos_codec_for_endpoint(
    role: Option<EndpointRole>,
    near_codec: &Option<CodecSpec>,
    far_codec: &Option<CodecSpec>,
) -> (codec: QosCodec)
    ensures
        judged_by(codec, role, *near_codec, *far_codec),
{
    let spec = if is_far_side(role) {
        far_codec
    } else {
        near_codec
    };
    match spec {
        Some(codec) => QosCodec {
            name: Some(codec.encoding_name.clone()),
            clock_rate_hz: if codec.clock_rate_hz > 1 {
                codec.clock_rate_hz
            } else {
                1
            },
        },
        None => QosCodec { name: None, clock_rate_hz: 8000 },
    }
}

/// The reception blocks of one RTCP packet.
pub open spec fn blocks_of(report: RtcpReport) -> Seq<ReceptionBlock> {
    match report {
        RtcpReport::Sender { blocks, .. } => blocks@,
        RtcpReport::Receiver { blocks } => blocks@,
        RtcpReport::Other => Seq::empty(),
    }
}

/// The reception blocks of an RTCP compound, in order.
pub open spec fn compound_blocks(compound: Seq<RtcpReport>) -> Seq<ReceptionBlock>
    decreases compound.len(),
{
    if compound.len() == 0 {
        Seq::empty()
    } else {
        compound_blocks(compound.drop_last()) + blocks_of(compound.last())
    }
}

/// Append a list of blocks.
fn extend_blocks(all: &mut Vec<ReceptionBlock>, blocks: &Vec<ReceptionBlock>)
    ensures
        final(all)@ == old(all)@ + blocks@,
{
    let ghost before = all@;
    let mut i: usize = 0;
    while i < blocks.len()
        invariant
            i <= blocks@.len(),
            all@ =~= before + blocks@.take(i as int),
        decreases blocks@.len() - i,
    {
        all.push(blocks[i]);
        i = i + 1;
    }
    proof {
        assert(blocks@.take(i as int) =~= blocks@);
    }
}

/// The reception blocks of an RTCP compound. Each one makes a quality report.
pub fn for_each_reception_block(compound: &Vec<RtcpReport>) -> (blocks: Vec<ReceptionBlock>)
    ensures
        blocks@ == compound_blocks(compound@),
{
    let mut all: Vec<ReceptionBlock> = Vec::new();
    let mut i: usize = 0;
    while i < compound.len()
        invariant
            i <= compound@.len(),
            all@ == compound_blocks(compound@.take(i as int)),
        decreases compound@.len() - i,
    {
        let ghost before = all@;
        match &compound[i] {
            RtcpReport::Sender { blocks, .. } => extend_blocks(&mut all, blocks),
            RtcpReport::Receiver { blocks } => extend_blocks(&mut all, blocks),
            RtcpReport::Other => {},
        }
        proof {
            assert(compound@.take(i + 1).drop_last() =~= compound@.take(i as int));
            assert(all@ =~= before + blocks_of(compound@[i as int]));
        }
        i = i + 1;
    }
    proof {
        assert(compound@.take(i as int) =~= compound@);
    }
    all
}

/// An RTCP datagram seen on its way through a relay.
#[derive(Clone, Debug)]
pub struct ObservedRtcp {
    pub endpoint: EndpointId,
    pub source: SocketAddress,
    pub destination: SocketAddress,
    pub payload: Vec<u8>,
}

/// What a capture carries.
#[derive(Clone, Debug)]
pub enum CaptureBody<F> {
    /// The RTCP datagram as it is.
    Rtcp { payload: Vec<u8> },
    /// The quality of the stream with this SSRC.
    Quality { ssrc: u32, sample: QualitySample<F> },
}

/// A record for the collector.
#[derive(Clone, Debug)]
pub struct Capture<F> {
    pub src: SocketAddress,
    pub dst: SocketAddress,
    pub timestamp_secs: u32,
    pub timestamp_micros: u32,
    pub capture_agent_id: u32,
    pub correlation_id: String,
    pub body: CaptureBody<F>,
}

/// Who captures, and when.
#[derive(Clone, Copy, Debug, PartialEq, Eq, Structural)]
pub struct CaptureStamp {
    pub agent_id: u32,
    pub secs: u32,
    pub micros: u32,
}

/// A capture names the observed addresses, the call and the stamp.
pub open spec fn captures<F>(capture: Capture<F>, observed: ObservedRtcp, call_id: Seq<char>, stamp: CaptureStamp) -> bool {
    &&& capture.src == observed.source
    &&& capture.dst == observed.destination
    &&& capture.timestamp_secs == stamp.secs
    &&& capture.timestamp_micros == stamp.micros
    &&& capture.capture_agent_id == stamp.agent_id
    &&& capture.correlation_id@ == call_id
}

/// The capture of an RTCP datagram as it is.
pub fn rtcp_capture<F>(observed: &ObservedRtcp, call_id: &String, stamp: CaptureStamp) -> (capture: Capture<F>)
    ensures
        captures(capture, *observed, call_id@, stamp),
        capture.body is Rtcp,
        capture.body->payload@ == observed.payload@,
{
    Capture {
        src: observed.source,
        dst: observed.destination,
        timestamp_secs: stamp.secs,
        timestamp_micros: stamp.micros,
        capture_agent_id: stamp.agent_id,
        correlation_id: call_id.clone(),
        body: CaptureBody::Rtcp { payload: slice_to_vec(observed.payload.as_slice()) },
    }
}

/// The quality captures of an RTCP datagram: one per reception block. `readings` holds what each block
/// comes to.
pub fn qos_captures<F: Copy>(
    observed: &ObservedRtcp,
    call_id: &String,
    stamp: CaptureStamp,
    blocks: &Vec<ReceptionBlock>,
    readings: &Vec<QualitySample<F>>,
) -> (all: Vec<Capture<F>>)
    requires
        readings@.len() == blocks@.len(),
    ensures
        all@.len() == blocks@.len(),
        forall|i: int|
            0 <= i < all@.len() ==> captures(#[trigger] all@[i], *observed, call_id@, stamp) && all@[i].body
                == (CaptureBody::Quality { ssrc: blocks@[i].ssrc, sample: readings@[i] }),
{
    let mut all: Vec<Capture<F>> = Vec::new();
    let mut i: usize = 0;
    while i < blocks.len()
        invariant
            i <= blocks@.len(),
            readings@.len() == blocks@.len(),
            all@.len() == i,
            forall|j: int|
                0 <= j < i ==> captures(#[trigger] all@[j], *observed, call_id@, stamp) && all@[j].body
                    == (CaptureBody::Quality { ssrc: blocks@[j].ssrc, sample: readings@[j] }),
        decreases blocks@.len() - i,
    {
        all.push(
            Capture {
                src: observed.source,
                dst: observed.destination,
                timestamp_secs: stamp.secs,
                timestamp_micros: stamp.micros,
                capture_agent_id: stamp.agent_id,
                correlation_id: call_id.clone(),
                body: CaptureBody::Quality { ssrc: blocks[i].ssrc, sample: readings[i] },
            },
        );
        i = i + 1;
    }
    all
}

/// The quality events of an RTCP datagram: one per reading, for the party it went through.
pub fn qos_quality_events<F: Copy>(
    readings: &Vec<QualitySample<F>>,
    call_id: &String,
    from_tag: &String,
) -> (events: Vec<CallQuality<F>>)
    ensures
        events@.len() == readings@.len(),
        forall|i: int|
            0 <= i < events@.len() ==> (#[trigger] events@[i]).call_id@ == call_id@ && events@[i].from_tag@
                == from_tag@ && events@[i].sample == readings@[i],
{
    let mut events: Vec<CallQuality<F>> = Vec::new();
    let mut i: usize = 0;
    while i < readings.len()
        invariant
            i <= readings@.len(),
            events@.len() == i,
            forall|j: int|
                0 <= j < i ==> (#[trigger] events@[j]).call_id@ == call_id@ && events@[j].from_tag@ == from_tag@
                    && events@[j].sample == readings@[j],
        decreases readings@.len() - i,
    {
        events.push(CallQuality { call_id: call_id.clone(), from_tag: from_tag.clone(), sample: readings[i] });
        i = i + 1;
    }
    events
}

/// What the export knows of the call an RTCP datagram belongs to.
#[derive(Clone, Debug)]
pub struct ObservedCall {
    pub call_id: String,
    pub owner: ClientId,
    /// The tag of the party whose side the datagram was seen on.
    pub from_tag: String,
}

/// What an observed RTCP datagram gives rise to.
#[derive(Debug)]
pub struct RtcpExport<F> {
    /// For the collector, in order.
    pub captures: Vec<Capture<F>>,
    /// For the owner of the call.
    pub events: Vec<CallQuality<F>>,
}

/// Export an observed RTCP datagram: the datagram as it is, a quality capture per reception block, and
/// the same quality as events. One that belongs to no call is skipped.
pub fn run_rtcp_export<F: Copy>(
    observed: &ObservedRtcp,
    call: Option<&ObservedCall>,
    stamp: CaptureStamp,
    blocks: &Vec<ReceptionBlock>,
    readings: &Vec<QualitySample<F>>,
) -> (export: Option<RtcpExport<F>>)
    requires
        readings@.len() == blocks@.len(),
    ensures
        export is Some == call is Some,
        export matches Some(sent) ==> {
            let known = call->Some_0;
            &&& sent.captures@.len() == 1 + blocks@.len()
            &&& forall|i: int|
                0 <= i < sent.captures@.len() ==> captures(
                    #[trigger] sent.captures@[i],
                    *observed,
                    known.call_id@,
                    stamp,
                )
            &&& sent.captures@[0].body is Rtcp
            &&& sent.captures@[0].body->payload@ == observed.payload@
            &&& forall|i: int|
                0 < i < sent.captures@.len() ==> (#[trigger] sent.captures@[i]).body == (CaptureBody::Quality {
                    ssrc: blocks@[i - 1].ssrc,
                    sample: readings@[i - 1],
                })
            &&& sent.events@.len() == readings@.len()
            &&& forall|i: int|
                0 <= i < sent.events@.len() ==> (#[trigger] sent.events@[i]).call_id@ == known.call_id@
                    && sent.events@[i].from_tag@ == known.from_tag@ && sent.events@[i].sample == readings@[i]
        },
{
    match call {
        None => None,
        Some(known) => {
            let mut captures: Vec<Capture<F>> = vec![rtcp_capture(observed, &known.call_id, stamp)];
            let mut reports = qos_captures(observed, &known.call_id, stamp, blocks, readings);
            captures.append(&mut reports);
            let events = qos_quality_events(readings, &known.call_id, &known.from_tag);
            Some(RtcpExport { captures, events })
        },
    }
}

/// The addresses of a leg's text stream: from its party to the engine.
pub open spec fn text_addresses(leg: CallLeg) -> (SocketAddress, SocketAddress) {
    (
        if leg.text_remote_rtp is Some {
            leg.text_remote_rtp->Some_0
        } else if leg.remote_rtp is Some {
            leg.remote_rtp->Some_0
        } else {
            leg.rtp.local_addr
        },
        if leg.text is Some {
            leg.text->Some_0.local_addr
        } else {
            leg.rtp.local_addr
        },
    )
}

/// The addresses of a leg's text stream, with the audio addresses where the text ones are unknown.
pub fn text_stream_addresses(leg: &CallLeg) -> (addresses: (SocketAddress, SocketAddress))
    ensures
        addresses == text_addresses(*leg),
{
    let destination: SocketAddress = match leg.text {
        Some(endpoint) => endpoint.local_addr,
        None => leg.rtp.local_addr,
    };
    let source: SocketAddress = match leg.text_remote_rtp {
        Some(address) => address,
        None => match leg.remote_rtp {
            Some(address) => address,
            None => leg.rtp.local_addr,
        },
    };
    (source, destination)
}

/// The direction of a text report.
#[derive(Clone, Copy, Debug, PartialEq, Eq, Structural)]
pub enum TextDirection {
    AToB,
    BToA,
}

impl TextDirection {
    /// The name of the direction in a report.
    pub fn text(self) -> (text: String)
        ensures
            text@ == (match self {
                TextDirection::AToB => "a_to_b"@,
                TextDirection::BToA => "b_to_a"@,
            }),
    {
        match self {
            TextDirection::AToB => owned("a_to_b"),
            TextDirection::BToA => owned("b_to_a"),
        }
    }
}

/// A text report to export.
#[derive(Debug)]
pub struct TextQosReport {
    pub source: SocketAddress,
    pub destination: SocketAddress,
    pub tag: String,
    pub direction: TextDirection,
    pub stats: TextStreamStats,
}

/// The content of a [`TextQosReport`].
pub struct TextQosReportView {
    pub source: SocketAddress,
    pub destination: SocketAddress,
    pub tag: Seq<char>,
    pub direction: TextDirection,
    pub stats: TextStreamStats,
}

impl View for TextQosReport {
    type V = TextQosReportView;

    open spec fn view(&self) -> TextQosReportView {
        TextQosReportView {
            source: self.source,
            destination: self.destination,
            tag: self.tag@,
            direction: self.direction,
            stats: self.stats,
        }
    }
}

/// The report of one leg, where both the leg and its counters are there.
pub open spec fn text_report(
    leg: Option<CallLeg>,
    stats: Option<TextStreamStats>,
    tag: Seq<char>,
    direction: TextDirection,
) -> Seq<TextQosReportView> {
    match (leg, stats) {
        (Some(side), Some(counters)) => seq![
            TextQosReportView {
                source: text_addresses(side).0,
                destination: text_addresses(side).1,
                tag,
                direction,
                stats: counters,
            },
        ],
        _ => Seq::empty(),
    }
}

/// The contents of a list of text reports.
pub open spec fn text_report_views(reports: Seq<TextQosReport>) -> Seq<TextQosReportView> {
    Seq::new(reports.len(), |i: int| reports[i]@)
}

/// The text reports of a finished call: one per leg whose text stream was measured.
pub fn export_text_qos(
    near: &CallLeg,
    far: &Option<CallLeg>,
    from_tag: &String,
    to_tag: &Option<String>,
    near_text: Option<TextStreamStats>,
    far_text: Option<TextStreamStats>,
) -> (reports: Vec<TextQosReport>)
    ensures
        text_report_views(reports@) == text_report(Some(*near), near_text, from_tag@, TextDirection::AToB)
            + text_report(
            *far,
            far_text,
            match optional_text(*to_tag) {
                Some(answerer) => answerer,
                None => "-"@,
            },
            TextDirection::BToA,
        ),
{
    let mut reports: Vec<TextQosReport> = Vec::new();
    if let Some(stats) = near_text {
        let (source, destination) = text_stream_addresses(near);
        reports.push(
            TextQosReport { source, destination, tag: from_tag.clone(), direction: TextDirection::AToB, stats },
        );
    }
    if let Some(stats) = far_text {
        if let Some(side) = far {
            let (source, destination) = text_stream_addresses(side);
            let tag = match to_tag {
                Some(answerer) => answerer.clone(),
                None => owned("-"),
            };
            reports.push(TextQosReport { source, destination, tag, direction: TextDirection::BToA, stats });
        }
    }
    proof {
        assert(text_report_views(reports@) =~= text_report(Some(*near), near_text, from_tag@, TextDirection::AToB)
            + text_report(
            *far,
            far_text,
            match optional_text(*to_tag) {
                Some(answerer) => answerer,
                None => "-"@,
            },
            TextDirection::BToA,
        ));
    }
    reports
}

/// A party is known by their own tag: the answerer's for the answerer's endpoints, audio and reports alike,
/// and the offerer's for all others. An answerer without a tag goes by the offerer's.
pub proof fn law_endpoints_go_by_their_party(role: EndpointRole, from_tag: Seq<char>, to_tag: Seq<char>)
    ensures
        role == EndpointRole::FarRtp || role == EndpointRole::FarRtcp ==> leg_tag(Some(role), from_tag, Some(to_tag))
            == to_tag,
        role == EndpointRole::NearRtp || role == EndpointRole::NearRtcp ==> leg_tag(
            Some(role),
            from_tag,
            Some(to_tag),
        ) == from_tag,
        leg_tag(Some(role), from_tag, None) == from_tag,
        leg_tag(None, from_tag, Some(to_tag)) == from_tag,
{
}

/// The quality of an endpoint's stream is judged by the codec of its own side, by name and clock, at one
/// tick a second at least; a side without a codec counts as G.711.
pub proof fn law_quality_is_judged_by_the_own_codec(
    codec: QosCodec,
    role: EndpointRole,
    near_codec: Option<CodecSpec>,
    far_codec: Option<CodecSpec>,
)
    requires
        judged_by(codec, Some(role), near_codec, far_codec),
    ensures
        ({
            let own = if role == EndpointRole::FarRtp || role == EndpointRole::FarRtcp {
                far_codec
            } else {
                near_codec
            };
            &&& own matches Some(spec) ==> {
                &&& codec.name is Some
                &&& codec.name->Some_0@ == spec.encoding_name@
                &&& spec.clock_rate_hz >= 1 ==> codec.clock_rate_hz == spec.clock_rate_hz
                &&& spec.clock_rate_hz == 0 ==> codec.clock_rate_hz == 1
            }
            &&& own is None ==> codec.name is None && codec.clock_rate_hz == 8000
        }),
{
}

/// The reception blocks of two compounds, one after the other, are those of the first and then those of the
/// second.
pub proof fn law_reception_blocks_add_up(first: Seq<RtcpReport>, second: Seq<RtcpReport>)
    ensures
        compound_blocks(first + second) == compound_blocks(first) + compound_blocks(second),
    decreases second.len(),
{
    if second.len() == 0 {
        assert(first + second =~= first);
        assert(compound_blocks(first) + compound_blocks(second) =~= compound_blocks(first));
    } else {
        law_reception_blocks_add_up(first, second.drop_last());
        assert((first + second).drop_last() =~= first + second.drop_last());
        assert(compound_blocks(first + second) =~= compound_blocks(first) + compound_blocks(second));
    }
}

/// A report of a sender or of a receiver brings all of its blocks, and any other packet brings none.
pub proof fn law_reports_bring_their_blocks(report: RtcpReport)
    ensures
        match report {
            RtcpReport::Sender { blocks, .. } => compound_blocks(seq![report]) == blocks@,
            RtcpReport::Receiver { blocks } => compound_blocks(seq![report]) == blocks@,
            RtcpReport::Other => compound_blocks(seq![report]).len() == 0,
        },
{
    let one = seq![report];
    assert(one.drop_last() =~= Seq::empty());
    assert(compound_blocks(one.drop_last()) =~= Seq::empty());
    assert(compound_blocks(one) =~= blocks_of(report));
}

/// A capture is from where the datagram came to where it went, under the call's own identifier and the time
/// and the agent of the stamp.
pub proof fn law_captures_keep_their_direction<F>(
    capture: Capture<F>,
    observed: ObservedRtcp,
    call_id: Seq<char>,
    stamp: CaptureStamp,
)
    requires
        captures(capture, observed, call_id, stamp),
    ensures
        capture.src == observed.source,
        capture.dst == observed.destination,
        capture.timestamp_secs == stamp.secs,
        capture.timestamp_micros == stamp.micros,
        capture.capture_agent_id == stamp.agent_id,
        capture.correlation_id@ == call_id,
{
}

/// A text stream runs from its party to the engine: from the party's text address, or else the audio
/// address, or else the engine's own; to the text endpoint, or else the audio one.
pub proof fn law_text_runs_from_its_party(leg: CallLeg)
    ensures
        leg.text_remote_rtp matches Some(address) ==> text_addresses(leg).0 == address,
        leg.text_remote_rtp is None && leg.remote_rtp is Some ==> text_addresses(leg).0 == leg.remote_rtp->Some_0,
        leg.text_remote_rtp is None && leg.remote_rtp is None ==> text_addresses(leg).0 == leg.rtp.local_addr,
        leg.text matches Some(endpoint) ==> text_addresses(leg).1 == endpoint.local_addr,
        leg.text is None ==> text_addresses(leg).1 == leg.rtp.local_addr,
{
}

/// A leg has one text report where its text was measured, with the measured counters, and none where it was
/// not or the leg is not there.
pub proof fn law_measured_text_is_reported(
    leg: CallLeg,
    stats: TextStreamStats,
    tag: Seq<char>,
    direction: TextDirection,
)
    ensures
        text_report(Some(leg), None, tag, direction).len() == 0,
        text_report(None, Some(stats), tag, direction).len() == 0,
        ({
            let reports = text_report(Some(leg), Some(stats), tag, direction);
            &&& reports.len() == 1
            &&& reports[0].stats == stats
            &&& reports[0].tag == tag
            &&& reports[0].direction == direction
            &&& leg.text_remote_rtp matches Some(address) ==> reports[0].source == address
            &&& leg.text matches Some(endpoint) ==> reports[0].destination == endpoint.local_addr
        }),
{
}

} // verus!
