//! The negotiated state of a call that decisions about it read.
use crate::net::{EndpointId, IpAddress, SocketAddress, SourceFilter};
use crate::text::owned;
use vstd::prelude::*;

verus! {

/// A control client.
#[derive(Clone, Copy, Debug, PartialEq, Eq, Structural)]
pub struct ClientId(pub u64);

/// How a call's media is carried.
#[derive(Clone, Copy, Debug, PartialEq, Eq, Structural)]
pub enum PipelineKind {
    /// Relayed by the datapath.
    Passthrough,
    /// Bridged between SRTP and RTP.
    Srtp,
    /// Transcoded or recorded.
    Media,
    /// Secure and transcoded.
    SrtpMedia,
    /// Bridged to a WebSocket server.
    Ws,
    /// Bridged between DTLS-SRTP and RTP.
    Dtls,
    /// DTLS-SRTP and transcoded.
    DtlsMedia,
}

impl PipelineKind {
    /// Whether the pipeline relays ciphertext without decoding it.
    pub open spec fn crypto_bridge(self) -> bool {
        self is Srtp || self is Dtls
    }

    /// Whether the pipeline relays ciphertext without decoding it.
    pub fn is_crypto_bridge(self) -> (bridge: bool)
        ensures
            bridge == self.crypto_bridge(),
    {
        match self {
            PipelineKind::Srtp => true,
            PipelineKind::Dtls => true,
            _ => false,
        }
    }

    /// The name of the kind.
    pub open spec fn label(self) -> Seq<char> {
        match self {
            PipelineKind::Passthrough => "Passthrough"@,
            PipelineKind::Srtp => "Srtp"@,
            PipelineKind::Media => "Media"@,
            PipelineKind::SrtpMedia => "SrtpMedia"@,
            PipelineKind::Ws => "Ws"@,
            PipelineKind::Dtls => "Dtls"@,
            PipelineKind::DtlsMedia => "DtlsMedia"@,
        }
    }

    /// The name of the kind.
    pub fn name(self) -> (name: String)
        ensures
            name@ == self.label(),
    {
        match self {
            PipelineKind::Passthrough => owned("Passthrough"),
            PipelineKind::Srtp => owned("Srtp"),
            PipelineKind::Media => owned("Media"),
            PipelineKind::SrtpMedia => owned("SrtpMedia"),
            PipelineKind::Ws => owned("Ws"),
            PipelineKind::Dtls => owned("Dtls"),
            PipelineKind::DtlsMedia => owned("DtlsMedia"),
        }
    }
}

/// A negotiated codec.
#[derive(Clone, Debug)]
pub struct CodecSpec {
    pub payload_type: u8,
    pub encoding_name: String,
    pub clock_rate_hz: u32,
    pub channels: u8,
    pub ptime_ms: u8,
}

/// The content of a [`CodecSpec`].
pub struct CodecSpecView {
    pub payload_type: u8,
    pub encoding_name: Seq<char>,
    pub clock_rate_hz: u32,
    pub channels: u8,
    pub ptime_ms: u8,
}

impl View for CodecSpec {
    type V = CodecSpecView;

    open spec fn view(&self) -> CodecSpecView {
        CodecSpecView {
            payload_type: self.payload_type,
            encoding_name: self.encoding_name@,
            clock_rate_hz: self.clock_rate_hz,
            channels: self.channels,
            ptime_ms: self.ptime_ms,
        }
    }
}

impl CodecSpec {
    /// A copy of the codec.
    pub fn copied(&self) -> (codec: CodecSpec)
        ensures
            codec@ == self@,
    {
        CodecSpec {
            payload_type: self.payload_type,
            encoding_name: self.encoding_name.clone(),
            clock_rate_hz: self.clock_rate_hz,
            channels: self.channels,
            ptime_ms: self.ptime_ms,
        }
    }

    /// The packet time, at least one millisecond.
    pub open spec fn packet_ms(self) -> u8 {
        if self.ptime_ms > 1 {
            self.ptime_ms
        } else {
            1
        }
    }

    /// The packet time, at least one millisecond.
    pub fn packet_time_ms(&self) -> (ptime: u8)
        ensures
            ptime == self.packet_ms(),
            ptime >= 1,
    {
        if self.ptime_ms > 1 {
            self.ptime_ms
        } else {
            1
        }
    }
}

/// When a relay follows the source of what it receives.
#[derive(Clone, Copy, Debug, PartialEq, Eq, Structural)]
pub enum LatchPolicy {
    Off,
    SignalledOnly,
    Symmetric,
}

/// A relay rule of the datapath.
#[derive(Clone, Copy, Debug, PartialEq, Eq, Structural)]
pub struct ForwardRule {
    /// The endpoint datagrams leave from.
    pub out: EndpointId,
    /// Where they go.
    pub out_dst: Option<SocketAddress>,
    /// The filter on their source.
    pub accepted_source: SourceFilter,
    pub latch: LatchPolicy,
}

/// What the datapath does with the datagrams of an endpoint.
#[derive(Clone, Copy, Debug, PartialEq, Eq, Structural)]
pub enum FlowAction {
    /// Relay them.
    Forward(ForwardRule),
    /// Hand them to userspace.
    Redirect,
    /// Drop them.
    Drop,
}

/// An allocated endpoint and the address it is bound to.
#[derive(Clone, Copy, Debug, PartialEq, Eq, Structural)]
pub struct CallEndpoint {
    pub id: EndpointId,
    pub local_addr: SocketAddress,
}

/// One side of a call.
#[derive(Clone, Copy, Debug, PartialEq, Eq, Structural)]
pub struct CallLeg {
    pub rtp: CallEndpoint,
    /// Absent where RTCP shares the RTP port.
    pub rtcp: Option<CallEndpoint>,
    /// The real-time text stream.
    pub text: Option<CallEndpoint>,
    /// The party's signalled address.
    pub remote_rtp: Option<SocketAddress>,
    pub text_remote_rtp: Option<SocketAddress>,
    /// The address the party was told to send to.
    pub advertised_ip: IpAddress,
}

/// What a command is answered with.
#[derive(Clone, Debug)]
pub enum CommandOutcome {
    Done,
    /// No such call, or not this client's: the two are not told apart.
    UnknownCall,
    /// The command failed.
    Error { context: String, reason: String },
}

/// What a command on a call is answered with: a client learns nothing of a call that is not its own.
pub open spec fn answers(outcome: CommandOutcome, owned_call: bool, context: Seq<char>, result: Result<(), String>) -> bool {
    if !owned_call {
        outcome is UnknownCall
    } else {
        match result {
            Ok(_) => outcome is Done,
            Err(error) => {
                &&& outcome is Error
                &&& outcome->context@ == context
                &&& outcome->reason == error
            },
        }
    }
}

/// Answer a command on a call, given whether the client owns the call and what the command came to.
pub fn answer(owned_call: bool, context: &str, result: Result<(), String>) -> (outcome: CommandOutcome)
    ensures
        answers(outcome, owned_call, context@, result),
{
    if !owned_call {
        return CommandOutcome::UnknownCall;
    }
    match result {
        Ok(_) => CommandOutcome::Done,
        Err(reason) => CommandOutcome::Error { context: owned(context), reason },
    }
}

/// The datapath's flow table after installing `flows` in order: a later rule on an endpoint replaces
/// an earlier one.
pub open spec fn installed(table: Map<EndpointId, FlowAction>, flows: Seq<(EndpointId, FlowAction)>) -> Map<
    EndpointId,
    FlowAction,
>
    decreases flows.len(),
{
    if flows.len() == 0 {
        table
    } else {
        installed(table, flows.drop_last()).insert(flows.last().0, flows.last().1)
    }
}

/// Whether a list of flows names an endpoint.
pub open spec fn names(flows: Seq<(EndpointId, FlowAction)>, endpoint: EndpointId) -> bool {
    exists|i: int| 0 <= i < flows.len() && (#[trigger] flows[i]).0 == endpoint
}

/// Installing flows touches exactly the endpoints they name.
pub proof fn lemma_installed(table: Map<EndpointId, FlowAction>, flows: Seq<(EndpointId, FlowAction)>)
    ensures
        forall|endpoint: EndpointId|
            !names(flows, endpoint) ==> (#[trigger] installed(table, flows).dom().contains(endpoint)
                == table.dom().contains(endpoint)) && (table.dom().contains(endpoint) ==> installed(table, flows)[endpoint]
                == table[endpoint]),
        forall|endpoint: EndpointId|
            names(flows, endpoint) ==> #[trigger] installed(table, flows).dom().contains(endpoint) && exists|i: int|
                0 <= i < flows.len() && (#[trigger] flows[i]) == (endpoint, installed(table, flows)[endpoint]),
    decreases flows.len(),
{
    if flows.len() > 0 {
        let prior = flows.drop_last();
        lemma_installed(table, prior);
        assert forall|endpoint: EndpointId| names(flows, endpoint) == (names(prior, endpoint) || flows.last().0
            == endpoint) by {
            if names(flows, endpoint) {
                let i = choose|i: int| 0 <= i < flows.len() && (#[trigger] flows[i]).0 == endpoint;
                if i < prior.len() {
                    assert(prior[i].0 == endpoint);
                }
            }
            if names(prior, endpoint) {
                let i = choose|i: int| 0 <= i < prior.len() && (#[trigger] prior[i]).0 == endpoint;
                assert(flows[i].0 == endpoint);
            }
            if flows.last().0 == endpoint {
                assert(flows[flows.len() - 1].0 == endpoint);
            }
        }
        assert forall|endpoint: EndpointId| !names(flows, endpoint) implies (#[trigger] installed(
            table,
            flows,
        ).dom().contains(endpoint) == table.dom().contains(endpoint)) && (table.dom().contains(endpoint) ==> installed(
            table,
            flows,
        )[endpoint] == table[endpoint]) by {
            assert(!names(prior, endpoint) && flows.last().0 != endpoint);
            assert(installed(table, flows).dom().contains(endpoint) == installed(table, prior).dom().contains(endpoint));
        }
        assert forall|endpoint: EndpointId| names(flows, endpoint) implies #[trigger] installed(table, flows).dom().contains(
            endpoint,
        ) && exists|i: int|
            0 <= i < flows.len() && (#[trigger] flows[i]) == (endpoint, installed(table, flows)[endpoint]) by {
            if flows.last().0 == endpoint {
                assert(flows[flows.len() - 1] == (endpoint, installed(table, flows)[endpoint]));
            } else {
                assert(names(prior, endpoint));
                assert(installed(table, prior).dom().contains(endpoint));
                let i = choose|i: int|
                    0 <= i < prior.len() && (#[trigger] prior[i]) == (endpoint, installed(table, prior)[endpoint]);
                assert(flows[i] == (endpoint, installed(table, flows)[endpoint]));
            }
        }
    }
}

/// Installing some flows and then others is installing all of them.
pub proof fn law_installing_goes_on(
    table: Map<EndpointId, FlowAction>,
    first: Seq<(EndpointId, FlowAction)>,
    second: Seq<(EndpointId, FlowAction)>,
)
    ensures
        installed(table, first + second) == installed(installed(table, first), second),
    decreases second.len(),
{
    if second.len() == 0 {
        assert(first + second =~= first);
    } else {
        law_installing_goes_on(table, first, second.drop_last());
        assert((first + second).drop_last() =~= first + second.drop_last());
    }
}

/// The rule on an endpoint is the last that was installed there, and the other endpoints keep theirs.
pub proof fn law_last_rule_counts(
    table: Map<EndpointId, FlowAction>,
    flows: Seq<(EndpointId, FlowAction)>,
    endpoint: EndpointId,
    action: FlowAction,
    other: EndpointId,
)
    requires
        other != endpoint,
    ensures
        ({
            let before = installed(table, flows);
            let after = installed(table, flows.push((endpoint, action)));
            &&& after.dom().contains(endpoint)
            &&& after[endpoint] == action
            &&& after.dom().contains(other) == before.dom().contains(other)
            &&& before.dom().contains(other) ==> after[other] == before[other]
        }),
{
    assert(flows.push((endpoint, action)).drop_last() =~= flows);
}

/// A call relays ciphertext exactly where it is secure and not transcoded.
pub proof fn law_what_relays_ciphertext(kind: PipelineKind)
    ensures
        kind.crypto_bridge() <==> kind == PipelineKind::Srtp || kind == PipelineKind::Dtls,
{
}

/// A packet lasts as long as its codec says, and a millisecond where that is nothing.
pub proof fn law_packet_time_is_the_codecs(codec: CodecSpec)
    ensures
        codec.ptime_ms >= 1 ==> codec.packet_ms() == codec.ptime_ms,
        codec.ptime_ms == 0 ==> codec.packet_ms() == 1,
{
}

/// A client learns nothing of a call that is not theirs, and of their own learns what the command came to.
pub proof fn law_answers_tell_the_owner_alone(
    outcome: CommandOutcome,
    owned_call: bool,
    context: Seq<char>,
    result: Result<(), String>,
)
    requires
        answers(outcome, owned_call, context, result),
    ensures
        outcome is UnknownCall <==> !owned_call,
        outcome is Done <==> owned_call && result is Ok,
        outcome is Error <==> owned_call && result is Err,
        outcome is Error ==> outcome->context@ == context && result == Result::<(), String>::Err(outcome->reason),
{
}

/// No two kinds of pipeline go by the same name, and each name says what is in it: the secure ones begin with how
/// they are secured, and the transcoding ones end in what they do.
pub proof fn law_pipelines_are_told_apart(first: PipelineKind, second: PipelineKind)
    ensures
        first.label() == second.label() ==> first == second,
        first is SrtpMedia ==> first.label() == PipelineKind::Srtp.label() + PipelineKind::Media.label(),
        first is DtlsMedia ==> first.label() == PipelineKind::Dtls.label() + PipelineKind::Media.label(),
        PipelineKind::Srtp.label() == seq!['S', 'r', 't', 'p'],
        PipelineKind::Dtls.label() == seq!['D', 't', 'l', 's'],
        PipelineKind::Media.label() == seq!['M', 'e', 'd', 'i', 'a'],
        PipelineKind::Ws.label() == seq!['W', 's'],
{
    reveal_strlit("Passthrough");
    reveal_strlit("Srtp");
    reveal_strlit("Media");
    reveal_strlit("SrtpMedia");
    reveal_strlit("Ws");
    reveal_strlit("Dtls");
    reveal_strlit("DtlsMedia");
    assert("Srtp"@ =~= seq!['S', 'r', 't', 'p']);
    assert("Dtls"@ =~= seq!['D', 't', 'l', 's']);
    assert("Media"@ =~= seq!['M', 'e', 'd', 'i', 'a']);
    assert("Ws"@ =~= seq!['W', 's']);
    assert("SrtpMedia"@ =~= "Srtp"@ + "Media"@);
    assert("DtlsMedia"@ =~= "Dtls"@ + "Media"@);
    assert("Srtp"@[0] == 'S' && "Dtls"@[0] == 'D' && "SrtpMedia"@[0] == 'S' && "DtlsMedia"@[0] == 'D');
    assert("Passthrough"@.len() == 11);
}

} // verus!
