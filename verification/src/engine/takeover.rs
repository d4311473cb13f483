//! WebSocket takeovers: a WebSocket server becomes the far side of a call's first leg.
use crate::engine::call::{
    answer, answers, installed, lemma_installed, names, ClientId, CodecSpec, CommandOutcome,
    FlowAction, PipelineKind,
};
use crate::event::{Event, EventView, WsEndReason};
use crate::net::{EndpointId, IpAddress, SocketAddress, SourceFilter};
use crate::text::{decimal, decimal_text, joined, owned};
use vstd::prelude::*;

verus! {

/// Default energy threshold of the speech detector.
pub const DEFAULT_WS_VAD_THRESHOLD: i64 = 1_000_000;

/// Default trailing hangover of the speech detector, in milliseconds.
pub const DEFAULT_WS_VAD_HANGOVER_MS: u32 = 200;

/// Which speech detector to run.
#[derive(Clone, Copy, Debug, PartialEq, Eq, Structural)]
pub enum WsVadEngine {
    /// An energy gate.
    Energy,
    /// A neural network.
    Neural,
}

/// The speech-detection wishes of a profile.
#[derive(Clone, Copy, Debug, PartialEq, Eq, Structural)]
pub struct VadProfile {
    pub ws_vad: bool,
    pub ws_barge_in: bool,
    pub ws_vad_engine: Option<WsVadEngine>,
    pub ws_vad_threshold: Option<i64>,
    pub ws_vad_hangover_ms: Option<u32>,
    pub ws_vad_min_speech_ms: Option<u32>,
}

/// Turn-taking on a takeover leg.
#[derive(Clone, Copy, Debug, PartialEq, Eq, Structural)]
pub struct WsVadConfig {
    pub engine: WsVadEngine,
    /// Energy at which a frame is speech.
    pub threshold: i64,
    /// How long speech is held after its last frame.
    pub hangover_ms: u32,
    /// How long speech must last before it counts.
    pub minimum_speech_ms: u32,
    /// Whether speech cuts the playout off.
    pub barge_in: bool,
}

/// The detector to build.
#[derive(Clone, Copy, Debug, PartialEq, Eq, Structural)]
pub enum DetectorPlan {
    Energy { threshold: i64, hangover_frames: u32 },
    Neural { pcm_rate_hz: u32 },
}

/// A duration in whole frames, rounded down, at least one.
pub open spec fn frames_down(duration_ms: u32, ptime_ms: u8) -> int {
    let frame = vstd::math::max(ptime_ms as int, 1);
    vstd::math::max(duration_ms as int / frame, 1)
}

/// A duration in whole frames, rounded up, at least one.
pub open spec fn frames_up(duration_ms: u32, ptime_ms: u8) -> int {
    let frame = vstd::math::max(ptime_ms as int, 1);
    vstd::math::max((duration_ms as int + frame - 1) / frame, 1)
}

/// The turn-taking a profile asks for: none where it asks for neither detection nor barge-in.
pub open spec fn turn_taking(profile: VadProfile) -> Option<WsVadConfig> {
    if profile.ws_vad || profile.ws_barge_in {
        Some(
            WsVadConfig {
                engine: match profile.ws_vad_engine {
                    Some(engine) => engine,
                    None => WsVadEngine::Energy,
                },
                threshold: match profile.ws_vad_threshold {
                    Some(threshold) => threshold,
                    None => DEFAULT_WS_VAD_THRESHOLD,
                },
                hangover_ms: match profile.ws_vad_hangover_ms {
                    Some(hangover) => hangover,
                    None => DEFAULT_WS_VAD_HANGOVER_MS,
                },
                minimum_speech_ms: match profile.ws_vad_min_speech_ms {
                    Some(minimum) => minimum,
                    None => 0,
                },
                barge_in: profile.ws_barge_in,
            },
        )
    } else {
        None
    }
}

impl WsVadConfig {
    /// The turn-taking a profile asks for: none where it asks for neither detection nor barge-in.
    pub fn from_profile(profile: &VadProfile) -> (config: Option<Self>)
        ensures
            config == turn_taking(*profile),
    {
        if !profile.ws_vad && !profile.ws_barge_in {
            return None;
        }
        Some(
            WsVadConfig {
                engine: profile.ws_vad_engine.unwrap_or(WsVadEngine::Energy),
                threshold: profile.ws_vad_threshold.unwrap_or(DEFAULT_WS_VAD_THRESHOLD),
                hangover_ms: profile.ws_vad_hangover_ms.unwrap_or(DEFAULT_WS_VAD_HANGOVER_MS),
                minimum_speech_ms: profile.ws_vad_min_speech_ms.unwrap_or(0),
                barge_in: profile.ws_barge_in,
            },
        )
    }

    /// The trailing hangover in frames.
    pub fn hangover_frames(&self, ptime_ms: u8) -> (frames: u32)
        ensures
            frames == frames_down(self.hangover_ms, ptime_ms),
    {
        let frame: u32 = if ptime_ms > 1 {
            ptime_ms as u32
        } else {
            1
        };
        let frames: u32 = self.hangover_ms / frame;
        if frames > 1 {
            frames
        } else {
            1
        }
    }

    /// The leading run of speech in frames.
    pub fn minimum_speech_frames(&self, ptime_ms: u8) -> (frames: u32)
        ensures
            frames == frames_up(self.minimum_speech_ms, ptime_ms),
    {
        let frame: u64 = if ptime_ms > 1 {
            ptime_ms as u64
        } else {
            1
        };
        let total: u64 = self.minimum_speech_ms as u64 + frame - 1;
        let frames: u64 = total / frame;
        proof {
            assert(frames <= u32::MAX) by (nonlinear_arith)
                requires
                    frames == total / frame,
                    frame >= 1,
                    total <= 0xffff_ffff + frame - 1,
            ;
        }
        if frames > 1 {
            frames as u32
        } else {
            1
        }
    }

    /// The detector this configuration selects. A neural one that cannot be built is a failure: the
    /// energy gate never stands in for it.
    pub fn build_detector(&self, pcm_rate_hz: u32, ptime_ms: u8) -> (plan: DetectorPlan)
        ensures
            plan == (match self.engine {
                WsVadEngine::Energy => DetectorPlan::Energy {
                    threshold: self.threshold,
                    hangover_frames: frames_down(self.hangover_ms, ptime_ms) as u32,
                },
                WsVadEngine::Neural => DetectorPlan::Neural { pcm_rate_hz },
            }),
    {
        match self.engine {
            WsVadEngine::Energy => DetectorPlan::Energy {
                threshold: self.threshold,
                hangover_frames: self.hangover_frames(ptime_ms),
            },
            WsVadEngine::Neural => DetectorPlan::Neural { pcm_rate_hz },
        }
    }
}

/// Echo cancellation on the uplink.
#[derive(Clone, Copy, Debug, PartialEq, Eq, Structural)]
pub struct EchoProfile {
    pub enabled: bool,
}

/// The relay a takeover displaces, and how to put it back.
#[derive(Clone, Debug)]
pub struct WsRelayTakeover {
    /// Installed with the takeover.
    pub displace: Vec<(EndpointId, FlowAction)>,
    /// Reinstalled on detach.
    pub restore: Vec<(EndpointId, FlowAction)>,
    /// The pipeline the call goes back to.
    pub restore_pipeline: PipelineKind,
}

/// Everything a takeover bridge is set up from.
#[derive(Clone, Debug)]
pub struct WsBridgeSetup {
    pub call_id: String,
    pub ws_uri: String,
    /// The leg's endpoint: redirected to the bridge.
    pub endpoint_a: EndpointId,
    /// Where the downlink goes at first.
    pub a_rtp: SocketAddress,
    pub codec: Option<CodecSpec>,
    pub accepted_source: SourceFilter,
    /// No media passes until ICE has selected a pair.
    pub ice_pending: bool,
    pub secure: bool,
    /// The wire rate asked for. The leg's own rate without one.
    pub wire_sample_rate: Option<u32>,
    pub noise_suppression: bool,
    pub echo: EchoProfile,
    pub vad_config: Option<WsVadConfig>,
    /// Keep the downlink destination of the bridge this one replaces.
    pub reuse_egress: bool,
    pub takeover: Option<WsRelayTakeover>,
    /// The server has already been dialled.
    pub dialled: bool,
}

/// Why a bridge was not set up.
#[derive(Clone, Debug)]
pub enum SetupRefusal {
    /// The call is gone.
    CallGone,
    /// The leg has no codec.
    NoCodec,
    /// A codec, rate converter or detector could not be built, or the rate is not served.
    Unserviceable { error: String },
    /// The server could not be reached.
    Dial { error: String },
    /// A flow of the displaced relay could not be switched off.
    Displace { error: String },
    /// The leg could not be redirected.
    Redirect { error: String },
}

impl SetupRefusal {
    /// The message for the controller.
    pub open spec fn text(self, ws_uri: Seq<char>) -> Seq<char> {
        match self {
            SetupRefusal::CallGone => "call no longer exists"@,
            SetupRefusal::NoCodec => "offer carried no usable audio codec for the WS bridge"@,
            SetupRefusal::Unserviceable { error } => error@,
            SetupRefusal::Dial { error } => "dial "@ + ws_uri + ": "@ + error@,
            SetupRefusal::Displace { error } => "displace relay flow for WS takeover: "@ + error@,
            SetupRefusal::Redirect { error } => "install WS bridge redirect: "@ + error@,
        }
    }

    /// The message for the controller.
    pub fn message(&self, ws_uri: &String) -> (message: String)
        ensures
            message@ == self.text(ws_uri@),
    {
        match self {
            SetupRefusal::CallGone => owned("call no longer exists"),
            SetupRefusal::NoCodec => owned("offer carried no usable audio codec for the WS bridge"),
            SetupRefusal::Unserviceable { error } => error.clone(),
            SetupRefusal::Dial { error } => {
                let mut message = joined("dial ", ws_uri.as_str());
                message.push_str(": ");
                message.push_str(error.as_str());
                message
            },
            SetupRefusal::Displace { error } => joined("displace relay flow for WS takeover: ", error.as_str()),
            SetupRefusal::Redirect { error } => joined("install WS bridge redirect: ", error.as_str()),
        }
    }
}

/// The next piece of work of a bridge setup.
#[derive(Clone, Copy, Debug, PartialEq, Eq, Structural)]
pub enum SetupStep {
    /// Build the leg's decoder and encoder.
    BuildCodecs,
    /// Check that this wire rate is served.
    ValidateRate { requested: u32 },
    /// Build the converters between the leg's rate and the wire rate, both ways.
    BuildResamplers { leg_rate: u32, wire_rate: u32 },
    /// Build the speech detector.
    BuildDetector { plan: DetectorPlan },
    /// Dial the server.
    Dial,
    /// Install a flow.
    Install { endpoint: EndpointId, action: FlowAction },
    /// Put a flow of the displaced relay back. A failure is not followed up.
    Restore { endpoint: EndpointId, action: FlowAction },
    /// Announce the bridge, start it, and register it.
    Start,
    /// The setup failed.
    Refused,
}

/// A bridge setup under way.
#[derive(Debug)]
pub struct BridgeSetup {
    pub request: WsBridgeSetup,
    pub codec: CodecSpec,
    pub from_tag: String,
    pub owner: ClientId,
    /// The rate of the leg's audio.
    pub leg_rate: u32,
    /// The rate of the audio on the wire.
    pub wire_rate: u32,
    /// How many flows have been installed, or put back after a failure.
    pub position: usize,
    /// Why the setup failed.
    pub failure: Option<SetupRefusal>,
}

/// The format of linear audio on a WebSocket.
#[derive(Clone, Copy, Debug, PartialEq, Eq, Structural)]
pub struct WsMediaFormat {
    pub sample_rate: u32,
    pub channels: u8,
    pub bit_depth: u8,
    pub ptime: u8,
}

/// A live takeover bridge.
#[derive(Clone, Debug)]
pub struct WsBridge {
    pub from_tag: String,
    pub owner: ClientId,
    pub stream_id: String,
    pub ws_uri: String,
    /// Whether its end has been reported.
    pub ended: bool,
    pub codec: CodecSpec,
    pub a_rtp: SocketAddress,
    pub wire_sample_rate: Option<u32>,
    pub noise_suppression: bool,
    pub echo: EchoProfile,
    pub vad_config: Option<WsVadConfig>,
    pub takeover: Option<WsRelayTakeover>,
}

impl WsBridgeSetup {
    /// The flows a takeover switches off.
    pub open spec fn displaced(self) -> Seq<(EndpointId, FlowAction)> {
        match self.takeover {
            Some(takeover) => takeover.displace@,
            None => Seq::empty(),
        }
    }

    /// The flows a takeover puts back.
    pub open spec fn restored(self) -> Seq<(EndpointId, FlowAction)> {
        match self.takeover {
            Some(takeover) => takeover.restore@,
            None => Seq::empty(),
        }
    }

    /// The flows a setup installs: the displaced relay off, then the leg redirected.
    pub open spec fn installs(self) -> Seq<(EndpointId, FlowAction)> {
        self.displaced().push((self.endpoint_a, FlowAction::Redirect))
    }

    /// Begin a setup. `call` is the call's offerer tag and owner, if the call still exists. Nothing
    /// outside is touched yet.
    pub fn begin(self, call: Option<(String, ClientId)>) -> (result: Result<BridgeSetup, SetupRefusal>)
        ensures
            call is None ==> result == Result::<BridgeSetup, SetupRefusal>::Err(SetupRefusal::CallGone),
            call is Some && self.codec is None ==> result == Result::<BridgeSetup, SetupRefusal>::Err(SetupRefusal::NoCodec),
            call is Some && self.codec is Some ==> {
                &&& result matches Ok(setup)
                &&& result->Ok_0.request == (WsBridgeSetup { codec: None, ..self })
                &&& result->Ok_0.codec == self.codec->Some_0
                &&& result->Ok_0.from_tag == call->Some_0.0
                &&& result->Ok_0.owner == call->Some_0.1
                &&& result->Ok_0.position == 0
                &&& result->Ok_0.failure is None
            },
    {
        let mut request = self;
        let mut codec = None;
        std::mem::swap(&mut codec, &mut request.codec);
        match call {
            None => Err(SetupRefusal::CallGone),
            Some((from_tag, owner)) => match codec {
                None => Err(SetupRefusal::NoCodec),
                Some(spec) => Ok(
                    BridgeSetup {
                        request,
                        codec: spec,
                        from_tag,
                        owner,
                        leg_rate: 0,
                        wire_rate: 0,
                        position: 0,
                        failure: None,
                    },
                ),
            },
        }
    }
}

impl BridgeSetup {
    /// What a setup keeps from its beginning to its end.
    pub open spec fn same_request(self, other: BridgeSetup) -> bool {
        self.request == other.request && self.codec == other.codec && self.from_tag == other.from_tag && self.owner
            == other.owner
    }

    /// What follows the dial: the first flow.
    pub open spec fn first_install(self) -> SetupStep {
        let flow = self.request.installs()[0];
        SetupStep::Install { endpoint: flow.0, action: flow.1 }
    }

    /// What follows the converters and the detector: the dial, unless that has been done.
    pub open spec fn connect_step(self) -> SetupStep {
        if self.request.dialled {
            self.first_install()
        } else {
            SetupStep::Dial
        }
    }

    /// What follows the converters: the detector where one is asked for. Like everything else that can be
    /// refused, it is built before the dial.
    pub open spec fn detector_step(self) -> SetupStep {
        match self.request.vad_config {
            Some(vad) => SetupStep::BuildDetector {
                plan: match vad.engine {
                    WsVadEngine::Energy => DetectorPlan::Energy {
                        threshold: vad.threshold,
                        hangover_frames: frames_down(vad.hangover_ms, self.codec.packet_ms()) as u32,
                    },
                    WsVadEngine::Neural => DetectorPlan::Neural { pcm_rate_hz: self.wire_rate },
                },
            },
            None => self.connect_step(),
        }
    }

    /// What follows the `done`-th restored flow of a failed setup.
    pub open spec fn rollback(self, done: int) -> SetupStep {
        let flows = self.request.restored();
        if done < flows.len() {
            SetupStep::Restore { endpoint: flows[done].0, action: flows[done].1 }
        } else {
            SetupStep::Refused
        }
    }

    /// The state once the codecs were built: audio without a wish for its rate goes out at the leg's.
    pub open spec fn codecs_on(self, built: Result<u32, String>) -> BridgeSetup {
        match built {
            Err(error) => BridgeSetup { failure: Some(SetupRefusal::Unserviceable { error }), ..self },
            Ok(rate) => BridgeSetup {
                leg_rate: rate,
                wire_rate: if self.request.wire_sample_rate is Some {
                    self.wire_rate
                } else {
                    rate
                },
                ..self
            },
        }
    }

    /// What follows the codecs.
    pub open spec fn codecs_step(self, built: Result<u32, String>) -> SetupStep {
        match built {
            Err(_) => SetupStep::Refused,
            Ok(rate) => match self.request.wire_sample_rate {
                Some(requested) => SetupStep::ValidateRate { requested },
                None => SetupStep::BuildResamplers { leg_rate: rate, wire_rate: rate },
            },
        }
    }

    /// The state once the wire rate was checked.
    pub open spec fn rate_on(self, validated: Result<u32, String>) -> BridgeSetup {
        match validated {
            Err(error) => BridgeSetup { failure: Some(SetupRefusal::Unserviceable { error }), ..self },
            Ok(rate) => BridgeSetup { wire_rate: rate, ..self },
        }
    }

    /// What follows the check of the wire rate.
    pub open spec fn rate_step(self, validated: Result<u32, String>) -> SetupStep {
        match validated {
            Err(_) => SetupStep::Refused,
            Ok(rate) => SetupStep::BuildResamplers { leg_rate: self.leg_rate, wire_rate: rate },
        }
    }

    /// The state once a flow was installed, or could not be.
    pub open spec fn flow_on(self, result: Result<(), String>) -> BridgeSetup {
        match result {
            Ok(_) => BridgeSetup { position: (self.position + 1) as usize, ..self },
            Err(error) => BridgeSetup {
                position: 0,
                failure: Some(
                    if self.position < self.request.displaced().len() {
                        SetupRefusal::Displace { error }
                    } else {
                        SetupRefusal::Redirect { error }
                    },
                ),
                ..self
            },
        }
    }

    /// What follows a flow.
    pub open spec fn flow_step(self, result: Result<(), String>) -> SetupStep {
        let next = self.position + 1;
        if result is Err {
            self.rollback(0)
        } else if next < self.request.installs().len() {
            let flow = self.request.installs()[next];
            SetupStep::Install { endpoint: flow.0, action: flow.1 }
        } else {
            SetupStep::Start
        }
    }

    /// The format of the audio on the wire.
    pub open spec fn format(self) -> WsMediaFormat {
        WsMediaFormat { sample_rate: self.wire_rate, channels: 1, bit_depth: 16, ptime: self.codec.packet_ms() }
    }

    /// The first step.
    pub fn first(&self) -> (step: SetupStep)
        ensures
            step == SetupStep::BuildCodecs,
    {
        SetupStep::BuildCodecs
    }

    /// Go on once the codecs were built. `built` is the rate of the decoded audio.
    pub fn codecs_built(&mut self, built: Result<u32, String>) -> (step: SetupStep)
        ensures
            *final(self) == old(self).codecs_on(built),
            step == old(self).codecs_step(built),
            final(self).same_request(*old(self)),
            final(self).position == old(self).position,
            built matches Err(error) ==> {
                &&& step == SetupStep::Refused
                &&& final(self).failure == Some(SetupRefusal::Unserviceable { error })
                &&& final(self).leg_rate == old(self).leg_rate
                &&& final(self).wire_rate == old(self).wire_rate
            },
            built matches Ok(rate) ==> {
                &&& final(self).leg_rate == rate
                &&& final(self).failure == old(self).failure
                &&& match old(self).request.wire_sample_rate {
                    Some(requested) => final(self).wire_rate == old(self).wire_rate && step == (
                    SetupStep::ValidateRate { requested }),
                    None => final(self).wire_rate == rate && step == (SetupStep::BuildResamplers {
                        leg_rate: rate,
                        wire_rate: rate,
                    }),
                }
            },
    {
        match built {
            Err(error) => {
                self.failure = Some(SetupRefusal::Unserviceable { error });
                SetupStep::Refused
            },
            Ok(rate) => {
                self.leg_rate = rate;
                match self.request.wire_sample_rate {
                    Some(requested) => SetupStep::ValidateRate { requested },
                    None => {
                        self.wire_rate = rate;
                        SetupStep::BuildResamplers { leg_rate: rate, wire_rate: rate }
                    },
                }
            },
        }
    }

    /// Go on once the wire rate was checked.
    pub fn rate_validated(&mut self, validated: Result<u32, String>) -> (step: SetupStep)
        ensures
            *final(self) == old(self).rate_on(validated),
            step == old(self).rate_step(validated),
            final(self).same_request(*old(self)),
            final(self).position == old(self).position,
            final(self).leg_rate == old(self).leg_rate,
            validated matches Err(error) ==> step == SetupStep::Refused && final(self).wire_rate == old(self).wire_rate
                && final(self).failure == Some(SetupRefusal::Unserviceable { error }),
            validated matches Ok(rate) ==> final(self).wire_rate == rate && final(self).failure == old(self).failure
                && step == (SetupStep::BuildResamplers { leg_rate: old(self).leg_rate, wire_rate: rate }),
    {
        match validated {
            Err(error) => {
                self.failure = Some(SetupRefusal::Unserviceable { error });
                SetupStep::Refused
            },
            Ok(rate) => {
                self.wire_rate = rate;
                SetupStep::BuildResamplers { leg_rate: self.leg_rate, wire_rate: rate }
            },
        }
    }

    /// Go on once the converters were built: build the detector where one is asked for, and otherwise dial,
    /// unless that has been done.
    pub fn resamplers_built(&mut self, built: Result<(), String>) -> (step: SetupStep)
        requires
            old(self).position == 0,
        ensures
            final(self).same_request(*old(self)),
            final(self).position == old(self).position,
            final(self).leg_rate == old(self).leg_rate,
            final(self).wire_rate == old(self).wire_rate,
            built matches Err(error) ==> step == SetupStep::Refused && final(self).failure
                == Some(SetupRefusal::Unserviceable { error }),
            built is Ok ==> final(self).failure == old(self).failure && step == old(self).detector_step(),
    {
        match built {
            Err(error) => {
                self.failure = Some(SetupRefusal::Unserviceable { error });
                SetupStep::Refused
            },
            Ok(()) => match self.request.vad_config {
                Some(vad) => SetupStep::BuildDetector {
                    plan: vad.build_detector(self.wire_rate, self.codec.packet_time_ms()),
                },
                None => self.connect(),
            },
        }
    }

    /// Dial, or begin with the flows over the connection that is there.
    fn connect(&self) -> (step: SetupStep)
        ensures
            step == self.connect_step(),
    {
        if self.request.dialled {
            self.install_at(0)
        } else {
            SetupStep::Dial
        }
    }

    /// Go on once the server was dialled. A failed dial ends the setup before any flow is touched.
    pub fn dialled(&mut self, connected: Result<(), String>) -> (step: SetupStep)
        requires
            old(self).position == 0,
        ensures
            final(self).same_request(*old(self)),
            final(self).position == old(self).position,
            final(self).leg_rate == old(self).leg_rate,
            final(self).wire_rate == old(self).wire_rate,
            connected matches Err(error) ==> step == SetupStep::Refused && final(self).failure
                == Some(SetupRefusal::Dial { error }),
            connected is Ok ==> final(self).failure == old(self).failure && step == old(self).first_install(),
    {
        match connected {
            Err(error) => {
                self.failure = Some(SetupRefusal::Dial { error });
                SetupStep::Refused
            },
            Ok(()) => self.install_at(0),
        }
    }

    /// The `index`-th flow to install.
    fn install_at(&self, index: usize) -> (step: SetupStep)
        requires
            index < self.request.installs().len(),
        ensures
            step == (SetupStep::Install {
                endpoint: self.request.installs()[index as int].0,
                action: self.request.installs()[index as int].1,
            }),
    {
        if let Some(takeover) = &self.request.takeover {
            if index < takeover.displace.len() {
                let flow: (EndpointId, FlowAction) = takeover.displace[index];
                return SetupStep::Install { endpoint: flow.0, action: flow.1 };
            }
        }
        SetupStep::Install { endpoint: self.request.endpoint_a, action: FlowAction::Redirect }
    }

    /// Go on once a flow was installed. When one fails, the whole displaced relay is put back, rule by
    /// rule, and the setup is refused.
    pub fn flow_installed(&mut self, result: Result<(), String>) -> (step: SetupStep)
        requires
            old(self).position < old(self).request.installs().len(),
            old(self).position < usize::MAX,
        ensures
            *final(self) == old(self).flow_on(result),
            step == old(self).flow_step(result),
            final(self).same_request(*old(self)),
            final(self).leg_rate == old(self).leg_rate,
            final(self).wire_rate == old(self).wire_rate,
            result is Ok ==> {
                &&& final(self).failure == old(self).failure
                &&& final(self).position == old(self).position + 1
                &&& step == (if old(self).position + 1 < old(self).request.installs().len() {
                    let flow = old(self).request.installs()[old(self).position + 1];
                    SetupStep::Install { endpoint: flow.0, action: flow.1 }
                } else {
                    SetupStep::Start
                })
            },
            result matches Err(error) ==> {
                &&& final(self).position == 0
                &&& final(self).failure == Some(
                    if old(self).position < old(self).request.displaced().len() {
                        SetupRefusal::Displace { error }
                    } else {
                        SetupRefusal::Redirect { error }
                    },
                )
                &&& step == old(self).rollback(0)
            },
    {
        let displaced: usize = match &self.request.takeover {
            Some(takeover) => takeover.displace.len(),
            None => 0,
        };
        match result {
            Ok(()) => {
                self.position = self.position + 1;
                if self.position <= displaced {
                    self.install_at(self.position)
                } else {
                    SetupStep::Start
                }
            },
            Err(error) => {
                self.failure = Some(
                    if self.position < displaced {
                        SetupRefusal::Displace { error }
                    } else {
                        SetupRefusal::Redirect { error }
                    },
                );
                self.position = 0;
                self.restore_at(0)
            },
        }
    }

    /// The `index`-th flow to put back, or the end of a failed setup.
    fn restore_at(&self, index: usize) -> (step: SetupStep)
        ensures
            step == self.rollback(index as int),
    {
        if let Some(takeover) = &self.request.takeover {
            if index < takeover.restore.len() {
                let flow: (EndpointId, FlowAction) = takeover.restore[index];
                return SetupStep::Restore { endpoint: flow.0, action: flow.1 };
            }
        }
        SetupStep::Refused
    }

    /// Go on once a flow of the displaced relay was put back.
    pub fn flow_restored(&mut self) -> (step: SetupStep)
        requires
            old(self).position < old(self).request.restored().len(),
            old(self).failure is Some,
        ensures
            final(self).same_request(*old(self)),
            final(self).leg_rate == old(self).leg_rate,
            final(self).wire_rate == old(self).wire_rate,
            final(self).failure == old(self).failure,
            final(self).position == old(self).position + 1,
            step == old(self).rollback(old(self).position + 1),
    {
        let total: usize = match &self.request.takeover {
            Some(takeover) => takeover.restore.len(),
            None => 0,
        };
        if self.position < total {
            self.position = self.position + 1;
        }
        self.restore_at(self.position)
    }

    /// Go on once the detector was built. A neural detector that cannot be built refuses the bridge before
    /// anything is dialled and before any flow is touched.
    pub fn detector_built(&mut self, result: Result<(), String>) -> (step: SetupStep)
        requires
            old(self).position == 0,
        ensures
            final(self).same_request(*old(self)),
            final(self).leg_rate == old(self).leg_rate,
            final(self).wire_rate == old(self).wire_rate,
            final(self).position == old(self).position,
            result is Ok ==> step == old(self).connect_step() && final(self).failure == old(self).failure,
            result matches Err(error) ==> step == SetupStep::Refused && (final(self).failure matches Some(
                SetupRefusal::Unserviceable { error: reason },
            ) && reason@ == neural_refusal(old(self).wire_rate, error@)),
    {
        match result {
            Ok(()) => self.connect(),
            Err(error) => {
                let mut reason = joined("neural VAD unavailable for a ", decimal_text(self.wire_rate as u64).as_str());
                reason.push_str(" Hz leg: ");
                reason.push_str(error.as_str());
                self.failure = Some(SetupRefusal::Unserviceable { error: reason });
                SetupStep::Refused
            },
        }
    }

    /// The event that announces the bridge. It is sent before the bridge is started, so that its end
    /// can never be reported first.
    pub fn started_event(&self) -> (event: Event)
        ensures
            event@ == (EventView::WsBridgeStarted {
                call_id: self.request.call_id@,
                from_tag: self.from_tag@,
                stream_id: bridge_stream_id(self.request.call_id@),
                ws_uri: self.request.ws_uri@,
                sample_rate: self.wire_rate,
            }),
    {
        Event::WsBridgeStarted {
            call_id: self.request.call_id.clone(),
            from_tag: self.from_tag.clone(),
            stream_id: joined("ws-", self.request.call_id.as_str()),
            ws_uri: self.request.ws_uri.clone(),
            sample_rate: self.wire_rate,
        }
    }

    /// The format of the audio on the wire: mono, at the wire rate, in frames of the leg's packet time.
    pub fn media_format(&self) -> (format: WsMediaFormat)
        ensures
            format == self.format(),
    {
        WsMediaFormat {
            sample_rate: self.wire_rate,
            channels: 1,
            bit_depth: 16,
            ptime: self.codec.packet_time_ms(),
        }
    }

    /// The record of the started bridge.
    pub fn into_bridge(self) -> (bridge: WsBridge)
        ensures
            bridge.from_tag == self.from_tag,
            bridge.owner == self.owner,
            bridge.stream_id@ == bridge_stream_id(self.request.call_id@),
            bridge.ws_uri == self.request.ws_uri,
            !bridge.ended,
            bridge.codec == self.codec,
            bridge.a_rtp == self.request.a_rtp,
            bridge.wire_sample_rate == self.request.wire_sample_rate,
            bridge.noise_suppression == self.request.noise_suppression,
            bridge.echo == self.request.echo,
            bridge.vad_config == self.request.vad_config,
            bridge.takeover == self.request.takeover,
    {
        WsBridge {
            from_tag: self.from_tag,
            owner: self.owner,
            stream_id: joined("ws-", self.request.call_id.as_str()),
            ws_uri: self.request.ws_uri,
            ended: false,
            codec: self.codec,
            a_rtp: self.request.a_rtp,
            wire_sample_rate: self.request.wire_sample_rate,
            noise_suppression: self.request.noise_suppression,
            echo: self.request.echo,
            vad_config: self.request.vad_config,
            takeover: self.request.takeover,
        }
    }
}

/// The message for a neural detector that cannot be built.
pub open spec fn neural_refusal(rate: u32, error: Seq<char>) -> Seq<char> {
    "neural VAD unavailable for a "@ + decimal(rate as nat) + " Hz leg: "@ + error
}

/// The stream identifier of a call's bridge.
pub open spec fn bridge_stream_id(call_id: Seq<char>) -> Seq<char> {
    "ws-"@ + call_id
}

/// Where a takeover leg's media is aimed: the observed source's address with the signalled port,
/// where a source was observed by the signalling.
pub open spec fn takeover_address(signalled: SocketAddress, received_from: Option<IpAddress>) -> SocketAddress {
    match received_from {
        Some(ip) => SocketAddress::plain(ip, signalled.port),
        None => signalled,
    }
}

/// Where a takeover leg's media is aimed.
pub fn ws_takeover_media_address(signalled: SocketAddress, received_from: Option<IpAddress>) -> (address: SocketAddress)
    ensures
        address == takeover_address(signalled, received_from),
{
    match received_from {
        Some(ip) => SocketAddress::new(ip, signalled.port),
        None => signalled,
    }
}

/// Why a live call was not taken over.
#[derive(Clone, Copy, Debug, PartialEq, Eq, Structural)]
pub enum TakeoverRefusal {
    /// A bridge routes the call's media, but nothing is known of it.
    Untracked,
    /// The call is gone.
    CallGone,
    /// The offerer's media is encrypted.
    SecureOfferer,
    /// The offerer uses ICE.
    IceOfferer,
    /// Something else taps the media path.
    Held,
    /// The call is not a plain relay.
    NotPlainRelay(PipelineKind),
    /// The call has no relay yet.
    NotAnswered,
    /// The offerer's leg has no codec.
    NoCodec,
    /// The offerer's leg has no address.
    NoAddress,
}

impl TakeoverRefusal {
    /// The message for the controller.
    pub open spec fn text(self) -> Seq<char> {
        match self {
            TakeoverRefusal::Untracked => "ws-bridge-untracked: the call has a WebSocket route with no bridge record; delete the call"@,
            TakeoverRefusal::CallGone => "call no longer exists"@,
            TakeoverRefusal::SecureOfferer => "ws-takeover-secure-offerer: a WebSocket takeover on a secure (SRTP) offerer is not supported on a two-leg call — the engine is not that leg's cryptographic far side, so the bridge would receive ciphertext and answer in the clear; negotiate the takeover with answer_local instead"@,
            TakeoverRefusal::IceOfferer => "ws-takeover-ice-offerer: a WebSocket takeover on an ICE leg is not supported here — no ICE agent is armed for a takeover leg on a two-leg call, so its downlink would never follow the selected pair; negotiate the takeover with answer_local, or ICE=remove to drop ICE"@,
            TakeoverRefusal::Held => "ws-takeover-call-is-held: a recording, SIPREC subscription, WebSocket tee, DTMF block or lawful-interception delivery is attached to this call and taps the media path a takeover removes; stop it first"@,
            TakeoverRefusal::NotPlainRelay(pipeline) => "ws-takeover-not-a-plain-relay: only a plain two-party relay can be taken over at runtime, and this call is "@
                + pipeline.label()
                + " — a transcoding, secure-bridge or promoted call's media path cannot be handed back verbatim on detach"@,
            TakeoverRefusal::NotAnswered => "ws-takeover-not-answered: the call has no two-party relay to take over (it is unanswered, or was answered locally, so there is no second party a detach could hand it back to); negotiate the takeover with ws_uri instead"@,
            TakeoverRefusal::NoCodec => "the call has no negotiated codec on the offerer's leg"@,
            TakeoverRefusal::NoAddress => "the offerer's leg has no signalled address to send the downlink to"@,
        }
    }

    /// The message for the controller.
    pub fn message(&self) -> (message: String)
        ensures
            message@ == self.text(),
    {
        match self {
            TakeoverRefusal::Untracked => owned(
                "ws-bridge-untracked: the call has a WebSocket route with no bridge record; delete the call",
            ),
            TakeoverRefusal::CallGone => owned("call no longer exists"),
            TakeoverRefusal::SecureOfferer => owned(
                "ws-takeover-secure-offerer: a WebSocket takeover on a secure (SRTP) offerer is not supported on a two-leg call — the engine is not that leg's cryptographic far side, so the bridge would receive ciphertext and answer in the clear; negotiate the takeover with answer_local instead",
            ),
            TakeoverRefusal::IceOfferer => owned(
                "ws-takeover-ice-offerer: a WebSocket takeover on an ICE leg is not supported here — no ICE agent is armed for a takeover leg on a two-leg call, so its downlink would never follow the selected pair; negotiate the takeover with answer_local, or ICE=remove to drop ICE",
            ),
            TakeoverRefusal::Held => owned(
                "ws-takeover-call-is-held: a recording, SIPREC subscription, WebSocket tee, DTMF block or lawful-interception delivery is attached to this call and taps the media path a takeover removes; stop it first",
            ),
            TakeoverRefusal::NotPlainRelay(pipeline) => {
                let mut message = joined(
                    "ws-takeover-not-a-plain-relay: only a plain two-party relay can be taken over at runtime, and this call is ",
                    pipeline.name().as_str(),
                );
                message.push_str(
                    " — a transcoding, secure-bridge or promoted call's media path cannot be handed back verbatim on detach",
                );
                message
            },
            TakeoverRefusal::NotAnswered => owned(
                "ws-takeover-not-answered: the call has no two-party relay to take over (it is unanswered, or was answered locally, so there is no second party a detach could hand it back to); negotiate the takeover with ws_uri instead",
            ),
            TakeoverRefusal::NoCodec => owned("the call has no negotiated codec on the offerer's leg"),
            TakeoverRefusal::NoAddress => owned(
                "the offerer's leg has no signalled address to send the downlink to",
            ),
        }
    }
}

/// What a takeover reads of a live call.
#[derive(Debug)]
pub struct TakeoverFacts {
    pub pipeline: PipelineKind,
    /// The offerer's RTP endpoint.
    pub near_endpoint: EndpointId,
    /// The offerer's signalled address.
    pub near_remote: Option<SocketAddress>,
    pub near_codec: Option<CodecSpec>,
    /// The flows of the call's relay.
    pub relay_flows: Vec<(EndpointId, FlowAction)>,
    pub near_secure: bool,
    pub has_ice: bool,
    /// Where the signalling came from.
    pub received_from: Option<IpAddress>,
    /// Where the relay observed the offerer's media to come from.
    pub latched_source: Option<SocketAddress>,
    /// A recording, subscription, tee, key-press block or interception taps the media path.
    pub held: bool,
    /// The call runs in the media pipeline.
    pub media_call: bool,
}

/// The first reason, in order, why a call cannot be taken over.
pub open spec fn takeover_refusal(facts: TakeoverFacts) -> Option<TakeoverRefusal> {
    if facts.near_secure {
        Some(TakeoverRefusal::SecureOfferer)
    } else if facts.has_ice {
        Some(TakeoverRefusal::IceOfferer)
    } else if facts.held {
        Some(TakeoverRefusal::Held)
    } else if !(facts.pipeline is Passthrough) || facts.media_call {
        Some(TakeoverRefusal::NotPlainRelay(facts.pipeline))
    } else if facts.relay_flows@.len() == 0 {
        Some(TakeoverRefusal::NotAnswered)
    } else if facts.near_codec is None {
        Some(TakeoverRefusal::NoCodec)
    } else if facts.near_remote is None {
        Some(TakeoverRefusal::NoAddress)
    } else {
        None
    }
}

/// The filter the relay has on an endpoint: that of its first forward rule.
pub open spec fn relay_gate(flows: Seq<(EndpointId, FlowAction)>, endpoint: EndpointId) -> Option<SourceFilter>
    decreases flows.len(),
{
    if flows.len() == 0 {
        None
    } else {
        match flows[0].1 {
            FlowAction::Forward(rule) if flows[0].0 == endpoint => Some(rule.accepted_source),
            _ => relay_gate(flows.skip(1), endpoint),
        }
    }
}

/// Every flow dropped.
pub open spec fn dropped(flows: Seq<(EndpointId, FlowAction)>) -> Seq<(EndpointId, FlowAction)> {
    Seq::new(flows.len(), |i: int| (flows[i].0, FlowAction::Drop))
}

/// The filter the relay has on an endpoint.
fn find_relay_gate(flows: &Vec<(EndpointId, FlowAction)>, endpoint: EndpointId) -> (gate: Option<SourceFilter>)
    ensures
        gate == relay_gate(flows@, endpoint),
{
    let mut i: usize = 0;
    proof {
        assert(flows@.skip(0) =~= flows@);
    }
    while i < flows.len()
        invariant
            i <= flows@.len(),
            relay_gate(flows@, endpoint) == relay_gate(flows@.skip(i as int), endpoint),
        decreases flows@.len() - i,
    {
        proof {
            assert(flows@.skip(i as int).skip(1) =~= flows@.skip(i + 1));
        }
        if let FlowAction::Forward(rule) = flows[i].1 {
            if flows[i].0 == endpoint {
                return Some(rule.accepted_source);
            }
        }
        i = i + 1;
    }
    None
}

/// Every flow dropped.
fn drop_all(flows: &Vec<(EndpointId, FlowAction)>) -> (drops: Vec<(EndpointId, FlowAction)>)
    ensures
        drops@ == dropped(flows@),
{
    let mut drops: Vec<(EndpointId, FlowAction)> = Vec::new();
    let mut i: usize = 0;
    while i < flows.len()
        invariant
            i <= flows@.len(),
            drops@ =~= dropped(flows@).take(i as int),
        decreases flows@.len() - i,
    {
        drops.push((flows[i].0, FlowAction::Drop));
        i = i + 1;
    }
    proof {
        assert(dropped(flows@).take(i as int) =~= dropped(flows@));
    }
    drops
}

/// Plan the takeover of a live relay: refuse it, or say how the bridge is set up. The downlink goes
/// where the relay observed the offerer, the filter stays the relay's own, and every flow of the relay
/// is switched off to be put back verbatim later.
pub fn plan_takeover(call_id: String, ws_uri: String, call: Option<TakeoverFacts>) -> (plan: Result<
    WsBridgeSetup,
    TakeoverRefusal,
>)
    ensures
        call is None ==> plan == Result::<WsBridgeSetup, TakeoverRefusal>::Err(TakeoverRefusal::CallGone),
        call matches Some(facts) ==> match takeover_refusal(facts) {
            Some(refusal) => plan == Result::<WsBridgeSetup, TakeoverRefusal>::Err(refusal),
            None => {
                &&& plan is Ok
                &&& takeover_setup(plan->Ok_0, facts)
                &&& plan->Ok_0.call_id == call_id
                &&& plan->Ok_0.ws_uri == ws_uri
            },
        },
{
    let facts = match call {
        None => {
            return Err(TakeoverRefusal::CallGone);
        },
        Some(facts) => facts,
    };
    if facts.near_secure {
        return Err(TakeoverRefusal::SecureOfferer);
    }
    if facts.has_ice {
        return Err(TakeoverRefusal::IceOfferer);
    }
    if facts.held {
        return Err(TakeoverRefusal::Held);
    }
    if facts.pipeline != PipelineKind::Passthrough || facts.media_call {
        return Err(TakeoverRefusal::NotPlainRelay(facts.pipeline));
    }
    if facts.relay_flows.len() == 0 {
        return Err(TakeoverRefusal::NotAnswered);
    }
    if facts.near_codec.is_none() {
        return Err(TakeoverRefusal::NoCodec);
    }
    let signalled: SocketAddress = match facts.near_remote {
        None => {
            return Err(TakeoverRefusal::NoAddress);
        },
        Some(signalled) => signalled,
    };
    let aimed: SocketAddress = ws_takeover_media_address(signalled, facts.received_from);
    let a_rtp: SocketAddress = match facts.latched_source {
        Some(observed) => observed,
        None => aimed,
    };
    let accepted_source: SourceFilter = match find_relay_gate(&facts.relay_flows, facts.near_endpoint) {
        Some(gate) => gate,
        None => SourceFilter::Exact(aimed.ip),
    };
    let displace = drop_all(&facts.relay_flows);
    Ok(
        WsBridgeSetup {
            call_id,
            ws_uri,
            endpoint_a: facts.near_endpoint,
            a_rtp,
            codec: facts.near_codec,
            accepted_source,
            ice_pending: false,
            secure: false,
            wire_sample_rate: None,
            noise_suppression: false,
            echo: EchoProfile { enabled: false },
            vad_config: None,
            reuse_egress: false,
            takeover: Some(
                WsRelayTakeover { displace, restore: facts.relay_flows, restore_pipeline: facts.pipeline },
            ),
            dialled: false,
        },
    )
}

/// How the takeover of a live relay is set up.
pub open spec fn takeover_setup(setup: WsBridgeSetup, facts: TakeoverFacts) -> bool {
    let aimed = takeover_address(facts.near_remote->Some_0, facts.received_from);
    &&& setup.endpoint_a == facts.near_endpoint
    &&& setup.a_rtp == (match facts.latched_source {
        Some(observed) => observed,
        None => aimed,
    })
    &&& setup.codec == facts.near_codec
    &&& setup.accepted_source == (match relay_gate(facts.relay_flows@, facts.near_endpoint) {
        Some(gate) => gate,
        None => SourceFilter::Exact(aimed.ip),
    })
    &&& !setup.ice_pending
    &&& !setup.secure
    &&& setup.wire_sample_rate is None
    &&& !setup.noise_suppression
    &&& !setup.echo.enabled
    &&& setup.vad_config is None
    &&& !setup.reuse_egress
    &&& !setup.dialled
    &&& setup.takeover is Some
    &&& setup.takeover->Some_0.displace@ == dropped(facts.relay_flows@)
    &&& setup.takeover->Some_0.restore == facts.relay_flows
    &&& setup.takeover->Some_0.restore_pipeline == facts.pipeline
}

/// What the packet router knows of a running bridge.
#[derive(Clone, Copy, Debug, PartialEq, Eq, Structural)]
pub struct RouteState {
    pub endpoint_a: EndpointId,
    pub accepted_source: SourceFilter,
    pub ice_pending: bool,
    pub secure: bool,
}

/// Plan to point a running bridge at another server. Everything but the destination is carried over,
/// the displaced relay included. The new server is dialled before the running bridge is stopped.
pub fn plan_repoint(call_id: String, ws_uri: String, route: RouteState, bridge: Option<WsBridge>) -> (plan: Result<
    WsBridgeSetup,
    TakeoverRefusal,
>)
    ensures
        bridge is None ==> plan == Result::<WsBridgeSetup, TakeoverRefusal>::Err(TakeoverRefusal::Untracked),
        bridge matches Some(running) ==> plan is Ok && repoint_setup(plan->Ok_0, route, running)
            && plan->Ok_0.call_id == call_id && plan->Ok_0.ws_uri == ws_uri,
{
    match bridge {
        None => Err(TakeoverRefusal::Untracked),
        Some(running) => Ok(
            WsBridgeSetup {
                call_id,
                ws_uri,
                endpoint_a: route.endpoint_a,
                a_rtp: running.a_rtp,
                codec: Some(running.codec),
                accepted_source: route.accepted_source,
                ice_pending: route.ice_pending,
                secure: route.secure,
                wire_sample_rate: running.wire_sample_rate,
                noise_suppression: running.noise_suppression,
                echo: running.echo,
                vad_config: running.vad_config,
                reuse_egress: true,
                takeover: running.takeover,
                dialled: true,
            },
        ),
    }
}

/// How a bridge comes up on a call.
#[derive(Debug)]
pub enum StartPlan {
    /// Dial the new server, then stop the running bridge, then set this one up.
    Repoint { repoint: WsBridgeSetup },
    /// Set the bridge up in place of the relay. The call's pipeline becomes the WebSocket one.
    Takeover { takeover: WsBridgeSetup },
}

/// Plan a bridge on a call: point the running one elsewhere where there is one, and take the relay
/// over otherwise.
pub fn start_ws_bridge(
    call_id: String,
    ws_uri: String,
    route: Option<RouteState>,
    bridge: Option<WsBridge>,
    call: Option<TakeoverFacts>,
) -> (plan: Result<StartPlan, TakeoverRefusal>)
    ensures
        route is Some && bridge is None ==> plan == Result::<StartPlan, TakeoverRefusal>::Err(
            TakeoverRefusal::Untracked,
        ),
        route is Some && bridge is Some ==> plan is Ok && plan->Ok_0 is Repoint && repoint_setup(
            plan->Ok_0->repoint,
            route->Some_0,
            bridge->Some_0,
        ) && plan->Ok_0->repoint.call_id == call_id && plan->Ok_0->repoint.ws_uri == ws_uri,
        route is None && call is None ==> plan == Result::<StartPlan, TakeoverRefusal>::Err(
            TakeoverRefusal::CallGone,
        ),
        route is None && call is Some ==> match takeover_refusal(call->Some_0) {
            Some(refusal) => plan == Result::<StartPlan, TakeoverRefusal>::Err(refusal),
            None => plan is Ok && plan->Ok_0 is Takeover && takeover_setup(
                plan->Ok_0->takeover,
                call->Some_0,
            ) && plan->Ok_0->takeover.call_id == call_id && plan->Ok_0->takeover.ws_uri == ws_uri,
        },
{
    match route {
        Some(state) => match plan_repoint(call_id, ws_uri, state, bridge) {
            Ok(repoint) => Ok(StartPlan::Repoint { repoint }),
            Err(refusal) => Err(refusal),
        },
        None => match plan_takeover(call_id, ws_uri, call) {
            Ok(takeover) => Ok(StartPlan::Takeover { takeover }),
            Err(refusal) => Err(refusal),
        },
    }
}

/// What pointing a bridge elsewhere carries over: everything but the call's name and the server.
pub open spec fn repoint_setup(setup: WsBridgeSetup, route: RouteState, running: WsBridge) -> bool {
    setup == (WsBridgeSetup {
        call_id: setup.call_id,
        ws_uri: setup.ws_uri,
        endpoint_a: route.endpoint_a,
        a_rtp: running.a_rtp,
        codec: Some(running.codec),
        accepted_source: route.accepted_source,
        ice_pending: route.ice_pending,
        secure: route.secure,
        wire_sample_rate: running.wire_sample_rate,
        noise_suppression: running.noise_suppression,
        echo: running.echo,
        vad_config: running.vad_config,
        reuse_egress: true,
        takeover: running.takeover,
        dialled: true,
    })
}

/// What a detach does.
#[derive(Clone, Copy, Debug, PartialEq, Eq, Structural)]
pub enum DetachDecision {
    /// Not this client's call.
    UnknownCall,
    /// There is no bridge: nothing to do.
    Nothing,
    /// The bridge is the call's negotiated media path: there is nothing to go back to.
    Negotiated,
    /// Stop the bridge, put the relay back, and go back to this pipeline.
    Restore { pipeline: PipelineKind },
}

/// What a detach does to a call with a bridge, or without one.
pub open spec fn detach_of(owned_call: bool, bridge: Option<WsBridge>) -> DetachDecision {
    if !owned_call {
        DetachDecision::UnknownCall
    } else {
        match bridge {
            None => DetachDecision::Nothing,
            Some(running) => match running.takeover {
                None => DetachDecision::Negotiated,
                Some(takeover) => DetachDecision::Restore { pipeline: takeover.restore_pipeline },
            },
        }
    }
}

/// Decide what a detach does.
pub fn detach_ws_bridge(owned_call: bool, bridge: Option<&WsBridge>) -> (decision: DetachDecision)
    ensures
        decision == (match bridge {
            None => detach_of(owned_call, None),
            Some(running) => detach_of(owned_call, Some(*running)),
        }),
{
    if !owned_call {
        return DetachDecision::UnknownCall;
    }
    match bridge {
        None => DetachDecision::Nothing,
        Some(running) => match &running.takeover {
            None => DetachDecision::Negotiated,
            Some(takeover) => DetachDecision::Restore { pipeline: takeover.restore_pipeline },
        },
    }
}

/// Answer an attach, given what starting the bridge came to.
pub fn attach_ws_bridge(owned_call: bool, started: Result<(), String>) -> (outcome: CommandOutcome)
    ensures
        answers(outcome, owned_call, "attach_ws_bridge"@, started),
{
    answer(owned_call, "attach_ws_bridge", started)
}

/// Answer a detach. `restore_failure` is what kept the relay from coming back, where one was to be
/// put back.
pub fn detach_answer(decision: DetachDecision, restore_failure: Option<String>) -> (outcome: CommandOutcome)
    ensures
        decision is UnknownCall ==> outcome is UnknownCall,
        decision is Nothing ==> outcome is Done,
        decision is Negotiated ==> outcome is Error && outcome->context@ == "detach_ws_bridge"@ && outcome->reason@
            == negotiated_detach(),
        decision is Restore ==> match restore_failure {
            None => outcome is Done,
            Some(failure) => {
                &&& outcome is Error
                &&& outcome->context@ == "detach_ws_bridge: restore relay flow"@
                &&& outcome->reason == failure
            },
        },
{
    match decision {
        DetachDecision::UnknownCall => CommandOutcome::UnknownCall,
        DetachDecision::Nothing => CommandOutcome::Done,
        DetachDecision::Negotiated => CommandOutcome::Error {
            context: owned("detach_ws_bridge"),
            reason: negotiated_detach_message(),
        },
        DetachDecision::Restore { .. } => match restore_failure {
            None => CommandOutcome::Done,
            Some(reason) => CommandOutcome::Error { context: owned("detach_ws_bridge: restore relay flow"), reason },
        },
    }
}

/// Why a negotiated bridge is not detached.
pub open spec fn negotiated_detach() -> Seq<char> {
    "ws-bridge-negotiated: this bridge is the call's negotiated media path (ws_uri), not a takeover of a relay, so there is no media path to return it to; re-point it with attach_ws_bridge, or end the call with delete"@
}

/// The message for a detach of a negotiated bridge.
pub fn negotiated_detach_message() -> (message: String)
    ensures
        message@ == negotiated_detach(),
{
    owned(
        "ws-bridge-negotiated: this bridge is the call's negotiated media path (ws_uri), not a takeover of a relay, so there is no media path to return it to; re-point it with attach_ws_bridge, or end the call with delete",
    )
}

/// The outcome of putting a relay back, rule by rule: every rule is tried, and the first failure is
/// the one reported.
pub fn restore_displaced_relay(results: &Vec<Option<String>>) -> (failure: Option<String>)
    ensures
        failure is None == (forall|i: int| 0 <= i < results@.len() ==> (#[trigger] results@[i]) is None),
        failure matches Some(reason) ==> exists|i: int|
            {
                &&& 0 <= i < results@.len()
                &&& (#[trigger] results@[i]) matches Some(first) && first@ == reason@
                &&& forall|j: int| 0 <= j < i ==> (#[trigger] results@[j]) is None
            },
{
    let mut i: usize = 0;
    while i < results.len()
        invariant
            i <= results@.len(),
            forall|j: int| 0 <= j < i ==> (#[trigger] results@[j]) is None,
        decreases results@.len() - i,
    {
        if let Some(reason) = &results[i] {
            let failure = reason.clone();
            proof {
                assert(results@[i as int] is Some);
            }
            return Some(failure);
        }
        i = i + 1;
    }
    None
}

impl WsBridge {
    /// Report the end of the bridge, unless it has been reported.
    pub fn end(&mut self, call_id: &String, reason: WsEndReason) -> (event: Option<Event>)
        ensures
            *final(self) == (WsBridge { ended: true, ..*old(self) }),
            event is Some == !old(self).ended,
            event matches Some(raised) ==> raised@ == (EventView::WsBridgeEnded {
                call_id: call_id@,
                from_tag: old(self).from_tag@,
                stream_id: old(self).stream_id@,
                reason,
            }),
    {
        if self.ended {
            return None;
        }
        self.ended = true;
        Some(
            Event::WsBridgeEnded {
                call_id: call_id.clone(),
                from_tag: self.from_tag.clone(),
                stream_id: self.stream_id.clone(),
                reason,
            },
        )
    }
}

/// A step in stopping a bridge.
#[derive(Clone, Debug)]
pub enum StopBridgeAction {
    /// Report the end to the owner.
    Report { owner: ClientId, event: Event },
    /// Drop the route and wait until the bridge's tasks are gone.
    DropRoute,
}

/// Stop a call's bridge, if it has one. Its end is reported before its route is dropped: dropping it
/// looks to the bridge as if the call went away, and the reason stated here is the one that counts.
pub fn stop_ws_bridge(bridge: Option<WsBridge>, call_id: &String, reason: WsEndReason) -> (actions: Vec<
    StopBridgeAction,
>)
    ensures
        bridge is None ==> actions@.len() == 0,
        bridge matches Some(running) ==> {
            &&& actions@.len() == (if running.ended {
                1int
            } else {
                2
            })
            &&& actions@.last() is DropRoute
            &&& !running.ended ==> actions@[0] is Report && actions@[0]->owner == running.owner
                && actions@[0]->event@ == (EventView::WsBridgeEnded {
                call_id: call_id@,
                from_tag: running.from_tag@,
                stream_id: running.stream_id@,
                reason,
            })
        },
{
    let mut actions: Vec<StopBridgeAction> = Vec::new();
    if let Some(running) = bridge {
        let mut running = running;
        if let Some(event) = running.end(call_id, reason) {
            actions.push(StopBridgeAction::Report { owner: running.owner, event });
        }
        actions.push(StopBridgeAction::DropRoute);
    }
    actions
}

/// Whether an end was asked for, rather than something to warn about.
pub fn is_expected_end(reason: WsEndReason) -> (expected: bool)
    ensures
        expected == (reason is Detached || reason is CallEnded),
{
    match reason {
        WsEndReason::Detached => true,
        WsEndReason::CallEnded => true,
        _ => false,
    }
}

/// A detach undoes a takeover: with the relay's flows installed and the leg one of them, switching the
/// relay off, redirecting the leg, and restoring leaves every flow as it was.
pub proof fn law_detach_undoes_takeover(
    table: Map<EndpointId, FlowAction>,
    setup: WsBridgeSetup,
    facts: TakeoverFacts,
)
    requires
        takeover_setup(setup, facts),
        forall|i: int|
            0 <= i < facts.relay_flows@.len() ==> table.dom().contains((#[trigger] facts.relay_flows@[i]).0)
                && table[facts.relay_flows@[i].0] == facts.relay_flows@[i].1,
        names(facts.relay_flows@, facts.near_endpoint),
    ensures
        installed(installed(table, setup.installs()), setup.restored()) == table,
{
    law_rollback_restores(table, setup, facts, setup.installs().len() as int);
    assert(setup.installs().take(setup.installs().len() as int) =~= setup.installs());
}

/// A setup that fails leaves the relay as it was, before the first flow and after any number of them: whatever
/// part of the takeover was installed, putting the relay back restores every flow.
pub proof fn law_rollback_restores(
    table: Map<EndpointId, FlowAction>,
    setup: WsBridgeSetup,
    facts: TakeoverFacts,
    done: int,
)
    requires
        takeover_setup(setup, facts),
        forall|i: int|
            0 <= i < facts.relay_flows@.len() ==> table.dom().contains((#[trigger] facts.relay_flows@[i]).0)
                && table[facts.relay_flows@[i].0] == facts.relay_flows@[i].1,
        names(facts.relay_flows@, facts.near_endpoint),
        0 <= done <= setup.installs().len(),
    ensures
        installed(installed(table, setup.installs().take(done)), setup.restored()) == table,
{
    let part = setup.installs().take(done);
    let relay = facts.relay_flows@;
    let changed = installed(table, part);
    let back = installed(changed, setup.restored());
    lemma_installed(table, part);
    lemma_installed(changed, relay);
    assert forall|endpoint: EndpointId| names(part, endpoint) implies names(relay, endpoint) by {
        let i = choose|i: int| 0 <= i < part.len() && (#[trigger] part[i]).0 == endpoint;
        if i < relay.len() {
            assert(relay[i].0 == endpoint);
        }
    }
    assert forall|endpoint: EndpointId| back.dom().contains(endpoint) == table.dom().contains(endpoint) && (
    table.dom().contains(endpoint) ==> back[endpoint] == table[endpoint]) by {
        if names(relay, endpoint) {
            assert(installed(changed, relay).dom().contains(endpoint));
            let i = choose|i: int|
                0 <= i < relay.len() && (#[trigger] relay[i]) == (endpoint, installed(changed, relay)[endpoint]);
            assert(table.dom().contains(relay[i].0));
        } else {
            assert(installed(changed, relay).dom().contains(endpoint) == changed.dom().contains(endpoint));
            assert(installed(table, part).dom().contains(endpoint) == table.dom().contains(endpoint));
        }
    }
    assert(back =~= table);
}

/// While a takeover runs, nothing of the displaced relay is forwarded: each of its endpoints is
/// dropped, or redirected to the bridge.
pub proof fn law_takeover_silences_the_relay(
    table: Map<EndpointId, FlowAction>,
    setup: WsBridgeSetup,
    facts: TakeoverFacts,
    endpoint: EndpointId,
)
    requires
        takeover_setup(setup, facts),
        names(facts.relay_flows@, endpoint),
    ensures
        installed(table, setup.installs()).dom().contains(endpoint),
        installed(table, setup.installs())[endpoint] == (if endpoint == facts.near_endpoint {
            FlowAction::Redirect
        } else {
            FlowAction::Drop
        }),
{
    let installs = setup.installs();
    let displaced = setup.displaced();
    lemma_installed(table, displaced);
    assert(installs.drop_last() =~= displaced);
    let k = choose|k: int| 0 <= k < facts.relay_flows@.len() && (#[trigger] facts.relay_flows@[k]).0 == endpoint;
    assert(displaced[k].0 == endpoint);
    assert(names(displaced, endpoint));
    assert(installed(table, displaced).dom().contains(endpoint));
    let i = choose|i: int|
        0 <= i < displaced.len() && (#[trigger] displaced[i]) == (endpoint, installed(table, displaced)[endpoint]);
    assert(displaced[i].1 == FlowAction::Drop);
}

/// A profile gets turn-taking exactly where it asks for detection or barge-in, with every wish it states and,
/// for those it does not, an energy gate at a threshold of a million, a hangover of a fifth of a second and
/// no least length. Speech cuts the playout off only where barge-in is asked for.
pub proof fn law_turn_taking_is_as_wished(profile: VadProfile)
    ensures
        turn_taking(profile) is None <==> !profile.ws_vad && !profile.ws_barge_in,
        turn_taking(profile) matches Some(vad) ==> {
            &&& vad.barge_in <==> profile.ws_barge_in
            &&& profile.ws_vad_engine matches Some(engine) ==> vad.engine == engine
            &&& profile.ws_vad_engine is None ==> vad.engine is Energy
            &&& profile.ws_vad_threshold matches Some(threshold) ==> vad.threshold == threshold
            &&& profile.ws_vad_threshold is None ==> vad.threshold == 1_000_000
            &&& profile.ws_vad_hangover_ms matches Some(hangover) ==> vad.hangover_ms == hangover
            &&& profile.ws_vad_hangover_ms is None ==> vad.hangover_ms * 5 == 1000
            &&& profile.ws_vad_min_speech_ms matches Some(minimum) ==> vad.minimum_speech_ms == minimum
            &&& profile.ws_vad_min_speech_ms is None ==> vad.minimum_speech_ms == 0
        },
{
}

/// A hangover never outlasts what was asked for, by less than a frame falls short of it, and is one frame
/// at least; a least length of speech is never shorter than what was asked for, by less than a frame
/// exceeds it, and is one frame at least. A packet time of nothing counts as a millisecond.
pub proof fn law_durations_come_in_frames(duration_ms: u32, ptime_ms: u8)
    ensures
        ({
            let frame = if ptime_ms == 0 {
                1int
            } else {
                ptime_ms as int
            };
            let down = frames_down(duration_ms, ptime_ms);
            let up = frames_up(duration_ms, ptime_ms);
            &&& 1 <= down <= up <= down + 1
            &&& duration_ms < frame ==> down == 1
            &&& duration_ms >= frame ==> frame * down <= duration_ms < frame * (down + 1)
            &&& duration_ms == 0 ==> up == 1
            &&& duration_ms > 0 ==> frame * (up - 1) < duration_ms <= frame * up
        }),
{
    let frame = if ptime_ms == 0 {
        1int
    } else {
        ptime_ms as int
    };
    let whole = duration_ms as int / frame;
    let over = (duration_ms as int + frame - 1) / frame;
    vstd::arithmetic::div_mod::lemma_fundamental_div_mod(duration_ms as int, frame);
    vstd::arithmetic::div_mod::lemma_fundamental_div_mod(duration_ms as int + frame - 1, frame);
    vstd::arithmetic::div_mod::lemma_mod_bound(duration_ms as int, frame);
    vstd::arithmetic::div_mod::lemma_mod_bound(duration_ms as int + frame - 1, frame);
    assert(frame * (whole + 1) == frame * whole + frame) by (nonlinear_arith);
    assert(frame * (over - 1) == frame * over - frame) by (nonlinear_arith);
    assert(duration_ms >= frame ==> whole >= 1) by (nonlinear_arith)
        requires
            duration_ms < frame * whole + frame,
            frame >= 1,
    ;
    assert(duration_ms < frame ==> whole < 1) by (nonlinear_arith)
        requires
            duration_ms >= frame * whole,
            frame >= 1,
    ;
    assert(duration_ms > 0 ==> over >= 1) by (nonlinear_arith)
        requires
            duration_ms <= frame * over,
            frame >= 1,
    ;
    assert(duration_ms == 0 ==> over < 1) by (nonlinear_arith)
        requires
            frame * over <= duration_ms + frame - 1,
            frame >= 1,
    ;
    assert(whole <= over <= whole + 1) by (nonlinear_arith)
        requires
            frame * whole <= duration_ms < frame * whole + frame,
            duration_ms <= frame * over <= duration_ms + frame - 1,
            frame >= 1,
    ;
}

/// The redirect of the leg is the last flow that a setup installs, and before it every flow of the displaced
/// relay is switched off; a bridge that displaces no relay installs that one flow alone.
pub proof fn law_leg_is_redirected_last(setup: WsBridgeSetup)
    ensures
        ({
            let flows = setup.installs();
            let last = flows.len() - 1;
            &&& flows.len() >= 1
            &&& flows[last] == (setup.endpoint_a, FlowAction::Redirect)
            &&& setup.takeover is None ==> last == 0
            &&& setup.takeover matches Some(takeover) ==> last == takeover.displace@.len() && flows.take(last)
                == takeover.displace@
        }),
{
    let flows = setup.installs();
    assert(flows.take(flows.len() - 1) =~= setup.displaced());
}

/// What can be refused comes first: a detector that is asked for is built before the dial, the dial comes
/// before the first flow, and a server that was dialled is not dialled again. The energy gate counts its
/// hangover in frames of the leg, and the neural detector listens at the wire's rate.
pub proof fn law_detector_and_dial_come_before_the_flows(setup: BridgeSetup)
    ensures
        setup.detector_step() is BuildDetector <==> setup.request.vad_config is Some,
        setup.request.vad_config is None ==> setup.detector_step() == setup.connect_step(),
        setup.connect_step() is Dial <==> !setup.request.dialled,
        setup.request.dialled ==> setup.connect_step() == setup.first_install(),
        setup.first_install() is Install,
        setup.request.vad_config matches Some(vad) ==> match setup.detector_step()->plan {
            DetectorPlan::Energy { threshold, hangover_frames } => {
                &&& vad.engine is Energy
                &&& threshold == vad.threshold
                &&& hangover_frames == frames_down(vad.hangover_ms, setup.codec.ptime_ms)
            },
            DetectorPlan::Neural { pcm_rate_hz } => vad.engine is Neural && pcm_rate_hz == setup.wire_rate,
        },
{
    if let Some(vad) = setup.request.vad_config {
        law_durations_come_in_frames(vad.hangover_ms, setup.codec.ptime_ms);
        let frame = vstd::math::max(setup.codec.ptime_ms as int, 1);
        assert(vad.hangover_ms as int / frame <= vad.hangover_ms) by (nonlinear_arith)
            requires
                frame >= 1,
        ;
    }
}

/// The first flow touched is one of the displaced relay's, where there is one, and the leg's own otherwise.
pub proof fn law_first_flow(setup: BridgeSetup)
    ensures
        match setup.request.takeover {
            Some(takeover) if takeover.displace@.len() > 0 => setup.first_install() == (SetupStep::Install {
                endpoint: takeover.displace@[0].0,
                action: takeover.displace@[0].1,
            }),
            _ => setup.first_install() == (SetupStep::Install {
                endpoint: setup.request.endpoint_a,
                action: FlowAction::Redirect,
            }),
        },
{
}

/// A failed setup puts back each rule of the relay once, in order, and is refused when the last is back.
pub proof fn law_rollback_goes_through_every_rule(setup: BridgeSetup, done: int)
    requires
        0 <= done,
    ensures
        setup.request.takeover is None ==> setup.rollback(done) is Refused,
        setup.request.takeover matches Some(takeover) ==> {
            &&& setup.rollback(done) is Refused <==> done >= takeover.restore@.len()
            &&& done < takeover.restore@.len() ==> setup.rollback(done) == (SetupStep::Restore {
                endpoint: takeover.restore@[done].0,
                action: takeover.restore@[done].1,
            })
        },
{
}

/// A live call is taken over exactly where the offerer's media is in the clear and without ICE, nothing taps
/// it, it is a plain relay with rules to give back, and the offerer's codec and address are known.
pub proof fn law_when_a_call_is_taken_over(facts: TakeoverFacts)
    ensures
        takeover_refusal(facts) is None <==> {
            &&& !facts.near_secure && !facts.has_ice && !facts.held && !facts.media_call
            &&& facts.pipeline is Passthrough
            &&& facts.relay_flows@.len() > 0
            &&& facts.near_codec is Some
            &&& facts.near_remote is Some
        },
{
}

/// Why a call is not taken over: what the offerer's leg is comes before what taps it, that before what the
/// call is, and that before what is not known.
pub proof fn law_why_a_call_is_not_taken_over(facts: TakeoverFacts)
    ensures
        ({
            let refusal = takeover_refusal(facts);
            let open = !facts.near_secure && !facts.has_ice;
            let relay = facts.pipeline is Passthrough && !facts.media_call;
            &&& facts.near_secure <==> refusal == Some(TakeoverRefusal::SecureOfferer)
            &&& !facts.near_secure && facts.has_ice <==> refusal == Some(TakeoverRefusal::IceOfferer)
            &&& open && facts.held <==> refusal == Some(TakeoverRefusal::Held)
            &&& open && !facts.held && !relay <==> refusal == Some(TakeoverRefusal::NotPlainRelay(facts.pipeline))
            &&& open && !facts.held && relay && facts.relay_flows@.len() == 0 <==> refusal == Some(
                TakeoverRefusal::NotAnswered,
            )
            &&& open && !facts.held && relay && facts.relay_flows@.len() > 0 && facts.near_codec is None
                <==> refusal == Some(TakeoverRefusal::NoCodec)
            &&& refusal == Some(TakeoverRefusal::NoAddress) ==> facts.near_remote is None && facts.near_codec is Some
            &&& refusal != Some(TakeoverRefusal::Untracked) && refusal != Some(TakeoverRefusal::CallGone)
        }),
{
}

/// The filter on an endpoint is that of the first rule that forwards from it, and there is none where no
/// rule does.
pub proof fn law_filter_is_of_the_first_forward(flows: Seq<(EndpointId, FlowAction)>, endpoint: EndpointId)
    ensures
        relay_gate(flows, endpoint) is None <==> forall|i: int|
            0 <= i < flows.len() ==> (#[trigger] flows[i]).0 != endpoint || !(flows[i].1 is Forward),
        relay_gate(flows, endpoint) matches Some(filter) ==> exists|i: int|
            {
                &&& 0 <= i < flows.len()
                &&& (#[trigger] flows[i]).0 == endpoint
                &&& flows[i].1 matches FlowAction::Forward(rule) && rule.accepted_source == filter
                &&& forall|j: int| 0 <= j < i ==> (#[trigger] flows[j]).0 != endpoint || !(flows[j].1 is Forward)
            },
    decreases flows.len(),
{
    if flows.len() > 0 {
        let rest = flows.skip(1);
        law_filter_is_of_the_first_forward(rest, endpoint);
        if flows[0].0 == endpoint && flows[0].1 is Forward {
            assert(relay_gate(flows, endpoint) is Some);
        } else {
            assert(relay_gate(flows, endpoint) == relay_gate(rest, endpoint));
            if relay_gate(rest, endpoint) is None {
                assert forall|i: int| 0 <= i < flows.len() implies (#[trigger] flows[i]).0 != endpoint || !(
                flows[i].1 is Forward) by {
                    if i > 0 {
                        assert(rest[i - 1] == flows[i]);
                    }
                }
            } else {
                let filter = relay_gate(rest, endpoint)->Some_0;
                let k = choose|i: int|
                    {
                        &&& 0 <= i < rest.len()
                        &&& (#[trigger] rest[i]).0 == endpoint
                        &&& rest[i].1 matches FlowAction::Forward(rule) && rule.accepted_source == filter
                        &&& forall|j: int| 0 <= j < i ==> (#[trigger] rest[j]).0 != endpoint || !(
                        rest[j].1 is Forward)
                    };
                assert(flows[k + 1] == rest[k]);
                assert forall|j: int| 0 <= j < k + 1 implies (#[trigger] flows[j]).0 != endpoint || !(
                flows[j].1 is Forward) by {
                    if j > 0 {
                        assert(rest[j - 1] == flows[j]);
                    }
                }
            }
        }
    }
}

/// A taken-over call answers the offerer where its media was seen to come from; where none was seen, at the
/// address its signalling came from, or else the signalled one, on the signalled port. The filter stays the
/// relay's; without one, only the address aimed at is let in.
pub proof fn law_takeover_answers_where_media_came_from(setup: WsBridgeSetup, facts: TakeoverFacts)
    requires
        takeover_setup(setup, facts),
        facts.near_remote is Some,
    ensures
        facts.latched_source matches Some(observed) ==> setup.a_rtp == observed,
        facts.latched_source is None ==> setup.a_rtp.port == facts.near_remote->Some_0.port,
        facts.latched_source is None && facts.received_from is None ==> setup.a_rtp == facts.near_remote->Some_0,
        facts.latched_source is None && facts.received_from is Some ==> setup.a_rtp.ip == facts.received_from->Some_0,
        forall|i: int| #![trigger facts.relay_flows@[i]]
            {
                &&& 0 <= i < facts.relay_flows@.len()
                &&& facts.relay_flows@[i].0 == facts.near_endpoint
                &&& facts.relay_flows@[i].1 is Forward
                &&& forall|j: int|
                    0 <= j < i ==> (#[trigger] facts.relay_flows@[j]).0 != facts.near_endpoint || !(
                    facts.relay_flows@[j].1 is Forward)
            } ==> setup.accepted_source == facts.relay_flows@[i].1->Forward_0.accepted_source,
        (forall|i: int|
            0 <= i < facts.relay_flows@.len() ==> (#[trigger] facts.relay_flows@[i]).0 != facts.near_endpoint || !(
            facts.relay_flows@[i].1 is Forward)) ==> setup.accepted_source == SourceFilter::Exact(
            match facts.received_from {
                Some(ip) => ip,
                None => facts.near_remote->Some_0.ip,
            },
        ),
{
    law_filter_is_of_the_first_forward(facts.relay_flows@, facts.near_endpoint);
    let gate = relay_gate(facts.relay_flows@, facts.near_endpoint);
    if let Some(filter) = gate {
        let k = choose|i: int|
            {
                &&& 0 <= i < facts.relay_flows@.len()
                &&& (#[trigger] facts.relay_flows@[i]).0 == facts.near_endpoint
                &&& facts.relay_flows@[i].1 matches FlowAction::Forward(rule) && rule.accepted_source == filter
                &&& forall|j: int|
                    0 <= j < i ==> (#[trigger] facts.relay_flows@[j]).0 != facts.near_endpoint || !(
                    facts.relay_flows@[j].1 is Forward)
            };
        assert(facts.relay_flows@[k].0 == facts.near_endpoint);
    }
}

/// A takeover keeps what it has to give back: every rule of the relay verbatim, and the kind of its pipeline;
/// and it switches off each of those rules, none left out. It brings no processing of its own.
pub proof fn law_takeover_keeps_what_it_gives_back(setup: WsBridgeSetup, facts: TakeoverFacts)
    requires
        takeover_setup(setup, facts),
    ensures
        setup.takeover is Some,
        setup.takeover->Some_0.restore@ == facts.relay_flows@,
        setup.takeover->Some_0.restore_pipeline == facts.pipeline,
        setup.takeover->Some_0.displace@.len() == facts.relay_flows@.len(),
        forall|i: int| #![trigger setup.takeover->Some_0.displace@[i]]
            0 <= i < facts.relay_flows@.len() ==> setup.takeover->Some_0.displace@[i].0 == facts.relay_flows@[i].0
                && setup.takeover->Some_0.displace@[i].1 is Drop,
        setup.endpoint_a == facts.near_endpoint,
        setup.codec == facts.near_codec,
        !setup.dialled && !setup.reuse_egress,
        !setup.ice_pending && !setup.secure,
        setup.wire_sample_rate is None && setup.vad_config is None,
        !setup.noise_suppression && !setup.echo.enabled,
{
}

/// A bridge that is pointed elsewhere changes nothing but its server: the leg, its address, its codec, its
/// filter and its processing are those of the running bridge, and so is the relay it has to give back. The
/// new server has been dialled by then, and the leg's outgoing stream goes on.
pub proof fn law_repointing_changes_the_server_alone(setup: WsBridgeSetup, route: RouteState, running: WsBridge)
    requires
        repoint_setup(setup, route, running),
    ensures
        setup.endpoint_a == route.endpoint_a,
        setup.accepted_source == route.accepted_source,
        setup.ice_pending == route.ice_pending,
        setup.secure == route.secure,
        setup.a_rtp == running.a_rtp,
        setup.codec == Some(running.codec),
        setup.wire_sample_rate == running.wire_sample_rate,
        setup.noise_suppression == running.noise_suppression,
        setup.echo == running.echo,
        setup.vad_config == running.vad_config,
        setup.takeover == running.takeover,
        setup.reuse_egress,
        setup.dialled,
{
}

/// The stream of a bridge is named after its call, so that two calls never share a name.
pub proof fn law_bridge_streams_are_named_by_call(first: Seq<char>, second: Seq<char>)
    ensures
        bridge_stream_id(first).len() == 3 + first.len(),
        bridge_stream_id(first).take(3) == seq!['w', 's', '-'],
        bridge_stream_id(first).skip(3) == first,
        bridge_stream_id(first) == bridge_stream_id(second) ==> first == second,
{
    reveal_strlit("ws-");
    assert(bridge_stream_id(first).take(3) =~= seq!['w', 's', '-']);
    assert(bridge_stream_id(first).skip(3) =~= first);
    assert(bridge_stream_id(second).skip(3) =~= second);
}

/// A bridge converts between the rate of its leg and that on the wire, which is the one that was asked for and
/// found good, or the leg's where none was; and the wire is one channel of 16-bit samples at that rate, in
/// packets as long as the leg's.
pub proof fn law_bridge_runs_at_the_asked_rate(setup: BridgeSetup, leg_rate: u32, good: u32)
    ensures
        ({
            let built = setup.codecs_on(Ok(leg_rate));
            let checked = built.rate_on(Ok(good));
            &&& match setup.request.wire_sample_rate {
                Some(asked) => {
                    &&& setup.codecs_step(Ok(leg_rate)) == (SetupStep::ValidateRate { requested: asked })
                    &&& built.rate_step(Ok(good)) == (SetupStep::BuildResamplers { leg_rate, wire_rate: good })
                    &&& checked.format().sample_rate == good
                },
                None => {
                    &&& setup.codecs_step(Ok(leg_rate)) == (SetupStep::BuildResamplers {
                        leg_rate,
                        wire_rate: leg_rate,
                    })
                    &&& built.format().sample_rate == leg_rate
                },
            }
            &&& built.leg_rate == leg_rate && checked.leg_rate == leg_rate
            &&& checked.format().channels == 1
            &&& checked.format().bit_depth == 16
            &&& setup.codec.ptime_ms >= 1 ==> checked.format().ptime == setup.codec.ptime_ms
            &&& checked.request == setup.request && checked.codec == setup.codec
            &&& checked.position == setup.position && checked.failure == setup.failure
        }),
{
}

/// Whatever is refused before the dial ends the setup with nothing done and the reason kept.
pub proof fn law_refused_codec_or_rate_ends_the_setup(setup: BridgeSetup, error: String)
    ensures
        setup.codecs_step(Err(error)) is Refused,
        setup.rate_step(Err(error)) is Refused,
        setup.codecs_on(Err(error)).failure == Some(SetupRefusal::Unserviceable { error }),
        setup.rate_on(Err(error)).failure == Some(SetupRefusal::Unserviceable { error }),
        setup.codecs_on(Err(error)).position == setup.position,
        setup.rate_on(Err(error)).position == setup.position,
{
}

/// The flows are installed one after the other, and the bridge starts after the last. A flow that fails names
/// itself by its place: one of the relay's, or the leg's own, which is the last; and then the whole relay is put
/// back from its first rule on, or the setup ends where there is none.
pub proof fn law_flows_are_installed_one_by_one(setup: BridgeSetup, error: String)
    requires
        setup.position < setup.request.installs().len(),
        setup.position < usize::MAX,
    ensures
        ({
            let flows = setup.request.installs();
            let next = setup.position + 1;
            &&& setup.flow_on(Ok(())).position == next
            &&& setup.flow_on(Ok(())).failure == setup.failure
            &&& setup.flow_step(Ok(())) is Start <==> next == flows.len()
            &&& next < flows.len() ==> setup.flow_step(Ok(())) == (SetupStep::Install {
                endpoint: flows[next].0,
                action: flows[next].1,
            })
            &&& next == flows.len() ==> setup.flow_on(Err(error)).failure == Some(SetupRefusal::Redirect { error })
            &&& next < flows.len() ==> setup.flow_on(Err(error)).failure == Some(SetupRefusal::Displace { error })
            &&& setup.flow_on(Err(error)).position == 0
            &&& match setup.request.takeover {
                Some(takeover) if takeover.restore@.len() > 0 => setup.flow_step(Err(error)) == (SetupStep::Restore {
                    endpoint: takeover.restore@[0].0,
                    action: takeover.restore@[0].1,
                }),
                _ => setup.flow_step(Err(error)) is Refused,
            }
        }),
{
}

/// A detach of one's own call gives a taken-over relay back as the pipeline it was; of a negotiated bridge there
/// is nothing to give back, and without a bridge nothing to do. Another's call is not known.
pub proof fn law_what_a_detach_does(running: WsBridge)
    ensures
        detach_of(false, Some(running)) is UnknownCall,
        detach_of(false, None) is UnknownCall,
        detach_of(true, None) is Nothing,
        running.takeover is None <==> detach_of(true, Some(running)) is Negotiated,
        running.takeover matches Some(takeover) ==> detach_of(true, Some(running)) == (DetachDecision::Restore {
            pipeline: takeover.restore_pipeline,
        }),
{
}

/// A refusal begins with its code, by which a controller tells it.
pub proof fn law_refusals_begin_with_their_code(pipeline: PipelineKind)
    ensures
        TakeoverRefusal::Untracked.text().take(20) == "ws-bridge-untracked:"@,
        TakeoverRefusal::SecureOfferer.text().take(27) == "ws-takeover-secure-offerer:"@,
        TakeoverRefusal::IceOfferer.text().take(24) == "ws-takeover-ice-offerer:"@,
        TakeoverRefusal::Held.text().take(25) == "ws-takeover-call-is-held:"@,
        TakeoverRefusal::NotPlainRelay(pipeline).text().take(30) == "ws-takeover-not-a-plain-relay:"@,
        TakeoverRefusal::NotAnswered.text().take(25) == "ws-takeover-not-answered:"@,
{
    reveal_strlit("ws-bridge-untracked:");
    reveal_strlit("ws-takeover-secure-offerer:");
    reveal_strlit("ws-takeover-ice-offerer:");
    reveal_strlit("ws-takeover-call-is-held:");
    reveal_strlit("ws-takeover-not-a-plain-relay:");
    reveal_strlit("ws-takeover-not-answered:");
    reveal_strlit("ws-bridge-untracked: the call has a WebSocket route with no bridge record; delete the call");
    reveal_strlit("ws-takeover-secure-offerer: a WebSocket takeover on a secure (SRTP) offerer is not supported on a two-leg call — the engine is not that leg's cryptographic far side, so the bridge would receive ciphertext and answer in the clear; negotiate the takeover with answer_local instead");
    reveal_strlit("ws-takeover-ice-offerer: a WebSocket takeover on an ICE leg is not supported here — no ICE agent is armed for a takeover leg on a two-leg call, so its downlink would never follow the selected pair; negotiate the takeover with answer_local, or ICE=remove to drop ICE");
    reveal_strlit("ws-takeover-call-is-held: a recording, SIPREC subscription, WebSocket tee, DTMF block or lawful-interception delivery is attached to this call and taps the media path a takeover removes; stop it first");
    reveal_strlit("ws-takeover-not-a-plain-relay: only a plain two-party relay can be taken over at runtime, and this call is ");
    reveal_strlit("ws-takeover-not-answered: the call has no two-party relay to take over (it is unanswered, or was answered locally, so there is no second party a detach could hand it back to); negotiate the takeover with ws_uri instead");
    assert(TakeoverRefusal::Untracked.text().take(20) =~= "ws-bridge-untracked:"@);
    assert(TakeoverRefusal::SecureOfferer.text().take(27) =~= "ws-takeover-secure-offerer:"@);
    assert(TakeoverRefusal::IceOfferer.text().take(24) =~= "ws-takeover-ice-offerer:"@);
    assert(TakeoverRefusal::Held.text().take(25) =~= "ws-takeover-call-is-held:"@);
    assert(TakeoverRefusal::NotPlainRelay(pipeline).text().take(30) =~= "ws-takeover-not-a-plain-relay:"@);
    assert(TakeoverRefusal::NotAnswered.text().take(25) =~= "ws-takeover-not-answered:"@);
}

} // verus!
