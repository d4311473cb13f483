//! WebSocket takeover and tee, teardown and telemetry of calls.
use siphon_rtp_engine::engine::call::{
    CallEndpoint, CallLeg, ClientId, CodecSpec, CommandOutcome, FlowAction, ForwardRule, LatchPolicy, PipelineKind,
};
use siphon_rtp_engine::engine::takeover::{
    attach_ws_bridge, detach_answer, detach_ws_bridge, is_expected_end, negotiated_detach_message, plan_repoint,
    plan_takeover, restore_displaced_relay, start_ws_bridge, stop_ws_bridge, ws_takeover_media_address, BridgeSetup, DetachDecision, DetectorPlan,
    EchoProfile, RouteState, SetupRefusal, SetupStep, StartPlan, StopBridgeAction, TakeoverFacts, TakeoverRefusal, VadProfile,
    WsBridge, WsBridgeSetup, WsMediaFormat, WsVadConfig, WsVadEngine,
};
use siphon_rtp_engine::engine::teardown::{
    add_counters, advertised_address, call_duration_ms, call_summary, delete, finish_actions, finish_call, format_call_offset,
    leg_counters, leg_summary, log_cdr_leg, observed_remote, teardown_call, DirectionQuality,
    EndpointStats, FinalCallQuality, FinishFacts, LegMedia, MosBasis, TeardownAction, TextStreamStats,
};
use siphon_rtp_engine::engine::tee::{
    apply_profile_ws_tee, attach_ws_tee, detach_ws_tee, start_ws_tee, stop_ws_tee, tees_on_answer,
    upgrade_relay_to_processing, AttachStep, StopTeeAction, Subscription, TeeAttach, TeeFacts, TeeRefusal,
    TeeSetup, TeeStep, TeeTap, WsTee,
};
use siphon_rtp_engine::engine::telemetry::{
    export_text_qos, for_each_reception_block, owner_and_tag_for_endpoint, qos_codec_for_endpoint, run_rtcp_export,
    text_stream_addresses, CaptureBody, CaptureStamp, ObservedCall, ObservedRtcp, TextDirection,
};
use siphon_rtp_engine::event::{Event, WsEndReason, WsTeeDirection};
use siphon_rtp_engine::ha::EndpointRole;
use siphon_rtp_engine::media_pipeline::call::{Leg, QualitySample};
use siphon_rtp_engine::media_pipeline::rtcp::{ReceptionBlock, RtcpReport};
use siphon_rtp_engine::media_pipeline::step::RawTee;
use siphon_rtp_engine::net::{EndpointId, IpAddress, SocketAddress, SourceFilter};

fn at(last: u8, port: u16) -> SocketAddress {
    SocketAddress::new(IpAddress::V4(192, 0, 2, last), port)
}

fn pcmu(ptime_ms: u8) -> CodecSpec {
    CodecSpec { payload_type: 0, encoding_name: "PCMU".to_string(), clock_rate_hz: 8000, channels: 1, ptime_ms }
}

fn forward(out: u64, dst: SocketAddress, source: SocketAddress) -> FlowAction {
    FlowAction::Forward(ForwardRule {
        out: EndpointId(out),
        out_dst: Some(dst),
        accepted_source: SourceFilter::Exact(source.ip),
        latch: LatchPolicy::SignalledOnly,
    })
}

/// An answered plain relay: endpoint 1 faces the offerer at `.1`, endpoint 2 the answerer at `.2`.
fn relay() -> TakeoverFacts {
    TakeoverFacts {
        pipeline: PipelineKind::Passthrough,
        near_endpoint: EndpointId(1),
        near_remote: Some(at(1, 5000)),
        near_codec: Some(pcmu(20)),
        relay_flows: vec![
            (EndpointId(1), forward(2, at(2, 6000), at(1, 5000))),
            (EndpointId(2), forward(1, at(1, 5000), at(2, 6000))),
        ],
        near_secure: false,
        has_ice: false,
        received_from: None,
        latched_source: None,
        held: false,
        media_call: false,
    }
}

fn takeover(facts: TakeoverFacts) -> Result<WsBridgeSetup, TakeoverRefusal> {
    plan_takeover("call-1".to_string(), "ws://bot.invalid/".to_string(), Some(facts))
}

fn begun(setup: WsBridgeSetup) -> BridgeSetup {
    setup.begin(Some(("tag-a".to_string(), ClientId(3)))).expect("the call is there")
}

#[test]
fn a_takeover_keeps_what_the_relay_knew() {
    let setup = takeover(relay()).expect("plan");
    assert_eq!(setup.endpoint_a, EndpointId(1));
    assert_eq!(setup.a_rtp, at(1, 5000));
    assert_eq!(setup.accepted_source, SourceFilter::Exact(at(1, 5000).ip));
    let displaced = setup.takeover.expect("a takeover");
    assert_eq!(displaced.restore_pipeline, PipelineKind::Passthrough);
    assert_eq!(displaced.displace, vec![(EndpointId(1), FlowAction::Drop), (EndpointId(2), FlowAction::Drop)]);
    assert_eq!(displaced.restore, relay().relay_flows);
    let mut facts = relay();
    facts.latched_source = Some(at(9, 44444));
    assert_eq!(takeover(facts).expect("plan").a_rtp, at(9, 44444), "the observed source wins");
}

#[test]
fn the_received_from_hint_replaces_the_signalled_address() {
    let hint = IpAddress::V4(203, 0, 113, 7);
    assert_eq!(ws_takeover_media_address(at(1, 5000), None), at(1, 5000));
    assert_eq!(ws_takeover_media_address(at(1, 5000), Some(hint)), SocketAddress::new(hint, 5000));
    let mut facts = relay();
    facts.received_from = Some(hint);
    facts.relay_flows = vec![(EndpointId(2), FlowAction::Redirect)];
    let setup = takeover(facts).expect("plan");
    assert_eq!(setup.accepted_source, SourceFilter::Exact(hint), "no relay rule to take the source from");
}

#[test]
fn a_takeover_is_refused_for_a_reason() {
    let refused = |change: fn(&mut TakeoverFacts)| {
        let mut facts = relay();
        change(&mut facts);
        takeover(facts).expect_err("refused").message()
    };
    assert!(refused(|facts| facts.near_secure = true).starts_with("ws-takeover-secure-offerer"));
    assert!(refused(|facts| facts.has_ice = true).starts_with("ws-takeover-ice-offerer"));
    assert!(refused(|facts| facts.held = true).starts_with("ws-takeover-call-is-held"));
    assert!(refused(|facts| facts.media_call = true).starts_with("ws-takeover-not-a-plain-relay"));
    assert!(refused(|facts| facts.pipeline = PipelineKind::Srtp).starts_with("ws-takeover-not-a-plain-relay"));
    assert!(refused(|facts| facts.relay_flows = Vec::new()).starts_with("ws-takeover-not-answered"));
    assert!(refused(|facts| facts.near_codec = None).contains("no negotiated codec"));
    assert!(refused(|facts| facts.near_remote = None).contains("no signalled address"));
    let gone = plan_takeover("call-1".to_string(), "ws://x".to_string(), None).expect_err("refused");
    assert_eq!(gone.message(), "call no longer exists");
}

#[test]
fn a_bridge_is_set_up_step_by_step() {
    let mut setup = begun(takeover(relay()).expect("plan"));
    assert!(matches!(setup.first(), SetupStep::BuildCodecs));
    assert!(matches!(setup.codecs_built(Ok(8000)), SetupStep::BuildResamplers { leg_rate: 8000, wire_rate: 8000 }));
    assert!(matches!(setup.resamplers_built(Ok(())), SetupStep::Dial));
    let mut installed = Vec::new();
    let mut step = setup.dialled(Ok(()));
    while let SetupStep::Install { endpoint, action } = step {
        installed.push((endpoint, action));
        step = setup.flow_installed(Ok(()));
    }
    assert_eq!(
        installed,
        vec![
            (EndpointId(1), FlowAction::Drop),
            (EndpointId(2), FlowAction::Drop),
            (EndpointId(1), FlowAction::Redirect)
        ]
    );
    assert!(matches!(step, SetupStep::Start));
    match setup.started_event() {
        Event::WsBridgeStarted { call_id, from_tag, stream_id, ws_uri, sample_rate } => {
            assert_eq!((call_id.as_str(), from_tag.as_str(), stream_id.as_str()), ("call-1", "tag-a", "ws-call-1"));
            assert_eq!((ws_uri.as_str(), sample_rate), ("ws://bot.invalid/", 8000));
        }
        other => panic!("expected the start of a bridge, got {other:?}"),
    }
    assert_eq!(
        setup.media_format(),
        WsMediaFormat { sample_rate: 8000, channels: 1, bit_depth: 16, ptime: 20 }
    );
    let mut bridge = setup.into_bridge();
    assert!(matches!(
        detach_ws_bridge(true, Some(&bridge)),
        DetachDecision::Restore { pipeline: PipelineKind::Passthrough }
    ));
    let name = "call-1".to_string();
    match bridge.end(&name, WsEndReason::ServerClosed) {
        Some(Event::WsBridgeEnded { stream_id, reason, .. }) => {
            assert_eq!((stream_id.as_str(), reason), ("ws-call-1", WsEndReason::ServerClosed));
        }
        other => panic!("expected the end of a bridge, got {other:?}"),
    }
    assert!(bridge.end(&name, WsEndReason::CallEnded).is_none(), "an end is reported once");
}

#[test]
fn a_takeover_that_fails_puts_the_relay_back() {
    for failing in 0..3 {
        let mut setup = begun(takeover(relay()).expect("plan"));
        setup.codecs_built(Ok(8000));
        setup.resamplers_built(Ok(()));
        let mut table = relay().relay_flows;
        let mut step = setup.dialled(Ok(()));
        for _ in 0..failing {
            if let SetupStep::Install { endpoint, action } = step {
                for flow in &mut table {
                    if flow.0 == endpoint {
                        flow.1 = action;
                    }
                }
            }
            step = setup.flow_installed(Ok(()));
        }
        step = setup.flow_installed(Err("no room".to_string()));
        while let SetupStep::Restore { endpoint, action } = step {
            for flow in &mut table {
                if flow.0 == endpoint {
                    flow.1 = action;
                }
            }
            step = setup.flow_restored();
        }
        assert!(matches!(step, SetupStep::Refused));
        assert_eq!(table, relay().relay_flows, "failed at {failing}");
        let message = setup.failure.expect("a reason").message(&"ws://x".to_string());
        if failing < 2 {
            assert_eq!(message, "displace relay flow for WS takeover: no room");
        } else {
            assert_eq!(message, "install WS bridge redirect: no room");
        }
    }
}

#[test]
fn a_setup_is_refused_for_a_reason() {
    let uri = "ws://bot.invalid/".to_string();
    let gone = takeover(relay()).expect("plan").begin(None).expect_err("refused");
    assert_eq!(gone.message(&uri), "call no longer exists");
    let mut bare = takeover(relay()).expect("plan");
    bare.codec = None;
    let refusal = bare.begin(Some(("tag-a".to_string(), ClientId(3)))).expect_err("refused");
    assert!(matches!(refusal, SetupRefusal::NoCodec));
    let mut setup = begun(takeover(relay()).expect("plan"));
    assert!(matches!(setup.codecs_built(Err("no such codec".to_string())), SetupStep::Refused));
    assert_eq!(setup.failure.expect("a reason").message(&uri), "no such codec");
    let mut setup = begun(takeover(relay()).expect("plan"));
    setup.codecs_built(Ok(8000));
    setup.resamplers_built(Ok(()));
    assert!(matches!(setup.dialled(Err("refused".to_string())), SetupStep::Refused));
    assert_eq!(setup.failure.expect("a reason").message(&uri), "dial ws://bot.invalid/: refused");
}

fn bridge(takeover: bool) -> WsBridge {
    let mut planned = plan_takeover("call-1".to_string(), "ws://old".to_string(), Some(relay())).expect("plan");
    planned.wire_sample_rate = Some(16000);
    if !takeover {
        planned.takeover = None;
    }
    begun(planned).into_bridge()
}

fn route() -> RouteState {
    RouteState {
        endpoint_a: EndpointId(1),
        accepted_source: SourceFilter::Any,
        ice_pending: false,
        secure: false,
    }
}

#[test]
fn a_running_bridge_is_pointed_elsewhere() {
    let setup = plan_repoint("call-1".to_string(), "ws://new".to_string(), route(), Some(bridge(true))).expect("plan");
    assert_eq!(setup.ws_uri, "ws://new");
    assert_eq!(setup.accepted_source, SourceFilter::Any);
    assert_eq!(setup.wire_sample_rate, Some(16000));
    assert!(setup.reuse_egress);
    let untracked =
        plan_repoint("call-1".to_string(), "ws://new".to_string(), route(), None).expect_err("refused");
    assert!(untracked.message().starts_with("ws-bridge-untracked"));
    let (call, uri) = ("call-1".to_string(), "ws://new".to_string());
    let repointed = start_ws_bridge(call.clone(), uri.clone(), Some(route()), Some(bridge(true)), Some(relay()));
    assert!(matches!(repointed, Ok(StartPlan::Repoint { .. })));
    assert!(matches!(start_ws_bridge(call, uri, None, None, Some(relay())), Ok(StartPlan::Takeover { .. })));
}

#[test]
fn only_a_takeover_is_detached() {
    assert!(matches!(detach_ws_bridge(false, None), DetachDecision::UnknownCall));
    assert!(matches!(detach_ws_bridge(true, None), DetachDecision::Nothing));
    assert!(matches!(detach_ws_bridge(true, Some(&bridge(false))), DetachDecision::Negotiated));
    assert!(negotiated_detach_message().starts_with("ws-bridge-negotiated"));
    assert_eq!(restore_displaced_relay(&vec![None, None]), None);
    assert_eq!(
        restore_displaced_relay(&vec![None, Some("first".to_string()), Some("second".to_string())]),
        Some("first".to_string())
    );
    assert!(is_expected_end(WsEndReason::CallEnded));
    assert!(!is_expected_end(WsEndReason::TransportError));
}

#[test]
fn turn_taking_is_configured_in_milliseconds() {
    let mut profile = VadProfile {
        ws_vad: false,
        ws_barge_in: false,
        ws_vad_engine: None,
        ws_vad_threshold: None,
        ws_vad_hangover_ms: None,
        ws_vad_min_speech_ms: None,
    };
    assert!(WsVadConfig::from_profile(&profile).is_none());
    profile.ws_barge_in = true;
    profile.ws_vad_min_speech_ms = Some(50);
    let config = WsVadConfig::from_profile(&profile).expect("barge-in detects");
    assert_eq!((config.threshold, config.hangover_ms, config.barge_in), (1_000_000, 200, true));
    assert_eq!(config.hangover_frames(30), 6);
    assert_eq!(config.hangover_frames(0), 200);
    assert_eq!(config.minimum_speech_frames(20), 3);
    assert_eq!(config.minimum_speech_frames(255), 1);
    assert_eq!(
        config.build_detector(8000, 20),
        DetectorPlan::Energy { threshold: 1_000_000, hangover_frames: 10 }
    );
    profile.ws_vad_engine = Some(WsVadEngine::Neural);
    let neural = WsVadConfig::from_profile(&profile).expect("config");
    assert_eq!(neural.build_detector(16000, 20), DetectorPlan::Neural { pcm_rate_hz: 16000 });
    let mut planned = takeover(relay()).expect("plan");
    planned.vad_config = Some(neural);
    planned.takeover = None;
    planned.echo = EchoProfile { enabled: false };
    let mut setup = begun(planned);
    setup.codecs_built(Ok(8000));
    assert!(matches!(
        setup.resamplers_built(Ok(())),
        SetupStep::BuildDetector { plan: DetectorPlan::Neural { pcm_rate_hz: 8000 } }
    ));
    assert!(matches!(setup.detector_built(Err("no model".to_string())), SetupStep::Refused));
    assert_eq!(
        setup.failure.expect("a reason").message(&"ws://x".to_string()),
        "neural VAD unavailable for a 8000 Hz leg: no model"
    );
}

#[test]
fn a_detector_is_built_before_the_call_is_touched() {
    let profile = VadProfile {
        ws_vad: true,
        ws_barge_in: false,
        ws_vad_engine: Some(WsVadEngine::Neural),
        ws_vad_threshold: None,
        ws_vad_hangover_ms: None,
        ws_vad_min_speech_ms: None,
    };
    for dialled in [false, true] {
        let mut planned = takeover(relay()).expect("plan");
        planned.vad_config = WsVadConfig::from_profile(&profile);
        planned.dialled = dialled;
        let mut refused = begun(planned.clone());
        refused.codecs_built(Ok(8000));
        assert!(matches!(refused.resamplers_built(Ok(())), SetupStep::BuildDetector { .. }));
        assert!(matches!(refused.detector_built(Err("no model".to_string())), SetupStep::Refused));
        assert_eq!(refused.position, 0, "no flow was touched");
        let mut setup = begun(planned);
        setup.codecs_built(Ok(8000));
        setup.resamplers_built(Ok(()));
        let mut step = setup.detector_built(Ok(()));
        if !dialled {
            assert!(matches!(step, SetupStep::Dial));
            step = setup.dialled(Ok(()));
        }
        let mut flows = 0;
        while let SetupStep::Install { .. } = step {
            flows += 1;
            step = setup.flow_installed(Ok(()));
        }
        assert_eq!(flows, 3);
        assert!(matches!(step, SetupStep::Start), "nothing can refuse the bridge any more");
    }
}

#[test]
fn the_wire_rate_can_be_asked_for() {
    let mut planned = takeover(relay()).expect("plan");
    planned.wire_sample_rate = Some(16000);
    let mut setup = begun(planned);
    assert!(matches!(setup.codecs_built(Ok(8000)), SetupStep::ValidateRate { requested: 16000 }));
    assert!(matches!(
        setup.rate_validated(Ok(16000)),
        SetupStep::BuildResamplers { leg_rate: 8000, wire_rate: 16000 }
    ));
    assert_eq!(setup.media_format().sample_rate, 16000);
}

fn tee_facts() -> TeeFacts {
    TeeFacts {
        pipeline: PipelineKind::Passthrough,
        taken_over: false,
        caller_ptime_ms: Some(30),
        caller_rate: Some(Ok(8000)),
        callee_rate: Some(Ok(16000)),
        two_leg: true,
    }
}

#[test]
fn a_tee_carries_the_asked_parties() {
    let call = "call-1".to_string();
    let plan = start_ws_tee(&call, Some(tee_facts()), WsTeeDirection::Both, None, None).expect("plan");
    assert_eq!(plan.stream_id, "tee-call-1");
    assert_eq!(plan.taps, vec![TeeTap { leg: Leg::A, rate: Some(8000) }, TeeTap { leg: Leg::B, rate: Some(16000) }]);
    assert_eq!(plan.format, WsMediaFormat { sample_rate: 8000, channels: 2, bit_depth: 16, ptime: 30 });
    let mono = start_ws_tee(&call, Some(tee_facts()), WsTeeDirection::Both, Some(1), Some(Ok(48000))).expect("plan");
    assert_eq!((mono.format.channels, mono.format.sample_rate), (1, 48000));
    let callee = start_ws_tee(&call, Some(tee_facts()), WsTeeDirection::Callee, Some(2), None).expect("plan");
    assert_eq!((callee.format.channels, callee.format.sample_rate), (1, 16000));
    assert!(callee.callee_only && !callee.stereo_source);
}

#[test]
fn a_tee_is_refused_for_a_reason() {
    let call = "call-1".to_string();
    let refused = |change: fn(&mut TeeFacts), direction: WsTeeDirection| {
        let mut facts = tee_facts();
        change(&mut facts);
        start_ws_tee(&call, Some(facts), direction, None, None).expect_err("refused")
    };
    assert!(matches!(refused(|facts| facts.taken_over = true, WsTeeDirection::Both), TeeRefusal::TakenOver));
    assert!(matches!(
        refused(|facts| facts.pipeline = PipelineKind::Srtp, WsTeeDirection::Both),
        TeeRefusal::CryptoBridge
    ));
    assert!(matches!(refused(|facts| facts.two_leg = false, WsTeeDirection::Callee), TeeRefusal::NoCallee));
    assert!(matches!(refused(|facts| facts.caller_rate = None, WsTeeDirection::Both), TeeRefusal::NoCallerCodec));
    assert!(matches!(refused(|facts| facts.callee_rate = None, WsTeeDirection::Callee), TeeRefusal::NoCalleeCodec));
    assert_eq!(
        refused(|facts| facts.caller_rate = Some(Err("odd rate".to_string())), WsTeeDirection::Both).message(),
        "odd rate"
    );
    assert!(matches!(
        start_ws_tee(&call, None, WsTeeDirection::Both, None, None),
        Err(TeeRefusal::CallGone)
    ));
    assert_eq!(TeeRefusal::ActorUnavailable.message(), "media actor unavailable");
    let dial = TeeRefusal::Dial { ws_uri: "ws://x".to_string(), error: "refused".to_string() };
    assert_eq!(dial.message(), "dial ws://x: refused");
}

#[test]
fn a_tap_that_is_not_taken_undoes_the_others() {
    let mut attach = TeeAttach::begin(vec![Leg::A, Leg::B]);
    assert_eq!(attach.step(), AttachStep::AddTap { leg: Leg::A });
    attach.tap_added(true);
    assert_eq!(attach.step(), AttachStep::AddTap { leg: Leg::B });
    attach.tap_added(false);
    assert_eq!(attach.step(), AttachStep::RemoveTap { leg: Leg::A });
    attach.tap_removed();
    assert_eq!(attach.step(), AttachStep::ReleaseHold);
    let mut attach = TeeAttach::begin(vec![Leg::B]);
    attach.tap_added(true);
    assert_eq!(attach.step(), AttachStep::Attached);
}

#[test]
fn a_tee_touches_the_call_only_once_it_is_dialled() {
    let call = "call-1".to_string();
    let plan = || start_ws_tee(&call, Some(tee_facts()), WsTeeDirection::Both, None, None).expect("plan");
    let mut setup = TeeSetup::begin(plan(), "ws://x".to_string());
    assert_eq!(setup.first(), TeeStep::BuildConverter { leg: Leg::A, leg_rate: 8000, wire_rate: 8000 });
    assert_eq!(
        setup.converter_built(Ok(())),
        TeeStep::BuildConverter { leg: Leg::B, leg_rate: 16000, wire_rate: 8000 }
    );
    assert_eq!(setup.converter_built(Ok(())), TeeStep::Dial);
    assert_eq!(setup.dialled(Ok(()), false, true), TeeStep::Upgrade);
    assert_eq!(setup.upgraded(Ok(())), TeeStep::Hold);
    assert_eq!(setup.held(Ok(())), TeeStep::AddTap { leg: Leg::A });
    assert_eq!(setup.tap_added(true), TeeStep::AddTap { leg: Leg::B });
    assert_eq!(setup.tap_added(true), TeeStep::Start);
    let tee = setup.started(Some(("tag-a".to_string(), ClientId(4)))).expect("the call is there");
    assert_eq!((tee.from_tag.as_str(), tee.owner, tee.ended), ("tag-a", ClientId(4), false));
    assert_eq!(tee.tapped_legs, vec![Leg::A, Leg::B]);
    assert_eq!(tee.stream_id, plan().stream_id);
    let mut refused = TeeSetup::begin(plan(), "ws://x".to_string());
    refused.first();
    assert_eq!(refused.converter_built(Err("odd rate".to_string())), TeeStep::Refused);
    assert_eq!(refused.failure.expect("a reason").message(), "odd rate");
    let mut undialled = TeeSetup::begin(plan(), "ws://x".to_string());
    assert_eq!(undialled.dialled(Err("refused".to_string()), true, true), TeeStep::Refused);
    assert!(!undialled.replacing, "the older tee is left alone");
    assert_eq!(undialled.failure.expect("a reason").message(), "dial ws://x: refused");
    let mut untapped = TeeSetup::begin(plan(), "ws://x".to_string());
    assert_eq!(untapped.dialled(Ok(()), false, false), TeeStep::Hold);
    untapped.held(Ok(()));
    untapped.tap_added(true);
    assert_eq!(untapped.tap_added(false), TeeStep::RemoveTap { leg: Leg::A });
    assert_eq!(untapped.tap_removed(), TeeStep::ReleaseHold);
    assert_eq!(untapped.hold_released(), TeeStep::Refused);
    assert_eq!(untapped.failure.expect("a reason").message(), "media actor unavailable");
    let mut rateless = tee_facts();
    rateless.callee_rate = None;
    let rateless = start_ws_tee(&call, Some(rateless), WsTeeDirection::Both, None, None).expect("plan");
    let mut setup = TeeSetup::begin(rateless, "ws://x".to_string());
    setup.first();
    assert_eq!(setup.converter_built(Ok(())), TeeStep::Dial, "a leg without a rate needs no converter");
    let mut unheld = TeeSetup::begin(plan(), "ws://x".to_string());
    assert_eq!(unheld.held(Err("no".to_string())), TeeStep::Refused);
    assert_eq!(unheld.upgraded(Err(TeeRefusal::CallGone)), TeeStep::Refused);
    assert!(matches!(unheld.started(None), Err(TeeRefusal::CallGone)));
}

#[test]
fn a_replacing_tee_keeps_its_taps_and_the_hold() {
    let call = "call-1".to_string();
    let plan = start_ws_tee(&call, Some(tee_facts()), WsTeeDirection::Both, None, None).expect("plan");
    let older = WsTee {
        stream_id: plan.stream_id.clone(),
        from_tag: "tag-a".to_string(),
        owner: ClientId(4),
        tapped_legs: vec![Leg::A],
        ended: false,
    };
    let mut setup = TeeSetup::begin(plan, "ws://x".to_string());
    let (mut taps, mut held) = (vec![Leg::A], true);
    let mut order = Vec::new();
    let mut step = setup.dialled(Ok(()), true, false);
    loop {
        order.push(step);
        step = match step {
            TeeStep::StopOld => {
                for action in stop_ws_tee(Some(&older)) {
                    match action {
                        StopTeeAction::RemoveTap { leg } => taps.retain(|tap| *tap != leg),
                        StopTeeAction::ReleaseHold => held = false,
                        StopTeeAction::AbortTransport | StopTeeAction::Report => {}
                    }
                }
                setup.old_stopped(false)
            }
            TeeStep::Hold => {
                held = true;
                setup.held(Ok(()))
            }
            TeeStep::AddTap { leg } => {
                taps.push(leg);
                setup.tap_added(true)
            }
            TeeStep::Start => break,
            other => panic!("no {other:?} here"),
        };
    }
    assert_eq!(
        order,
        vec![
            TeeStep::StopOld,
            TeeStep::Hold,
            TeeStep::AddTap { leg: Leg::A },
            TeeStep::AddTap { leg: Leg::B },
            TeeStep::Start,
        ]
    );
    assert_eq!((taps, held), (vec![Leg::A, Leg::B], true));
}

#[test]
fn an_upgraded_relay_keeps_its_subscribers() {
    let subscriptions = vec![
        Subscription { subscriber_endpoint: EndpointId(9), srs_rtp: Some(at(5, 7000)), taps: vec![Leg::A, Leg::B] },
        Subscription { subscriber_endpoint: EndpointId(8), srs_rtp: None, taps: vec![Leg::A] },
    ];
    let kept = upgrade_relay_to_processing(false, false, &subscriptions).expect("free to upgrade");
    let tee = RawTee { subscriber_endpoint: EndpointId(9), srs_dst: at(5, 7000) };
    assert_eq!(kept, vec![(Leg::A, tee), (Leg::B, tee)]);
    let held = upgrade_relay_to_processing(true, true, &subscriptions).expect_err("held");
    assert_eq!(
        held.message(),
        "a WebSocket tee needs the call decoded, but a pcap recording and a DTMF block holds this relay in a forward-only pipeline; stop it first"
    );
}

#[test]
fn a_profile_tee_waits_for_the_answer() {
    let uri = Some("ws://x".to_string());
    let refused = CommandOutcome::Error { context: "answer".to_string(), reason: "no sdp".to_string() };
    assert!(tees_on_answer(&uri, &CommandOutcome::Done));
    assert!(!tees_on_answer(&uri, &refused));
    assert!(!tees_on_answer(&None, &CommandOutcome::Done));
    assert!(matches!(apply_profile_ws_tee(CommandOutcome::Done, Some(Ok(()))), CommandOutcome::Done));
    assert!(matches!(apply_profile_ws_tee(refused, None), CommandOutcome::Error { context, .. } if context == "answer"));
    assert!(matches!(
        apply_profile_ws_tee(CommandOutcome::Done, Some(Err("dial".to_string()))),
        CommandOutcome::Error { context, reason } if context == "ws_tee" && reason == "dial"
    ));
}

#[test]
fn another_clients_call_looks_like_none() {
    assert!(matches!(attach_ws_bridge(false, Err("held".to_string())), CommandOutcome::UnknownCall));
    assert!(matches!(attach_ws_bridge(true, Ok(())), CommandOutcome::Done));
    assert!(matches!(
        attach_ws_bridge(true, Err("held".to_string())),
        CommandOutcome::Error { context, reason } if context == "attach_ws_bridge" && reason == "held"
    ));
    assert!(matches!(attach_ws_tee(false, Ok(())), CommandOutcome::UnknownCall));
    assert!(matches!(
        attach_ws_tee(true, Err("gone".to_string())),
        CommandOutcome::Error { context, reason } if context == "attach_ws_tee" && reason == "gone"
    ));
    assert!(matches!(detach_ws_tee(false), CommandOutcome::UnknownCall));
    assert!(matches!(detach_ws_tee(true), CommandOutcome::Done));
    assert!(matches!(detach_answer(DetachDecision::UnknownCall, None), CommandOutcome::UnknownCall));
    assert!(matches!(detach_answer(DetachDecision::Nothing, None), CommandOutcome::Done));
    assert!(matches!(
        detach_answer(DetachDecision::Negotiated, None),
        CommandOutcome::Error { reason, .. } if reason == negotiated_detach_message()
    ));
    let restore = DetachDecision::Restore { pipeline: PipelineKind::Passthrough };
    assert!(matches!(detach_answer(restore, None), CommandOutcome::Done));
    assert!(matches!(
        detach_answer(restore, Some("no room".to_string())),
        CommandOutcome::Error { context, reason }
            if context == "detach_ws_bridge: restore relay flow" && reason == "no room"
    ));
}

#[test]
fn a_stopped_bridge_reports_before_its_route_goes() {
    let name = "call-1".to_string();
    assert!(stop_ws_bridge(None, &name, WsEndReason::Detached).is_empty());
    let actions = stop_ws_bridge(Some(bridge(true)), &name, WsEndReason::Detached);
    assert!(matches!(
        actions.as_slice(),
        [
            StopBridgeAction::Report {
                owner: ClientId(3),
                event: Event::WsBridgeEnded { reason: WsEndReason::Detached, .. }
            },
            StopBridgeAction::DropRoute
        ]
    ));
    let mut ended = bridge(true);
    ended.end(&name, WsEndReason::ServerClosed);
    assert!(matches!(
        stop_ws_bridge(Some(ended), &name, WsEndReason::CallEnded).as_slice(),
        [StopBridgeAction::DropRoute]
    ));
}

#[test]
fn a_tee_reports_its_end_once() {
    let mut tee = WsTee {
        stream_id: "tee-call-1".to_string(),
        from_tag: "tag-a".to_string(),
        owner: ClientId(3),
        tapped_legs: vec![Leg::A],
        ended: false,
    };
    let call = "call-1".to_string();
    let format = WsMediaFormat { sample_rate: 8000, channels: 1, bit_depth: 16, ptime: 20 };
    match tee.started_event(&call, &"ws://x".to_string(), WsTeeDirection::Caller, format) {
        Event::WsTeeStarted { channels, sample_rate, direction, .. } => {
            assert_eq!((channels, sample_rate, direction), (1, 8000, WsTeeDirection::Caller));
        }
        other => panic!("expected the start of a tee, got {other:?}"),
    }
    assert_eq!(
        stop_ws_tee(Some(&tee)),
        vec![
            StopTeeAction::RemoveTap { leg: Leg::A },
            StopTeeAction::AbortTransport,
            StopTeeAction::Report,
            StopTeeAction::ReleaseHold
        ]
    );
    assert!(stop_ws_tee(None).is_empty());
    match tee.end(&call, WsEndReason::Detached, Some((10, 2))) {
        Some(Event::WsTeeEnded { frames_sent, frames_dropped, reason, .. }) => {
            assert_eq!((frames_sent, frames_dropped, reason), (Some(10), Some(2), WsEndReason::Detached));
        }
        other => panic!("expected the end of a tee, got {other:?}"),
    }
    assert!(tee.end(&call, WsEndReason::CallEnded, None).is_none());
}

fn stats(packets_in: u64) -> EndpointStats {
    EndpointStats {
        packets_in,
        packets_out: 2,
        bytes_in: packets_in * 172,
        bytes_out: 344,
        packets_dropped: 1,
        packets_lost: 0,
    }
}

fn leg(id: u64, remote: SocketAddress) -> CallLeg {
    CallLeg {
        rtp: CallEndpoint { id: EndpointId(id), local_addr: at(100, 30000 + id as u16) },
        rtcp: None,
        text: None,
        remote_rtp: Some(remote),
        text_remote_rtp: None,
        advertised_ip: IpAddress::V4(203, 0, 113, 9),
    }
}

fn reading(ssrc: Option<u32>, rtt_ms: Option<f64>, egress_ssrc: u32) -> DirectionQuality<f64> {
    DirectionQuality {
        ssrc,
        packets_received: if ssrc.is_some() { 50 } else { 0 },
        packets_expected: 51,
        packets_lost: 1,
        loss_percent: 2.0,
        jitter_ms: 3.0,
        jitter_ms_max: 4.0,
        loss_percent_max: 5.0,
        rtt_ms,
        mos_samples: 2,
        mos_average: Some(4.1),
        mos_min: Some(4.0),
        mos_min_at_ms: 65_000,
        mos_max: Some(4.2),
        mos_max_at_ms: 5_000,
        egress_ssrc: Some(egress_ssrc),
    }
}

fn facts() -> FinishFacts<f64> {
    FinishFacts {
        from_tag: "tag-a".to_string(),
        to_tag: Some("tag-b".to_string()),
        near: leg(1, at(1, 5000)),
        far: Some(leg(2, at(2, 6000))),
        single_leg: false,
        caller_leg: leg(1, at(1, 5000)),
        near_codec: Some(pcmu(20)),
        far_codec: None,
        near_counters: stats(10),
        far_counters: stats(20),
        quality: Some(FinalCallQuality {
            a_to_b: reading(Some(7), Some(80.0), 0xB),
            b_to_a: reading(None, None, 0xA),
        }),
        near_text: None,
        far_text: None,
        near_remote: Some(at(1, 5555)),
        far_remote: None,
        caller_latched: None,
    }
}

#[test]
fn a_two_party_call_is_summarised_leg_by_leg() {
    let legs = finish_call(facts());
    assert_eq!(legs.len(), 2);
    assert_eq!((legs[0].tag.as_str(), legs[1].tag.as_str()), ("tag-a", "tag-b"));
    assert_eq!(legs[0].codec.as_deref(), Some("PCMU"));
    assert_eq!(legs[0].payload_type, Some(0));
    assert_eq!(legs[0].packets_in, 10);
    assert_eq!(legs[0].remote_address, Some(at(1, 5555)));
    assert_eq!(legs[0].local_address.expect("local").ip, IpAddress::V4(203, 0, 113, 9));
    assert_eq!((legs[0].egress_ssrc, legs[1].egress_ssrc), (Some(0xA), Some(0xB)), "each leg hears the other");
    assert_eq!((legs[0].ssrc, legs[0].packets_lost, legs[0].mos_average), (Some(7), Some(1), Some(4.1)));
    assert_eq!(legs[0].mos_basis, Some(MosBasis::Full));
    assert_eq!((legs[1].ssrc, legs[1].mos_average, legs[1].mos_basis), (None, None, None), "nothing was received");
    assert_eq!(MosBasis::Full.text(), "full");
}

#[test]
fn a_single_leg_call_is_summarised_once() {
    let mut single = facts();
    single.single_leg = true;
    single.caller_latched = Some(at(1, 9999));
    let legs = finish_call(single);
    assert_eq!(legs.len(), 1);
    assert_eq!(legs[0].packets_in, 30, "both endpoints belong to the caller");
    assert_eq!(legs[0].remote_address, Some(at(1, 9999)));
}

#[test]
fn a_leg_without_a_reading_keeps_the_relay_counters() {
    let media = LegMedia { local_address: at(100, 1), remote_address: None, egress_ssrc: None };
    let mut counters = stats(10);
    counters.packets_lost = 3;
    let summary = leg_summary::<f64>("tag-a".to_string(), &None, counters, None, None, media);
    assert_eq!((summary.packets_in, summary.packets_lost), (10, Some(3)));
    assert!(summary.codec.is_none() && summary.mos_average.is_none());
}

#[test]
fn counters_add_up() {
    let sum = leg_counters(&vec![stats(1), stats(2), stats(3)]);
    assert_eq!((sum.packets_in, sum.packets_out, sum.bytes_in, sum.packets_dropped), (6, 6, 1032, 3));
    assert_eq!(add_counters(stats(1), stats(2)).packets_in, 3);
    assert_eq!(leg_counters(&Vec::new()).packets_in, 0);
}

#[test]
fn the_best_known_remote_is_reported() {
    assert_eq!(observed_remote(Some(at(1, 1)), Some(at(2, 2)), Some(at(3, 3)), Some(at(4, 4))), Some(at(1, 1)));
    assert_eq!(observed_remote(None, Some(at(2, 2)), Some(at(3, 3)), Some(at(4, 4))), Some(at(2, 2)));
    assert_eq!(observed_remote(None, None, Some(at(3, 3)), Some(at(4, 4))), Some(at(3, 3)));
    assert_eq!(observed_remote(None, None, None, Some(at(4, 4))), Some(at(4, 4)));
    let advertised = advertised_address(&leg(1, at(1, 1)));
    assert_eq!((advertised.ip, advertised.port), (IpAddress::V4(203, 0, 113, 9), 30001));
}

#[test]
fn every_endpoint_is_removed_once_when_a_call_ends() {
    let endpoints = vec![EndpointId(1), EndpointId(2), EndpointId(3)];
    for actions in [finish_actions(&endpoints), teardown_call(&endpoints)] {
        for endpoint in &endpoints {
            let removed = actions
                .iter()
                .filter(|action| **action == TeardownAction::RemoveEndpoint { endpoint: *endpoint })
                .count();
            assert_eq!(removed, 1);
        }
    }
}

#[test]
fn a_call_is_deleted_by_its_owner() {
    assert!(matches!(delete(Some(ClientId(1)), ClientId(1)), CommandOutcome::Done));
    assert!(matches!(delete(Some(ClientId(1)), ClientId(2)), CommandOutcome::UnknownCall));
    assert!(matches!(delete(None, ClientId(1)), CommandOutcome::UnknownCall));
    let summary = call_summary(&"call-1".to_string(), "delete", 10, 25, 1_000, 16_000, finish_call(facts()));
    assert_eq!((summary.call_id.as_str(), summary.reason.as_str()), ("call-1", "delete"));
    assert_eq!((summary.duration_ms, summary.started_at_unix_ms, summary.ended_at_unix_ms), (15_000, 1_000, 16_000));
    assert_eq!(summary.legs.len(), 2);
}

#[test]
fn call_records_show_when_the_extremes_were() {
    assert_eq!(format_call_offset(65_000), "1:05");
    assert_eq!(format_call_offset(3_599_999), "59:59");
    let line = log_cdr_leg(Some(reading(Some(7), None, 0))).expect("measured");
    assert_eq!((line.mos_min_at.as_str(), line.mos_max_at.as_str()), ("1:05", "0:05"));
    assert_eq!(line.mos_basis, MosBasis::LossJitter);
    assert!(log_cdr_leg(Some(reading(None, None, 0))).is_none());
    assert_eq!(call_duration_ms(10, 25), 15_000);
    assert_eq!(call_duration_ms(25, 10), 0);
}

#[test]
fn an_endpoint_belongs_to_one_party() {
    let (from, to) = ("tag-a".to_string(), Some("tag-b".to_string()));
    let named = |role: Option<EndpointRole>, to: &Option<String>| {
        owner_and_tag_for_endpoint(ClientId(3), role, &from, to)
    };
    assert_eq!(named(Some(EndpointRole::NearRtcp), &to), (ClientId(3), "tag-a".to_string()));
    assert_eq!(named(Some(EndpointRole::FarRtp), &to).1, "tag-b");
    assert_eq!(named(Some(EndpointRole::FarRtcp), &None).1, "tag-a", "no answerer to name");
    let near = Some(pcmu(20));
    let codec = qos_codec_for_endpoint(Some(EndpointRole::NearRtp), &near, &None);
    assert_eq!((codec.name.as_deref(), codec.clock_rate_hz), (Some("PCMU"), 8000));
    let unknown = qos_codec_for_endpoint(Some(EndpointRole::FarRtcp), &near, &None);
    assert_eq!((unknown.name.as_deref(), unknown.clock_rate_hz), (None, 8000));
    let mut clockless = pcmu(20);
    clockless.clock_rate_hz = 0;
    assert_eq!(qos_codec_for_endpoint(None, &Some(clockless), &None).clock_rate_hz, 1);
}

#[test]
fn observed_rtcp_is_exported_raw_and_judged() {
    let observed = ObservedRtcp {
        endpoint: EndpointId(1),
        source: at(1, 5001),
        destination: at(2, 6001),
        payload: vec![0x81, 201, 0, 7],
    };
    let stamp = CaptureStamp { agent_id: 9, secs: 100, micros: 200 };
    let call =
        ObservedCall { call_id: "call-1".to_string(), owner: ClientId(3), from_tag: "tag-a".to_string() };
    let block = ReceptionBlock {
        ssrc: 0xABCD,
        fraction_lost: 64,
        cumulative_lost: 1,
        highest_sequence: 2,
        jitter: 80,
        last_sender_report: 0,
        delay_since_last_sender_report: 0,
    };
    let sample = QualitySample { mos: 2.5, jitter_ms: 10.0, loss_percent: 25.0 };
    assert!(run_rtcp_export(&observed, None, stamp, &vec![block], &vec![sample]).is_none());
    let export = run_rtcp_export(&observed, Some(&call), stamp, &vec![block], &vec![sample]).expect("a known call");
    assert_eq!(export.captures.len(), 2);
    for capture in &export.captures {
        assert_eq!((capture.src, capture.dst), (at(1, 5001), at(2, 6001)));
        assert_eq!((capture.timestamp_secs, capture.timestamp_micros, capture.capture_agent_id), (100, 200, 9));
        assert_eq!(capture.correlation_id, "call-1");
    }
    assert!(matches!(&export.captures[0].body, CaptureBody::Rtcp { payload } if *payload == observed.payload));
    assert!(matches!(&export.captures[1].body, CaptureBody::Quality { ssrc: 0xABCD, sample } if sample.mos == 2.5));
    assert_eq!(export.events.len(), 1);
    assert_eq!((export.events[0].call_id.as_str(), export.events[0].from_tag.as_str()), ("call-1", "tag-a"));
    assert_eq!(export.events[0].sample.loss_percent, 25.0);
}

#[test]
fn reception_blocks_are_collected_in_order() {
    let block = |ssrc: u32| ReceptionBlock {
        ssrc,
        fraction_lost: 0,
        cumulative_lost: 0,
        highest_sequence: 0,
        jitter: 0,
        last_sender_report: 0,
        delay_since_last_sender_report: 0,
    };
    let compound = vec![
        RtcpReport::Sender { ntp_timestamp: 1, blocks: vec![block(1), block(2)] },
        RtcpReport::Other,
        RtcpReport::Receiver { blocks: vec![block(3)] },
    ];
    let ssrcs: Vec<u32> = for_each_reception_block(&compound).iter().map(|found| found.ssrc).collect();
    assert_eq!(ssrcs, vec![1, 2, 3]);
}

#[test]
fn text_streams_are_reported_by_direction() {
    let text = TextStreamStats { packets: 4, characters: 9, missing_markers: 1, recovered_from_redundancy: 2 };
    let mut near = leg(1, at(1, 5000));
    near.text = Some(CallEndpoint { id: EndpointId(5), local_addr: at(100, 40000) });
    near.text_remote_rtp = Some(at(1, 5100));
    assert_eq!(text_stream_addresses(&near), (at(1, 5100), at(100, 40000)));
    let far = Some(leg(2, at(2, 6000)));
    let reports =
        export_text_qos(&near, &far, &"tag-a".to_string(), &Some("tag-b".to_string()), Some(text), Some(text));
    assert_eq!(reports.len(), 2);
    assert_eq!((reports[0].tag.as_str(), reports[0].direction), ("tag-a", TextDirection::AToB));
    assert_eq!((reports[1].tag.as_str(), reports[1].source), ("tag-b", at(2, 6000)));
    assert_eq!(reports[1].direction.text(), "b_to_a");
    assert!(export_text_qos(&near, &None, &"a".to_string(), &None, None, Some(text)).is_empty());
}

#[test]
fn pipelines_and_packet_times() {
    assert!(PipelineKind::Srtp.is_crypto_bridge());
    assert!(!PipelineKind::SrtpMedia.is_crypto_bridge());
    assert_eq!(PipelineKind::Passthrough.name(), "Passthrough");
    assert_eq!(pcmu(0).packet_time_ms(), 1);
    assert_eq!(pcmu(30).copied().packet_time_ms(), 30);
}
