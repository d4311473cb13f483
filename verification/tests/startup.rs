//! Startup decisions.
use siphon_rtp_engine::net::{IpAddress, SocketAddress};
use siphon_rtp_engine::startup::{
    build_udp_datapath, choose_datapath, default_control, default_node_id, drain_sessions, drain_waits,
    is_routable_relay_v4, next_attach_mode, reported_media_address, resolve_defaulted, resolve_optional,
    resolve_port_range, run_with_datapath, spawn_turn, try_build_xdp_datapath, turn_tls_message, Args, AttachMode,
    DatapathChoice, DrainStep, Explicit, FileConfig, Resolved, Subsystem, TurnListener, UdpBinding,
    DEFAULT_MEDIA_TIMEOUT_SECS, DEFAULT_SHUTDOWN_GRACE_SECS,
};

fn v4(a: u8, b: u8, c: u8, d: u8) -> IpAddress {
    IpAddress::V4(a, b, c, d)
}

fn at(port: u16) -> SocketAddress {
    SocketAddress::new(v4(127, 0, 0, 1), port)
}

#[test]
fn port_range_neither_set_is_ephemeral() {
    assert_eq!(resolve_port_range(None, None), Ok(None));
}

#[test]
fn port_range_valid_window_resolves() {
    assert_eq!(resolve_port_range(Some(30000), Some(40000)), Ok(Some((30000, 40000))));
    assert_eq!(resolve_port_range(Some(50000), Some(50000)), Ok(Some((50000, 50000))));
}

#[test]
fn port_range_half_set_is_an_error() {
    assert!(resolve_port_range(Some(30000), None).is_err());
    assert!(resolve_port_range(None, Some(40000)).is_err());
}

#[test]
fn port_range_inverted_is_an_error() {
    let error = resolve_port_range(Some(40000), Some(30000)).expect_err("inverted range");
    assert!(error.contains("must be <="), "message names the constraint: {error}");
}

#[test]
fn datapath_choice_feature_off_is_always_udp() {
    assert_eq!(choose_datapath(false, Some("eth0"), Some(v4(203, 0, 113, 7))), DatapathChoice::Udp);
}

#[test]
fn datapath_choice_without_interface_is_udp() {
    assert_eq!(choose_datapath(true, None, Some(v4(203, 0, 113, 7))), DatapathChoice::Udp);
    assert_eq!(choose_datapath(true, Some(""), Some(v4(203, 0, 113, 7))), DatapathChoice::Udp);
}

#[test]
fn datapath_choice_requires_a_routable_v4_relay_ip() {
    assert_eq!(choose_datapath(true, Some("eth0"), None), DatapathChoice::Udp);
    assert_eq!(choose_datapath(true, Some("eth0"), Some(v4(127, 0, 0, 1))), DatapathChoice::Udp);
    assert_eq!(choose_datapath(true, Some("eth0"), Some(v4(0, 0, 0, 0))), DatapathChoice::Udp);
    assert_eq!(choose_datapath(true, Some("eth0"), Some(IpAddress::V6(1))), DatapathChoice::Udp);
}

#[test]
fn datapath_choice_full_config_tries_xdp() {
    assert_eq!(choose_datapath(true, Some("eth0"), Some(v4(203, 0, 113, 7))), DatapathChoice::TryXdp);
}

#[test]
fn routable_relay_v4_accepts_unicast_rejects_special() {
    assert!(is_routable_relay_v4(203, 0, 113, 7));
    assert!(is_routable_relay_v4(198, 51, 100, 1));
    assert!(!is_routable_relay_v4(127, 0, 0, 1));
    assert!(!is_routable_relay_v4(0, 0, 0, 0));
    assert!(!is_routable_relay_v4(255, 255, 255, 255));
    assert!(!is_routable_relay_v4(224, 0, 0, 1));
}

fn args() -> Args {
    Args {
        control: default_control(),
        max_control_rps: 10,
        media_timeout_secs: DEFAULT_MEDIA_TIMEOUT_SECS,
        shutdown_grace_secs: DEFAULT_SHUTDOWN_GRACE_SECS,
        max_sessions: 0,
        xdp_queue: 0,
        ng: None,
        relay_bind_ip: None,
        port_min: Some(30000),
        port_max: None,
        metrics_addr: None,
        turn_udp: None,
        turn_tcp: None,
        turn_tls: None,
        turn_tls_cert: None,
        turn_tls_key: None,
        turn_relay_ip: None,
        node_id: None,
        xdp_interface: None,
    }
}

fn file() -> FileConfig {
    FileConfig {
        control: Some(at(9999)),
        max_control_rps: Some(77),
        media_timeout_secs: Some(60),
        shutdown_grace_secs: None,
        max_sessions: Some(5),
        xdp_queue: None,
        ng: Some(at(22222)),
        relay_bind_ip: None,
        port_min: Some(10000),
        port_max: Some(40000),
        metrics_addr: Some(at(9090)),
        turn_udp: None,
        turn_tcp: None,
        turn_tls: None,
        turn_tls_cert: None,
        turn_tls_key: None,
        turn_relay_ip: None,
        node_id: Some("edge-1".to_string()),
        xdp_interface: None,
        log_filter: Some("debug".to_string()),
    }
}

fn explicit(max_control_rps: bool) -> Explicit {
    Explicit {
        control: false,
        max_control_rps,
        media_timeout_secs: false,
        shutdown_grace_secs: false,
        max_sessions: false,
        xdp_queue: false,
    }
}

#[test]
fn an_explicit_setting_beats_the_file_and_the_file_beats_the_default() {
    let resolved = Resolved::resolve(args(), explicit(true), file(), 500);
    assert_eq!(resolved.max_control_rps, 10, "given");
    assert_eq!(resolved.control, at(9999), "from the file");
    assert_eq!(resolved.media_timeout_secs, 60);
    assert_eq!(resolved.shutdown_grace_secs, 25, "default");
    assert_eq!(resolved.port_min, Some(30000), "given");
    assert_eq!(resolved.port_max, Some(40000));
    assert_eq!(resolved.node_id.as_deref(), Some("edge-1"));
    assert_eq!(resolved.log_filter.as_deref(), Some("debug"));
    assert_eq!(Resolved::resolve(args(), explicit(false), file(), 500).max_control_rps, 77);
    let mut bare = file();
    bare.max_control_rps = None;
    assert_eq!(Resolved::resolve(args(), explicit(false), bare, 500).max_control_rps, 500);
}

#[test]
fn single_settings_resolve() {
    assert_eq!(resolve_defaulted(1, true, Some(2), 3), 1);
    assert_eq!(resolve_defaulted(1, false, Some(2), 3), 2);
    assert_eq!(resolve_defaulted(1, false, None, 3), 3);
    assert_eq!(resolve_optional(Some(1), Some(2)), Some(1));
    assert_eq!(resolve_optional(None, Some(2)), Some(2));
    assert_eq!(resolve_optional::<u8>(None, None), None);
}

#[test]
fn the_driver_attach_mode_is_tried_before_the_generic_one() {
    assert_eq!(next_attach_mode(None), Some(AttachMode::Native));
    assert_eq!(next_attach_mode(Some(AttachMode::Native)), Some(AttachMode::Skb));
    assert_eq!(next_attach_mode(Some(AttachMode::Skb)), None);
}

#[test]
fn the_kernel_datapath_needs_support() {
    let relay = Some(v4(203, 0, 113, 7));
    assert_eq!(try_build_xdp_datapath(Some("eth0"), relay, true), Some((203, 0, 113, 7)));
    assert_eq!(try_build_xdp_datapath(Some("eth0"), relay, false), None);
    assert_eq!(try_build_xdp_datapath(None, relay, true), None);
}

#[test]
fn the_udp_datapath_binds_what_is_configured() {
    let bind_ip = v4(203, 0, 113, 7);
    assert_eq!(build_udp_datapath(Some(bind_ip), Some((1, 2))), UdpBinding::PortRange { bind_ip, min: 1, max: 2 });
    assert_eq!(
        build_udp_datapath(None, Some((1, 2))),
        UdpBinding::PortRange { bind_ip: v4(127, 0, 0, 1), min: 1, max: 2 }
    );
    assert_eq!(build_udp_datapath(Some(bind_ip), None), UdpBinding::BindIp { ip: bind_ip });
    assert_eq!(build_udp_datapath(None, None), UdpBinding::Loopback);
}

#[test]
fn a_node_is_named_by_its_host() {
    assert_eq!(default_node_id(Some("edge-7".to_string())), "edge-7");
    assert_eq!(default_node_id(Some(String::new())), "siphon-rtp");
    assert_eq!(default_node_id(None), "siphon-rtp");
}

#[test]
fn the_wildcard_is_not_reported() {
    assert_eq!(reported_media_address(Some(v4(0, 0, 0, 0))), None);
    assert_eq!(reported_media_address(Some(v4(10, 0, 0, 1))), Some(v4(10, 0, 0, 1)));
    assert_eq!(reported_media_address(None), None);
}

#[test]
fn turn_needs_a_realm_and_a_secret() {
    assert!(spawn_turn(true, false, Some(at(1)), None, None, false, false).is_none());
    assert!(spawn_turn(false, true, Some(at(1)), None, None, false, false).is_none());
    let plan = spawn_turn(true, true, Some(at(1)), Some(at(2)), Some(at(3)), true, true).expect("plan");
    assert_eq!(
        plan.listeners,
        vec![
            TurnListener::Udp { address: at(1) },
            TurnListener::Tcp { address: at(2) },
            TurnListener::Tls { address: at(3) }
        ]
    );
    assert!(!plan.tls_unusable && !plan.unreachable);
    let plan = spawn_turn(true, true, None, None, Some(at(3)), true, false).expect("plan");
    assert!(plan.listeners.is_empty() && plan.tls_unusable && !plan.unreachable);
    let plan = spawn_turn(true, true, None, None, None, true, true).expect("plan");
    assert!(plan.listeners.is_empty() && !plan.tls_unusable && plan.unreachable);
    assert!(!turn_tls_message().is_empty());
}

#[test]
fn subsystems_start_in_order() {
    let mut resolved = Resolved::resolve(args(), explicit(false), file(), 500);
    let order = run_with_datapath(&resolved, Some(at(9060)));
    let position = |wanted: Subsystem| order.iter().position(|started| *started == wanted);
    assert!(position(Subsystem::Metrics { address: at(9090) }).is_some());
    assert!(position(Subsystem::Telemetry { collector: at(9060) }).is_some());
    assert!(position(Subsystem::Ng { address: at(22222) }).is_some());
    assert!(position(Subsystem::Dispatcher) < position(Subsystem::ControlServer { max_rps: 77 }));
    assert_eq!(order.last(), Some(&Subsystem::Drain { grace_secs: 25 }));
    resolved.metrics_addr = None;
    assert!(!run_with_datapath(&resolved, None).contains(&Subsystem::Metrics { address: at(9090) }));
}

#[test]
fn shutdown_waits_for_the_sessions_within_the_grace() {
    assert!(drain_waits(1, 25));
    assert!(!drain_waits(0, 25));
    assert!(!drain_waits(1, 0));
    assert_eq!(drain_sessions(0, true), DrainStep::Drained);
    assert_eq!(drain_sessions(4, true), DrainStep::GraceElapsed { remaining: 4 });
    assert_eq!(drain_sessions(4, false), DrainStep::Wait);
}
