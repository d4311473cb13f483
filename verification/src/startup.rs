//! Startup: the effective configuration, the datapath, and what the daemon starts in which order.
use crate::net::{IpAddress, SocketAddress};
use crate::text::{decimal, decimal_text, joined, owned};
use vstd::prelude::*;

verus! {

/// Advertised session limit where none is configured: none.
pub const DEFAULT_MAX_SESSIONS: u64 = 0;

/// Network card queue where none is configured.
pub const DEFAULT_XDP_QUEUE: u32 = 0;

/// Seconds without media after which a call is reaped, where none are configured.
pub const DEFAULT_MEDIA_TIMEOUT_SECS: u64 = 30;

/// Seconds the shutdown waits for live calls, where none are configured.
pub const DEFAULT_SHUTDOWN_GRACE_SECS: u64 = 25;

/// The control address where none is configured.
pub open spec fn default_control_address() -> SocketAddress {
    SocketAddress::plain(IpAddress::V4(127, 0, 0, 1), 8080)
}

/// The control address where none is configured.
pub fn default_control() -> (address: SocketAddress)
    ensures
        address == default_control_address(),
{
    SocketAddress::new(IpAddress::V4(127, 0, 0, 1), 8080)
}

/// A setting that always has a value: the command line where it was given there, else the file, else
/// the default.
pub open spec fn settled<T>(given: T, explicit: bool, file: Option<T>, default: T) -> T {
    if explicit {
        given
    } else {
        match file {
            Some(value) => value,
            None => default,
        }
    }
}

/// A setting that always has a value.
pub fn resolve_defaulted<T: Copy>(given: T, explicit: bool, file: Option<T>, default: T) -> (value: T)
    ensures
        value == settled(given, explicit, file, default),
{
    if explicit {
        return given;
    }
    match file {
        Some(value) => value,
        None => default,
    }
}

/// A setting that may be absent: the command line, else the file.
pub open spec fn either<T>(given: Option<T>, file: Option<T>) -> Option<T> {
    match given {
        Some(value) => Some(value),
        None => file,
    }
}

/// A setting that may be absent.
pub fn resolve_optional<T>(given: Option<T>, file: Option<T>) -> (value: Option<T>)
    ensures
        value == either(given, file),
{
    match given {
        Some(value) => Some(value),
        None => file,
    }
}

/// What the command line says.
#[derive(Debug)]
pub struct Args {
    pub control: SocketAddress,
    pub max_control_rps: u64,
    pub media_timeout_secs: u64,
    pub shutdown_grace_secs: u64,
    pub max_sessions: u64,
    pub xdp_queue: u32,
    pub ng: Option<SocketAddress>,
    pub relay_bind_ip: Option<IpAddress>,
    pub port_min: Option<u16>,
    pub port_max: Option<u16>,
    pub metrics_addr: Option<SocketAddress>,
    pub turn_udp: Option<SocketAddress>,
    pub turn_tcp: Option<SocketAddress>,
    pub turn_tls: Option<SocketAddress>,
    pub turn_tls_cert: Option<String>,
    pub turn_tls_key: Option<String>,
    pub turn_relay_ip: Option<IpAddress>,
    pub node_id: Option<String>,
    pub xdp_interface: Option<String>,
}

/// Which settings with a default were given on the command line.
#[derive(Clone, Copy, Debug, PartialEq, Eq, Structural)]
pub struct Explicit {
    pub control: bool,
    pub max_control_rps: bool,
    pub media_timeout_secs: bool,
    pub shutdown_grace_secs: bool,
    pub max_sessions: bool,
    pub xdp_queue: bool,
}

/// What the configuration file says.
#[derive(Debug)]
pub struct FileConfig {
    pub control: Option<SocketAddress>,
    pub max_control_rps: Option<u64>,
    pub media_timeout_secs: Option<u64>,
    pub shutdown_grace_secs: Option<u64>,
    pub max_sessions: Option<u64>,
    pub xdp_queue: Option<u32>,
    pub ng: Option<SocketAddress>,
    pub relay_bind_ip: Option<IpAddress>,
    pub port_min: Option<u16>,
    pub port_max: Option<u16>,
    pub metrics_addr: Option<SocketAddress>,
    pub turn_udp: Option<SocketAddress>,
    pub turn_tcp: Option<SocketAddress>,
    pub turn_tls: Option<SocketAddress>,
    pub turn_tls_cert: Option<String>,
    pub turn_tls_key: Option<String>,
    pub turn_relay_ip: Option<IpAddress>,
    pub node_id: Option<String>,
    pub xdp_interface: Option<String>,
    pub log_filter: Option<String>,
}

/// The effective configuration.
#[derive(Debug)]
pub struct Resolved {
    pub control: SocketAddress,
    pub max_control_rps: u64,
    pub media_timeout_secs: u64,
    pub shutdown_grace_secs: u64,
    pub max_sessions: u64,
    pub xdp_queue: u32,
    pub ng: Option<SocketAddress>,
    pub relay_bind_ip: Option<IpAddress>,
    pub port_min: Option<u16>,
    pub port_max: Option<u16>,
    pub metrics_addr: Option<SocketAddress>,
    pub turn_udp: Option<SocketAddress>,
    pub turn_tcp: Option<SocketAddress>,
    pub turn_tls: Option<SocketAddress>,
    pub turn_tls_cert: Option<String>,
    pub turn_tls_key: Option<String>,
    pub turn_relay_ip: Option<IpAddress>,
    pub node_id: Option<String>,
    pub xdp_interface: Option<String>,
    /// Only the file sets it, and the environment overrides it.
    pub log_filter: Option<String>,
}

/// The effective configuration out of the command line and the configuration file.
pub open spec fn resolved_of(args: Args, explicit: Explicit, file: FileConfig, default_max_control_rps: u64) -> Resolved {
    Resolved {
        control: settled(args.control, explicit.control, file.control, default_control_address()),
        max_control_rps: settled(args.max_control_rps, explicit.max_control_rps, file.max_control_rps, default_max_control_rps),
        media_timeout_secs: settled(args.media_timeout_secs, explicit.media_timeout_secs, file.media_timeout_secs, DEFAULT_MEDIA_TIMEOUT_SECS),
        shutdown_grace_secs: settled(args.shutdown_grace_secs, explicit.shutdown_grace_secs, file.shutdown_grace_secs, DEFAULT_SHUTDOWN_GRACE_SECS),
        max_sessions: settled(args.max_sessions, explicit.max_sessions, file.max_sessions, DEFAULT_MAX_SESSIONS),
        xdp_queue: settled(args.xdp_queue, explicit.xdp_queue, file.xdp_queue, DEFAULT_XDP_QUEUE),
        ng: either(args.ng, file.ng),
        relay_bind_ip: either(args.relay_bind_ip, file.relay_bind_ip),
        port_min: either(args.port_min, file.port_min),
        port_max: either(args.port_max, file.port_max),
        metrics_addr: either(args.metrics_addr, file.metrics_addr),
        turn_udp: either(args.turn_udp, file.turn_udp),
        turn_tcp: either(args.turn_tcp, file.turn_tcp),
        turn_tls: either(args.turn_tls, file.turn_tls),
        turn_tls_cert: either(args.turn_tls_cert, file.turn_tls_cert),
        turn_tls_key: either(args.turn_tls_key, file.turn_tls_key),
        turn_relay_ip: either(args.turn_relay_ip, file.turn_relay_ip),
        node_id: either(args.node_id, file.node_id),
        xdp_interface: either(args.xdp_interface, file.xdp_interface),
        log_filter: file.log_filter,
    }
}

impl Resolved {
    /// Merge the command line with the configuration file. An explicit flag beats the file, and the
    /// file beats the default.
    pub fn resolve(args: Args, explicit: Explicit, file: FileConfig, default_max_control_rps: u64) -> (resolved: Self)
        ensures
            resolved == resolved_of(args, explicit, file, default_max_control_rps),
            resolved.control == settled(args.control, explicit.control, file.control, default_control_address()),
            resolved.max_control_rps == settled(args.max_control_rps, explicit.max_control_rps, file.max_control_rps, default_max_control_rps),
            resolved.media_timeout_secs == settled(args.media_timeout_secs, explicit.media_timeout_secs, file.media_timeout_secs, DEFAULT_MEDIA_TIMEOUT_SECS),
            resolved.shutdown_grace_secs == settled(args.shutdown_grace_secs, explicit.shutdown_grace_secs, file.shutdown_grace_secs, DEFAULT_SHUTDOWN_GRACE_SECS),
            resolved.max_sessions == settled(args.max_sessions, explicit.max_sessions, file.max_sessions, DEFAULT_MAX_SESSIONS),
            resolved.xdp_queue == settled(args.xdp_queue, explicit.xdp_queue, file.xdp_queue, DEFAULT_XDP_QUEUE),
            resolved.ng == either(args.ng, file.ng),
            resolved.relay_bind_ip == either(args.relay_bind_ip, file.relay_bind_ip),
            resolved.port_min == either(args.port_min, file.port_min),
            resolved.port_max == either(args.port_max, file.port_max),
            resolved.metrics_addr == either(args.metrics_addr, file.metrics_addr),
            resolved.turn_udp == either(args.turn_udp, file.turn_udp),
            resolved.turn_tcp == either(args.turn_tcp, file.turn_tcp),
            resolved.turn_tls == either(args.turn_tls, file.turn_tls),
            resolved.turn_tls_cert == either(args.turn_tls_cert, file.turn_tls_cert),
            resolved.turn_tls_key == either(args.turn_tls_key, file.turn_tls_key),
            resolved.turn_relay_ip == either(args.turn_relay_ip, file.turn_relay_ip),
            resolved.node_id == either(args.node_id, file.node_id),
            resolved.xdp_interface == either(args.xdp_interface, file.xdp_interface),
            resolved.log_filter == file.log_filter,
    {
        Resolved {
            control: resolve_defaulted(args.control, explicit.control, file.control, default_control()),
            max_control_rps: resolve_defaulted(args.max_control_rps, explicit.max_control_rps, file.max_control_rps, default_max_control_rps),
            media_timeout_secs: resolve_defaulted(args.media_timeout_secs, explicit.media_timeout_secs, file.media_timeout_secs, DEFAULT_MEDIA_TIMEOUT_SECS),
            shutdown_grace_secs: resolve_defaulted(args.shutdown_grace_secs, explicit.shutdown_grace_secs, file.shutdown_grace_secs, DEFAULT_SHUTDOWN_GRACE_SECS),
            max_sessions: resolve_defaulted(args.max_sessions, explicit.max_sessions, file.max_sessions, DEFAULT_MAX_SESSIONS),
            xdp_queue: resolve_defaulted(args.xdp_queue, explicit.xdp_queue, file.xdp_queue, DEFAULT_XDP_QUEUE),
            ng: resolve_optional(args.ng, file.ng),
            relay_bind_ip: resolve_optional(args.relay_bind_ip, file.relay_bind_ip),
            port_min: resolve_optional(args.port_min, file.port_min),
            port_max: resolve_optional(args.port_max, file.port_max),
            metrics_addr: resolve_optional(args.metrics_addr, file.metrics_addr),
            turn_udp: resolve_optional(args.turn_udp, file.turn_udp),
            turn_tcp: resolve_optional(args.turn_tcp, file.turn_tcp),
            turn_tls: resolve_optional(args.turn_tls, file.turn_tls),
            turn_tls_cert: resolve_optional(args.turn_tls_cert, file.turn_tls_cert),
            turn_tls_key: resolve_optional(args.turn_tls_key, file.turn_tls_key),
            turn_relay_ip: resolve_optional(args.turn_relay_ip, file.turn_relay_ip),
            node_id: resolve_optional(args.node_id, file.node_id),
            xdp_interface: resolve_optional(args.xdp_interface, file.xdp_interface),
            log_filter: file.log_filter,
        }
    }
}

/// An explicit flag always wins, and a file setting is never masked by a flag left at its default.
pub proof fn law_precedence<T>(given: T, file: T, default: T)
    ensures
        settled(given, true, Some(file), default) == given,
        settled(given, true, None, default) == given,
        settled(given, false, Some(file), default) == file,
        settled(given, false, None, default) == default,
{
}

/// The message for an inverted port range.
pub open spec fn inverted_text(min: u16, max: u16) -> Seq<char> {
    "invalid media port range: --port-min ("@ + decimal(min as nat) + ") must be <= --port-max ("@ + decimal(
        max as nat,
    ) + ")"@
}

/// The media port range: both ends or neither, and not inverted.
pub fn resolve_port_range(port_min: Option<u16>, port_max: Option<u16>) -> (range: Result<Option<(u16, u16)>, String>)
    ensures
        match (port_min, port_max) {
            (None, None) => range == Result::<Option<(u16, u16)>, String>::Ok(None),
            (Some(min), Some(max)) => if min <= max {
                range == Result::<Option<(u16, u16)>, String>::Ok(Some((min, max)))
            } else {
                range matches Err(error) && error@ == inverted_text(min, max)
            },
            (Some(_), None) => range matches Err(error) && error@ == "--port-min set without --port-max"@,
            (None, Some(_)) => range matches Err(error) && error@ == "--port-max set without --port-min"@,
        },
{
    match (port_min, port_max) {
        (None, None) => Ok(None),
        (Some(min), Some(max)) => {
            if min <= max {
                return Ok(Some((min, max)));
            }
            let mut error = joined("invalid media port range: --port-min (", decimal_text(min as u64).as_str());
            error.push_str(") must be <= --port-max (");
            error.push_str(decimal_text(max as u64).as_str());
            error.push_str(")");
            Err(error)
        },
        (Some(_), None) => Err(owned("--port-min set without --port-max")),
        (None, Some(_)) => Err(owned("--port-max set without --port-min")),
    }
}

/// Which datapath to start with.
#[derive(Clone, Copy, Debug, PartialEq, Eq, Structural)]
pub enum DatapathChoice {
    /// The one that always works.
    Udp,
    /// Try the kernel fast path, and fall back.
    TryXdp,
}

/// Whether an IPv4 address can be handed to peers: neither loopback, nor the wildcard, nor multicast,
/// nor broadcast.
pub open spec fn routable_v4(a: u8, b: u8, c: u8, d: u8) -> bool {
    &&& a != 127
    &&& !(a == 0 && b == 0 && c == 0 && d == 0)
    &&& !(224 <= a <= 239)
    &&& !(a == 255 && b == 255 && c == 255 && d == 255)
}

/// Whether an IPv4 address can be handed to peers.
pub fn is_routable_relay_v4(a: u8, b: u8, c: u8, d: u8) -> (routable: bool)
    ensures
        routable == routable_v4(a, b, c, d),
{
    a != 127 && !(a == 0 && b == 0 && c == 0 && d == 0) && !(224 <= a && a <= 239) && !(a == 255 && b == 255 && c
        == 255 && d == 255)
}

/// Whether an address is an IPv4 one that can be handed to peers.
pub open spec fn routable_relay(ip: Option<IpAddress>) -> bool {
    ip matches Some(IpAddress::V4(a, b, c, d)) && routable_v4(a, b, c, d)
}

/// Decide which datapath to start with. The kernel fast path needs to be built in, a network card, and
/// an IPv4 relay address that can be handed to peers.
pub fn choose_datapath(feature_on: bool, xdp_interface: Option<&str>, relay_bind_ip: Option<IpAddress>) -> (choice:
    DatapathChoice)
    ensures
        choice is TryXdp == (feature_on && (xdp_interface matches Some(interface) && interface@.len() > 0)
            && routable_relay(relay_bind_ip)),
{
    match (xdp_interface, relay_bind_ip) {
        (Some(interface), Some(IpAddress::V4(a, b, c, d))) => {
            if feature_on && !interface.is_empty() && is_routable_relay_v4(a, b, c, d) {
                DatapathChoice::TryXdp
            } else {
                DatapathChoice::Udp
            }
        },
        _ => DatapathChoice::Udp,
    }
}

/// How the kernel fast path is attached.
#[derive(Clone, Copy, Debug, PartialEq, Eq, Structural)]
pub enum AttachMode {
    /// In the driver.
    Native,
    /// In the generic stack.
    Skb,
}

/// The attach mode to try after one that failed: the driver first, then the generic stack, then none.
pub fn next_attach_mode(failed: Option<AttachMode>) -> (mode: Option<AttachMode>)
    ensures
        mode == (match failed {
            None => Some(AttachMode::Native),
            Some(AttachMode::Native) => Some(AttachMode::Skb),
            Some(AttachMode::Skb) => None,
        }),
{
    match failed {
        None => Some(AttachMode::Native),
        Some(AttachMode::Native) => Some(AttachMode::Skb),
        Some(AttachMode::Skb) => None,
    }
}

/// Whether the kernel fast path is attempted at all, once it was chosen: the host must support it.
pub fn try_build_xdp_datapath(
    xdp_interface: Option<&str>,
    relay_bind_ip: Option<IpAddress>,
    supported: bool,
) -> (local_ip: Option<(u8, u8, u8, u8)>)
    ensures
        local_ip is Some == (xdp_interface is Some && routable_relay(relay_bind_ip) && supported),
        local_ip matches Some(ip) ==> relay_bind_ip == Some(IpAddress::V4(ip.0, ip.1, ip.2, ip.3)),
{
    if xdp_interface.is_none() {
        return None;
    }
    match relay_bind_ip {
        Some(IpAddress::V4(a, b, c, d)) => {
            if is_routable_relay_v4(a, b, c, d) && supported {
                Some((a, b, c, d))
            } else {
                None
            }
        },
        _ => None,
    }
}

/// How the sockets of the UDP datapath are bound.
#[derive(Clone, Copy, Debug, PartialEq, Eq, Structural)]
pub enum UdpBinding {
    /// Ports out of a range.
    PortRange { bind_ip: IpAddress, min: u16, max: u16 },
    /// Any port of an address.
    BindIp { ip: IpAddress },
    /// Any port of the loopback address.
    Loopback,
}

/// How the sockets of the UDP datapath are bound.
pub fn build_udp_datapath(relay_bind_ip: Option<IpAddress>, port_range: Option<(u16, u16)>) -> (binding: UdpBinding)
    ensures
        binding == (match port_range {
            Some(range) => UdpBinding::PortRange {
                bind_ip: match relay_bind_ip {
                    Some(ip) => ip,
                    None => IpAddress::V4(127, 0, 0, 1),
                },
                min: range.0,
                max: range.1,
            },
            None => match relay_bind_ip {
                Some(ip) => UdpBinding::BindIp { ip },
                None => UdpBinding::Loopback,
            },
        }),
{
    match port_range {
        Some((min, max)) => UdpBinding::PortRange {
            bind_ip: match relay_bind_ip {
                Some(ip) => ip,
                None => IpAddress::V4(127, 0, 0, 1),
            },
            min,
            max,
        },
        None => match relay_bind_ip {
            Some(ip) => UdpBinding::BindIp { ip },
            None => UdpBinding::Loopback,
        },
    }
}

/// The name of a node that is given none: the host's, or a fixed one.
pub fn default_node_id(hostname: Option<String>) -> (name: String)
    ensures
        name@ == (match hostname {
            Some(host) if host@.len() > 0 => host@,
            _ => "siphon-rtp"@,
        }),
{
    match hostname {
        Some(host) => {
            if host.as_str().is_empty() {
                owned("siphon-rtp")
            } else {
                host
            }
        },
        None => owned("siphon-rtp"),
    }
}

/// The media address a node reports: its relay address, unless that is a wildcard.
pub fn reported_media_address(relay_bind_ip: Option<IpAddress>) -> (address: Option<IpAddress>)
    ensures
        address == (match relay_bind_ip {
            Some(ip) if !ip.unspecified() => Some(ip),
            _ => None,
        }),
{
    match relay_bind_ip {
        Some(ip) => {
            if ip.is_unspecified() {
                None
            } else {
                Some(ip)
            }
        },
        None => None,
    }
}

/// What the TURN server starts.
#[derive(Clone, Copy, Debug, PartialEq, Eq, Structural)]
pub enum TurnListener {
    Udp { address: SocketAddress },
    Tcp { address: SocketAddress },
    Tls { address: SocketAddress },
}

/// What starting the TURN server comes to.
#[derive(Debug)]
pub struct TurnPlan {
    /// The listeners to start, in order.
    pub listeners: Vec<TurnListener>,
    /// TLS was asked for without a certificate and a key: startup fails once the listeners before it
    /// are up.
    pub tls_unusable: bool,
    /// No listener was asked for.
    pub unreachable: bool,
}

/// The TURN listeners before TLS.
pub open spec fn plain_listeners(udp: Option<SocketAddress>, tcp: Option<SocketAddress>) -> Seq<TurnListener> {
    let first = match udp {
        Some(address) => seq![TurnListener::Udp { address }],
        None => Seq::empty(),
    };
    let second = match tcp {
        Some(address) => seq![TurnListener::Tcp { address }],
        None => Seq::empty(),
    };
    first + second
}

/// Plan the TURN server. It runs only with a realm and a secret.
pub fn spawn_turn(
    has_realm: bool,
    has_secret: bool,
    udp: Option<SocketAddress>,
    tcp: Option<SocketAddress>,
    tls: Option<SocketAddress>,
    has_certificate: bool,
    has_key: bool,
) -> (plan: Option<TurnPlan>)
    ensures
        plan is Some == (has_realm && has_secret),
        plan matches Some(turn) ==> {
            let usable = has_certificate && has_key;
            &&& turn.tls_unusable == (tls is Some && !usable)
            &&& turn.unreachable == (udp is None && tcp is None && tls is None)
            &&& turn.listeners@ == (match tls {
                Some(address) if usable => plain_listeners(udp, tcp).push(TurnListener::Tls { address }),
                _ => plain_listeners(udp, tcp),
            })
        },
{
    if !has_realm || !has_secret {
        return None;
    }
    let usable = has_certificate && has_key;
    let mut listeners: Vec<TurnListener> = Vec::new();
    if let Some(address) = udp {
        listeners.push(TurnListener::Udp { address });
    }
    if let Some(address) = tcp {
        listeners.push(TurnListener::Tcp { address });
    }
    proof {
        assert(listeners@ =~= plain_listeners(udp, tcp));
    }
    if let Some(address) = tls {
        if usable {
            listeners.push(TurnListener::Tls { address });
        }
    }
    Some(
        TurnPlan {
            listeners,
            tls_unusable: tls.is_some() && !usable,
            unreachable: udp.is_none() && tcp.is_none() && tls.is_none(),
        },
    )
}

/// The message for a TLS listener without a certificate and a key.
pub fn turn_tls_message() -> (message: String)
    ensures
        message@ == "turns: (--turn-tls) requires --turn-tls-cert and --turn-tls-key"@,
{
    owned("turns: (--turn-tls) requires --turn-tls-cert and --turn-tls-key")
}

/// One piece of the daemon.
#[derive(Clone, Copy, Debug, PartialEq, Eq, Structural)]
pub enum Subsystem {
    /// The node's identity in the cluster.
    Cluster,
    /// The sampler of the host's load.
    CpuSampler,
    /// The control socket.
    ControlListener { address: SocketAddress },
    /// The TURN server.
    Turn,
    /// The dispatcher of redirected datagrams.
    Dispatcher,
    /// The sweeper of calls without media.
    Sweeper { timeout_ticks: u64 },
    /// The metrics page.
    Metrics { address: SocketAddress },
    /// The export of telemetry.
    Telemetry { collector: SocketAddress },
    /// The compatibility control socket.
    Ng { address: SocketAddress },
    /// The watch for a shutdown signal.
    SignalWatch,
    /// The control server, until the shutdown.
    ControlServer { max_rps: u64 },
    /// The wait for live calls.
    Drain { grace_secs: u64 },
}

/// An optional subsystem.
pub open spec fn optional_subsystem(present: bool, subsystem: Subsystem) -> Seq<Subsystem> {
    if present {
        seq![subsystem]
    } else {
        Seq::empty()
    }
}

/// What the daemon starts, in order: the dispatcher follows everything it feeds, and nothing is served
/// before the sweeper runs.
pub open spec fn startup_order(config: Resolved, collector: Option<SocketAddress>) -> Seq<Subsystem> {
    seq![
        Subsystem::Cluster,
        Subsystem::CpuSampler,
        Subsystem::ControlListener { address: config.control },
        Subsystem::Turn,
        Subsystem::Dispatcher,
        Subsystem::Sweeper { timeout_ticks: config.media_timeout_secs },
    ] + optional_subsystem(
        config.metrics_addr is Some,
        Subsystem::Metrics { address: config.metrics_addr->Some_0 },
    ) + optional_subsystem(collector is Some, Subsystem::Telemetry { collector: collector->Some_0 })
        + optional_subsystem(config.ng is Some, Subsystem::Ng { address: config.ng->Some_0 }) + seq![
        Subsystem::SignalWatch,
        Subsystem::ControlServer { max_rps: config.max_control_rps },
        Subsystem::Drain { grace_secs: config.shutdown_grace_secs },
    ]
}

/// What the daemon starts over the chosen datapath, in order. `collector` is the telemetry collector,
/// where a valid one is configured.
pub fn run_with_datapath(config: &Resolved, collector: Option<SocketAddress>) -> (order: Vec<Subsystem>)
    ensures
        order@ == startup_order(*config, collector),
{
    let mut order: Vec<Subsystem> = vec![
        Subsystem::Cluster,
        Subsystem::CpuSampler,
        Subsystem::ControlListener { address: config.control },
        Subsystem::Turn,
        Subsystem::Dispatcher,
        Subsystem::Sweeper { timeout_ticks: config.media_timeout_secs },
    ];
    if let Some(address) = config.metrics_addr {
        order.push(Subsystem::Metrics { address });
    }
    if let Some(address) = collector {
        order.push(Subsystem::Telemetry { collector: address });
    }
    if let Some(address) = config.ng {
        order.push(Subsystem::Ng { address });
    }
    order.push(Subsystem::SignalWatch);
    order.push(Subsystem::ControlServer { max_rps: config.max_control_rps });
    order.push(Subsystem::Drain { grace_secs: config.shutdown_grace_secs });
    proof {
        assert(order@ =~= startup_order(*config, collector));
    }
    order
}

/// Where the shutdown stands.
#[derive(Clone, Copy, Debug, PartialEq, Eq, Structural)]
pub enum DrainStep {
    /// No call is live.
    Drained,
    /// Calls are live, but the wait is over.
    GraceElapsed { remaining: u64 },
    /// Ask again later.
    Wait,
}

/// Whether the shutdown waits at all.
pub fn drain_waits(sessions: u64, grace_secs: u64) -> (waits: bool)
    ensures
        waits == (sessions > 0 && grace_secs > 0),
{
    sessions > 0 && grace_secs > 0
}

/// Where the shutdown stands when it asks again.
pub fn drain_sessions(sessions: u64, deadline_passed: bool) -> (step: DrainStep)
    ensures
        step == (if sessions == 0 {
            DrainStep::Drained
        } else if deadline_passed {
            DrainStep::GraceElapsed { remaining: sessions }
        } else {
            DrainStep::Wait
        }),
{
    if sessions == 0 {
        DrainStep::Drained
    } else if deadline_passed {
        DrainStep::GraceElapsed { remaining: sessions }
    } else {
        DrainStep::Wait
    }
}

/// A file speaks for each setting by name wherever the command line is silent, and the command line wherever the
/// file is; where both are, the default does.
pub proof fn law_settings_are_merged_by_name(args: Args, explicit: Explicit, file: FileConfig, default_rps: u64)
    ensures
        ({
            let resolved = resolved_of(args, explicit, file, default_rps);
            &&& explicit.control ==> resolved.control == args.control
            &&& !explicit.control && file.control is Some ==> Some(resolved.control) == file.control
            &&& !explicit.control && file.control is None ==> resolved.control == (SocketAddress { ip: IpAddress::V4(127, 0, 0, 1), port: 8080, flowinfo: 0, scope_id: 0 })
            &&& explicit.max_control_rps ==> resolved.max_control_rps == args.max_control_rps
            &&& !explicit.max_control_rps && file.max_control_rps is Some ==> Some(resolved.max_control_rps) == file.max_control_rps
            &&& !explicit.max_control_rps && file.max_control_rps is None ==> resolved.max_control_rps == default_rps
            &&& explicit.media_timeout_secs ==> resolved.media_timeout_secs == args.media_timeout_secs
            &&& !explicit.media_timeout_secs && file.media_timeout_secs is Some ==> Some(resolved.media_timeout_secs) == file.media_timeout_secs
            &&& !explicit.media_timeout_secs && file.media_timeout_secs is None ==> resolved.media_timeout_secs == 30
            &&& explicit.shutdown_grace_secs ==> resolved.shutdown_grace_secs == args.shutdown_grace_secs
            &&& !explicit.shutdown_grace_secs && file.shutdown_grace_secs is Some ==> Some(resolved.shutdown_grace_secs) == file.shutdown_grace_secs
            &&& !explicit.shutdown_grace_secs && file.shutdown_grace_secs is None ==> resolved.shutdown_grace_secs == 25
            &&& explicit.max_sessions ==> resolved.max_sessions == args.max_sessions
            &&& !explicit.max_sessions && file.max_sessions is Some ==> Some(resolved.max_sessions) == file.max_sessions
            &&& !explicit.max_sessions && file.max_sessions is None ==> resolved.max_sessions == 0
            &&& explicit.xdp_queue ==> resolved.xdp_queue == args.xdp_queue
            &&& !explicit.xdp_queue && file.xdp_queue is Some ==> Some(resolved.xdp_queue) == file.xdp_queue
            &&& !explicit.xdp_queue && file.xdp_queue is None ==> resolved.xdp_queue == 0
            &&& args.ng is Some ==> resolved.ng == args.ng
            &&& args.ng is None ==> resolved.ng == file.ng
            &&& args.relay_bind_ip is Some ==> resolved.relay_bind_ip == args.relay_bind_ip
            &&& args.relay_bind_ip is None ==> resolved.relay_bind_ip == file.relay_bind_ip
            &&& args.port_min is Some ==> resolved.port_min == args.port_min
            &&& args.port_min is None ==> resolved.port_min == file.port_min
            &&& args.port_max is Some ==> resolved.port_max == args.port_max
            &&& args.port_max is None ==> resolved.port_max == file.port_max
            &&& args.metrics_addr is Some ==> resolved.metrics_addr == args.metrics_addr
            &&& args.metrics_addr is None ==> resolved.metrics_addr == file.metrics_addr
            &&& args.turn_udp is Some ==> resolved.turn_udp == args.turn_udp
            &&& args.turn_udp is None ==> resolved.turn_udp == file.turn_udp
            &&& args.turn_tcp is Some ==> resolved.turn_tcp == args.turn_tcp
            &&& args.turn_tcp is None ==> resolved.turn_tcp == file.turn_tcp
            &&& args.turn_tls is Some ==> resolved.turn_tls == args.turn_tls
            &&& args.turn_tls is None ==> resolved.turn_tls == file.turn_tls
            &&& args.turn_tls_cert is Some ==> resolved.turn_tls_cert == args.turn_tls_cert
            &&& args.turn_tls_cert is None ==> resolved.turn_tls_cert == file.turn_tls_cert
            &&& args.turn_tls_key is Some ==> resolved.turn_tls_key == args.turn_tls_key
            &&& args.turn_tls_key is None ==> resolved.turn_tls_key == file.turn_tls_key
            &&& args.turn_relay_ip is Some ==> resolved.turn_relay_ip == args.turn_relay_ip
            &&& args.turn_relay_ip is None ==> resolved.turn_relay_ip == file.turn_relay_ip
            &&& args.node_id is Some ==> resolved.node_id == args.node_id
            &&& args.node_id is None ==> resolved.node_id == file.node_id
            &&& args.xdp_interface is Some ==> resolved.xdp_interface == args.xdp_interface
            &&& args.xdp_interface is None ==> resolved.xdp_interface == file.xdp_interface
            &&& resolved.log_filter == file.log_filter
        }),
{
}

/// Which IPv4 addresses can be handed to peers, by their first octet: never loopback or multicast; of the first
/// and the last network all but the wildcard and the broadcast; and all others.
pub proof fn law_routable_addresses(a: u8, b: u8, c: u8, d: u8)
    ensures
        1 <= a <= 126 || 128 <= a <= 223 || 240 <= a <= 254 ==> routable_v4(a, b, c, d),
        a == 127 || 224 <= a <= 239 ==> !routable_v4(a, b, c, d),
        a == 0 ==> (routable_v4(a, b, c, d) <==> b != 0 || c != 0 || d != 0),
        a == 255 ==> (routable_v4(a, b, c, d) <==> b != 255 || c != 255 || d != 255),
        routable_relay(Some(IpAddress::V4(a, b, c, d))) == routable_v4(a, b, c, d),
        !routable_relay(None),
        forall|value: u128| !(#[trigger] routable_relay(Some(IpAddress::V6(value)))),
{
}

/// The daemon comes up in order: its identity first, the control socket before anything is served, the sweeper
/// after the dispatcher, then what was configured and only that, with its own address, and last the watch for a
/// shutdown, the control server and the wait for live calls.
pub proof fn law_daemon_comes_up_in_order(config: Resolved, collector: Option<SocketAddress>)
    ensures
        ({
            let order = startup_order(config, collector);
            let metrics = if config.metrics_addr is Some {
                1int
            } else {
                0
            };
            let telemetry = if collector is Some {
                1int
            } else {
                0
            };
            let ng = if config.ng is Some {
                1int
            } else {
                0
            };
            let last = 6 + metrics + telemetry + ng;
            &&& order.len() == last + 3
            &&& order[0] == Subsystem::Cluster && order[1] == Subsystem::CpuSampler
            &&& order[2] == (Subsystem::ControlListener { address: config.control })
            &&& order[3] == Subsystem::Turn && order[4] == Subsystem::Dispatcher
            &&& order[5] == (Subsystem::Sweeper { timeout_ticks: config.media_timeout_secs })
            &&& config.metrics_addr matches Some(address) ==> order[6] == (Subsystem::Metrics { address })
            &&& collector matches Some(address) ==> order[6 + metrics] == (Subsystem::Telemetry { collector: address })
            &&& config.ng matches Some(address) ==> order[6 + metrics + telemetry] == (Subsystem::Ng { address })
            &&& order[last] == Subsystem::SignalWatch
            &&& order[last + 1] == (Subsystem::ControlServer { max_rps: config.max_control_rps })
            &&& order[last + 2] == (Subsystem::Drain { grace_secs: config.shutdown_grace_secs })
        }),
{
}

/// The TURN listeners are those asked for, datagrams before streams.
pub proof fn law_turn_listeners(udp: Option<SocketAddress>, tcp: Option<SocketAddress>)
    ensures
        ({
            let listeners = plain_listeners(udp, tcp);
            &&& listeners.len() == (if udp is Some {
                1int
            } else {
                0
            }) + (if tcp is Some {
                1int
            } else {
                0
            })
            &&& udp matches Some(address) ==> listeners[0] == (TurnListener::Udp { address })
            &&& tcp matches Some(address) ==> listeners.last() == (TurnListener::Tcp { address })
        }),
{
}

} // verus!
