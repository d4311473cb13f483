//! ICE credentials, consent freshness and the agent registry.
use siphon_rtp_engine::ice::consent::{
    CheckRequest, ConsentChecker, ConsentParams, ConsentAction, IceRole, StunResponse, TransactionAction, TransactionId,
};
use siphon_rtp_engine::ice::driver::{
    tie_breaker, AgentAction, AgentOutcome, AgentRoute, AgentSupervisor, ConsentConfig, ConsentOutcome,
    ConsentSupervisor,
};
use siphon_rtp_engine::ice::{credentials_from, generate_credentials, ice_string};
use siphon_rtp_engine::net::{EndpointId, IpAddress, SocketAddress};

const ICE_ALPHABET: &str = "ABCDEFGHIJKLMNOPQRSTUVWXYZabcdefghijklmnopqrstuvwxyz0123456789+/";
const ENDPOINT: EndpointId = EndpointId(7);
const PASSWORD: &str = "peer-password-000000000";
const PRIORITY: u32 = 0x6e00_01ff;

fn address(last: u8, port: u16) -> SocketAddress {
    SocketAddress::new(IpAddress::V4(192, 0, 2, last), port)
}

/// Binding transactions in flight, retransmitted at doubling intervals and given up after seven sends.
#[derive(Default)]
struct Transactions {
    next: u128,
    sends: u32,
    due: u64,
    interval: u64,
}

impl Transactions {
    fn start(&mut self, rto_ticks: u64, now: u64) -> TransactionId {
        self.next += 1;
        self.sends = 1;
        self.interval = rto_ticks;
        self.due = now + rto_ticks;
        TransactionId(self.next)
    }

    fn poll(&mut self, now: u64) -> TransactionAction {
        if now < self.due {
            return TransactionAction::Wait;
        }
        if self.sends == 7 {
            return TransactionAction::Failed;
        }
        self.sends += 1;
        self.interval *= 2;
        self.due = now + self.interval;
        TransactionAction::Retransmit
    }
}

struct Checker {
    checker: ConsentChecker,
    transactions: Transactions,
}

impl Checker {
    fn new() -> Self {
        let params = ConsentParams {
            remote_addr: address(7, 40000),
            local_ufrag: "lFrag".into(),
            remote_ufrag: "rFrag".into(),
            remote_pwd: "remote-ice-password-000".into(),
            priority: PRIORITY,
            role: IceRole::Controlling(0x0123_4567_89ab_cdef),
            interval_ticks: 5,
            timeout_ticks: 30,
            rto_ticks: 1,
            seed: 0xdead_beef,
        };
        Checker { checker: ConsentChecker::new(params, 0), transactions: Transactions::default() }
    }

    fn poll(&mut self, now: u64) -> ConsentAction {
        let mut step = self.checker.poll(now);
        loop {
            step = match step {
                ConsentAction::PollTransaction { .. } => {
                    let action = self.transactions.poll(now);
                    self.checker.transaction_polled(action, now)
                }
                ConsentAction::StartTransaction { rto_ticks } => {
                    let id = self.transactions.start(rto_ticks, now);
                    self.checker.started(Some(id), now)
                }
                done => return done,
            };
        }
    }

    fn respond(&mut self, transaction_id: TransactionId, password: &str, now: u64) -> bool {
        let response = StunResponse {
            binding_success: true,
            transaction_id,
            integrity_verified: password == self.checker.remote_pwd(),
        };
        self.checker.on_response(Some(response), now)
    }
}

fn sent(step: ConsentAction) -> CheckRequest {
    match step {
        ConsentAction::SendCheck { request } => request,
        other => panic!("expected a check, got {other:?}"),
    }
}

#[test]
fn credentials_meet_rfc8445_shape() {
    let credentials = generate_credentials().expect("OS RNG available");
    assert!(credentials.ufrag.len() >= 4, "ufrag ≥ 4 chars");
    assert!(credentials.pwd.len() >= 22, "pwd ≥ 22 chars");
    let alphabet: Vec<char> = ICE_ALPHABET.chars().collect();
    for character in credentials.ufrag.chars().chain(credentials.pwd.chars()) {
        assert!(alphabet.contains(&character), "{character:?} is an ice-char");
    }
}

#[test]
fn credentials_are_fresh_each_call() {
    let first = generate_credentials().expect("rng");
    let second = generate_credentials().expect("rng");
    assert_ne!(first.pwd, second.pwd, "passwords are unpredictable per call");
}

#[test]
fn each_byte_picks_one_ice_character() {
    assert_eq!(ice_string(&vec![0, 25, 26, 51, 52, 61, 62, 63]), "AZaz09+/");
    assert_eq!(ice_string(&vec![64, 255]), "A/");
    assert!(credentials_from(None, Some(vec![0])).is_none());
    assert!(credentials_from(Some(vec![0]), None).is_none());
    let drawn = credentials_from(Some(vec![1]), Some(vec![2, 3])).expect("both drawn");
    assert_eq!((drawn.ufrag.as_str(), drawn.pwd.as_str()), ("B", "CD"));
}

#[test]
fn every_ice_character_is_picked_by_four_bytes() {
    for wanted in ICE_ALPHABET.chars() {
        let picks = (0..=255u8).filter(|&byte| ice_string(&vec![byte]).starts_with(wanted)).count();
        assert_eq!(picks, 4);
    }
}

#[test]
fn first_poll_sends_a_check_addressed_to_the_peer() {
    let request = sent(Checker::new().poll(0));
    assert_eq!(request.dst, address(7, 40000));
    assert_eq!(request.username, "rFrag:lFrag");
    assert_eq!(request.priority, 0x6e00_01ff);
    assert_eq!(request.role, IceRole::Controlling(0x0123_4567_89ab_cdef));
    assert_eq!(request.password, "remote-ice-password-000");
}

#[test]
fn correlated_response_refreshes_consent_and_reschedules() {
    let mut checker = Checker::new();
    let check = sent(checker.poll(0));
    assert!(checker.respond(check.transaction_id, "remote-ice-password-000", 1), "correlated + MI-verified");
    assert_eq!(checker.checker.last_consent_tick(), 1);
    assert!(matches!(checker.poll(1), ConsentAction::Idle), "next check not due yet");
    let mut next_check = None;
    for tick in 2..=8 {
        match checker.poll(tick) {
            ConsentAction::SendCheck { .. } => {
                next_check = Some(tick);
                break;
            }
            ConsentAction::Idle => {}
            other => panic!("must not fail while consent is fresh: {other:?}"),
        }
    }
    let tick = next_check.expect("a fresh check within the jittered interval");
    assert!((4..=6).contains(&tick), "check at ~interval, got {tick}");
}

#[test]
fn retransmits_a_lost_check_without_failing() {
    let mut checker = Checker::new();
    assert!(matches!(checker.poll(0), ConsentAction::SendCheck { .. }));
    assert!(
        matches!(checker.poll(1), ConsentAction::SendCheck { .. }),
        "a lost check is retransmitted, not failed"
    );
    for tick in 2..30 {
        assert!(!matches!(checker.poll(tick), ConsentAction::Failed), "tick {tick}");
    }
}

#[test]
fn fails_after_timeout_with_no_response() {
    let mut checker = Checker::new();
    checker.poll(0);
    for tick in 1..30 {
        assert!(!matches!(checker.poll(tick), ConsentAction::Failed), "tick {tick}");
    }
    assert!(matches!(checker.poll(30), ConsentAction::Failed));
}

#[test]
fn an_answer_opens_a_full_window_anew() {
    let mut checker = Checker::new();
    let first = sent(checker.poll(0));
    assert!(checker.respond(first.transaction_id, "remote-ice-password-000", 0));
    let second = sent(checker.poll(5));
    assert!(checker.respond(second.transaction_id, "remote-ice-password-000", 12));
    for tick in 13..42 {
        assert!(!matches!(checker.poll(tick), ConsentAction::Failed), "tick {tick}");
    }
    assert!(matches!(checker.poll(42), ConsentAction::Failed));
}

#[test]
fn ignores_forged_and_uncorrelated_responses() {
    let mut checker = Checker::new();
    let check = sent(checker.poll(0));
    assert!(!checker.respond(TransactionId(u128::MAX), "remote-ice-password-000", 5));
    assert!(!checker.respond(check.transaction_id, "WRONG-PASSWORD", 5));
    assert!(!checker.checker.on_response(None, 5), "not a STUN message");
    assert_eq!(checker.checker.last_consent_tick(), 0);
    assert!(matches!(checker.poll(30), ConsentAction::Failed));
}

#[test]
fn an_error_response_does_not_renew() {
    let mut checker = Checker::new();
    let check = sent(checker.poll(0));
    let response = StunResponse {
        binding_success: false,
        transaction_id: check.transaction_id,
        integrity_verified: true,
    };
    assert!(!checker.checker.on_response(Some(response), 5));
}

#[test]
fn a_check_that_cannot_be_drawn_is_tried_again() {
    let mut checker = Checker::new();
    assert!(matches!(checker.checker.poll(0), ConsentAction::StartTransaction { rto_ticks: 1 }));
    assert!(matches!(checker.checker.started(None, 0), ConsentAction::Idle));
    assert!(matches!(checker.poll(1), ConsentAction::SendCheck { .. }));
}

#[test]
fn jitter_is_deterministic_for_a_fixed_seed() {
    let mut first = Checker::new();
    let mut second = Checker::new();
    for tick in 0..40 {
        assert_eq!(
            std::mem::discriminant(&first.poll(tick)),
            std::mem::discriminant(&second.poll(tick)),
            "scheduling diverged at tick {tick}"
        );
    }
}

struct Supervisor {
    supervisor: ConsentSupervisor,
    transactions: Transactions,
}

impl Supervisor {
    fn new() -> Self {
        let config = ConsentConfig { interval_ticks: 5, timeout_ticks: 30, rto_ticks: 1 };
        Supervisor { supervisor: ConsentSupervisor::new(config, PRIORITY), transactions: Transactions::default() }
    }

    fn registered() -> Self {
        let mut bench = Self::new();
        bench.register(ENDPOINT, "call-1", "engUfrag", "peerUfrag", PASSWORD);
        bench
    }

    fn register(&mut self, endpoint: EndpointId, call_id: &str, local: &str, remote: &str, password: &str) {
        self.supervisor.register(
            endpoint,
            call_id.to_string(),
            local.to_string(),
            remote.to_string(),
            password.to_string(),
        );
    }

    fn poll(&mut self, validated: Option<SocketAddress>, now: u64) -> Vec<ConsentOutcome> {
        let mut outcomes = Vec::new();
        let mut index = 0;
        while let Some(endpoint) = self.supervisor.endpoint_at(index) {
            let mut step = self.supervisor.poll(endpoint, validated, now);
            loop {
                step = match step {
                    ConsentAction::PollTransaction { .. } => {
                        let action = self.transactions.poll(now);
                        self.supervisor.transaction_polled(endpoint, action, now)
                    }
                    ConsentAction::StartTransaction { rto_ticks } => {
                        let id = self.transactions.start(rto_ticks, now);
                        self.supervisor.check_started(endpoint, Some(id), now)
                    }
                    done => {
                        outcomes.extend(self.supervisor.outcome(endpoint, done));
                        break;
                    }
                };
            }
            index += 1;
        }
        outcomes
    }

    fn respond(&mut self, request: &CheckRequest, password: &str, arrival: u64) {
        let verified = self.supervisor.remote_pwd(ENDPOINT).as_deref() == Some(password);
        let response = StunResponse {
            binding_success: true,
            transaction_id: request.transaction_id,
            integrity_verified: verified,
        };
        self.supervisor.on_event(ENDPOINT, Some(response), arrival);
    }
}

fn failed(outcomes: &[ConsentOutcome]) -> bool {
    outcomes.iter().any(|outcome| matches!(outcome, ConsentOutcome::Failed { .. }))
}

#[test]
fn does_not_probe_an_endpoint_with_no_validated_pair() {
    let mut supervisor = Supervisor::registered();
    for tick in 0..100 {
        assert!(supervisor.poll(None, tick).is_empty(), "no outcome at tick {tick}");
    }
}

#[test]
fn probes_the_validated_source_not_the_signalled_address() {
    let mut supervisor = Supervisor::registered();
    let outcomes = supervisor.poll(Some(address(7, 40000)), 0);
    let [ConsentOutcome::Send { endpoint, request }] = outcomes.as_slice() else {
        panic!("expected exactly one check, got {outcomes:?}");
    };
    assert_eq!(*endpoint, ENDPOINT, "checks egress the media endpoint");
    assert_eq!(request.dst, address(7, 40000), "the check goes to the validated path");
    assert_eq!(request.username, "peerUfrag:engUfrag");
    assert_eq!(request.password, PASSWORD);
    assert!(matches!(request.role, IceRole::Controlled(_)), "the check advertises ICE-CONTROLLED");
}

#[test]
fn an_answered_check_keeps_the_call_alive_indefinitely() {
    let mut supervisor = Supervisor::registered();
    for tick in 0..90 {
        for outcome in &supervisor.poll(Some(address(7, 40000)), tick) {
            match outcome {
                ConsentOutcome::Send { request, .. } => supervisor.respond(request, PASSWORD, tick),
                ConsentOutcome::Failed { .. } => {
                    panic!("consent must not fail while the peer answers (tick {tick})")
                }
            }
        }
    }
}

#[test]
fn a_silent_peer_fails_consent_at_the_timeout() {
    let mut supervisor = Supervisor::registered();
    for tick in 0..30 {
        let outcomes = supervisor.poll(Some(address(7, 40000)), tick);
        assert!(!failed(&outcomes), "must not fail before the timeout (tick {tick})");
    }
    let outcomes = supervisor.poll(Some(address(7, 40000)), 30);
    assert_eq!(outcomes.len(), 1);
    assert!(matches!(
        &outcomes[0],
        ConsentOutcome::Failed { endpoint, call_id } if *endpoint == ENDPOINT && call_id == "call-1"
    ));
}

#[test]
fn a_forged_response_does_not_refresh_consent() {
    let mut supervisor = Supervisor::registered();
    let outcomes = supervisor.poll(Some(address(7, 40000)), 0);
    let [ConsentOutcome::Send { request, .. }] = outcomes.as_slice() else {
        panic!("expected one check, got {outcomes:?}");
    };
    supervisor.respond(request, "WRONG-PASSWORD", 1);
    for tick in 1..30 {
        supervisor.poll(Some(address(7, 40000)), tick);
    }
    assert!(
        failed(&supervisor.poll(Some(address(7, 40000)), 30)),
        "a forged response must leave consent expiring on schedule"
    );
}

#[test]
fn a_rebinding_peer_re_arms_consent_on_the_new_validated_path() {
    let mut supervisor = Supervisor::registered();
    supervisor.poll(Some(address(7, 40000)), 0);
    let rebound = address(9, 41000);
    let outcomes = supervisor.poll(Some(rebound), 1);
    let [ConsentOutcome::Send { request, .. }] = outcomes.as_slice() else {
        panic!("expected a check on the new path, got {outcomes:?}");
    };
    assert_eq!(request.dst, rebound, "consent follows the newly validated path");
    for tick in 2..=30 {
        assert!(
            !failed(&supervisor.poll(Some(rebound), tick)),
            "re-armed consent must not inherit the old pair's clock (tick {tick})"
        );
    }
    assert!(failed(&supervisor.poll(Some(rebound), 31)));
}

#[test]
fn unregistering_drains_the_registry() {
    let mut bench = Supervisor::registered();
    bench.register(EndpointId(8), "call-2", "eng", "peer", "password-0000000000000");
    assert_eq!(bench.supervisor.len(), 2);
    bench.supervisor.unregister_call(&"call-1".to_string());
    assert_eq!(bench.supervisor.len(), 1);
    bench.supervisor.unregister(EndpointId(8));
    assert!(bench.supervisor.is_empty(), "no consent state outlives its calls");
}

#[test]
fn every_endpoint_is_polled_once_per_tick() {
    let mut bench = Supervisor::new();
    for id in 1..=4 {
        bench.register(EndpointId(id), "call", "eng", "peer", PASSWORD);
    }
    for tick in [0, 40, 80] {
        let mut polled: Vec<u64> = bench
            .poll(Some(address(7, 40000 + tick as u16)), tick)
            .iter()
            .map(|outcome| match outcome {
                ConsentOutcome::Send { endpoint, .. } => endpoint.0,
                ConsentOutcome::Failed { endpoint, .. } => endpoint.0,
            })
            .collect();
        polled.sort_unstable();
        assert_eq!(polled, vec![1, 2, 3, 4], "tick {tick}");
    }
    let mut agents = AgentSupervisor::new();
    for id in 1..=3 {
        agents.register(EndpointId(id), "call".to_string(), address(1, 30000));
    }
    let mut walked = Vec::new();
    let mut index = 0;
    while let Some(endpoint) = agents.endpoint_at(index) {
        agents.translate(endpoint, vec![AgentAction::StateChanged { failed: false }], &mut Vec::new());
        walked.push(endpoint.0);
        index += 1;
    }
    assert_eq!(walked, vec![1, 2, 3]);
}

#[test]
fn registering_again_replaces_the_endpoint() {
    let mut bench = Supervisor::registered();
    bench.register(ENDPOINT, "call-3", "eng", "peer", "another-password-00000");
    assert_eq!(bench.supervisor.len(), 1);
    assert_eq!(bench.supervisor.remote_pwd(ENDPOINT).as_deref(), Some("another-password-00000"));
    bench.supervisor.unregister_call(&"call-1".to_string());
    assert_eq!(bench.supervisor.len(), 1);
    assert_eq!(bench.supervisor.endpoint_at(0), Some(ENDPOINT));
    assert_eq!(bench.supervisor.endpoint_at(1), None);
}

#[test]
fn events_for_an_unregistered_endpoint_are_discarded() {
    let mut bench = Supervisor::new();
    bench.supervisor.on_event(EndpointId(99), None, 0);
    assert!(bench.supervisor.is_empty());
    assert!(matches!(bench.supervisor.poll(EndpointId(99), Some(address(7, 1)), 0), ConsentAction::Idle));
}

#[test]
fn endpoints_get_distinct_jitter_seeds() {
    assert_ne!(tie_breaker(EndpointId(1)), tie_breaker(EndpointId(2)));
    assert_ne!(tie_breaker(EndpointId(1)), 0, "a zero seed would stick");
}

#[test]
fn the_default_consent_timing_is_the_recommended_one() {
    let config = ConsentConfig::default();
    assert_eq!((config.interval_ticks, config.timeout_ticks, config.rto_ticks), (5, 30, 1));
}

#[test]
fn an_agent_announces_its_selection_once() {
    let mut agents = AgentSupervisor::default();
    agents.register(ENDPOINT, "call-1".to_string(), address(1, 30000));
    assert_eq!(agents.len(), 1);
    let remote = address(9, 5000);
    let mut outcomes = Vec::new();
    agents.translate(
        ENDPOINT,
        vec![
            AgentAction::Send { to: remote, datagram: vec![1, 2] },
            AgentAction::Selected { remote },
            AgentAction::Selected { remote: address(9, 6000) },
            AgentAction::StateChanged { failed: false },
            AgentAction::StateChanged { failed: true },
        ],
        &mut outcomes,
    );
    assert_eq!(outcomes.len(), 3);
    assert!(matches!(&outcomes[0], AgentOutcome::Send { dst, datagram, .. } if *dst == remote && *datagram == vec![1, 2]));
    assert!(matches!(&outcomes[1], AgentOutcome::Selected { call_id, remote: at, .. } if call_id == "call-1" && *at == remote));
    assert!(matches!(&outcomes[2], AgentOutcome::Failed { endpoint, call_id } if *endpoint == ENDPOINT && call_id == "call-1"));
    outcomes.clear();
    agents.translate(ENDPOINT, vec![AgentAction::Selected { remote }], &mut outcomes);
    assert!(outcomes.is_empty());
    agents.register(ENDPOINT, "call-1".to_string(), address(1, 30000));
    agents.translate(ENDPOINT, vec![AgentAction::Selected { remote }], &mut outcomes);
    assert_eq!(outcomes.len(), 1, "a fresh registration announces again");
}

#[test]
fn a_relay_servers_datagrams_bypass_the_agent() {
    let mut agents = AgentSupervisor::new();
    agents.register(ENDPOINT, "call-1".to_string(), address(1, 30000));
    let server = address(5, 3478);
    assert!(matches!(agents.route_event(ENDPOINT, server, &[1]), AgentRoute::Agent { local } if local == address(1, 30000)));
    agents.set_turn_server(ENDPOINT, Some(server));
    match agents.route_event(ENDPOINT, server, &[1, 2]) {
        AgentRoute::Turn { outcome: AgentOutcome::TurnDatagram { endpoint, datagram } } => {
            assert_eq!((endpoint, datagram), (ENDPOINT, vec![1, 2]));
        }
        other => panic!("expected a relayed datagram, got {other:?}"),
    }
    assert!(matches!(agents.route_event(ENDPOINT, address(5, 1), &[1]), AgentRoute::Agent { .. }));
    assert!(matches!(agents.route_event(EndpointId(1), server, &[1]), AgentRoute::Unknown));
    agents.set_turn_server(EndpointId(1), Some(server));
    agents.unregister_call(&"call-1".to_string());
    assert!(agents.is_empty());
    assert_eq!(agents.endpoint_at(0), None);
}

#[test]
fn remote_addresses_are_listed_once_each() {
    let mut agents = AgentSupervisor::new();
    agents.register(ENDPOINT, "call-1".to_string(), address(1, 30000));
    let (first, second) = (address(2, 1), address(3, 1));
    assert_eq!(agents.remote_addresses(ENDPOINT, &vec![first, second, first]), vec![first, second]);
    assert!(agents.remote_addresses(EndpointId(1), &vec![first]).is_empty());
}
