//! Call snapshots and their hex fields.
use siphon_rtp_engine::ha::{
    default_opus_max_ptime_ms, default_opus_playback_rate_hz, from_hex, is_false, to_hex, CallSnapshot,
    CodecSnapshot, CryptoSnapshot, EndpointRole, FlowSnapshot, IceSnapshot, LatchSnapshot, LegSnapshot,
    PipelineSnapshot, SnapshotError, SourceFilterSnapshot, SNAPSHOT_VERSION,
};
use siphon_rtp_engine::net::{IpAddress, SocketAddress};

fn at(ip: IpAddress, port: u16) -> SocketAddress {
    SocketAddress::new(ip, port)
}

fn sample() -> CallSnapshot {
    let engine = IpAddress::V4(203, 0, 113, 10);
    let peer = IpAddress::V4(198, 51, 100, 1);
    let far = IpAddress::V4(192, 0, 2, 1);
    CallSnapshot {
        version: SNAPSHOT_VERSION,
        call_id: "call-abc@host".into(),
        from_tag: "alice-tag".into(),
        to_tag: Some("bob-tag".into()),
        pipeline: PipelineSnapshot::Passthrough,
        ice: Some(IceSnapshot { ufrag: "ufrag".into(), pwd: "password".into() }),
        far_local_crypto: Some(CryptoSnapshot {
            tag: 1,
            suite: "AES_CM_128_HMAC_SHA1_80".into(),
            master_key_hex: to_hex(&[0x11; 16]),
            master_salt_hex: to_hex(&[0x22; 14]),
        }),
        near_codec: Some(CodecSnapshot {
            payload_type: 0,
            encoding_name: "PCMU".into(),
            clock_rate_hz: 8000,
            channels: 1,
            ptime_ms: 20,
            encode_mode: None,
            allowed_modes: Vec::new(),
            opus: None,
        }),
        far_codec: None,
        near_telephone_event: Some(101),
        near: LegSnapshot {
            rtp_local: at(engine, 30000),
            rtcp_local: Some(at(engine, 30001)),
            remote_rtp: Some(at(peer, 5000)),
            remote_rtcp: Some(at(peer, 5001)),
            advertised_ip: None,
        },
        far: LegSnapshot {
            rtp_local: at(engine, 30002),
            rtcp_local: None,
            remote_rtp: Some(at(far, 7000)),
            remote_rtcp: None,
            advertised_ip: None,
        },
        flows: vec![FlowSnapshot {
            installed_on: EndpointRole::NearRtp,
            out: EndpointRole::FarRtp,
            out_dst: Some(at(far, 7000)),
            accepted_source: SourceFilterSnapshot::Exact(peer),
            latch: LatchSnapshot::SignalledOnly,
        }],
        secure: None,
    }
}

#[test]
fn a_snapshot_of_this_version_is_taken() {
    let snapshot = CallSnapshot::from_json(Ok(sample())).expect("this version");
    assert_eq!(snapshot.call_id, "call-abc@host");
    assert_eq!(snapshot.flows.len(), 1);
}

#[test]
fn from_json_rejects_an_unknown_version() {
    let mut snapshot = sample();
    snapshot.version = SNAPSHOT_VERSION + 1;
    let error = CallSnapshot::from_json(Ok(snapshot)).expect_err("version mismatch must error");
    assert!(matches!(error, SnapshotError::Version { found: 3, expected: 2 }));
    assert_eq!(error.message(), "snapshot version 3 is not supported (this build expects 2)");
}

#[test]
fn from_json_rejects_malformed_blob() {
    let error = CallSnapshot::from_json(Err("key must be a string".to_string())).expect_err("malformed");
    assert!(matches!(error, SnapshotError::Json { .. }));
    assert_eq!(error.message(), "invalid snapshot: key must be a string");
}

#[test]
fn hex_round_trips_and_rejects_bad_input() {
    let bytes = [0x00, 0x11, 0xAB, 0xFF];
    assert_eq!(from_hex(&to_hex(&bytes)), Some(bytes.to_vec()));
    assert_eq!(from_hex("abc"), None, "odd length");
    assert_eq!(from_hex("zz"), None, "non-hex digit");
}

#[test]
fn hex_is_lower_case_and_read_in_either() {
    assert_eq!(to_hex(&[0x0a, 0xf0]), "0af0");
    assert_eq!(to_hex(&[]), "");
    assert_eq!(from_hex("0AF0"), Some(vec![0x0a, 0xf0]));
    assert_eq!(from_hex(""), Some(Vec::new()));
    assert_eq!(from_hex("+f"), None, "a sign is no digit");
    assert_eq!(from_hex("-f"), None);
    assert_eq!(from_hex("a\u{e9}b"), None, "a character across two pairs is no digit either");
    assert_eq!(from_hex("\u{e9}"), None);
}

#[test]
fn absent_opus_settings_take_the_format_defaults() {
    assert_eq!(default_opus_playback_rate_hz(), 48_000);
    assert_eq!(default_opus_max_ptime_ms(), 120);
    assert!(is_false(&false) && !is_false(&true));
}
