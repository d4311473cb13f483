//! Snapshots of calls for a standby node.
use crate::net::{IpAddress, SocketAddress};
use crate::text::{decimal, decimal_text, joined};
use vstd::prelude::*;
use vstd::utf8::{encode_utf8, is_ascii_chars, is_ascii_chars_encode_utf8};

verus! {

/// The version of the snapshot format.
pub const SNAPSHOT_VERSION: u16 = 2;

/// A snapshot of one call's negotiated state.
#[derive(Clone, Debug, PartialEq, Eq)]
pub struct CallSnapshot {
    pub version: u16,
    pub call_id: String,
    pub from_tag: String,
    pub to_tag: Option<String>,
    pub pipeline: PipelineSnapshot,
    pub ice: Option<IceSnapshot>,
    /// The engine's key toward the secure far leg.
    pub far_local_crypto: Option<CryptoSnapshot>,
    pub near_codec: Option<CodecSnapshot>,
    pub far_codec: Option<CodecSnapshot>,
    pub near_telephone_event: Option<u8>,
    pub near: LegSnapshot,
    pub far: LegSnapshot,
    /// The relay's rules, by role.
    pub flows: Vec<FlowSnapshot>,
    pub secure: Option<SecureSnapshot>,
}

/// One side of a call: the sockets to bind again, and the peer's addresses.
#[derive(Clone, Copy, Debug, PartialEq, Eq, Structural)]
pub struct LegSnapshot {
    pub rtp_local: SocketAddress,
    pub rtcp_local: Option<SocketAddress>,
    pub remote_rtp: Option<SocketAddress>,
    pub remote_rtcp: Option<SocketAddress>,
    pub advertised_ip: Option<IpAddress>,
}

/// How a call's media is carried.
#[derive(Clone, Copy, Debug, PartialEq, Eq, Structural)]
pub enum PipelineSnapshot {
    Passthrough,
    Srtp,
    Media,
    SrtpMedia,
    Ws,
    Dtls,
}

/// The engine's ICE credentials.
#[derive(Clone, Debug, PartialEq, Eq)]
pub struct IceSnapshot {
    pub ufrag: String,
    pub pwd: String,
}

/// A key of an encrypted leg, in hexadecimal.
#[derive(Clone, Debug, PartialEq, Eq)]
pub struct CryptoSnapshot {
    pub tag: u32,
    pub suite: String,
    pub master_key_hex: String,
    pub master_salt_hex: String,
}

/// A negotiated codec.
#[derive(Clone, Debug, PartialEq, Eq)]
pub struct CodecSnapshot {
    pub payload_type: u8,
    pub encoding_name: String,
    pub clock_rate_hz: u32,
    pub channels: u8,
    pub ptime_ms: u8,
    pub encode_mode: Option<u8>,
    pub allowed_modes: Vec<u8>,
    pub opus: Option<OpusSnapshot>,
}

/// Negotiated Opus parameters (RFC 7587 section 6.1).
#[derive(Clone, Copy, Debug, PartialEq, Eq, Structural)]
pub struct OpusSnapshot {
    pub max_average_bitrate: Option<u32>,
    pub max_playback_rate_hz: u32,
    pub max_ptime_ms: u8,
    pub stereo: bool,
    pub sprop_stereo: bool,
    pub cbr: bool,
    pub use_inband_fec: bool,
    pub use_dtx: bool,
}

/// The playback rate of an Opus leg that states none.
pub fn default_opus_playback_rate_hz() -> (rate: u32)
    ensures
        rate == 48000,
{
    48000
}

/// The longest packet time of an Opus leg that states none.
pub fn default_opus_max_ptime_ms() -> (ptime: u8)
    ensures
        ptime == 120,
{
    120
}

/// Whether a flag is off, and so left out of a snapshot.
pub fn is_false(flag: &bool) -> (off: bool)
    ensures
        off == !*flag,
{
    !*flag
}

/// Which of a call's endpoints a rule refers to.
#[derive(Clone, Copy, Debug, PartialEq, Eq, Structural)]
pub enum EndpointRole {
    NearRtp,
    NearRtcp,
    FarRtp,
    FarRtcp,
}

/// A relay rule, by role.
#[derive(Clone, Copy, Debug, PartialEq, Eq, Structural)]
pub struct FlowSnapshot {
    pub installed_on: EndpointRole,
    pub out: EndpointRole,
    pub out_dst: Option<SocketAddress>,
    pub accepted_source: SourceFilterSnapshot,
    pub latch: LatchSnapshot,
}

/// A gate on the source.
#[derive(Clone, Copy, Debug, PartialEq, Eq, Structural)]
pub enum SourceFilterSnapshot {
    Exact(IpAddress),
    Subnet(IpAddress, u8),
    Any,
}

/// When a relay follows the source.
#[derive(Clone, Copy, Debug, PartialEq, Eq, Structural)]
pub enum LatchSnapshot {
    Off,
    SignalledOnly,
    Symmetric,
}

/// The state of an encrypted call.
#[derive(Clone, Debug, PartialEq, Eq)]
pub struct SecureSnapshot {
    pub far_remote_crypto: CryptoSnapshot,
    pub rollover: SecureLegRolloverSnapshot,
    pub bridge_flows: Vec<BridgeFlowSnapshot>,
}

/// The rollover counters of an encrypted leg (RFC 3711 section 3.3.1).
#[derive(Clone, Debug, PartialEq, Eq)]
pub struct SecureLegRolloverSnapshot {
    pub inbound_rtp: Vec<StreamRolloverSnapshot>,
    pub outbound_rtp: Vec<StreamRolloverSnapshot>,
    pub outbound_rtcp_index: u32,
}

impl Default for SecureLegRolloverSnapshot {
    fn default() -> (rollover: Self)
        ensures
            rollover.inbound_rtp@.len() == 0,
            rollover.outbound_rtp@.len() == 0,
            rollover.outbound_rtcp_index == 0,
    {
        SecureLegRolloverSnapshot { inbound_rtp: Vec::new(), outbound_rtp: Vec::new(), outbound_rtcp_index: 0 }
    }
}

/// The rollover counter of one stream.
#[derive(Clone, Copy, Debug, PartialEq, Eq, Structural)]
pub struct StreamRolloverSnapshot {
    pub ssrc: u32,
    pub roc: u32,
    pub highest_seq: Option<u16>,
}

/// One flow of a crypto bridge, by role.
#[derive(Clone, Copy, Debug, PartialEq, Eq, Structural)]
pub struct BridgeFlowSnapshot {
    pub endpoint: EndpointRole,
    pub op: BridgeOpSnapshot,
    pub accepted_source: SourceFilterSnapshot,
    pub out: EndpointRole,
    pub out_dst: SocketAddress,
}

/// What a crypto bridge does to a flow.
#[derive(Clone, Copy, Debug, PartialEq, Eq, Structural)]
pub enum BridgeOpSnapshot {
    Encrypt,
    Decrypt,
}

/// Why a snapshot is refused.
#[derive(Clone, Debug)]
pub enum SnapshotError {
    /// It could not be read.
    Json { error: String },
    /// Its format is another version.
    Version { found: u16, expected: u16 },
}

impl SnapshotError {
    /// The message of the error.
    pub open spec fn text(self) -> Seq<char> {
        match self {
            SnapshotError::Json { error } => "invalid snapshot: "@ + error@,
            SnapshotError::Version { found, expected } => "snapshot version "@ + decimal(found as nat)
                + " is not supported (this build expects "@ + decimal(expected as nat) + ")"@,
        }
    }

    /// The message of the error.
    pub fn message(&self) -> (message: String)
        ensures
            message@ == self.text(),
    {
        match self {
            SnapshotError::Json { error } => joined("invalid snapshot: ", error.as_str()),
            SnapshotError::Version { found, expected } => {
                let mut message = joined("snapshot version ", decimal_text(*found as u64).as_str());
                message.push_str(" is not supported (this build expects ");
                message.push_str(decimal_text(*expected as u64).as_str());
                message.push_str(")");
                message
            },
        }
    }
}

impl CallSnapshot {
    /// Accept a snapshot that was read, or say why not. Only the version this build writes is
    /// accepted.
    pub fn from_json(parsed: Result<CallSnapshot, String>) -> (snapshot: Result<CallSnapshot, SnapshotError>)
        ensures
            parsed matches Err(error) ==> snapshot == Result::<CallSnapshot, SnapshotError>::Err(
                SnapshotError::Json { error },
            ),
            parsed matches Ok(read) ==> snapshot == (if read.version == SNAPSHOT_VERSION {
                Result::<CallSnapshot, SnapshotError>::Ok(read)
            } else {
                Result::<CallSnapshot, SnapshotError>::Err(
                    SnapshotError::Version { found: read.version, expected: SNAPSHOT_VERSION },
                )
            }),
    {
        match parsed {
            Err(error) => Err(SnapshotError::Json { error }),
            Ok(read) => {
                if read.version != SNAPSHOT_VERSION {
                    return Err(SnapshotError::Version { found: read.version, expected: SNAPSHOT_VERSION });
                }
                Ok(read)
            },
        }
    }
}

/// A lowercase hexadecimal digit.
pub open spec fn hex_digit(value: int) -> char {
    if value < 10 {
        (48 + value) as u8 as char
    } else {
        (87 + value) as u8 as char
    }
}

/// Bytes in lowercase hexadecimal, two digits each.
pub open spec fn hex_text(bytes: Seq<u8>) -> Seq<char> {
    Seq::new(
        2 * bytes.len(),
        |i: int|
            if i % 2 == 0 {
                hex_digit(bytes[i / 2] as int / 16)
            } else {
                hex_digit(bytes[i / 2] as int % 16)
            },
    )
}

/// The value of a hexadecimal digit in either case.
pub open spec fn digit_value(byte: u8) -> Option<u8> {
    if 48 <= byte <= 57 {
        Some((byte - 48) as u8)
    } else if 97 <= byte <= 102 {
        Some((byte - 87) as u8)
    } else if 65 <= byte <= 70 {
        Some((byte - 55) as u8)
    } else {
        None
    }
}

/// Whether a text is hexadecimal: digits only, and an even number of them.
pub open spec fn hexadecimal(text: Seq<u8>) -> bool {
    text.len() % 2 == 0 && forall|i: int| 0 <= i < text.len() ==> digit_value(#[trigger] text[i]) is Some
}

/// The bytes that a hexadecimal text stands for: each pair of digits is one.
pub open spec fn hex_bytes(text: Seq<u8>) -> Seq<u8> {
    Seq::new(
        text.len() / 2,
        |k: int| (16 * digit_value(text[2 * k])->Some_0 + digit_value(text[2 * k + 1])->Some_0) as u8,
    )
}

/// Bytes in lowercase hexadecimal.
pub fn to_hex(bytes: &[u8]) -> (text: String)
    ensures
        text@ == hex_text(bytes@),
{
    let mut text = String::new();
    let mut i: usize = 0;
    while i < bytes.len()
        invariant
            i <= bytes@.len(),
            text@ =~= hex_text(bytes@).take(2 * i as int),
        decreases bytes@.len() - i,
    {
        let byte: u8 = bytes[i];
        text.push(digit_char(byte / 16));
        text.push(digit_char(byte % 16));
        i = i + 1;
    }
    proof {
        assert(hex_text(bytes@).take(2 * i as int) =~= hex_text(bytes@));
    }
    text
}

/// A lowercase hexadecimal digit.
fn digit_char(value: u8) -> (digit: char)
    requires
        value < 16,
    ensures
        digit == hex_digit(value as int),
{
    if value < 10 {
        (48 + value) as char
    } else {
        (87 + value) as char
    }
}

/// The value of a hexadecimal digit in either case.
fn digit_of(byte: u8) -> (value: Option<u8>)
    ensures
        value == digit_value(byte),
        value matches Some(digit) ==> digit < 16,
{
    if 48 <= byte && byte <= 57 {
        Some(byte - 48)
    } else if 97 <= byte && byte <= 102 {
        Some(byte - 87)
    } else if 65 <= byte && byte <= 70 {
        Some(byte - 55)
    } else {
        None
    }
}

/// The bytes that a hexadecimal text stands for, or `None` when its length is odd or it holds anything
/// but hexadecimal digits.
pub fn from_hex(text: &str) -> (bytes: Option<Vec<u8>>)
    ensures
        bytes is Some == hexadecimal(encode_utf8(text@)),
        bytes matches Some(values) ==> values@ == hex_bytes(encode_utf8(text@)),
{
    let source = text.as_bytes();
    let total: usize = source.len();
    if total % 2 != 0 {
        return None;
    }
    let mut values: Vec<u8> = Vec::new();
    let mut i: usize = 0;
    while i < total / 2
        invariant
            total == source@.len(),
            source@ == encode_utf8(text@),
            total % 2 == 0,
            i <= total / 2,
            forall|k: int| 0 <= k < 2 * i ==> digit_value(#[trigger] source@[k]) is Some,
            values@ =~= hex_bytes(source@).take(i as int),
        decreases total / 2 - i,
    {
        let ghost first = source@[2 * i as int];
        let ghost second = source@[2 * i as int + 1];
        match (digit_of(source[2 * i]), digit_of(source[2 * i + 1])) {
            (Some(high), Some(low)) => {
                values.push(16 * high + low);
            },
            _ => {
                proof {
                    assert(digit_value(first) is None || digit_value(second) is None);
                }
                return None;
            },
        }
        i = i + 1;
    }
    proof {
        assert(hex_bytes(source@).take(i as int) =~= hex_bytes(source@));
    }
    Some(values)
}

/// What was written in hexadecimal reads back the same.
pub proof fn law_hex_round_trip(bytes: Seq<u8>)
    ensures
        hexadecimal(encode_utf8(hex_text(bytes))),
        hex_bytes(encode_utf8(hex_text(bytes))) == bytes,
{
    let text = hex_text(bytes);
    assert(is_ascii_chars(text)) by {
        assert forall|i: int| 0 <= i < text.len() implies '\0' <= #[trigger] text[i] <= '\u{7f}' by {
            lemma_hex_digit(bytes[i / 2] as int / 16);
            lemma_hex_digit(bytes[i / 2] as int % 16);
        }
    }
    is_ascii_chars_encode_utf8(text);
    let encoded = encode_utf8(text);
    assert forall|i: int| 0 <= i < encoded.len() implies digit_value(#[trigger] encoded[i]) == Some(
        if i % 2 == 0 {
            (bytes[i / 2] / 16) as u8
        } else {
            (bytes[i / 2] % 16) as u8
        },
    ) by {
        lemma_hex_digit(bytes[i / 2] as int / 16);
        lemma_hex_digit(bytes[i / 2] as int % 16);
        assert(encoded[i] == text[i] as u8);
    }
    assert forall|k: int| 0 <= k < bytes.len() implies #[trigger] hex_bytes(encoded)[k] == bytes[k] by {
        assert((2 * k) / 2 == k && (2 * k + 1) / 2 == k && (2 * k) % 2 == 0 && (2 * k + 1) % 2 == 1);
        assert(digit_value(encoded[2 * k]) == Some((bytes[k] / 16) as u8));
        assert(digit_value(encoded[2 * k + 1]) == Some((bytes[k] % 16) as u8));
    }
    assert(hex_bytes(encoded) =~= bytes);
}

/// A hexadecimal digit is one ASCII character that reads back as its value.
proof fn lemma_hex_digit(value: int)
    requires
        0 <= value < 16,
    ensures
        '\0' <= hex_digit(value) <= '\u{7f}',
        digit_value(hex_digit(value) as u8) == Some(value as u8),
{
}

/// A byte is written as its high and then its low half, each as a digit or one of the first six small letters.
pub proof fn law_bytes_are_written_high_half_first(bytes: Seq<u8>, i: int)
    requires
        0 <= i < bytes.len(),
    ensures
        ({
            let text = hex_text(bytes);
            let value = |c: char|
                if '0' <= c <= '9' {
                    c as int - '0' as int
                } else {
                    c as int - 'a' as int + 10
                };
            &&& text.len() == 2 * bytes.len()
            &&& forall|k: int|
                0 <= k < text.len() ==> '0' <= #[trigger] text[k] <= '9' || 'a' <= text[k] <= 'f'
            &&& bytes[i] == 16 * value(text[2 * i]) + value(text[2 * i + 1])
        }),
{
    let text = hex_text(bytes);
    assert forall|k: int| 0 <= k < text.len() implies '0' <= #[trigger] text[k] <= '9' || 'a' <= text[k] <= 'f' by {
        let byte = bytes[k / 2] as int;
        lemma_hex_digit(byte / 16);
        lemma_hex_digit(byte % 16);
    }
    assert((2 * i) / 2 == i && (2 * i + 1) / 2 == i);
    lemma_hex_digit(bytes[i] as int / 16);
    lemma_hex_digit(bytes[i] as int % 16);
}

/// A hexadecimal digit counts the same in either case, and nothing else is one.
pub proof fn law_digits_count_in_either_case(byte: u8)
    ensures
        digit_value(byte) matches Some(value) ==> value < 16,
        '0' as u8 <= byte <= '9' as u8 ==> digit_value(byte) == Some((byte - '0' as u8) as u8),
        'a' as u8 <= byte <= 'f' as u8 ==> digit_value(byte) == Some((byte - 'a' as u8 + 10) as u8) && digit_value(
            (byte - 32) as u8,
        ) == digit_value(byte),
        digit_value(byte) is Some <==> '0' as u8 <= byte <= '9' as u8 || 'a' as u8 <= byte <= 'f' as u8 || 'A' as u8
            <= byte <= 'F' as u8,
{
}

/// A text reads pair by pair: taking two digits away in front takes the first byte away.
pub proof fn law_bytes_are_read_pair_by_pair(text: Seq<u8>, high: u8, low: u8)
    requires
        hexadecimal(text),
        digit_value(high) is Some,
        digit_value(low) is Some,
    ensures
        hexadecimal(seq![high, low] + text),
        hex_bytes(seq![high, low] + text) == seq![
            (16 * digit_value(high)->Some_0 + digit_value(low)->Some_0) as u8,
        ] + hex_bytes(text),
        hex_bytes(text).len() * 2 == text.len(),
{
    let whole = seq![high, low] + text;
    assert forall|i: int| 0 <= i < whole.len() implies digit_value(#[trigger] whole[i]) is Some by {
        if i >= 2 {
            assert(whole[i] == text[i - 2]);
        }
    }
    assert(hex_bytes(whole) =~= seq![(16 * digit_value(high)->Some_0 + digit_value(low)->Some_0) as u8] + hex_bytes(
        text,
    ));
}

} // verus!
