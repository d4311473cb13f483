//! Media calls end to end, with small stand-ins for codecs, crypto and signal processing.
use siphon_rtp_engine::event::{Event, PlayEndReason};
use siphon_rtp_engine::media_pipeline::actor::{apply_control, ControlOutcome, MediaControl, PlayoutClock};
use siphon_rtp_engine::media_pipeline::call::{CapturedPacket, Entry, Leg, MediaCall, PcapCapture, QualitySample};
use siphon_rtp_engine::media_pipeline::direction::{
    CodecParams, DirectionConfig, Fork, RelayConfig, ToolSupport,
};
use siphon_rtp_engine::media_pipeline::echo::{build_echo_canceller, EchoReference};
use siphon_rtp_engine::media_pipeline::latch::{is_rtcp_datagram, rtp_source_ssrc, SymmetricLatch};
use siphon_rtp_engine::media_pipeline::registry::MediaRegistry;
use siphon_rtp_engine::media_pipeline::repacketize::Repacketizer;
use siphon_rtp_engine::media_pipeline::rtcp::{ReceptionBlock, RtcpRelay, RtcpReport, RtcpStep, RttNote};
use siphon_rtp_engine::media_pipeline::step::{
    DtmfEvent, DtmfStep, MediaStep, Onward, Outbound, RawTee, RtpHeader, RtpPacket, StreamTag,
};
use siphon_rtp_engine::net::{EndpointId, IpAddress, RxPacket, SocketAddress, SourceFilter};

const A_ADDR: &str = "127.0.0.2:5000";
const B_ADDR: &str = "127.0.0.3:6000";

fn addr(text: &str) -> SocketAddress {
    let (host, port) = text.split_once(':').expect("address with a port");
    let octets: Vec<u8> = host.split('.').map(|octet| octet.parse().expect("octet")).collect();
    SocketAddress::new(
        IpAddress::V4(octets[0], octets[1], octets[2], octets[3]),
        port.parse().expect("port"),
    )
}

fn endpoint(id: u64) -> EndpointId {
    EndpointId(id)
}

fn write_packet(header: &RtpHeader, payload: &[u8]) -> Option<Vec<u8>> {
    if payload.len() + 12 > 1500 {
        return None;
    }
    let mut packet = vec![0x80, (u8::from(header.marker) << 7) | header.payload_type];
    packet.extend_from_slice(&header.sequence.to_be_bytes());
    packet.extend_from_slice(&header.timestamp.to_be_bytes());
    packet.extend_from_slice(&header.ssrc.to_be_bytes());
    packet.extend_from_slice(payload);
    Some(packet)
}

fn parse_packet(data: &[u8]) -> Option<RtpPacket> {
    if data.len() < 12 || data[0] >> 6 != 2 {
        return None;
    }
    Some(RtpPacket {
        marker: data[1] & 0x80 != 0,
        payload_type: data[1] & 0x7f,
        sequence: u16::from_be_bytes([data[2], data[3]]),
        timestamp: u32::from_be_bytes([data[4], data[5], data[6], data[7]]),
        ssrc: u32::from_be_bytes([data[8], data[9], data[10], data[11]]),
        payload: data[12..].to_vec(),
    })
}

fn parse(outbound: &Outbound) -> RtpPacket {
    parse_packet(&outbound.data).expect("parse")
}

#[derive(Clone, Copy, PartialEq)]
enum Codec {
    Ulaw,
    Alaw,
    /// Two 16 kHz samples per byte, with an 8 kHz RTP clock.
    Wide,
    L16,
}

fn ulaw_decode(code: u8) -> i16 {
    let inverted = !code;
    let magnitude = ((i32::from(inverted & 0x0f) << 3) + 0x84) << ((inverted & 0x70) >> 4);
    let sample = magnitude - 0x84;
    (if inverted & 0x80 != 0 { -sample } else { sample }) as i16
}

fn ulaw_encode(sample: i16) -> u8 {
    let sign = if sample < 0 { 0x80u8 } else { 0 };
    let magnitude = (i32::from(sample).abs()).min(32635) + 0x84;
    let mut exponent = 7u8;
    while exponent > 0 && magnitude & (0x80 << exponent) == 0 {
        exponent -= 1;
    }
    let mantissa = ((magnitude >> (exponent + 3)) & 0x0f) as u8;
    !(sign | (exponent << 4) | mantissa)
}

fn alaw_decode(code: u8) -> i16 {
    let value = code ^ 0x55;
    let exponent = (value & 0x70) >> 4;
    let mantissa = i32::from(value & 0x0f) << 4;
    let sample = if exponent == 0 { mantissa + 8 } else { (mantissa + 0x108) << (exponent - 1) };
    (if value & 0x80 != 0 { sample } else { -sample }) as i16
}

fn alaw_encode(sample: i16) -> u8 {
    let sign = if sample >= 0 { 0x80u8 } else { 0 };
    let magnitude = if sample >= 0 { i32::from(sample) } else { -i32::from(sample) - 1 };
    let (exponent, mantissa) = if magnitude < 256 {
        (0u8, (magnitude >> 4) as u8)
    } else {
        let mut exponent = 7u8;
        while exponent > 1 && magnitude & (0x80 << exponent) == 0 {
            exponent -= 1;
        }
        (exponent, ((magnitude >> (exponent + 3)) & 0x0f) as u8)
    };
    (sign | (exponent << 4) | mantissa) ^ 0x55
}

impl Codec {
    fn params(self, ptime_ms: u32) -> CodecParams {
        let (rate, clock) = if self == Codec::Wide { (16000, 8000) } else { (8000, 8000) };
        CodecParams { sample_rate_hz: rate, rtp_clock_rate_hz: clock, frame_samples: rate * ptime_ms / 1000 }
    }

    fn decode(self, payload: &[u8]) -> Option<Vec<i16>> {
        if payload.is_empty() {
            return None;
        }
        Some(match self {
            Codec::Ulaw => payload.iter().map(|&code| ulaw_decode(code)).collect(),
            Codec::Alaw => payload.iter().map(|&code| alaw_decode(code)).collect(),
            Codec::Wide => payload.iter().flat_map(|&code| [i16::from(code), i16::from(code)]).collect(),
            Codec::L16 => payload.chunks(2).map(|pair| i16::from_be_bytes([pair[0], pair[1]])).collect(),
        })
    }

    fn encode(self, pcm: &[i16]) -> Option<Vec<u8>> {
        Some(match self {
            Codec::Ulaw => pcm.iter().map(|&sample| ulaw_encode(sample)).collect(),
            Codec::Alaw => pcm.iter().map(|&sample| alaw_encode(sample)).collect(),
            Codec::Wide => pcm.chunks(2).map(|pair| pair[0] as u8).collect(),
            Codec::L16 => pcm.iter().flat_map(|sample| sample.to_be_bytes()).collect(),
        })
    }
}

/// A stand-in for an encrypted leg: a key mask and a trailing check byte.
#[derive(Clone, Copy)]
struct SecureLeg {
    local: u8,
    remote: u8,
}

impl SecureLeg {
    fn protect(self, data: &[u8]) -> Vec<u8> {
        let mut sealed: Vec<u8> = data.iter().map(|byte| byte ^ self.local).collect();
        sealed.push(data.iter().fold(self.local, |sum, byte| sum.wrapping_add(*byte)));
        sealed
    }

    fn unprotect(self, data: &[u8]) -> Option<Vec<u8>> {
        let (check, body) = data.split_last()?;
        let plain: Vec<u8> = body.iter().map(|byte| byte ^ self.remote).collect();
        let sum = plain.iter().fold(self.remote, |sum, byte| sum.wrapping_add(*byte));
        if sum == *check {
            Some(plain)
        } else {
            None
        }
    }
}

struct Player {
    samples: Vec<i16>,
    position: usize,
    repeats: u32,
}

impl Player {
    fn next_frame(&mut self, wanted: usize) -> Option<Vec<i16>> {
        if self.position >= self.samples.len() {
            if self.repeats <= 1 {
                return None;
            }
            self.repeats -= 1;
            self.position = 0;
        }
        let end = (self.position + wanted).min(self.samples.len());
        let frame = self.samples[self.position..end].to_vec();
        self.position = end;
        Some(frame)
    }
}

/// A key-press sequence: five updates and three repeats of the end per digit, two ticks between.
fn dtmf_steps(digits: &str) -> Option<Vec<DtmfStep>> {
    let mut steps = Vec::new();
    for (index, digit) in digits.chars().enumerate() {
        let event = "0123456789*#ABCD".find(digit)? as u8;
        if index > 0 {
            steps.push(DtmfStep::Silence);
            steps.push(DtmfStep::Silence);
        }
        for packet in 0..8u32 {
            let duration = ((packet + 1).min(5) * 160) as u16;
            let end = if packet >= 5 { 0x80 } else { 0 };
            let mut bytes = vec![event, end | 10];
            bytes.extend_from_slice(&duration.to_be_bytes());
            steps.push(DtmfStep::Event {
                bytes,
                is_first: packet == 0,
                timestamp_offset: index as u32 * 1120,
            });
        }
    }
    if steps.is_empty() {
        return None;
    }
    steps.reverse();
    Some(steps)
}

/// A subscriber that gets a frame of audio as µ-law RTP.
struct ForkSink {
    id: u64,
    ssrc: u32,
    sequence: u16,
    sent: Vec<Vec<u8>>,
}

impl ForkSink {
    fn new(id: u64, ssrc: u32) -> Self {
        ForkSink { id, ssrc, sequence: 0, sent: Vec::new() }
    }

    fn write_pcm(&mut self, pcm: &[i16]) {
        let payload = Codec::Ulaw.encode(pcm).expect("encode");
        let timestamp = u32::from(self.sequence) * pcm.len() as u32;
        self.sent.push(rtp(0, self.sequence, timestamp, self.ssrc, false, &payload));
        self.sequence += 1;
    }
}

/// A round-trip and loss estimator for one direction's ingress.
#[derive(Default)]
struct Ingress {
    sequences: Vec<u16>,
    last_transit: Option<i64>,
    jitter_micros: f64,
    relayed_report: Option<(u32, u64)>,
    rtt_ms: Option<f64>,
}

impl Ingress {
    fn receive(&mut self, packet: &RtpPacket, arrival: u64) {
        self.sequences.push(packet.sequence);
        let transit = arrival as i64 - i64::from(packet.timestamp) * 125;
        if let Some(last) = self.last_transit {
            self.jitter_micros += ((transit - last).abs() as f64 - self.jitter_micros) / 16.0;
        }
        self.last_transit = Some(transit);
    }

    fn reading(&self) -> Option<QualitySample<f64>> {
        let (first, last) = (*self.sequences.first()?, *self.sequences.last()?);
        let expected = f64::from(last - first) + 1.0;
        let loss_percent = (expected - self.sequences.len() as f64) * 100.0 / expected;
        let rating = 93.2 - 95.0 * loss_percent / (loss_percent + 4.3);
        let mos = 1.0 + 0.035 * rating + 7e-6 * rating * (rating - 60.0) * (100.0 - rating);
        Some(QualitySample { mos, jitter_ms: self.jitter_micros / 1000.0, loss_percent })
    }

    fn note(&mut self, block: &ReceptionBlock, egress_ssrc: u32, arrival: u64) {
        if let Some((middle, sent)) = self.relayed_report {
            if block.ssrc == egress_ssrc && block.last_sender_report == middle {
                let held = f64::from(block.delay_since_last_sender_report) / 65.536;
                self.rtt_ms = Some((arrival - sent) as f64 / 1000.0 - held);
            }
        }
    }
}

/// Reads a sender report: its NTP timestamp and its reception blocks.
fn parse_sender_report(data: &[u8]) -> Option<RtcpReport> {
    if data.len() < 28 || data[1] != 200 {
        return None;
    }
    let word = |at: usize| u32::from_be_bytes([data[at], data[at + 1], data[at + 2], data[at + 3]]);
    let blocks = (0..usize::from(data[0] & 0x1f))
        .map(|index| 28 + index * 24)
        .map(|at| ReceptionBlock {
            ssrc: word(at),
            fraction_lost: data[at + 4],
            cumulative_lost: word(at + 4) & 0x00ff_ffff,
            highest_sequence: word(at + 8),
            jitter: word(at + 12),
            last_sender_report: word(at + 16),
            delay_since_last_sender_report: word(at + 20),
        })
        .collect();
    Some(RtcpReport::Sender { ntp_timestamp: (u64::from(word(8)) << 32) | u64::from(word(12)), blocks })
}

fn write_sender_report(ssrc: u32, ntp_timestamp: u64, blocks: &[ReceptionBlock]) -> Vec<u8> {
    let length = 6 + 6 * blocks.len() as u16;
    let mut packet = vec![0x80 | blocks.len() as u8, 200];
    packet.extend_from_slice(&length.to_be_bytes());
    packet.extend_from_slice(&ssrc.to_be_bytes());
    packet.extend_from_slice(&ntp_timestamp.to_be_bytes());
    packet.extend_from_slice(&[0; 12]);
    for block in blocks {
        packet.extend_from_slice(&block.ssrc.to_be_bytes());
        packet.extend_from_slice(&((u32::from(block.fraction_lost) << 24) | block.cumulative_lost).to_be_bytes());
        packet.extend_from_slice(&block.highest_sequence.to_be_bytes());
        packet.extend_from_slice(&block.jitter.to_be_bytes());
        packet.extend_from_slice(&block.last_sender_report.to_be_bytes());
        packet.extend_from_slice(&block.delay_since_last_sender_report.to_be_bytes());
    }
    packet
}

/// What stands behind one direction.
struct Tools {
    decoder: Codec,
    encoder: Codec,
    secure: Option<SecureLeg>,
    last_event: Option<u32>,
    player: Option<Player>,
    sequence: Vec<DtmfStep>,
    recorded: Vec<i16>,
    tapped: Vec<Vec<i16>>,
    forks: Vec<ForkSink>,
    ingress: Ingress,
    noise: u32,
}

impl Tools {
    fn new(decoder: Codec, encoder: Codec) -> Self {
        Tools {
            decoder,
            encoder,
            secure: None,
            last_event: None,
            player: None,
            sequence: Vec::new(),
            recorded: Vec::new(),
            tapped: Vec::new(),
            forks: Vec::new(),
            ingress: Ingress::default(),
            noise: 0x1234_5678,
        }
    }

    fn detect(&mut self, timestamp: u32, payload: &[u8]) -> Option<DtmfEvent> {
        if payload.len() < 4 || payload[1] & 0x80 == 0 || self.last_event == Some(timestamp) {
            return None;
        }
        self.last_event = Some(timestamp);
        Some(DtmfEvent {
            digit: "0123456789*#ABCD".chars().nth(usize::from(payload[0]))?,
            duration: u16::from_be_bytes([payload[2], payload[3]]),
            volume: payload[1] & 0x3f,
        })
    }

    fn fill_noise(&mut self, samples: usize) -> Vec<i16> {
        (0..samples)
            .map(|_| {
                self.noise = self.noise.wrapping_mul(1_664_525).wrapping_add(1_013_904_223);
                ((self.noise >> 24) as i16) - 128
            })
            .collect()
    }
}

/// A call with its tools.
struct Bench {
    call: MediaCall,
    a: Tools,
    b: Tools,
    captured: Vec<CapturedPacket>,
}

impl Bench {
    fn new(call: MediaCall, a: Tools, b: Tools) -> Self {
        Bench { call, a, b, captured: Vec::new() }
    }

    fn tools(&mut self, leg: Leg) -> &mut Tools {
        match leg {
            Leg::A => &mut self.a,
            Leg::B => &mut self.b,
        }
    }

    fn process(&mut self, packet: &RxPacket, out: &mut Vec<Outbound>, events: &mut Vec<Event>) -> bool {
        match self.call.process(packet, out) {
            Entry::Dropped => false,
            Entry::Rtcp { relay, companion } => {
                let secure = self.a.secure;
                let mut step = companion;
                loop {
                    match step {
                        RtcpStep::Unprotect { data } => {
                            let plain = secure.and_then(|leg| leg.unprotect(&data));
                            step = relay.unprotected(plain, out);
                        }
                        RtcpStep::Protect { data } => {
                            relay.protected(secure.map(|leg| leg.protect(&data)), out);
                            return true;
                        }
                        RtcpStep::Done => return true,
                    }
                }
            }
            Entry::Media { leg, capture, media } => {
                if let Some(captured) = capture {
                    self.captured.push(captured);
                }
                let latch = self.walk(leg, media, packet.arrival, out, events);
                if self.call.complete(leg, packet, latch).observe_rtt {
                    self.observe_rtt(leg, packet);
                }
                true
            }
        }
    }

    fn observe_rtt(&mut self, leg: Leg, packet: &RxPacket) {
        let Some(report) = parse_sender_report(&packet.data) else {
            return;
        };
        for note in self.call.observe_rtcp_rtt(leg, &vec![report]) {
            match note {
                RttNote::SentReport { ntp_timestamp } => {
                    let middle = (ntp_timestamp >> 16) as u32;
                    self.tools(leg.other()).ingress.relayed_report = Some((middle, packet.arrival));
                }
                RttNote::Reception { egress_ssrc, block } => {
                    self.tools(leg).ingress.note(&block, egress_ssrc, packet.arrival);
                }
            }
        }
    }

    fn add_fork(&mut self, source: Leg, sink: ForkSink) {
        self.call.add_fork(source, Fork { tag: None, sink: sink.id });
        self.tools(source).forks.push(sink);
    }

    fn remove_forks(&mut self, source: Leg) {
        let finished = self.call.remove_forks(source);
        self.tools(source).forks.retain(|fork| !finished.contains(&fork.id));
    }

    fn tick(&mut self, out: &mut Vec<Outbound>, events: &mut Vec<Event>) {
        for leg in [Leg::A, Leg::B] {
            let step = self.call.tick(leg);
            self.walk(leg, step, 0, out, events);
        }
    }

    fn walk(
        &mut self,
        leg: Leg,
        step: MediaStep,
        arrival: u64,
        out: &mut Vec<Outbound>,
        events: &mut Vec<Event>,
    ) -> Option<u32> {
        let mut leg = leg;
        let mut step = step;
        loop {
            step = match step {
                MediaStep::Unprotect { data, treatment } => {
                    let plain = self.tools(leg).secure.and_then(|secure| secure.unprotect(&data));
                    self.call.ingress_direction(leg).unprotected(plain, treatment, out)
                }
                MediaStep::Parse { data, treatment } => {
                    self.call.ingress_direction(leg).parsed(parse_packet(&data), treatment)
                }
                MediaStep::Receive { packet } => {
                    self.tools(leg).ingress.receive(&packet, arrival);
                    self.call.ingress_direction(leg).received(packet)
                }
                MediaStep::Detect { packet, treatment } => {
                    let event = self.tools(leg).detect(packet.timestamp, &packet.payload);
                    self.call.detected(leg, packet, treatment, event, events)
                }
                MediaStep::Decode { packet, treatment } => {
                    let pcm = self.tools(leg).decoder.decode(&packet.payload);
                    let stream = StreamTag { marker: packet.marker, ssrc: packet.ssrc };
                    let (home, next) = self.call.decoded(leg, pcm, stream, treatment);
                    leg = home;
                    next
                }
                MediaStep::SuppressNoise { pcm, stream } => {
                    let quieter = pcm.iter().map(|sample| sample / 2).collect();
                    self.call.suppressed(leg, quieter, stream)
                }
                MediaStep::CancelEcho { pcm, far_end, stream } => {
                    let clean = pcm.iter().zip(&far_end).map(|(near, far)| near.wrapping_sub(*far)).collect();
                    self.call.cancelled(clean, stream)
                }
                MediaStep::Tap { pcm, stream } => {
                    let tools = self.tools(leg);
                    tools.recorded.extend_from_slice(&pcm);
                    tools.tapped.push(pcm.clone());
                    for fork in &mut tools.forks {
                        fork.write_pcm(&pcm);
                    }
                    self.call.ingress_direction(leg).tapped(pcm, stream)
                }
                MediaStep::Resample { pcm, stream } => {
                    let half: Vec<i16> = pcm.iter().copied().step_by(2).collect();
                    self.call.ingress_direction(leg).repacketize(half, stream.marker, Some(stream.ssrc))
                }
                MediaStep::Encode { pcm, marker, after } => {
                    let payload = self.tools(leg).encoder.encode(&pcm);
                    self.call.ingress_direction(leg).encoded(payload, marker, after)
                }
                MediaStep::Frame { header, payload, advance, after } => {
                    let packet = write_packet(&header, &payload);
                    self.call.ingress_direction(leg).framed(packet, advance, after, out)
                }
                MediaStep::Protect { data, after } => {
                    let sealed = self.tools(leg).secure.map(|secure| secure.protect(&data));
                    self.call.ingress_direction(leg).protected(sealed, after, out)
                }
                MediaStep::NextPrompt { samples } => {
                    let frame = self.tools(leg).player.as_mut().and_then(|player| player.next_frame(samples));
                    self.call.prompt_frame(leg, frame, events)
                }
                MediaStep::ResamplePrompt { pcm } => self.call.ingress_direction(leg).emit_encoded(pcm),
                MediaStep::NextDtmf => {
                    let next = self.tools(leg).sequence.pop().unwrap_or(DtmfStep::Done);
                    self.call.ingress_direction(leg).dtmf_step(next)
                }
                MediaStep::FillNoise { level, samples } => {
                    assert_eq!(level, 75);
                    let noise = self.tools(leg).fill_noise(samples);
                    self.call.ingress_direction(leg).emit_encoded(noise)
                }
                MediaStep::Done { latch } => return latch,
            };
        }
    }

    fn play(&mut self, toward: Leg, player: Player, play_id: u64, events: &mut Vec<Event>) {
        self.call.start_play_audio(toward, 8000, true, play_id, events);
        self.tools(toward.other()).player = Some(player);
    }

    fn play_dtmf(&mut self, toward: Leg, digits: &str, events: &mut Vec<Event>) -> bool {
        if self.call.dtmf_plan(toward).is_none() {
            return self.call.start_play_dtmf(toward, false, events);
        }
        let steps = dtmf_steps(digits);
        let started = self.call.start_play_dtmf(toward, steps.is_some(), events);
        if let Some(steps) = steps {
            self.tools(toward.other()).sequence = steps;
        }
        started
    }

    fn reply_toward(&mut self, leg: Leg) -> SocketAddress {
        self.call.ingress_direction(leg.other()).egress_dst()
    }
}

const ALL_TOOLS: ToolSupport = ToolSupport { resampler: true, noise_suppressor: true, echo_canceller: true };

fn direction(
    ingress: u64,
    source: &str,
    egress: u64,
    destination: &str,
    decoder: CodecParams,
    encoder: CodecParams,
    ssrc: u32,
    payload_type: u8,
    telephone_event: Option<u8>,
) -> DirectionConfig {
    DirectionConfig {
        ingress_endpoint: endpoint(ingress),
        accepted_source: SourceFilter::Exact(addr(source).ip),
        egress_endpoint: endpoint(egress),
        egress_dst: addr(destination),
        decoder,
        encoder,
        egress_ssrc: ssrc,
        egress_payload_type: payload_type,
        telephone_event_in: telephone_event,
        telephone_event_out: telephone_event,
        recorder: false,
        noise_suppression: false,
        echo_cancellation: false,
        produce_echo_reference: false,
    }
}

fn call_of(id: &str, a_to_b: DirectionConfig, b_to_a: DirectionConfig) -> MediaCall {
    MediaCall::new(
        id.to_string(),
        "tag-a".to_string(),
        Some("tag-b".to_string()),
        a_to_b,
        ALL_TOOLS,
        b_to_a,
        ALL_TOOLS,
        true,
        None,
    )
}

fn ulaw_alaw_configs() -> (DirectionConfig, DirectionConfig) {
    let ulaw = Codec::Ulaw.params(20);
    let alaw = Codec::Alaw.params(20);
    (
        direction(1, A_ADDR, 2, B_ADDR, ulaw, alaw, 0xB000_0001, 8, Some(101)),
        direction(2, B_ADDR, 1, A_ADDR, alaw, ulaw, 0xA000_0001, 0, Some(101)),
    )
}

/// A µ-law (A) to A-law (B) call, both 8 kHz in 20 ms packets.
fn ulaw_alaw_call() -> Bench {
    let (a_to_b, b_to_a) = ulaw_alaw_configs();
    Bench::new(
        call_of("call-1", a_to_b, b_to_a),
        Tools::new(Codec::Ulaw, Codec::Alaw),
        Tools::new(Codec::Alaw, Codec::Ulaw),
    )
}

fn ulaw_to_alaw_egress_ptime(ptime_ms: u32) -> Bench {
    let a_to_b =
        direction(1, A_ADDR, 2, B_ADDR, Codec::Ulaw.params(20), Codec::Alaw.params(ptime_ms), 0xB000_0001, 8, None);
    let b_to_a =
        direction(2, B_ADDR, 1, A_ADDR, Codec::Alaw.params(20), Codec::Ulaw.params(20), 0xA000_0001, 0, None);
    Bench::new(
        call_of("call-ptime", a_to_b, b_to_a),
        Tools::new(Codec::Ulaw, Codec::Alaw),
        Tools::new(Codec::Alaw, Codec::Ulaw),
    )
}

fn wide_call(ptime_ms: u32) -> Bench {
    let a_to_b =
        direction(1, A_ADDR, 2, B_ADDR, Codec::Wide.params(20), Codec::Wide.params(ptime_ms), 0xB000_0009, 9, None);
    let b_to_a =
        direction(2, B_ADDR, 1, A_ADDR, Codec::Wide.params(20), Codec::Wide.params(20), 0xA000_0009, 9, None);
    Bench::new(
        call_of("call-g722", a_to_b, b_to_a),
        Tools::new(Codec::Wide, Codec::Wide),
        Tools::new(Codec::Wide, Codec::Wide),
    )
}

fn secure_ulaw_call(id: &str, telephone_event: Option<u8>, b_ssrc: u32, a_ssrc: u32) -> Bench {
    let ulaw = Codec::Ulaw.params(20);
    let a_to_b = direction(1, A_ADDR, 2, B_ADDR, ulaw, ulaw, b_ssrc, 0, telephone_event);
    let b_to_a = direction(2, B_ADDR, 1, A_ADDR, ulaw, ulaw, a_ssrc, 0, telephone_event);
    let leg = SecureLeg { local: 7, remote: 9 };
    let mut a = Tools::new(Codec::Ulaw, Codec::Ulaw);
    a.secure = Some(leg);
    let mut b = Tools::new(Codec::Ulaw, Codec::Ulaw);
    b.secure = Some(leg);
    Bench::new(call_of(id, a_to_b, b_to_a).with_far_secure_leg(), a, b)
}

/// The encrypted peer of [`secure_ulaw_call`].
const PEER: SecureLeg = SecureLeg { local: 9, remote: 7 };

fn relay_bench() -> Bench {
    let relay = |ingress: u64, source: &str, egress: u64, destination: &str| RelayConfig {
        ingress_endpoint: endpoint(ingress),
        accepted_source: SourceFilter::Exact(addr(source).ip),
        egress_endpoint: endpoint(egress),
        egress_dst: addr(destination),
        telephone_event: Some(101),
    };
    let call = MediaCall::new_relay(
        "relay".to_string(),
        "tag-a".to_string(),
        Some("tag-b".to_string()),
        relay(1, A_ADDR, 2, B_ADDR),
        relay(2, B_ADDR, 1, A_ADDR),
        true,
    );
    Bench::new(call, Tools::new(Codec::Ulaw, Codec::Ulaw), Tools::new(Codec::Ulaw, Codec::Ulaw))
}

/// A single-leg call: both directions face the caller.
fn single_leg_call(cn_pt: Option<u8>) -> Bench {
    let ulaw = Codec::Ulaw.params(20);
    let both = direction(1, A_ADDR, 1, A_ADDR, ulaw, ulaw, 0xA000_0001, 0, Some(101));
    let call = MediaCall::new(
        "ivr".to_string(),
        "tag-a".to_string(),
        None,
        both,
        ALL_TOOLS,
        both,
        ALL_TOOLS,
        true,
        None,
    )
    .with_comfort_idle(cn_pt);
    Bench::new(call, Tools::new(Codec::Ulaw, Codec::Ulaw), Tools::new(Codec::Ulaw, Codec::Ulaw))
}

fn rtp(payload_type: u8, sequence: u16, timestamp: u32, ssrc: u32, marker: bool, payload: &[u8]) -> Vec<u8> {
    write_packet(&RtpHeader { marker, payload_type, sequence, timestamp, ssrc }, payload).expect("write")
}

fn ulaw_rtp(sequence: u16, byte: u8) -> Vec<u8> {
    rtp(0, sequence, u32::from(sequence) * 160, 0x1234_5678, false, &[byte; 160])
}

fn ulaw_rtp_with_ssrc(sequence: u16, ssrc: u32) -> Vec<u8> {
    rtp(0, sequence, u32::from(sequence) * 160, ssrc, false, &[0x40; 160])
}

fn ulaw_rtp_frame(sequence: u16, byte: u8, samples: usize, marker: bool) -> Vec<u8> {
    rtp(0, sequence, u32::from(sequence) * samples as u32, 0x1234_5678, marker, &vec![byte; samples])
}

fn alaw_rtp(sequence: u16, byte: u8) -> Vec<u8> {
    rtp(8, sequence, u32::from(sequence) * 160, 0x8765_4321, false, &[byte; 160])
}

fn g722_rtp(sequence: u16) -> Vec<u8> {
    rtp(9, sequence, u32::from(sequence) * 160, 0x1234_5678, false, &[0x55; 160])
}

fn telephone_event_rtp(sequence: u16, timestamp: u32, marker: bool, end: bool) -> Vec<u8> {
    rtp(101, sequence, timestamp, 0x1111_2222, marker, &[5, (u8::from(end) << 7) | 10, 0x03, 0x20])
}

fn rx(id: u64, source: &str, data: Vec<u8>) -> RxPacket {
    rx_at(id, source, 0, data)
}

fn rx_at(id: u64, source: &str, arrival: u64, data: Vec<u8>) -> RxPacket {
    RxPacket { endpoint: endpoint(id), source: addr(source), arrival, data }
}

fn tee(subscriber: u64, srs: &str) -> RawTee {
    RawTee { subscriber_endpoint: endpoint(subscriber), srs_dst: addr(srs) }
}

fn prompt_player(frames: usize) -> Player {
    Player { samples: vec![2000; 160 * frames], position: 0, repeats: 1 }
}

fn expect_one_play_finished(events: &[Event]) -> (u64, PlayEndReason, Option<u64>) {
    match events {
        [Event::PlayFinished { play_id, reason, played_ms, .. }] => (*play_id, *reason, *played_ms),
        other => panic!("expected exactly one PlayFinished, got {other:?}"),
    }
}

#[test]
fn symmetric_latch_moves_reply_only_on_matching_ssrc() {
    let (mut a_to_b, b_to_a) = ulaw_alaw_configs();
    a_to_b.accepted_source = SourceFilter::Any;
    let mut call = Bench::new(
        call_of("call-1", a_to_b, b_to_a),
        Tools::new(Codec::Ulaw, Codec::Alaw),
        Tools::new(Codec::Alaw, Codec::Ulaw),
    );
    let (mut out, mut events) = (Vec::new(), Vec::new());
    const STREAM: u32 = 0x0A0A_0A0A;
    call.process(&rx(1, "127.0.0.2:5000", ulaw_rtp_with_ssrc(1, STREAM)), &mut out, &mut events);
    assert_eq!(call.reply_toward(Leg::A), addr("127.0.0.2:5000"));
    call.process(&rx(1, "127.0.0.9:5000", ulaw_rtp_with_ssrc(2, 0x9999_9999)), &mut out, &mut events);
    assert_eq!(call.reply_toward(Leg::A), addr("127.0.0.2:5000"), "another SSRC cannot steal the reply");
    call.process(&rx(1, "127.0.0.5:5000", ulaw_rtp_with_ssrc(3, STREAM)), &mut out, &mut events);
    assert_eq!(call.reply_toward(Leg::A), addr("127.0.0.5:5000"), "the same SSRC is followed");
}

#[test]
fn forged_srtp_packet_does_not_move_the_reply_direction() {
    let mut call = secure_ulaw_call("secure", None, 0xB000_0001, 0xA000_0001);
    let (mut out, mut events) = (Vec::new(), Vec::new());
    let genuine = PEER.protect(&ulaw_rtp_with_ssrc(1, 0xB0B0_B0B0));
    call.process(&rx(2, "127.0.0.3:7000", genuine), &mut out, &mut events);
    assert_eq!(call.reply_toward(Leg::B), addr("127.0.0.3:7000"));
    out.clear();
    let forged = ulaw_rtp_with_ssrc(2, 0xB0B0_B0B0);
    call.process(&rx(2, "127.0.0.3:9999", forged), &mut out, &mut events);
    assert_eq!(call.reply_toward(Leg::B), addr("127.0.0.3:7000"), "an inauthentic packet moves nothing");
    assert!(out.is_empty());
}

#[test]
fn transcodes_ulaw_to_alaw_for_the_far_leg() {
    let mut call = ulaw_alaw_call();
    let (mut out, mut events) = (Vec::new(), Vec::new());
    call.process(&rx(1, A_ADDR, ulaw_rtp(100, 0xFF)), &mut out, &mut events);
    assert_eq!(out.len(), 1);
    assert_eq!(out[0].endpoint, endpoint(2));
    let packet = parse(&out[0]);
    assert_eq!(packet.payload_type, 8);
    assert_eq!(packet.ssrc, 0xB000_0001);
    assert_eq!(packet.payload.len(), 160);
    assert_ne!(packet.payload, vec![0xFF; 160]);
    assert!(events.is_empty());
}

#[test]
fn transcode_call_reports_call_quality_with_loss_and_jitter() {
    let mut bench = ulaw_alaw_call();
    let (mut out, mut events) = (Vec::new(), Vec::new());
    for (sequence, arrival) in [(0u16, 0u64), (1, 20_000), (3, 75_000), (4, 85_000)] {
        bench.process(&rx_at(1, A_ADDR, arrival, ulaw_rtp(sequence, 0x40)), &mut out, &mut events);
    }
    assert!(events.is_empty(), "no per-packet events for ordinary audio");
    let quality = bench.call.build_quality_events(bench.a.ingress.reading(), bench.b.ingress.reading());
    assert_eq!(quality.len(), 1, "only A has an inbound stream");
    assert_eq!(quality[0].call_id, "call-1");
    assert_eq!(quality[0].from_tag, "tag-a");
    assert!((quality[0].sample.loss_percent - 20.0).abs() < 1e-9);
    assert!(quality[0].sample.jitter_ms > 0.0);
    assert!(quality[0].sample.mos > 1.0 && quality[0].sample.mos < 3.5);
}

#[test]
fn transcode_call_quality_names_each_leg_by_its_tag() {
    let mut bench = ulaw_alaw_call();
    let (mut out, mut events) = (Vec::new(), Vec::new());
    for sequence in 0..4u16 {
        let arrival = u64::from(sequence) * 20_000;
        bench.process(&rx_at(1, A_ADDR, arrival, ulaw_rtp(sequence, 0x40)), &mut out, &mut events);
        bench.process(&rx_at(2, B_ADDR, arrival, ulaw_rtp(sequence, 0x40)), &mut out, &mut events);
    }
    let quality = bench.call.build_quality_events(bench.a.ingress.reading(), bench.b.ingress.reading());
    assert_eq!(quality.len(), 2, "one report per direction");
    let mut tags: Vec<&str> = Vec::new();
    for report in &quality {
        assert_eq!(report.call_id, "call-1");
        assert_eq!(report.sample.loss_percent, 0.0);
        assert!(report.sample.mos > 4.0);
        tags.push(&report.from_tag);
    }
    tags.sort_unstable();
    assert_eq!(tags, ["tag-a", "tag-b"]);
}

#[test]
fn passive_rtt_from_relayed_rtcp_feeds_the_leg_mos_delay() {
    let mut call = ulaw_alaw_call();
    let (mut out, mut events) = (Vec::new(), Vec::new());
    const NTP_B: u64 = 0xABCD_1234_5678_9ABC;
    let from_b = write_sender_report(0xBBBB_BBBB, NTP_B, &[]);
    call.process(&rx_at(2, B_ADDR, 1_000_000, from_b), &mut out, &mut events);
    let block = ReceptionBlock {
        ssrc: 0xA000_0001,
        fraction_lost: 0,
        cumulative_lost: 0,
        highest_sequence: 0,
        jitter: 0,
        last_sender_report: 0x1234_5678,
        delay_since_last_sender_report: 32_768,
    };
    let from_a = write_sender_report(0xAAAA_AAAA, 0, &[block]);
    call.process(&rx_at(1, A_ADDR, 1_600_000, from_a), &mut out, &mut events);
    assert_eq!(call.a.ingress.rtt_ms, Some(100.0));
    assert_eq!(call.b.ingress.rtt_ms, None, "B never reported back");
}

#[test]
fn quality_is_reported_only_where_there_is_a_reading_and_a_tag() {
    let reading = QualitySample { mos: 26u32, jitter_ms: 3, loss_percent: 20 };
    let call = ulaw_alaw_call().call;
    let quality = call.build_quality_events(Some(reading), None);
    assert_eq!(quality.len(), 1);
    assert_eq!(quality[0].from_tag, "tag-a");
    assert_eq!(quality[0].sample.loss_percent, 20);
    let single = single_leg_call(None).call;
    assert_eq!(single.build_quality_events(None, Some(reading)).len(), 0, "no answerer to name");
    let relay = relay_bench().call;
    assert!(relay.build_quality_events(Some(reading), Some(reading)).is_empty(), "a relay reports none");
    assert!(relay.current_quality(Leg::A, Some(reading)).is_none());
}

#[test]
fn repacketizes_two_20ms_ingress_frames_into_one_40ms_egress_packet() {
    let mut call = ulaw_to_alaw_egress_ptime(40);
    let (mut out, mut events) = (Vec::new(), Vec::new());
    call.process(&rx(1, A_ADDR, ulaw_rtp(1, 0xFF)), &mut out, &mut events);
    assert!(out.is_empty());
    call.process(&rx(1, A_ADDR, ulaw_rtp(2, 0xFF)), &mut out, &mut events);
    assert_eq!(out.len(), 1);
    let packet = parse(&out[0]);
    assert_eq!(packet.payload_type, 8);
    assert_eq!(packet.payload.len(), 320);
    assert_eq!(packet.sequence, 0);
    assert_eq!(packet.timestamp, 0);
    out.clear();
    call.process(&rx(1, A_ADDR, ulaw_rtp(3, 0xFF)), &mut out, &mut events);
    assert!(out.is_empty());
    call.process(&rx(1, A_ADDR, ulaw_rtp(4, 0xFF)), &mut out, &mut events);
    assert_eq!(out.len(), 1);
    let next = parse(&out[0]);
    assert_eq!(next.sequence, 1);
    assert_eq!(next.timestamp, 320);
}

#[test]
fn repacketizes_one_20ms_ingress_frame_into_two_10ms_egress_packets() {
    let mut call = ulaw_to_alaw_egress_ptime(10);
    let (mut out, mut events) = (Vec::new(), Vec::new());
    call.process(&rx(1, A_ADDR, ulaw_rtp(1, 0xFF)), &mut out, &mut events);
    assert_eq!(out.len(), 2);
    let (first, second) = (parse(&out[0]), parse(&out[1]));
    assert_eq!(first.payload.len(), 80);
    assert_eq!(second.payload.len(), 80);
    assert_eq!(second.sequence, first.sequence.wrapping_add(1));
    assert_eq!(second.timestamp.wrapping_sub(first.timestamp), 80);
}

#[test]
fn fractional_30ms_ingress_to_20ms_egress_loses_no_samples_across_the_stream() {
    let mut call = ulaw_to_alaw_egress_ptime(20);
    let (mut out, mut events) = (Vec::new(), Vec::new());
    for sequence in 1..=8u16 {
        call.process(&rx(1, A_ADDR, ulaw_rtp_frame(sequence, 0x40, 240, false)), &mut out, &mut events);
    }
    assert_eq!(out.len(), 12);
    for (index, datagram) in out.iter().enumerate() {
        let packet = parse(datagram);
        assert_eq!(packet.payload.len(), 160);
        assert_eq!(packet.sequence, index as u16);
        assert_eq!(packet.timestamp, index as u32 * 160);
    }
}

#[test]
fn g722_egress_timestamp_uses_the_8khz_rtp_clock_not_the_16khz_sample_rate() {
    let mut call = wide_call(40);
    let mut out = Vec::new();
    for sequence in 1..=4 {
        call.process(&rx(1, A_ADDR, g722_rtp(sequence)), &mut out, &mut Vec::new());
    }
    assert_eq!(out.len(), 2);
    let (first, second) = (parse(&out[0]), parse(&out[1]));
    assert_eq!(second.timestamp.wrapping_sub(first.timestamp), 320);
    assert_eq!(first.payload.len(), 320);
}

#[test]
fn g722_egress_timestamp_steps_at_8khz_rtp_clock() {
    let mut call = wide_call(20);
    let (mut out, mut events) = (Vec::new(), Vec::new());
    call.process(&rx(1, A_ADDR, g722_rtp(1)), &mut out, &mut events);
    call.process(&rx(1, A_ADDR, g722_rtp(2)), &mut out, &mut events);
    assert_eq!(out.len(), 2);
    let (first, second) = (parse(&out[0]), parse(&out[1]));
    assert_eq!(first.payload_type, 9);
    assert_eq!(first.payload.len(), 160);
    assert_eq!(first.timestamp, 0);
    assert_eq!(second.timestamp, 160);
}

#[test]
fn egress_marker_follows_the_ingress_talkspurt_not_a_blind_copy() {
    let mut call = ulaw_to_alaw_egress_ptime(20);
    let mut events = Vec::new();
    for (sequence, marker) in [(1, false), (2, true), (3, false)] {
        let mut out = Vec::new();
        call.process(&rx(1, A_ADDR, ulaw_rtp_frame(sequence, 0xFF, 160, marker)), &mut out, &mut events);
        assert_eq!(out.len(), 1);
        assert_eq!(parse(&out[0]).marker, marker);
    }
}

#[test]
fn buffered_talkspurt_marker_rides_to_the_first_full_egress_frame() {
    let mut call = ulaw_to_alaw_egress_ptime(40);
    let (mut out, mut events) = (Vec::new(), Vec::new());
    call.process(&rx(1, A_ADDR, ulaw_rtp_frame(1, 0xFF, 160, true)), &mut out, &mut events);
    assert!(out.is_empty());
    call.process(&rx(1, A_ADDR, ulaw_rtp_frame(2, 0xFF, 160, false)), &mut out, &mut events);
    assert_eq!(out.len(), 1);
    assert!(parse(&out[0]).marker);
}

fn rtcp_sr(ssrc: u32) -> Vec<u8> {
    let mut packet = vec![0x80, 200, 0x00, 0x00];
    packet.extend_from_slice(&ssrc.to_be_bytes());
    packet.extend_from_slice(&[0x33; 16]);
    packet
}

#[test]
fn non_muxed_srtcp_is_relayed_through_the_shared_secure_leg() {
    let mut call = secure_ulaw_call("srtcp", None, 0x1111_1111, 0x1111_1111);
    let a_rtcp = "127.0.0.2:5001";
    let b_rtcp = "127.0.0.3:6001";
    let relays = vec![
        RtcpRelay::new(endpoint(3), SourceFilter::Exact(addr(a_rtcp).ip), endpoint(4), addr(b_rtcp))
            .with_secure_egress(),
        RtcpRelay::new(endpoint(4), SourceFilter::Exact(addr(b_rtcp).ip), endpoint(3), addr(a_rtcp))
            .with_secure_ingress(),
    ];
    call.call = call.call.with_rtcp_relays(relays);
    assert_eq!(call.call.rtcp_endpoints(), vec![endpoint(3), endpoint(4)]);
    let (mut out, mut events) = (Vec::new(), Vec::new());
    let b_plain = rtcp_sr(0xB0B0_B0B0);
    assert!(call.process(&rx(4, b_rtcp, PEER.protect(&b_plain)), &mut out, &mut events));
    assert_eq!(out.len(), 1);
    assert_eq!(out[0].endpoint, endpoint(3));
    assert_eq!(out[0].dst, addr(a_rtcp));
    assert_eq!(out[0].data, b_plain);
    out.clear();
    let a_plain = rtcp_sr(0xA0A0_A0A0);
    call.process(&rx(3, a_rtcp, a_plain.clone()), &mut out, &mut events);
    assert_eq!(out.len(), 1);
    assert_eq!(out[0].endpoint, endpoint(4));
    assert_eq!(out[0].dst, addr(b_rtcp));
    assert_ne!(out[0].data, a_plain, "protected toward B");
    assert_eq!(PEER.unprotect(&out[0].data), Some(a_plain));
    out.clear();
    assert!(!call.process(&rx(4, "127.0.0.9:7000", rtcp_sr(1)), &mut out, &mut events));
    assert!(out.is_empty());
    call.process(&rx(4, b_rtcp, rtcp_sr(2)), &mut out, &mut events);
    assert!(out.is_empty(), "RTCP that fails to unprotect is dropped");
}

#[test]
fn far_secure_leg_is_exposed_only_for_a_secure_call() {
    assert!(!ulaw_alaw_call().call.far_secure_leg());
    assert!(secure_ulaw_call("secure", None, 0x1111_1111, 0x1111_1111).call.far_secure_leg());
}

#[test]
fn secure_egress_encrypts_relayed_telephone_event() {
    let mut call = secure_ulaw_call("te", Some(101), 0xB000_0101, 0xA000_0101);
    let event = rtp(101, 1, 160, 0x1234_5678, true, &[0x05, 0x0A, 0x01, 0x40]);
    let (mut out, mut events) = (Vec::new(), Vec::new());
    call.process(&rx(1, A_ADDR, event.clone()), &mut out, &mut events);
    let egress = out.iter().find(|sent| sent.endpoint == endpoint(2)).expect("a packet toward B");
    assert_ne!(egress.data, event);
    let plain = PEER.unprotect(&egress.data).expect("valid for the peer");
    assert_eq!(parse_packet(&plain).expect("parse").payload_type, 101);
}

#[test]
fn egress_sequence_and_timestamp_advance_per_packet() {
    let mut call = ulaw_alaw_call();
    let (mut out, mut events) = (Vec::new(), Vec::new());
    call.process(&rx(1, A_ADDR, ulaw_rtp(1, 0x00)), &mut out, &mut events);
    call.process(&rx(1, A_ADDR, ulaw_rtp(2, 0x00)), &mut out, &mut events);
    let (first, second) = (parse(&out[0]), parse(&out[1]));
    assert_eq!((first.sequence, second.sequence), (0, 1));
    assert_eq!((first.timestamp, second.timestamp), (0, 160));
}

#[test]
fn drops_packets_from_an_unsignalled_source() {
    let mut call = ulaw_alaw_call();
    let (mut out, mut events) = (Vec::new(), Vec::new());
    assert!(!call.process(&rx(1, "127.0.0.9:5000", ulaw_rtp(1, 0xFF)), &mut out, &mut events));
    assert!(out.is_empty());
    assert!(!call.process(&rx(77, A_ADDR, ulaw_rtp(1, 0xFF)), &mut out, &mut events), "not this call's endpoint");
    assert!(call.a.ingress.sequences.is_empty());
}

#[test]
fn latches_observed_source_for_symmetric_reply() {
    let mut call = ulaw_alaw_call();
    let (mut out, mut events) = (Vec::new(), Vec::new());
    let observed = "127.0.0.3:44444";
    call.process(&rx(2, observed, alaw_rtp(1, 0x55)), &mut out, &mut events);
    out.clear();
    call.process(&rx(1, A_ADDR, ulaw_rtp(1, 0xFF)), &mut out, &mut events);
    assert_eq!(out[0].dst, addr(observed));
}

#[test]
fn relays_rtcp_verbatim() {
    let mut call = ulaw_alaw_call();
    let (mut out, mut events) = (Vec::new(), Vec::new());
    let rtcp = vec![0x80, 200, 0x00, 0x06, 0xDE, 0xAD, 0xBE, 0xEF];
    call.process(&rx(1, A_ADDR, rtcp.clone()), &mut out, &mut events);
    assert_eq!(out.len(), 1);
    assert_eq!(out[0].data, rtcp);
    assert_eq!(out[0].endpoint, endpoint(2));
}

#[test]
fn block_suppresses_egress_then_resumes() {
    let mut call = ulaw_alaw_call();
    let (mut out, mut events) = (Vec::new(), Vec::new());
    call.call.set_blocked(true);
    call.process(&rx(1, A_ADDR, ulaw_rtp(1, 0xFF)), &mut out, &mut events);
    assert!(out.is_empty());
    call.call.set_blocked(false);
    call.process(&rx(1, A_ADDR, ulaw_rtp(2, 0xFF)), &mut out, &mut events);
    assert_eq!(out.len(), 1);
}

#[test]
fn silence_replaces_audio_with_comfort_silence() {
    let mut call = ulaw_alaw_call();
    let (mut out, mut events) = (Vec::new(), Vec::new());
    call.call.set_silenced(true);
    call.process(&rx(1, A_ADDR, ulaw_rtp(1, 0x00)), &mut out, &mut events);
    assert_eq!(out.len(), 1);
    let packet = parse(&out[0]);
    assert!(packet.payload.iter().all(|&byte| byte == packet.payload[0]));
    assert_eq!(packet.payload[0], alaw_encode(0));
    assert_ne!(call.a.tapped[0][0], 0, "a tap still hears what was said");
}

#[test]
fn extracts_dtmf_event_and_repacketizes() {
    let mut call = ulaw_alaw_call();
    let (mut out, mut events) = (Vec::new(), Vec::new());
    let event = rtp(101, 1, 16000, 0x1111_2222, true, &[5, 0x80 | 10, 0x03, 0x20]);
    call.process(&rx(1, A_ADDR, event), &mut out, &mut events);
    assert_eq!(events.len(), 1);
    match &events[0] {
        Event::Dtmf { digit, duration_ms, call_id, volume, from_tag, to_tag } => {
            assert_eq!(digit, "5");
            assert_eq!(*duration_ms, 100);
            assert_eq!(call_id, "call-1");
            assert_eq!(*volume, -10);
            assert_eq!(from_tag, "tag-a");
            assert_eq!(to_tag.as_deref(), Some("tag-b"));
        }
        other => panic!("expected a key press, got {other:?}"),
    }
    assert_eq!(out.len(), 1);
    let relayed = parse(&out[0]);
    assert_eq!(relayed.payload_type, 101);
    assert_eq!(relayed.ssrc, 0xB000_0001);
    assert_eq!(relayed.timestamp, 16000);
}

#[test]
fn echo_reflects_ingress_back_to_the_sender() {
    let mut call = ulaw_alaw_call();
    call.call.set_echo(true);
    let (mut out, mut events) = (Vec::new(), Vec::new());
    call.process(&rx(1, A_ADDR, ulaw_rtp(100, 0xFF)), &mut out, &mut events);
    assert_eq!(out.len(), 1);
    assert_eq!(out[0].endpoint, endpoint(1));
    assert_eq!(out[0].dst, addr(A_ADDR));
    let packet = parse(&out[0]);
    assert_eq!(packet.payload_type, 0);
    assert_eq!(packet.ssrc, 0xA000_0001);
    assert_eq!(packet.payload, vec![0xFF; 160]);
    assert!(events.is_empty());
    call.call.set_echo(false);
    out.clear();
    call.process(&rx(1, A_ADDR, ulaw_rtp(101, 0x00)), &mut out, &mut events);
    assert_eq!(out[0].endpoint, endpoint(2));
}

#[test]
fn echo_still_detects_dtmf_without_echoing_the_tone() {
    let mut call = ulaw_alaw_call();
    call.call.set_echo(true);
    let (mut out, mut events) = (Vec::new(), Vec::new());
    let event = rtp(101, 1, 16000, 0x1111_2222, true, &[11, 0x80 | 10, 0x03, 0x20]);
    call.process(&rx(1, A_ADDR, event), &mut out, &mut events);
    assert_eq!(events.len(), 1);
    assert!(matches!(&events[0], Event::Dtmf { digit, .. } if digit == "#"));
    assert!(out.is_empty());
    call.process(&rx(1, A_ADDR, rtcp_sr(9)), &mut out, &mut events);
    assert!(out.is_empty(), "RTCP is not reflected");
}

#[test]
fn an_encrypted_leg_is_authenticated_before_it_is_reflected() {
    let mut call = secure_ulaw_call("secure", None, 0xB000_0001, 0xA000_0001);
    call.call.set_echo(true);
    let (mut out, mut events) = (Vec::new(), Vec::new());
    let audio = ulaw_rtp(1, 0x40);
    call.process(&rx(2, "127.0.0.3:7000", PEER.protect(&audio)), &mut out, &mut events);
    assert_eq!(out.len(), 1);
    assert_eq!((out[0].endpoint, out[0].dst), (endpoint(2), addr(B_ADDR)));
    let home = parse_packet(&PEER.unprotect(&out[0].data).expect("sealed for the peer")).expect("RTP");
    assert_eq!(home.payload, parse_packet(&audio).expect("RTP").payload);
    assert_eq!(call.reply_toward(Leg::B), addr("127.0.0.3:7000"));
    out.clear();
    call.process(&rx(2, "127.0.0.3:9999", ulaw_rtp(2, 0x40)), &mut out, &mut events);
    assert!(out.is_empty(), "what fails authentication is not reflected");
    assert_eq!(call.reply_toward(Leg::B), addr("127.0.0.3:7000"));
    call.process(&rx(2, "127.0.0.3:7000", PEER.protect(&rtcp_sr(9))), &mut out, &mut events);
    assert!(out.is_empty(), "RTCP is not reflected");
}

#[test]
fn single_leg_handle_does_not_loop_caller_audio_back() {
    let mut call = single_leg_call(None);
    let (mut out, mut events) = (Vec::new(), Vec::new());
    call.process(&rx(1, A_ADDR, ulaw_rtp(1, 0xFF)), &mut out, &mut events);
    assert!(out.is_empty());
    assert!(call.call.needs_egress_tick());
    assert_eq!(call.a.tapped.len(), 1, "the caller is still heard by taps");
}

#[test]
fn single_leg_idle_tick_emits_audio_comfort_noise_when_cn_not_negotiated() {
    let mut call = single_leg_call(None);
    let mut out = Vec::new();
    call.tick(&mut out, &mut Vec::new());
    assert_eq!(out.len(), 1);
    assert_eq!(out[0].endpoint, endpoint(1));
    assert_eq!(out[0].dst, addr(A_ADDR));
    let first = parse(&out[0]);
    assert_eq!(first.payload_type, 0);
    assert_eq!(first.payload.len(), 160);
    assert!(!first.payload.iter().all(|&byte| byte == first.payload[0]));
    out.clear();
    call.tick(&mut out, &mut Vec::new());
    let second = parse(&out[0]);
    assert_eq!(second.sequence, first.sequence.wrapping_add(1));
    assert_eq!(second.timestamp, first.timestamp.wrapping_add(160));
}

#[test]
fn single_leg_idle_tick_emits_cn_packet_when_negotiated() {
    let mut call = single_leg_call(Some(13));
    let mut out = Vec::new();
    call.tick(&mut out, &mut Vec::new());
    assert_eq!(out.len(), 1);
    let first = parse(&out[0]);
    assert_eq!(first.payload_type, 13);
    assert_eq!(first.payload, vec![75]);
    assert_eq!(first.ssrc, 0xA000_0001);
    out.clear();
    call.tick(&mut out, &mut Vec::new());
    let second = parse(&out[0]);
    assert_eq!(second.sequence, first.sequence.wrapping_add(1));
    assert_eq!(second.timestamp, first.timestamp.wrapping_add(160));
}

#[test]
fn single_leg_silenced_tick_emits_digital_silence() {
    let mut call = single_leg_call(Some(13));
    call.call.set_silenced(true);
    let mut out = Vec::new();
    call.tick(&mut out, &mut Vec::new());
    assert_eq!(out.len(), 1);
    let packet = parse(&out[0]);
    assert_eq!(packet.payload_type, 0);
    assert_eq!(packet.payload.len(), 160);
    assert!(packet.payload.iter().all(|&byte| byte == packet.payload[0]));
}

#[test]
fn single_leg_player_overrides_comfort_then_resumes() {
    let mut call = single_leg_call(None);
    call.play(Leg::B, prompt_player(1), 7, &mut Vec::new());
    assert!(call.call.has_injection());
    let mut out = Vec::new();
    call.tick(&mut out, &mut Vec::new());
    assert_eq!(out.len(), 1);
    assert_eq!(parse(&out[0]).payload_type, 0);
    out.clear();
    let mut events = Vec::new();
    call.tick(&mut out, &mut events);
    assert_eq!(expect_one_play_finished(&events).0, 7);
    assert!(!call.call.has_injection());
    out.clear();
    call.tick(&mut out, &mut Vec::new());
    assert_eq!(out.len(), 1);
    let resumed = parse(&out[0]);
    assert!(!resumed.payload.iter().all(|&byte| byte == resumed.payload[0]));
}

#[test]
fn single_leg_echo_reflects_and_suppresses_comfort() {
    let mut call = single_leg_call(None);
    call.call.set_echo(true);
    assert!(!call.call.needs_egress_tick());
    let mut out = Vec::new();
    call.process(&rx(1, A_ADDR, ulaw_rtp(9, 0xFF)), &mut out, &mut Vec::new());
    assert_eq!(out.len(), 1);
    assert_eq!(parse(&out[0]).payload, vec![0xFF; 160]);
    out.clear();
    call.tick(&mut out, &mut Vec::new());
    assert!(out.is_empty());
    call.call.set_echo(false);
    assert!(call.call.needs_egress_tick());
    call.tick(&mut out, &mut Vec::new());
    assert_eq!(out.len(), 1);
}

#[test]
fn single_leg_detects_dtmf_without_echoing_the_tone() {
    let mut call = single_leg_call(None);
    let (mut out, mut events) = (Vec::new(), Vec::new());
    let event = rtp(101, 1, 16000, 0x1111_2222, true, &[5, 0x80 | 10, 0x03, 0x20]);
    call.process(&rx(1, A_ADDR, event), &mut out, &mut events);
    assert_eq!(events.len(), 1);
    assert!(matches!(&events[0], Event::Dtmf { digit, .. } if digit == "5"));
    assert!(out.is_empty());
}

#[test]
fn play_audio_injects_prompt_in_the_target_legs_codec() {
    let mut call = ulaw_alaw_call();
    call.play(Leg::A, prompt_player(2), 1, &mut Vec::new());
    assert!(call.call.has_injection());
    let mut out = Vec::new();
    call.tick(&mut out, &mut Vec::new());
    assert_eq!(out.len(), 1);
    assert_eq!(out[0].endpoint, endpoint(1));
    assert_eq!(parse(&out[0]).payload_type, 0);
    out.clear();
    call.process(&rx(2, B_ADDR, alaw_rtp(1, 0x55)), &mut out, &mut Vec::new());
    assert!(out.is_empty(), "transcoding toward A is suppressed");
    call.tick(&mut out, &mut Vec::new());
    assert_eq!(out.len(), 1);
    out.clear();
    let mut events = Vec::new();
    call.tick(&mut out, &mut events);
    assert!(!call.call.has_injection());
    assert_eq!(expect_one_play_finished(&events), (1, PlayEndReason::Completed, Some(40)));
}

#[test]
fn play_emits_play_finished_completed_on_drain() {
    let mut call = ulaw_alaw_call();
    call.play(Leg::A, prompt_player(2), 7, &mut Vec::new());
    let (mut out, mut events) = (Vec::new(), Vec::new());
    call.tick(&mut out, &mut events);
    call.tick(&mut out, &mut events);
    assert!(events.is_empty());
    call.tick(&mut out, &mut events);
    assert!(!call.call.has_injection());
    assert_eq!(expect_one_play_finished(&events), (7, PlayEndReason::Completed, Some(40)));
}

#[test]
fn stop_play_emits_play_finished_stopped() {
    let mut call = ulaw_alaw_call();
    call.play(Leg::A, prompt_player(50), 3, &mut Vec::new());
    let (mut out, mut events) = (Vec::new(), Vec::new());
    call.tick(&mut out, &mut events);
    assert!(events.is_empty());
    call.call.stop_play(&mut events);
    assert!(!call.call.has_injection());
    assert_eq!(expect_one_play_finished(&events), (3, PlayEndReason::Stopped, Some(20)));
    call.call.stop_play(&mut events);
    assert_eq!(events.len(), 1, "a prompt ends once");
}

#[test]
fn superseding_a_prompt_emits_play_finished_superseded() {
    let mut call = ulaw_alaw_call();
    call.play(Leg::A, prompt_player(50), 1, &mut Vec::new());
    let mut out = Vec::new();
    call.tick(&mut out, &mut Vec::new());
    let mut events = Vec::new();
    call.play(Leg::A, prompt_player(2), 2, &mut events);
    assert_eq!(expect_one_play_finished(&events), (1, PlayEndReason::Superseded, Some(20)));
    assert!(call.call.has_injection());
}

#[test]
fn teardown_emits_play_finished_error_for_an_in_flight_prompt() {
    let mut call = ulaw_alaw_call();
    call.play(Leg::A, prompt_player(50), 9, &mut Vec::new());
    let mut out = Vec::new();
    call.tick(&mut out, &mut Vec::new());
    let mut events = Vec::new();
    call.call.finish_pending_plays(&mut events);
    assert!(!call.call.has_injection());
    assert_eq!(expect_one_play_finished(&events), (9, PlayEndReason::Error, Some(20)));
}

#[test]
fn a_repeated_prompt_emits_play_finished_once_at_the_very_end() {
    let mut call = ulaw_alaw_call();
    let player = Player { samples: vec![2000; 160], position: 0, repeats: 2 };
    call.play(Leg::A, player, 5, &mut Vec::new());
    let (mut out, mut events) = (Vec::new(), Vec::new());
    call.tick(&mut out, &mut events);
    call.tick(&mut out, &mut events);
    assert!(events.is_empty());
    call.tick(&mut out, &mut events);
    assert_eq!(expect_one_play_finished(&events), (5, PlayEndReason::Completed, Some(40)));
}

#[test]
fn play_dtmf_injects_telephone_events_toward_the_target() {
    let mut call = ulaw_alaw_call();
    assert!(call.play_dtmf(Leg::A, "5", &mut Vec::new()));
    let mut out = Vec::new();
    call.tick(&mut out, &mut Vec::new());
    assert_eq!(out.len(), 1);
    let packet = parse(&out[0]);
    assert_eq!(packet.payload_type, 101);
    assert_eq!(packet.payload[0], 5);
    assert!(packet.marker);
}

#[test]
fn play_dtmf_plays_a_multi_digit_code_as_distinct_events() {
    let mut call = ulaw_alaw_call();
    assert!(call.play_dtmf(Leg::A, "12", &mut Vec::new()));
    let mut first_timestamp = None;
    let mut second_timestamp = None;
    let mut saw_gap = false;
    for _ in 0..40 {
        let mut out = Vec::new();
        call.tick(&mut out, &mut Vec::new());
        for outbound in &out {
            let packet = parse(outbound);
            assert_eq!(packet.payload_type, 101);
            match packet.payload[0] {
                1 => {
                    if packet.marker {
                        first_timestamp = Some(packet.timestamp);
                    }
                }
                2 => {
                    if packet.marker {
                        second_timestamp = Some(packet.timestamp);
                    }
                }
                other => panic!("unexpected event code {other}"),
            }
        }
        if first_timestamp.is_some() && second_timestamp.is_none() && out.is_empty() {
            saw_gap = true;
        }
    }
    let first = first_timestamp.expect("digit 1 played");
    let second = second_timestamp.expect("digit 2 played");
    assert!(second.wrapping_sub(first) > 0);
    assert!(saw_gap);
    assert!(!call.call.has_injection());
}

#[test]
fn play_dtmf_fails_without_a_negotiated_telephone_event() {
    let ulaw = Codec::Ulaw.params(20);
    let mut a_to_b = direction(1, A_ADDR, 2, B_ADDR, ulaw, ulaw, 1, 0, None);
    a_to_b.accepted_source = SourceFilter::Any;
    let mut b_to_a = direction(2, B_ADDR, 1, A_ADDR, ulaw, ulaw, 2, 0, None);
    b_to_a.accepted_source = SourceFilter::Any;
    let mut call = Bench::new(
        call_of("c", a_to_b, b_to_a),
        Tools::new(Codec::Ulaw, Codec::Ulaw),
        Tools::new(Codec::Ulaw, Codec::Ulaw),
    );
    assert!(!call.play_dtmf(Leg::A, "5", &mut Vec::new()));
    assert!(!call.call.has_injection());
    let mut other = ulaw_alaw_call();
    assert!(!other.play_dtmf(Leg::A, "x", &mut Vec::new()), "not a key");
}

#[test]
fn key_presses_over_a_prompt_report_it_superseded_once() {
    let mut call = ulaw_alaw_call();
    call.play(Leg::A, prompt_player(50), 7, &mut Vec::new());
    let mut out = Vec::new();
    call.tick(&mut out, &mut Vec::new());
    let mut events = Vec::new();
    assert!(!call.play_dtmf(Leg::A, "x", &mut events), "not a key");
    assert!(events.is_empty() && call.call.has_injection(), "a refused sequence leaves the prompt playing");
    assert!(call.play_dtmf(Leg::A, "5", &mut events));
    assert_eq!(expect_one_play_finished(&events), (7, PlayEndReason::Superseded, Some(20)));
    events.clear();
    call.call.finish_pending_plays(&mut events);
    assert!(events.is_empty(), "a prompt ends once");

    let mut controlled = ulaw_alaw_call().call;
    let play = MediaControl::PlayAudio { toward: Leg::B, source_rate_hz: 8000, resampler_built: true, play_id: 8 };
    apply_control(&mut controlled, play, &mut events);
    apply_control(&mut controlled, MediaControl::PlayDtmf { toward: Leg::B, sequence_built: false }, &mut events);
    assert!(events.is_empty());
    apply_control(&mut controlled, MediaControl::PlayDtmf { toward: Leg::B, sequence_built: true }, &mut events);
    assert_eq!(expect_one_play_finished(&events), (8, PlayEndReason::Superseded, Some(0)));
}

#[test]
fn a_tick_sends_at_most_one_packet_a_direction() {
    let mut call = ulaw_to_alaw_egress_ptime(10);
    let (mut out, mut events) = (Vec::new(), Vec::new());
    call.process(&rx(1, A_ADDR, ulaw_rtp_frame(1, 0x40, 200, false)), &mut out, &mut events);
    assert_eq!(out.len(), 2, "two whole frames go out, and 40 samples wait");
    call.play(Leg::B, Player { samples: vec![2000; 240], position: 0, repeats: 1 }, 1, &mut events);
    for _ in 0..3 {
        out.clear();
        call.tick(&mut out, &mut events);
        assert_eq!(out.len(), 1);
    }
    out.clear();
    call.tick(&mut out, &mut events);
    assert!(out.is_empty());
    assert_eq!(expect_one_play_finished(&events), (1, PlayEndReason::Completed, Some(30)));
}

#[test]
fn dtmf_plan_takes_the_stream_parameters() {
    let call = ulaw_alaw_call().call;
    let plan = call.dtmf_plan(Leg::A).expect("A takes telephone-events");
    assert_eq!((plan.payload_type, plan.clock_rate, plan.ptime_ms), (101, 8000, 20));
}

#[test]
fn a_fork_emits_rtp_alongside_the_transcoded_egress() {
    let mut call = ulaw_alaw_call();
    call.add_fork(Leg::A, ForkSink::new(1, 0xFEED_F00D));
    assert_eq!(call.call.fork_count(Leg::A), 1);
    let (mut out, mut events) = (Vec::new(), Vec::new());
    call.process(&rx(1, A_ADDR, ulaw_rtp(100, 0x40)), &mut out, &mut events);
    assert_eq!(out.len(), 1);
    let egress = parse(&out[0]);
    assert_eq!(egress.payload_type, 8);
    assert_eq!(egress.ssrc, 0xB000_0001);
    let forked = parse_packet(&call.a.forks[0].sent.remove(0)).expect("parse");
    assert_eq!(forked.payload_type, 0);
    assert_eq!(forked.ssrc, 0xFEED_F00D);
    assert_eq!(forked.sequence, 0);
    assert_eq!(forked.payload.len(), 160);
    call.process(&rx(1, A_ADDR, ulaw_rtp(101, 0x40)), &mut out, &mut events);
    let second = parse_packet(&call.a.forks[0].sent.remove(0)).expect("parse");
    assert_eq!(second.sequence, 1);
}

#[test]
fn remove_fork_stops_forwarding_and_keeps_transcode() {
    let mut call = ulaw_alaw_call();
    call.add_fork(Leg::A, ForkSink::new(7, 7));
    let (mut out, mut events) = (Vec::new(), Vec::new());
    call.process(&rx(1, A_ADDR, ulaw_rtp(1, 0x40)), &mut out, &mut events);
    assert_eq!(call.a.forks[0].sent.len(), 1, "forwarded while attached");
    call.remove_forks(Leg::A);
    assert_eq!(call.call.fork_count(Leg::A), 0);
    assert!(call.a.forks.is_empty(), "the sink is finished");
    out.clear();
    call.process(&rx(1, A_ADDR, ulaw_rtp(2, 0x40)), &mut out, &mut events);
    assert_eq!(out.len(), 1);
}

#[test]
fn tagged_forks_are_detached_alone() {
    let mut call = ulaw_alaw_call().call;
    call.add_fork(Leg::A, Fork { tag: Some("tee-1".to_string()), sink: 1 });
    call.add_fork(Leg::A, Fork { tag: None, sink: 2 });
    call.add_fork(Leg::A, Fork { tag: Some("tee-1".to_string()), sink: 3 });
    call.add_fork(Leg::B, Fork { tag: Some("tee-1".to_string()), sink: 4 });
    assert_eq!(call.remove_forks_tagged(Leg::A, &"tee-1".to_string()), vec![1, 3]);
    assert_eq!(call.fork_count(Leg::A), 1);
    assert_eq!(call.fork_count(Leg::B), 1);
    assert_eq!(call.remove_forks(Leg::A), vec![2]);
}

#[test]
fn block_dtmf_drops_telephone_event_relay_but_still_emits_the_event() {
    let mut call = ulaw_alaw_call();
    call.call.set_dtmf_blocked(Leg::A, true);
    let (mut out, mut events) = (Vec::new(), Vec::new());
    call.process(&rx(1, A_ADDR, telephone_event_rtp(1, 16000, true, true)), &mut out, &mut events);
    assert_eq!(events.len(), 1);
    assert!(matches!(&events[0], Event::Dtmf { digit, .. } if digit == "5"));
    assert!(out.is_empty());
    call.call.set_dtmf_blocked(Leg::A, false);
    events.clear();
    call.process(&rx(1, A_ADDR, telephone_event_rtp(2, 17600, true, true)), &mut out, &mut events);
    assert_eq!(events.len(), 1);
    assert_eq!(out.len(), 1);
    assert_eq!(parse(&out[0]).payload_type, 101);
}

#[test]
fn block_dtmf_on_a_relay_drops_telephone_events_by_pt_but_forwards_ordinary_rtp() {
    let mut call = relay_bench();
    assert!(call.call.is_relay_only());
    call.call.set_dtmf_blocked(Leg::A, true);
    let audio = ulaw_rtp(1, 0xAB);
    let (mut out, mut events) = (Vec::new(), Vec::new());
    call.process(&rx(1, A_ADDR, audio.clone()), &mut out, &mut events);
    assert_eq!(out.len(), 1);
    assert_eq!(out[0].data, audio);
    assert!(events.is_empty());
    out.clear();
    call.process(&rx(1, A_ADDR, telephone_event_rtp(2, 16000, true, true)), &mut out, &mut events);
    assert!(out.is_empty());
    assert_eq!(events.len(), 1);
    assert!(!call.call.ingress_direction(Leg::B).dtmf_blocked());
    assert!(call.call.ingress_direction(Leg::A).dtmf_blocked());
    call.call.set_dtmf_blocked(Leg::A, false);
    events.clear();
    let event = telephone_event_rtp(3, 17600, true, true);
    call.process(&rx(1, A_ADDR, event.clone()), &mut out, &mut events);
    assert_eq!(out.len(), 1);
    assert_eq!(out[0].data, event);
}

#[test]
fn a_fork_does_not_disturb_dtmf_extraction() {
    let mut call = ulaw_alaw_call();
    call.add_fork(Leg::A, ForkSink::new(9, 9));
    let (mut out, mut events) = (Vec::new(), Vec::new());
    let event = rtp(101, 1, 16000, 0x1111_2222, true, &[5, 0x80 | 10, 0x03, 0x20]);
    call.process(&rx(1, A_ADDR, event), &mut out, &mut events);
    assert_eq!(events.len(), 1);
    assert_eq!(out.len(), 1);
    assert!(call.a.forks[0].sent.is_empty(), "a fork sees decoded audio only");
}

#[test]
fn raw_tee_copies_leg_a_original_rtp_byte_for_byte_alongside_transcode() {
    let mut call = ulaw_alaw_call();
    call.call.add_raw_tee(Leg::A, tee(99, "127.0.0.9:7000"));
    assert_eq!(call.call.raw_tee_count(Leg::A), 1);
    let original = ulaw_rtp(100, 0x40);
    let (mut out, mut events) = (Vec::new(), Vec::new());
    call.process(&rx(1, A_ADDR, original.clone()), &mut out, &mut events);
    assert_eq!(out.len(), 2);
    let teed = out.iter().find(|sent| sent.endpoint == endpoint(99)).expect("tee");
    assert_eq!(teed.dst, addr("127.0.0.9:7000"));
    assert_eq!(teed.data, original);
    let to_b = out.iter().find(|sent| sent.endpoint == endpoint(2)).expect("egress");
    assert_eq!(parse(to_b).payload_type, 8);
}

#[test]
fn raw_tee_tees_rtcp_and_dtmf_verbatim_too() {
    let mut call = ulaw_alaw_call();
    call.call.add_raw_tee(Leg::A, tee(99, "127.0.0.9:7000"));
    let rtcp = vec![0x80u8, 200, 0x00, 0x06, 0xDE, 0xAD, 0xBE, 0xEF];
    let mut out = Vec::new();
    call.process(&rx(1, A_ADDR, rtcp.clone()), &mut out, &mut Vec::new());
    let teed = out.iter().find(|sent| sent.endpoint == endpoint(99)).expect("tee");
    assert_eq!(teed.data, rtcp);
}

#[test]
fn remove_raw_tee_stops_only_the_named_subscriber() {
    let mut call = ulaw_alaw_call();
    call.call.add_raw_tee(Leg::A, tee(91, "127.0.0.9:7000"));
    call.call.add_raw_tee(Leg::A, tee(92, "127.0.0.9:8000"));
    assert_eq!(call.call.raw_tee_count(Leg::A), 2);
    call.call.remove_raw_tee(Leg::A, endpoint(91));
    assert_eq!(call.call.raw_tee_count(Leg::A), 1);
    let mut out = Vec::new();
    call.process(&rx(1, A_ADDR, ulaw_rtp(1, 0x40)), &mut out, &mut Vec::new());
    assert!(out.iter().all(|sent| sent.endpoint != endpoint(91)));
    assert!(out.iter().any(|sent| sent.endpoint == endpoint(92)));
}

#[test]
fn relay_only_forwards_ingress_verbatim_to_the_peer() {
    let mut call = relay_bench();
    assert!(call.call.is_relay_only());
    let original = ulaw_rtp(7, 0xAB);
    let mut out = Vec::new();
    call.process(&rx(1, A_ADDR, original.clone()), &mut out, &mut Vec::new());
    assert_eq!(out.len(), 1);
    assert_eq!(out[0].endpoint, endpoint(2));
    assert_eq!(out[0].dst, addr(B_ADDR));
    assert_eq!(out[0].data, original);
}

#[test]
fn recording_captures_accepted_ingress_on_both_legs_with_the_5_tuple() {
    let mut call = relay_bench();
    call.call.start_recording(PcapCapture { a_local: addr("127.0.0.1:10000"), b_local: addr("127.0.0.1:10002") });
    assert!(call.call.is_recording());
    let a_packet = ulaw_rtp(1, 0x40);
    call.process(&rx_at(1, A_ADDR, 123, a_packet.clone()), &mut Vec::new(), &mut Vec::new());
    let captured = call.captured.pop().expect("captured");
    assert_eq!(captured.source, addr(A_ADDR));
    assert_eq!(captured.destination, addr("127.0.0.1:10000"));
    assert_eq!(captured.payload, a_packet);
    assert_eq!(captured.timestamp_micros, 123);
    call.process(&rx_at(2, B_ADDR, 456, alaw_rtp(1, 0x55)), &mut Vec::new(), &mut Vec::new());
    let captured = call.captured.pop().expect("captured");
    assert_eq!(captured.destination, addr("127.0.0.1:10002"));
    assert_eq!(captured.timestamp_micros, 456);
    call.process(&rx_at(1, "127.0.0.99:5000", 789, ulaw_rtp(2, 0xFF)), &mut Vec::new(), &mut Vec::new());
    assert!(call.captured.is_empty());
    call.call.stop_recording();
    assert!(!call.call.is_recording());
    call.process(&rx_at(1, A_ADDR, 1000, ulaw_rtp(3, 0x41)), &mut Vec::new(), &mut Vec::new());
    assert!(call.captured.is_empty());
}

#[test]
fn relay_only_gates_off_source_and_tees_to_the_srs() {
    let mut call = relay_bench();
    call.call.add_raw_tee(Leg::A, tee(99, "127.0.0.9:7000"));
    let mut out = Vec::new();
    call.process(&rx(1, "127.0.0.99:5000", ulaw_rtp(1, 0xFF)), &mut out, &mut Vec::new());
    assert!(out.is_empty());
    let original = ulaw_rtp(2, 0x40);
    call.process(&rx(1, A_ADDR, original.clone()), &mut out, &mut Vec::new());
    let to_b = out.iter().find(|sent| sent.endpoint == endpoint(2)).expect("relay");
    assert_eq!(to_b.data, original);
    let teed = out.iter().find(|sent| sent.endpoint == endpoint(99)).expect("tee");
    assert_eq!(teed.data, original);
}

#[test]
fn relay_only_latches_the_observed_source_for_the_reverse_direction() {
    let mut call = relay_bench();
    let observed = "127.0.0.3:55555";
    let mut out = Vec::new();
    call.process(&rx(2, observed, alaw_rtp(1, 0x55)), &mut out, &mut Vec::new());
    out.clear();
    call.process(&rx(1, A_ADDR, ulaw_rtp(1, 0xFF)), &mut out, &mut Vec::new());
    assert_eq!(out[0].dst, addr(observed));
}

#[test]
fn a_blocked_key_press_still_latches_its_source() {
    let mut call = relay_bench();
    call.call.set_dtmf_blocked(Leg::A, true);
    let observed = "127.0.0.2:55555";
    let (mut out, mut events) = (Vec::new(), Vec::new());
    call.process(&rx(1, observed, telephone_event_rtp(1, 16000, true, true)), &mut out, &mut events);
    assert!(out.is_empty());
    assert_eq!(call.reply_toward(Leg::A), addr(observed));
}

#[test]
fn relay_only_block_suppresses_the_forward_but_still_tees() {
    let mut call = relay_bench();
    call.call.add_raw_tee(Leg::A, tee(99, "127.0.0.9:7000"));
    call.call.set_blocked(true);
    let mut out = Vec::new();
    call.process(&rx(1, A_ADDR, ulaw_rtp(1, 0xFF)), &mut out, &mut Vec::new());
    assert!(out.iter().all(|sent| sent.endpoint != endpoint(2)));
    assert!(out.iter().any(|sent| sent.endpoint == endpoint(99)));
}

#[test]
fn records_decoded_audio_when_configured() {
    let mut a_to_b = direction(1, A_ADDR, 2, B_ADDR, Codec::Ulaw.params(20), Codec::L16.params(20), 1, 11, None);
    a_to_b.recorder = true;
    let mut b_to_a = direction(2, B_ADDR, 1, A_ADDR, Codec::L16.params(20), Codec::Ulaw.params(20), 2, 0, None);
    b_to_a.accepted_source = SourceFilter::Any;
    let call = MediaCall::new(
        "rec-call".to_string(),
        "a".to_string(),
        None,
        a_to_b,
        ALL_TOOLS,
        b_to_a,
        ALL_TOOLS,
        true,
        Some("/tmp".to_string()),
    );
    let mut bench = Bench::new(call, Tools::new(Codec::Ulaw, Codec::L16), Tools::new(Codec::L16, Codec::Ulaw));
    let (mut out, mut events) = (Vec::new(), Vec::new());
    bench.process(&rx(1, A_ADDR, ulaw_rtp(1, 0xFF)), &mut out, &mut events);
    let samples = bench.a.recorded.len() as u64;
    assert_eq!(samples, 160);
    let files = bench.call.take_recordings(samples, 0);
    assert_eq!(files.len(), 1);
    assert!(files[0].path.ends_with("rec-call-a.wav"));
    assert_eq!(files[0].path, "/tmp/rec-call-a.wav");
    assert_eq!(files[0].leg, Leg::A);
    assert!(bench.call.take_recordings(samples, 0).is_empty(), "a recorder is taken once");
}

#[test]
fn without_a_directory_nothing_is_recorded() {
    let (mut a_to_b, b_to_a) = ulaw_alaw_configs();
    a_to_b.recorder = true;
    let mut call = call_of("call-1", a_to_b, b_to_a);
    assert!(call.take_recordings(100, 100).is_empty());
}

#[test]
fn the_echo_canceller_gets_what_was_sent_toward_the_party() {
    let l16 = Codec::L16.params(20);
    let mut a_to_b = direction(1, A_ADDR, 2, B_ADDR, l16, l16, 1, 11, None);
    a_to_b.echo_cancellation = true;
    let mut b_to_a = direction(2, B_ADDR, 1, A_ADDR, l16, l16, 2, 11, None);
    b_to_a.produce_echo_reference = true;
    let mut call = Bench::new(
        call_of("aec", a_to_b, b_to_a),
        Tools::new(Codec::L16, Codec::L16),
        Tools::new(Codec::L16, Codec::L16),
    );
    let audio: Vec<i16> = (0..160).map(|i| i * 3).collect();
    let payload = Codec::L16.encode(&audio).expect("encode");
    let (mut out, mut events) = (Vec::new(), Vec::new());
    call.process(&rx(2, B_ADDR, rtp(11, 1, 160, 5, false, &payload)), &mut out, &mut events);
    out.clear();
    call.process(&rx(1, A_ADDR, rtp(11, 1, 160, 6, false, &payload)), &mut out, &mut events);
    assert_eq!(out.len(), 1);
    let residual = Codec::L16.decode(&parse(&out[0]).payload).expect("decode");
    assert!(residual.iter().all(|&sample| sample == 0), "a perfect echo cancels to nothing");
}

#[test]
fn the_echo_canceller_gets_the_prompt_that_was_played() {
    let l16 = Codec::L16.params(20);
    let mut a_to_b = direction(1, A_ADDR, 2, B_ADDR, l16, l16, 1, 11, None);
    a_to_b.echo_cancellation = true;
    let mut b_to_a = direction(2, B_ADDR, 1, A_ADDR, l16, l16, 2, 11, None);
    b_to_a.produce_echo_reference = true;
    let mut call = Bench::new(
        call_of("aec", a_to_b, b_to_a),
        Tools::new(Codec::L16, Codec::L16),
        Tools::new(Codec::L16, Codec::L16),
    );
    let (mut out, mut events) = (Vec::new(), Vec::new());
    for resampled in [false, true] {
        let rate = if resampled { 16000 } else { 8000 };
        call.call.start_play_audio(Leg::A, rate, true, 1, &mut events);
        call.b.player = Some(prompt_player(1));
        out.clear();
        call.tick(&mut out, &mut events);
        assert_eq!(out.len(), 1);
        let echo = parse(&out[0]).payload;
        out.clear();
        call.process(&rx(1, A_ADDR, rtp(11, 1, 160, 6, false, &echo)), &mut out, &mut events);
        let residual = Codec::L16.decode(&parse(&out[0]).payload).expect("decode");
        assert_eq!(residual.len(), 160);
        assert!(residual.iter().all(|&sample| sample == 0), "an echoed prompt cancels to nothing");
    }
}

#[test]
fn noise_suppression_runs_before_taps_and_the_peer() {
    let l16 = Codec::L16.params(20);
    let mut a_to_b = direction(1, A_ADDR, 2, B_ADDR, l16, l16, 1, 11, None);
    a_to_b.noise_suppression = true;
    let b_to_a = direction(2, B_ADDR, 1, A_ADDR, l16, l16, 2, 11, None);
    let mut call = Bench::new(
        call_of("ns", a_to_b, b_to_a),
        Tools::new(Codec::L16, Codec::L16),
        Tools::new(Codec::L16, Codec::L16),
    );
    let payload = Codec::L16.encode(&[100; 160]).expect("encode");
    let (mut out, mut events) = (Vec::new(), Vec::new());
    call.process(&rx(1, A_ADDR, rtp(11, 1, 160, 6, false, &payload)), &mut out, &mut events);
    assert_eq!(call.a.tapped[0], vec![50; 160]);
    assert_eq!(Codec::L16.decode(&parse(&out[0]).payload).expect("decode"), vec![50; 160]);
}

#[test]
fn a_rate_change_resamples_before_framing() {
    let a_to_b =
        direction(1, A_ADDR, 2, B_ADDR, Codec::Wide.params(20), Codec::Ulaw.params(20), 1, 0, None);
    let b_to_a =
        direction(2, B_ADDR, 1, A_ADDR, Codec::Ulaw.params(20), Codec::Wide.params(20), 2, 9, None);
    let mut call = Bench::new(
        call_of("rate", a_to_b, b_to_a),
        Tools::new(Codec::Wide, Codec::Ulaw),
        Tools::new(Codec::Ulaw, Codec::Wide),
    );
    let (mut out, mut events) = (Vec::new(), Vec::new());
    call.process(&rx(1, A_ADDR, g722_rtp(1)), &mut out, &mut events);
    assert_eq!(out.len(), 1);
    assert_eq!(parse(&out[0]).payload.len(), 160, "320 samples in, 160 out");
}

#[test]
fn a_frame_the_encoder_cannot_write_leaves_the_counters_alone() {
    let mut call = ulaw_alaw_call().call;
    let mut out = Vec::new();
    let step = call.ingress_direction(Leg::A).encoded(None, false, Onward { latch: Some(1), frames: true });
    assert!(matches!(step, MediaStep::Done { latch: Some(1) }));
    let step = call.ingress_direction(Leg::A).encoded(Some(vec![0; 1600]), false, Onward { latch: None, frames: false });
    let MediaStep::Frame { header, payload, advance, after } = step else {
        panic!("expected a packet to write");
    };
    assert_eq!(header.sequence, 0);
    let written = write_packet(&header, &payload);
    assert!(written.is_none(), "too large");
    let step = call.ingress_direction(Leg::A).framed(written, advance, after, &mut out);
    assert!(matches!(step, MediaStep::Done { latch: None }));
    let step = call.ingress_direction(Leg::A).encoded(Some(vec![1]), false, Onward { latch: None, frames: false });
    assert!(matches!(step, MediaStep::Frame { header, .. } if header.sequence == 0 && header.timestamp == 0));
}

#[test]
fn a_datagram_too_short_to_judge_is_ignored() {
    let mut call = ulaw_alaw_call();
    call.call.add_raw_tee(Leg::A, tee(99, "127.0.0.9:7000"));
    let mut out = Vec::new();
    assert!(call.process(&rx(1, A_ADDR, vec![0x80]), &mut out, &mut Vec::new()));
    assert!(out.is_empty());
}

#[test]
fn the_latch_follows_and_rejects() {
    let mut latch = SymmetricLatch::default();
    let (first, second) = (addr("10.0.0.1:1000"), addr("10.0.0.2:2000"));
    assert_eq!(latch.observe(first, 1), Some(first));
    assert_eq!(latch.observe(second, 2), None);
    assert_eq!(latch.source, Some(first));
    assert_eq!(latch.observe(first, 3), Some(first), "a new SSRC from the same source");
    assert_eq!(latch.observe(second, 3), Some(second));
    let link_local = SocketAddress { ip: IpAddress::V6(0xfe80 << 112 | 1), port: 5000, flowinfo: 0, scope_id: 1 };
    let other_network = SocketAddress { scope_id: 2, ..link_local };
    let mut scoped = SymmetricLatch::default();
    assert_eq!(scoped.observe(link_local, 1), Some(link_local));
    assert_eq!(scoped.observe(other_network, 2), None, "the same address on another network");
}

#[test]
fn the_ssrc_is_read_off_rtp_only() {
    assert_eq!(rtp_source_ssrc(&ulaw_rtp_with_ssrc(1, 0xDEAD_BEEF)), Some(0xDEAD_BEEF));
    assert_eq!(rtp_source_ssrc(&rtcp_sr(7)), None);
    assert_eq!(rtp_source_ssrc(&[0x80; 11]), None);
    let mut other_version = ulaw_rtp(1, 0);
    other_version[0] = 0x40;
    assert_eq!(rtp_source_ssrc(&other_version), None);
    assert!(is_rtcp_datagram(&rtcp_sr(7)));
    assert!(!is_rtcp_datagram(&[200]));
    assert!(!is_rtcp_datagram(&ulaw_rtp(1, 0)));
}

#[test]
fn the_echo_reference_keeps_the_newest_samples() {
    let mut ring = EchoReference::new(4, 8000);
    ring.push(&[1, 2, 3]);
    ring.push(&[4, 5, 6]);
    let mut out = vec![9; 3];
    assert_eq!(ring.read_into(&mut out), 3);
    assert_eq!(out, vec![3, 4, 5]);
    let mut rest = vec![9; 3];
    assert_eq!(ring.read_into(&mut rest), 1);
    assert_eq!(rest, vec![6, 0, 0], "padded with silence");
    assert_eq!(ring.sample_rate_hz(), 8000);
    let mut none = EchoReference::new(0, 8000);
    none.push(&[1]);
    assert_eq!(none.read_into(&mut rest), 0);
}

#[test]
fn the_echo_canceller_is_sized_in_milliseconds() {
    let plan = build_echo_canceller(8000);
    assert_eq!((plan.tail_samples, plan.search_range), (512, 1024));
    let tiny = build_echo_canceller(1);
    assert_eq!((tiny.tail_samples, tiny.search_range), (1, 1));
}

#[test]
fn frames_come_out_whole_and_in_order() {
    let mut buffer = Repacketizer::new(3);
    buffer.push(&[1, 2]);
    assert!(buffer.next_frame().is_none());
    buffer.push(&[3, 4, 5, 6, 7]);
    assert_eq!(buffer.next_frame(), Some(vec![1, 2, 3]));
    assert_eq!(buffer.next_frame(), Some(vec![4, 5, 6]));
    assert!(buffer.next_frame().is_none());
    assert_eq!(buffer.frame_samples(), 3);
    let mut unframed = Repacketizer::new(0);
    unframed.push(&[1]);
    assert!(unframed.next_frame().is_none());
}

#[test]
fn rtcp_reports_become_round_trip_notes() {
    let call = ulaw_alaw_call().call;
    let block = ReceptionBlock {
        ssrc: 0xA000_0001,
        fraction_lost: 0,
        cumulative_lost: 0,
        highest_sequence: 0,
        jitter: 0,
        last_sender_report: 0x1234_5678,
        delay_since_last_sender_report: 32_768,
    };
    let compound = vec![
        RtcpReport::Sender { ntp_timestamp: 7, blocks: vec![block] },
        RtcpReport::Other,
        RtcpReport::Receiver { blocks: vec![block] },
    ];
    let note = RttNote::Reception { egress_ssrc: 0xA000_0001, block };
    assert_eq!(
        call.observe_rtcp_rtt(Leg::A, &compound),
        vec![RttNote::SentReport { ntp_timestamp: 7 }, note, note]
    );
}

#[test]
fn control_operations_change_the_call() {
    let mut call = ulaw_alaw_call().call;
    let mut events = Vec::new();
    for control in [
        MediaControl::Silence(true),
        MediaControl::Block(true),
        MediaControl::BlockDtmf { source: Leg::B, blocked: true },
        MediaControl::AddRawTee { source: Leg::A, tee: tee(99, "127.0.0.9:7000") },
        MediaControl::AddFork { source: Leg::A, fork: Fork { tag: Some("t".to_string()), sink: 5 } },
        MediaControl::StartRecording {
            capture: PcapCapture { a_local: addr("127.0.0.1:1"), b_local: addr("127.0.0.1:2") },
        },
        MediaControl::PlayAudio { toward: Leg::A, source_rate_hz: 8000, resampler_built: true, play_id: 1 },
        MediaControl::PlayAudio { toward: Leg::A, source_rate_hz: 8000, resampler_built: true, play_id: 2 },
        MediaControl::PlayDtmf { toward: Leg::B, sequence_built: true },
    ] {
        assert!(matches!(apply_control(&mut call, control, &mut events), ControlOutcome::Continue { .. }));
    }
    assert_eq!(expect_one_play_finished(&events), (1, PlayEndReason::Superseded, Some(0)));
    assert!(call.is_recording() && call.has_injection());
    assert_eq!((call.raw_tee_count(Leg::A), call.fork_count(Leg::A)), (1, 1));
    events.clear();
    apply_control(&mut call, MediaControl::StopPlay, &mut events);
    assert_eq!(expect_one_play_finished(&events), (2, PlayEndReason::Stopped, Some(0)));
    let outcome =
        apply_control(&mut call, MediaControl::RemoveForkTagged { source: Leg::A, tag: "t".to_string() }, &mut events);
    assert!(matches!(outcome, ControlOutcome::Continue { finished } if finished == vec![5]));
    apply_control(&mut call, MediaControl::RemoveRawTee { source: Leg::A, subscriber_endpoint: endpoint(99) }, &mut events);
    assert_eq!(call.raw_tee_count(Leg::A), 0);
    apply_control(&mut call, MediaControl::RemoveFork { source: Leg::A }, &mut events);
    apply_control(&mut call, MediaControl::StopRecording, &mut events);
    apply_control(&mut call, MediaControl::Echo(true), &mut events);
    assert!(!call.is_recording());
    assert!(matches!(apply_control(&mut call, MediaControl::Report, &mut events), ControlOutcome::Report));
    assert!(matches!(apply_control(&mut call, MediaControl::Stop, &mut events), ControlOutcome::Stop));
}

#[test]
fn quality_is_due_every_five_seconds() {
    let mut clock = PlayoutClock::new();
    let mut due = Vec::new();
    for _ in 0..600 {
        if let Some(elapsed) = clock.tick() {
            due.push(elapsed);
        }
    }
    assert_eq!(due, vec![5_000, 10_000]);
}

#[test]
fn the_registry_routes_registered_calls() {
    let mut registry = MediaRegistry::default();
    let name = "call-1".to_string();
    assert!(!registry.owns(endpoint(1)));
    registry.register(name.clone(), 42, vec![1, 2, 3], false);
    registry.register("relay".to_string(), 43, vec![9], true);
    assert!(registry.owns(endpoint(3)));
    assert_eq!(registry.dispatch(endpoint(2)), Some(42));
    assert_eq!(registry.dispatch(endpoint(9)), Some(43));
    assert_eq!(registry.dispatch(endpoint(5)), None);
    assert_eq!(registry.control(&name), Some(42));
    assert!(registry.is_media_call(&name) && registry.is_transcoding_call(&name));
    assert!(!registry.is_relay_call(&name));
    assert!(registry.is_relay_call(&"relay".to_string()));
    assert_eq!(registry.transcode_call_count(), 1);
    assert_eq!(registry.deregister(&name), Some(42));
    assert!(!registry.owns(endpoint(1)) && !registry.owns(endpoint(3)));
    assert!(registry.owns(endpoint(9)), "another call keeps its route");
    assert_eq!(registry.deregister(&name), None);
    assert_eq!(registry.transcode_call_count(), 0);
}

#[test]
fn a_finished_walk_says_what_is_left_to_do() {
    let mut call = ulaw_alaw_call().call;
    let audio = rx(1, A_ADDR, ulaw_rtp(1, 0x40));
    let report = rx(1, A_ADDR, rtcp_sr(7));
    let completion = call.complete(Leg::A, &audio, None);
    assert!(completion.steer_mode && !completion.observe_rtt);
    assert!(call.complete(Leg::A, &report, None).observe_rtt);
    call.set_echo(true);
    assert!(!call.complete(Leg::A, &audio, None).steer_mode, "a reflected party steers nothing");
    let mut secure = secure_ulaw_call("secure", None, 1, 2).call;
    assert!(!secure.complete(Leg::B, &rx(2, B_ADDR, rtcp_sr(7)), None).observe_rtt, "encrypted RTCP says nothing");
}
