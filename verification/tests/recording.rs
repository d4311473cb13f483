//! The recording writer.
use siphon_rtp_engine::recording::{
    l16_samples, RecordingEndReason, RecordingLimits, RecordingOutcome, WavWriter, WriterEnd, WriterStep,
    SILENCE_ENERGY_THRESHOLD, SILENCE_HANGOVER_FRAMES, WAV_HEADER_LEN,
};

fn frame(samples: usize, value: i16) -> Vec<u8> {
    let mut out = Vec::with_capacity(samples * 2);
    for _ in 0..samples {
        out.extend_from_slice(&value.to_le_bytes());
    }
    out
}

/// An energy detector with hangover.
struct SpeechDetector {
    hangover: u32,
}

impl SpeechDetector {
    fn is_speech(&mut self, pcm: &[i16]) -> bool {
        let energy: i64 = pcm.iter().map(|&sample| i64::from(sample) * i64::from(sample)).sum::<i64>()
            / pcm.len() as i64;
        if energy >= SILENCE_ENERGY_THRESHOLD {
            self.hangover = SILENCE_HANGOVER_FRAMES;
            return true;
        }
        let speech = self.hangover > 0;
        self.hangover = self.hangover.saturating_sub(1);
        speech
    }
}

/// A file of 16-bit audio: header, then samples.
struct Wav {
    riff: u32,
    data: u32,
    channels: u16,
    audio: Vec<u8>,
}

fn record_channels(channels: u16, limits: RecordingLimits, frames: Vec<Vec<u8>>) -> (RecordingOutcome, Wav) {
    let mut writer = WavWriter::new(8000, channels, limits);
    let mut detector = SpeechDetector { hangover: 0 };
    let mut audio = Vec::new();
    for frame in frames {
        let take = writer.take(frame.len());
        audio.extend_from_slice(&frame[..take]);
        let mut step = writer.frame_written(frame.len(), true);
        if let WriterStep::JudgeSpeech { take } = step {
            let speech = detector.is_speech(&l16_samples(&frame[..take]));
            step = writer.speech_judged(take, speech);
        }
        if step == WriterStep::Finish {
            break;
        }
    }
    let sizes = writer.finalize();
    let channels = u16::try_from(writer.bytes_per_second / (2 * 8000)).expect("a channel count");
    (writer.outcome(true), Wav { riff: sizes.riff, data: sizes.data, channels, audio })
}

fn record(limits: RecordingLimits, frames: Vec<Vec<u8>>) -> (RecordingOutcome, Wav) {
    record_channels(1, limits, frames)
}

#[test]
fn a_finished_recording_is_a_valid_wav_the_reader_accepts() {
    let (outcome, wav) = record(RecordingLimits::default(), vec![frame(160, 1000); 5]);
    assert_eq!(outcome.end, WriterEnd::SourceGone);
    assert_eq!(outcome.duration_ms, 100, "5 × 20 ms at 8 kHz mono");
    let samples = l16_samples(&wav.audio);
    assert_eq!(samples.len(), 800);
    assert!(samples.iter().all(|&sample| sample == 1000));
    assert_eq!(wav.data, 1600);
    assert_eq!(wav.riff, WAV_HEADER_LEN - 8 + 1600, "header plus exactly the audio written");
}

#[test]
fn a_stereo_recording_declares_two_channels() {
    let (outcome, wav) = record_channels(2, RecordingLimits::default(), vec![frame(320, 500)]);
    assert_eq!(wav.channels, 2);
    assert_eq!(l16_samples(&wav.audio).len() / 2, 160, "320 interleaved = 160 per channel");
    assert_eq!(outcome.duration_ms, 20);
}

#[test]
fn max_duration_truncates_the_last_frame_rather_than_overshooting() {
    let limits = RecordingLimits { max_duration_ms: Some(50), ..RecordingLimits::default() };
    let (outcome, wav) = record(limits, vec![frame(160, 1000); 10]);
    assert_eq!(outcome.end, WriterEnd::MaxDuration);
    assert_eq!(outcome.duration_ms, 50);
    assert_eq!(l16_samples(&wav.audio).len(), 400, "50 ms at 8 kHz mono");
}

#[test]
fn silence_ends_a_recording_and_speech_resets_its_clock() {
    let limits = RecordingLimits { silence_ms: Some(60), ..RecordingLimits::default() };
    let (quiet, _) = record(limits, vec![frame(160, 0); 10]);
    assert_eq!(quiet.end, WriterEnd::Silence);
    assert_eq!(quiet.duration_ms, 60, "ended exactly at the silence limit");
    let mut mixed = vec![frame(160, 0); 2];
    mixed.push(frame(160, 8000));
    mixed.extend(vec![frame(160, 0); 10]);
    let (spoken, _) = record(limits, mixed);
    assert_eq!(spoken.end, WriterEnd::Silence);
    assert!(spoken.duration_ms > 60, "got {}", spoken.duration_ms);
}

#[test]
fn a_recording_that_never_received_a_frame_is_still_a_valid_empty_wav() {
    let (outcome, wav) = record(RecordingLimits::default(), Vec::new());
    assert_eq!(outcome.duration_ms, 0);
    assert_eq!(wav.riff, WAV_HEADER_LEN - 8);
    assert_eq!(wav.data, 0);
    assert!(wav.audio.is_empty());
}

#[test]
fn the_writer_never_guesses_why_the_source_went_away() {
    assert_eq!(WriterEnd::SourceGone.into_reason(RecordingEndReason::Stopped), RecordingEndReason::Stopped);
    assert_eq!(WriterEnd::SourceGone.into_reason(RecordingEndReason::CallEnded), RecordingEndReason::CallEnded);
    assert_eq!(WriterEnd::MaxDuration.into_reason(RecordingEndReason::CallEnded), RecordingEndReason::MaxDuration);
    assert_eq!(WriterEnd::Silence.into_reason(RecordingEndReason::Stopped), RecordingEndReason::Silence);
    assert_eq!(WriterEnd::Error.into_reason(RecordingEndReason::Stopped), RecordingEndReason::Error);
}

#[test]
fn a_failed_write_ends_in_an_error() {
    let mut writer = WavWriter::new(8000, 1, RecordingLimits::default());
    assert_eq!(writer.frame_written(320, true), WriterStep::NextFrame);
    assert_eq!(writer.frame_written(320, false), WriterStep::Finish);
    let outcome = writer.outcome(true);
    assert_eq!((outcome.end, outcome.duration_ms), (WriterEnd::Error, 20));
    let unsized_file = WavWriter::new(8000, 1, RecordingLimits::default());
    assert_eq!(unsized_file.outcome(false).end, WriterEnd::Error);
    let headless = unsized_file.header_failed();
    assert_eq!((headless.end, headless.duration_ms), (WriterEnd::Error, 0));
}

#[test]
fn samples_are_little_endian() {
    assert_eq!(l16_samples(&[0x01, 0x02, 0xff, 0xff, 0x07]), vec![0x0201, -1]);
}

#[test]
fn a_full_recording_ends_on_a_whole_sample() {
    let limits = RecordingLimits { max_duration_ms: Some(15), silence_ms: None };
    let mut writer = WavWriter::new(11_025, 2, limits);
    assert_eq!(writer.take(1_000), 660, "661.5 bytes are 165 whole stereo samples");
    assert_eq!(writer.frame_written(1_000, true), WriterStep::Finish);
    let outcome = writer.outcome(true);
    assert_eq!((outcome.end, outcome.duration_ms), (WriterEnd::MaxDuration, 14));
}
