//! Recording decoded audio to a WAV file: limits, silence, and the sizes the file ends with.
use vstd::prelude::*;

verus! {

/// Mean-square energy at which a frame counts as speech.
pub const SILENCE_ENERGY_THRESHOLD: i64 = 1_000_000;

/// Frames the silence detector holds speech for.
pub const SILENCE_HANGOVER_FRAMES: u32 = 5;

/// Length of a WAV header in bytes.
pub const WAV_HEADER_LEN: u32 = 44;

/// Why the controller is told a recording ended.
#[derive(Clone, Copy, Debug, PartialEq, Eq, Structural)]
pub enum RecordingEndReason {
    Stopped,
    CallEnded,
    MaxDuration,
    Silence,
    Error,
}

/// Why the writer stopped.
#[derive(Clone, Copy, Debug, PartialEq, Eq, Structural)]
pub enum WriterEnd {
    /// No more audio will come.
    SourceGone,
    /// The longest duration was written.
    MaxDuration,
    /// Nobody spoke for too long.
    Silence,
    /// The file could not be written.
    Error,
}

impl WriterEnd {
    /// The reason the controller is told.
    pub open spec fn told(self, source_gone: RecordingEndReason) -> RecordingEndReason {
        match self {
            WriterEnd::SourceGone => source_gone,
            WriterEnd::MaxDuration => RecordingEndReason::MaxDuration,
            WriterEnd::Silence => RecordingEndReason::Silence,
            WriterEnd::Error => RecordingEndReason::Error,
        }
    }

    /// The reason the controller is told. The writer cannot tell a stop from a hangup, so the caller
    /// says which it was.
    pub fn into_reason(self, source_gone: RecordingEndReason) -> (reason: RecordingEndReason)
        ensures
            reason == self.told(source_gone),
    {
        match self {
            WriterEnd::SourceGone => source_gone,
            WriterEnd::MaxDuration => RecordingEndReason::MaxDuration,
            WriterEnd::Silence => RecordingEndReason::Silence,
            WriterEnd::Error => RecordingEndReason::Error,
        }
    }
}

/// When a recording stops by itself.
#[derive(Clone, Copy, Debug, PartialEq, Eq, Structural)]
pub struct RecordingLimits {
    /// Stop after this much audio.
    pub max_duration_ms: Option<u64>,
    /// Stop after this long without speech.
    pub silence_ms: Option<u64>,
}

impl Default for RecordingLimits {
    fn default() -> (limits: Self)
        ensures
            limits == (RecordingLimits { max_duration_ms: None, silence_ms: None }),
    {
        RecordingLimits { max_duration_ms: None, silence_ms: None }
    }
}

/// What a recording came to.
#[derive(Clone, Copy, Debug, PartialEq, Eq, Structural)]
pub struct RecordingOutcome {
    /// Audio written, in milliseconds.
    pub duration_ms: u64,
    pub end: WriterEnd,
}

/// A number of milliseconds in bytes, rounded down. A product out of range counts as the largest
/// number.
pub open spec fn limit_bytes(limit_ms: u64, bytes_per_second: u64) -> int {
    vstd::math::min(limit_ms * bytes_per_second, u64::MAX as int) / 1000
}

/// Bytes in one sample of every channel.
pub open spec fn sample_frame_bytes(channels: u16) -> int {
    vstd::math::max(channels as int, 1) * 2
}

/// The 16-bit samples of little-endian bytes. An odd byte at the end is no sample.
pub open spec fn samples_of(bytes: Seq<u8>) -> Seq<i16> {
    Seq::new(bytes.len() / 2, |i: int| le_sample(bytes[2 * i], bytes[2 * i + 1]))
}

/// A 16-bit sample out of its low and its high byte.
pub open spec fn le_sample(low: u8, high: u8) -> i16 {
    let value = low + 256 * high;
    (if value >= 32768 {
        value - 65536
    } else {
        value as int
    }) as i16
}

/// The 16-bit samples of little-endian bytes.
pub fn l16_samples(bytes: &[u8]) -> (samples: Vec<i16>)
    ensures
        samples@ == samples_of(bytes@),
{
    let mut samples: Vec<i16> = Vec::new();
    let total: usize = bytes.len();
    let count: usize = total / 2;
    let mut i: usize = 0;
    while i < count
        invariant
            total == bytes@.len(),
            i <= count == bytes@.len() / 2,
            samples@ =~= samples_of(bytes@).take(i as int),
        decreases count - i,
    {
        let value: i32 = bytes[2 * i] as i32 + 256 * bytes[2 * i + 1] as i32;
        let sample: i16 = if value >= 32768 {
            (value - 65536) as i16
        } else {
            value as i16
        };
        samples.push(sample);
        i = i + 1;
    }
    proof {
        assert(samples_of(bytes@).take(i as int) =~= samples_of(bytes@));
    }
    samples
}

/// What the writer does next.
#[derive(Clone, Copy, Debug, PartialEq, Eq, Structural)]
pub enum WriterStep {
    /// Ask the speech detector about the first `take` bytes of the frame.
    JudgeSpeech { take: usize },
    /// Take the next frame.
    NextFrame,
    /// Stop taking frames, and finish the file.
    Finish,
}

/// The sizes a finished file declares.
#[derive(Clone, Copy, Debug, PartialEq, Eq, Structural)]
pub struct WavSizes {
    /// The size of everything after the first two header fields.
    pub riff: u32,
    /// The size of the audio.
    pub data: u32,
}

/// A recording under way.
#[derive(Clone, Copy, Debug, PartialEq, Eq, Structural)]
pub struct WavWriter {
    pub bytes_per_second: u64,
    /// The most audio bytes to write.
    pub max_bytes: Option<u64>,
    /// The most bytes without speech.
    pub silence_limit_bytes: Option<u64>,
    /// Audio bytes written.
    pub written: u64,
    /// Bytes since the last speech.
    pub silent_bytes: u64,
    pub end: WriterEnd,
}

impl WavWriter {
    /// The silent bytes are among the written ones, and no more was written than is allowed.
    pub open spec fn wf(self) -> bool {
        &&& self.silent_bytes <= self.written
        &&& self.max_bytes matches Some(most) ==> self.written <= most
    }

    /// How many bytes of a frame are still written.
    pub open spec fn taken(self, frame_len: nat) -> nat {
        match self.max_bytes {
            Some(most) => if frame_len >= most - self.written {
                (most - self.written) as nat
            } else {
                frame_len
            },
            None => frame_len,
        }
    }

    /// Whether a frame of this length is the last that fits.
    pub open spec fn fills(self, frame_len: nat) -> bool {
        self.max_bytes matches Some(most) && frame_len >= most - self.written
    }

    /// A limit has been reached.
    pub open spec fn finished(self) -> bool {
        self.end is MaxDuration || self.end is Silence
    }

    /// The writer once the taken part of a frame was written.
    pub open spec fn stored(self, frame_len: nat) -> WavWriter {
        WavWriter {
            written: (self.written + self.taken(frame_len)) as u64,
            end: if self.fills(frame_len) {
                WriterEnd::MaxDuration
            } else {
                self.end
            },
            ..self
        }
    }

    /// Whether the speech detector is asked about so many bytes of a frame.
    pub open spec fn judges(self, take: nat) -> bool {
        self.silence_limit_bytes is Some && take >= 2
    }

    /// The writer once the speech detector has judged so many bytes.
    pub open spec fn judged(self, take: nat, speech: bool) -> WavWriter {
        let silent = if speech {
            0
        } else {
            self.silent_bytes + take
        };
        WavWriter {
            silent_bytes: silent as u64,
            end: if !speech && (self.silence_limit_bytes matches Some(limit) && silent >= limit) {
                WriterEnd::Silence
            } else {
                self.end
            },
            ..self
        }
    }

    /// The writer after a frame. `speech` is what the speech detector says of it, where it is asked.
    pub open spec fn after_frame_of(self, frame_len: nat, speech: bool) -> WavWriter {
        if self.judges(self.taken(frame_len)) {
            self.stored(frame_len).judged(self.taken(frame_len), speech)
        } else {
            self.stored(frame_len)
        }
    }

    /// A writer before its first frame. The longest duration is cut to whole samples.
    pub open spec fn begins(self, sample_rate: u32, channels: u16, limits: RecordingLimits) -> bool {
        &&& self.bytes_per_second == sample_rate * sample_frame_bytes(channels)
        &&& self.written == 0
        &&& self.silent_bytes == 0
        &&& self.end is SourceGone
        &&& match limits.max_duration_ms {
            None => self.max_bytes is None,
            Some(limit) => self.max_bytes is Some && ({
                let bytes = limit_bytes(limit, self.bytes_per_second);
                self.max_bytes->Some_0 == bytes - bytes % sample_frame_bytes(channels)
            }),
        }
        &&& match limits.silence_ms {
            None => self.silence_limit_bytes is None,
            Some(limit) => self.silence_limit_bytes is Some && self.silence_limit_bytes->Some_0 == limit_bytes(
                limit,
                self.bytes_per_second,
            ),
        }
    }

    /// The sizes in the header of the finished file.
    pub open spec fn sizes(self) -> WavSizes {
        let data = vstd::math::min(self.written as int, u32::MAX as int) as u32;
        WavSizes { riff: ((WAV_HEADER_LEN - 8) as u32).wrapping_add(data), data }
    }

    /// What a recording came to.
    pub open spec fn came_to(self, finalized: bool) -> RecordingOutcome {
        RecordingOutcome {
            duration_ms: (if self.bytes_per_second == 0 {
                0
            } else {
                self.written * 1000 / self.bytes_per_second as int
            }) as u64,
            end: if self.end is Error || !finalized {
                WriterEnd::Error
            } else {
                self.end
            },
        }
    }

    /// The writer of a recording. The longest duration is cut to whole samples.
    pub fn new(sample_rate: u32, channels: u16, limits: RecordingLimits) -> (writer: Self)
        ensures
            writer.wf(),
            writer.begins(sample_rate, channels, limits),
    {
        let frame: u64 = if channels > 1 {
            channels as u64 * 2
        } else {
            2
        };
        proof {
            assert(0 <= sample_rate as int * frame as int <= 0xffff_ffff * 131070) by (nonlinear_arith)
                requires
                    0 <= sample_rate <= 0xffff_ffff,
                    0 <= frame <= 131070,
            ;
        }
        let bytes_per_second: u64 = sample_rate as u64 * frame;
        let max_bytes: Option<u64> = match limits.max_duration_ms {
            None => None,
            Some(limit) => {
                let bytes: u64 = duration_bytes(limit, bytes_per_second);
                proof {
                    assert(0 <= bytes as int % frame as int <= bytes) by (nonlinear_arith)
                        requires
                            0 <= bytes,
                            0 < frame,
                    ;
                }
                Some(bytes - bytes % frame)
            },
        };
        let silence_limit_bytes: Option<u64> = match limits.silence_ms {
            None => None,
            Some(limit) => Some(duration_bytes(limit, bytes_per_second)),
        };
        WavWriter {
            bytes_per_second,
            max_bytes,
            silence_limit_bytes,
            written: 0,
            silent_bytes: 0,
            end: WriterEnd::SourceGone,
        }
    }

    /// The outcome when not even the header could be written.
    pub fn header_failed(&self) -> (outcome: RecordingOutcome)
        ensures
            outcome == (RecordingOutcome { duration_ms: 0, end: WriterEnd::Error }),
    {
        RecordingOutcome { duration_ms: 0, end: WriterEnd::Error }
    }

    /// How many bytes of the next frame to write: all of them, or what is left of the longest
    /// duration.
    pub fn take(&self, frame_len: usize) -> (take: usize)
        requires
            self.wf(),
        ensures
            take == self.taken(frame_len as nat),
            take <= frame_len,
    {
        match self.max_bytes {
            None => frame_len,
            Some(most) => {
                let remaining: u64 = most - self.written;
                if frame_len as u64 >= remaining {
                    remaining as usize
                } else {
                    frame_len
                }
            },
        }
    }

    /// Go on once the taken part of a frame was written. `stored` says whether that worked.
    pub fn frame_written(&mut self, frame_len: usize, stored: bool) -> (step: WriterStep)
        requires
            old(self).wf(),
            old(self).written + frame_len <= u64::MAX,
        ensures
            final(self).wf(),
            !stored ==> step == WriterStep::Finish && *final(self) == (WavWriter { end: WriterEnd::Error, ..*old(self) }),
            stored ==> {
                let take = old(self).taken(frame_len as nat);
                &&& *final(self) == old(self).stored(frame_len as nat)
                &&& final(self).written == old(self).written + take
                &&& step == (if old(self).judges(take) {
                    WriterStep::JudgeSpeech { take: take as usize }
                } else if final(self).finished() {
                    WriterStep::Finish
                } else {
                    WriterStep::NextFrame
                })
            },
    {
        if !stored {
            self.end = WriterEnd::Error;
            return WriterStep::Finish;
        }
        let take: usize = self.take(frame_len);
        if let Some(most) = self.max_bytes {
            if frame_len as u64 >= most - self.written {
                self.end = WriterEnd::MaxDuration;
            }
        }
        self.written = self.written + take as u64;
        if self.silence_limit_bytes.is_some() && take >= 2 {
            return WriterStep::JudgeSpeech { take };
        }
        self.after_frame()
    }

    /// What follows a frame: a limit that was reached ends the recording.
    fn after_frame(&self) -> (step: WriterStep)
        ensures
            step == (if self.finished() {
                WriterStep::Finish
            } else {
                WriterStep::NextFrame
            }),
    {
        match self.end {
            WriterEnd::MaxDuration => WriterStep::Finish,
            WriterEnd::Silence => WriterStep::Finish,
            _ => WriterStep::NextFrame,
        }
    }

    /// Go on once the speech detector has judged the written part of a frame. Speech starts the
    /// silence over.
    pub fn speech_judged(&mut self, take: usize, speech: bool) -> (step: WriterStep)
        requires
            old(self).wf(),
            old(self).silent_bytes + take <= old(self).written,
        ensures
            final(self).wf(),
            *final(self) == old(self).judged(take as nat, speech),
            step == (if final(self).finished() {
                WriterStep::Finish
            } else {
                WriterStep::NextFrame
            }),
    {
        if speech {
            self.silent_bytes = 0;
        } else {
            self.silent_bytes = self.silent_bytes + take as u64;
            if let Some(limit) = self.silence_limit_bytes {
                if self.silent_bytes >= limit {
                    self.end = WriterEnd::Silence;
                }
            }
        }
        self.after_frame()
    }

    /// The sizes to write into the header of the finished file.
    pub fn finalize(&self) -> (sizes: WavSizes)
        ensures
            sizes == self.sizes(),
    {
        let data: u32 = if self.written <= u32::MAX as u64 {
            self.written as u32
        } else {
            u32::MAX
        };
        WavSizes { riff: (WAV_HEADER_LEN - 8).wrapping_add(data), data }
    }

    /// What the recording came to. `finalized` says whether the sizes could be written, which is not
    /// tried after a failed write.
    pub fn outcome(&self, finalized: bool) -> (outcome: RecordingOutcome)
        requires
            self.written * 1000 <= u64::MAX,
        ensures
            outcome == self.came_to(finalized),
    {
        let duration_ms: u64 = if self.bytes_per_second == 0 {
            0
        } else {
            self.written * 1000 / self.bytes_per_second
        };
        let end = if finalized {
            self.end
        } else {
            WriterEnd::Error
        };
        RecordingOutcome { duration_ms, end }
    }
}

/// A number of milliseconds in bytes.
fn duration_bytes(limit_ms: u64, bytes_per_second: u64) -> (bytes: u64)
    ensures
        bytes == limit_bytes(limit_ms, bytes_per_second),
{
    proof {
        assert(0 <= limit_ms as int * bytes_per_second as int) by (nonlinear_arith);
    }
    match limit_ms.checked_mul(bytes_per_second) {
        Some(product) => product / 1000,
        None => u64::MAX / 1000,
    }
}

/// A recording never lasts longer than its longest duration.
pub proof fn law_duration_is_capped(writer: WavWriter, channels: u16, limit_ms: u64)
    requires
        writer.wf(),
        writer.bytes_per_second > 0,
        writer.max_bytes is Some,
        writer.max_bytes->Some_0 == limit_bytes(limit_ms, writer.bytes_per_second) - limit_bytes(
            limit_ms,
            writer.bytes_per_second,
        ) % sample_frame_bytes(channels),
    ensures
        writer.written * 1000 / writer.bytes_per_second as int <= limit_ms,
{
    let rate = writer.bytes_per_second as int;
    let bytes = limit_bytes(limit_ms, writer.bytes_per_second);
    let frame = sample_frame_bytes(channels);
    assert(0 <= limit_ms * rate) by (nonlinear_arith)
        requires
            0 <= limit_ms,
            0 <= rate,
    ;
    assert(0 <= bytes % frame) by (nonlinear_arith)
        requires
            frame > 0,
    ;
    assert(writer.written * 1000 <= limit_ms * rate);
    assert(writer.written * 1000 / rate <= limit_ms) by (nonlinear_arith)
        requires
            rate > 0,
            writer.written * 1000 <= limit_ms * rate,
    ;
}

/// The bytes of some frames, one after the other.
pub open spec fn joined_frames(frames: Seq<Seq<u8>>) -> Seq<u8>
    decreases frames.len(),
{
    if frames.len() == 0 {
        Seq::empty()
    } else {
        joined_frames(frames.drop_last()) + frames.last()
    }
}

/// A recording: the writer, and the audio in the file.
pub struct Recorded {
    pub writer: WavWriter,
    pub audio: Seq<u8>,
}

/// The recording after some frames, until a limit is reached. `speech` says of each frame what the speech
/// detector makes of it.
pub open spec fn recorded(writer: WavWriter, frames: Seq<Seq<u8>>, speech: spec_fn(int) -> bool) -> Recorded
    decreases frames.len(),
{
    if frames.len() == 0 {
        Recorded { writer, audio: Seq::empty() }
    } else {
        let before = recorded(writer, frames.drop_last(), speech);
        let frame = frames.last();
        if before.writer.finished() {
            before
        } else {
            Recorded {
                writer: before.writer.after_frame_of(frame.len(), speech(frames.len() - 1)),
                audio: before.audio + frame.take(before.writer.taken(frame.len()) as int),
            }
        }
    }
}

/// The file holds the frames byte for byte, from the first on, and as many bytes as the writer counts. Nothing
/// is left out of a recording whose source went away. One that reached its longest duration holds exactly that.
pub proof fn law_file_holds_the_frames(writer: WavWriter, frames: Seq<Seq<u8>>, speech: spec_fn(int) -> bool)
    requires
        writer.wf(),
        writer.written == 0,
        writer.end is SourceGone,
        joined_frames(frames).len() <= u64::MAX,
    ensures
        ({
            let done = recorded(writer, frames, speech);
            &&& done.writer.wf()
            &&& done.writer.max_bytes == writer.max_bytes
            &&& done.writer.silence_limit_bytes == writer.silence_limit_bytes
            &&& done.writer.bytes_per_second == writer.bytes_per_second
            &&& done.audio.len() == done.writer.written
            &&& done.audio.len() <= joined_frames(frames).len()
            &&& done.audio == joined_frames(frames).take(done.audio.len() as int)
            &&& done.writer.end is SourceGone ==> done.audio == joined_frames(frames)
            &&& done.writer.end is MaxDuration ==> done.writer.max_bytes == Some(done.writer.written)
            &&& !(done.writer.end is Error)
        }),
    decreases frames.len(),
{
    let done = recorded(writer, frames, speech);
    let all = joined_frames(frames);
    if frames.len() > 0 {
        let prior = frames.drop_last();
        let before = recorded(writer, prior, speech);
        let frame = frames.last();
        assert(all.len() == joined_frames(prior).len() + frame.len());
        law_file_holds_the_frames(writer, prior, speech);
        if !before.writer.finished() {
            let take = before.writer.taken(frame.len());
            assert(before.audio == joined_frames(prior));
            assert(take <= frame.len());
            assert(done.writer.written == before.writer.written + take);
            if take == frame.len() {
                assert(frame.take(take as int) =~= frame);
            }
        }
        assert(done.audio =~= all.take(done.audio.len() as int));
        if done.writer.end is SourceGone {
            assert(done.audio =~= all);
        }
    } else {
        assert(done.audio =~= all);
    }
}

/// A recording that reaches its longest duration ends on a whole sample.
pub proof fn law_full_recording_ends_on_a_sample(channels: u16, limit_ms: u64, bytes_per_second: u64)
    ensures
        ({
            let bytes = limit_bytes(limit_ms, bytes_per_second);
            (bytes - bytes % sample_frame_bytes(channels)) % sample_frame_bytes(channels) == 0
        }),
{
    let bytes = limit_bytes(limit_ms, bytes_per_second);
    let frame = sample_frame_bytes(channels);
    vstd::arithmetic::div_mod::lemma_fundamental_div_mod(bytes, frame);
    vstd::arithmetic::div_mod::lemma_mod_multiples_basic(bytes / frame, frame);
    assert(bytes - bytes % frame == (bytes / frame) * frame) by (nonlinear_arith)
        requires
            bytes == frame * (bytes / frame) + bytes % frame,
    ;
}

/// Speech starts the silence over: after a frame that is judged as speech no silence is counted, and the
/// recording does not end for silence. A frame without speech adds its own bytes, and the recording ends for
/// silence exactly when what was counted since the last speech reaches the limit. A frame that is not judged
/// counts for neither.
pub proof fn law_speech_starts_the_silence_over(writer: WavWriter, frame_len: nat)
    requires
        writer.wf(),
        !writer.finished(),
        writer.written + frame_len <= u64::MAX,
    ensures
        ({
            let spoken = writer.after_frame_of(frame_len, true);
            let quiet = writer.after_frame_of(frame_len, false);
            let taken = spoken.written - writer.written;
            let judged = writer.silence_limit_bytes is Some && taken >= 2;
            &&& quiet.written == spoken.written
            &&& 0 <= taken <= frame_len
            &&& !(spoken.end is Silence)
            &&& judged ==> spoken.silent_bytes == 0
            &&& judged ==> quiet.silent_bytes == writer.silent_bytes + taken
            &&& judged ==> (quiet.end is Silence <==> quiet.silent_bytes >= writer.silence_limit_bytes->Some_0)
            &&& !judged ==> spoken == quiet && spoken.silent_bytes == writer.silent_bytes && !(quiet.end is Silence)
        }),
{
}

/// How many bytes of audio a recording holds after its first `count` frames.
#[verifier::opaque]
pub open spec fn length_after(writer: WavWriter, frames: Seq<Seq<u8>>, speech: spec_fn(int) -> bool, count: int) -> int {
    recorded(writer, frames.take(count), speech).audio.len() as int
}

/// Whether the frames from `first` up to `last` are all without speech, or too short to judge.
pub open spec fn all_quiet(
    writer: WavWriter,
    frames: Seq<Seq<u8>>,
    speech: spec_fn(int) -> bool,
    first: int,
    last: int,
) -> bool {
    forall|i: int|
        first <= i < last ==> !(#[trigger] speech(i)) || length_after(writer, frames, speech, i + 1) - length_after(
            writer,
            frames,
            speech,
            i,
        ) < 2
}

/// The first of some frames hold no more than all of them.
proof fn lemma_joined_take(frames: Seq<Seq<u8>>, count: int)
    requires
        0 <= count <= frames.len(),
    ensures
        joined_frames(frames.take(count)).len() <= joined_frames(frames).len(),
    decreases frames.len(),
{
    if count == frames.len() {
        assert(frames.take(count) =~= frames);
    } else {
        lemma_joined_take(frames.drop_last(), count);
        assert(frames.drop_last().take(count) =~= frames.take(count));
    }
}

/// What one more frame does to a recording.
proof fn lemma_one_frame(writer: WavWriter, frames: Seq<Seq<u8>>, speech: spec_fn(int) -> bool, count: int)
    requires
        writer.wf(),
        writer.written == 0,
        writer.end is SourceGone,
        1 <= count <= frames.len(),
        joined_frames(frames).len() <= u64::MAX,
    ensures
        ({
            let before = recorded(writer, frames.take(count - 1), speech).writer;
            let done = recorded(writer, frames.take(count), speech).writer;
            let added = length_after(writer, frames, speech, count) - length_after(writer, frames, speech, count - 1);
            let judged = writer.silence_limit_bytes is Some && added >= 2;
            &&& before.finished() ==> recorded(writer, frames.take(count), speech) == recorded(
                writer,
                frames.take(count - 1),
                speech,
            )
            &&& !before.finished() ==> {
                &&& 0 <= added
                &&& judged && speech(count - 1) ==> done.silent_bytes == 0 && !(done.end is Silence)
                &&& judged && !speech(count - 1) ==> done.silent_bytes == before.silent_bytes + added && (
                done.end is Silence <==> done.silent_bytes >= writer.silence_limit_bytes->Some_0)
                &&& !judged ==> done.silent_bytes == before.silent_bytes && !(done.end is Silence)
            }
        }),
{
    reveal(length_after);
    let here = frames.take(count);
    let prior = frames.take(count - 1);
    assert(here.drop_last() =~= prior);
    lemma_joined_take(frames, count);
    law_file_holds_the_frames(writer, prior, speech);
    let before = recorded(writer, prior, speech);
    let done = recorded(writer, here, speech);
    if !before.writer.finished() {
        let frame = here.last();
        assert(joined_frames(here).len() == joined_frames(prior).len() + frame.len());
        law_speech_starts_the_silence_over(before.writer, frame.len());
        let taken = before.writer.taken(frame.len());
        assert(done.audio.len() - before.audio.len() == taken);
        assert(done.writer == before.writer.after_frame_of(frame.len(), speech(count - 1)));
        assert(done.writer.written - before.writer.written == taken);
    }
}

/// A recording ends for silence only on lasting silence: there is a run of frames up to its end, none of them
/// with speech, whose audio comes to at least the limit.
pub proof fn law_only_lasting_silence_ends_a_recording(
    writer: WavWriter,
    frames: Seq<Seq<u8>>,
    speech: spec_fn(int) -> bool,
)
    requires
        writer.wf(),
        writer.written == 0,
        writer.silent_bytes == 0,
        writer.end is SourceGone,
        joined_frames(frames).len() <= u64::MAX,
        recorded(writer, frames, speech).writer.end is Silence,
    ensures
        writer.silence_limit_bytes is Some,
        exists|first: int, last: int|
            {
                &&& 0 <= first < last <= frames.len()
                &&& #[trigger] all_quiet(writer, frames, speech, first, last)
                &&& length_after(writer, frames, speech, last) == recorded(writer, frames, speech).audio.len()
                &&& length_after(writer, frames, speech, last) - length_after(writer, frames, speech, first)
                    >= writer.silence_limit_bytes->Some_0
            },
{
    assert(frames.take(frames.len() as int) =~= frames);
    let run = lemma_quiet_run(writer, frames, speech, frames.len() as int);
    assert(length_after(writer, frames, speech, frames.len() as int) == recorded(writer, frames, speech).audio.len()) by {
        reveal(length_after);
    }
    assert(all_quiet(writer, frames, speech, run.0, run.1));
}

/// The run of quiet frames that the silence of a recording was counted over.
proof fn lemma_quiet_run(writer: WavWriter, frames: Seq<Seq<u8>>, speech: spec_fn(int) -> bool, count: int) -> (run: (
    int,
    int,
))
    requires
        writer.wf(),
        writer.written == 0,
        writer.silent_bytes == 0,
        writer.end is SourceGone,
        0 <= count <= frames.len(),
        joined_frames(frames).len() <= u64::MAX,
    ensures
        ({
            let done = recorded(writer, frames.take(count), speech).writer;
            &&& 0 <= run.0 <= run.1 <= count
            &&& all_quiet(writer, frames, speech, run.0, run.1)
            &&& length_after(writer, frames, speech, run.1) == length_after(writer, frames, speech, count)
            &&& done.silent_bytes <= length_after(writer, frames, speech, run.1) - length_after(
                writer,
                frames,
                speech,
                run.0,
            )
            &&& !done.finished() ==> run.1 == count
            &&& writer.silence_limit_bytes is None ==> done.silent_bytes == 0
            &&& done.end is Silence ==> {
                &&& run.0 < run.1
                &&& writer.silence_limit_bytes is Some
                &&& done.silent_bytes >= writer.silence_limit_bytes->Some_0
            }
        }),
    decreases count,
{
    if count == 0 {
        assert(frames.take(0) =~= Seq::empty());
        (0, 0)
    } else {
        let run = lemma_quiet_run(writer, frames, speech, count - 1);
        lemma_one_frame(writer, frames, speech, count);
        let before = recorded(writer, frames.take(count - 1), speech).writer;
        let added = length_after(writer, frames, speech, count) - length_after(writer, frames, speech, count - 1);
        if before.finished() {
            assert(added == 0) by {
                reveal(length_after);
            }
            run
        } else if writer.silence_limit_bytes is None || (added >= 2 && speech(count - 1)) {
            (count, count)
        } else {
            (run.0, count)
        }
    }
}

/// A recording that goes on is shorter than its longest duration, and one that ends for it is exactly that
/// long: the limit cuts the last frame, and nothing comes after it.
pub proof fn law_limit_ends_a_recording_exactly(writer: WavWriter, frame_len: nat, speech: bool)
    requires
        writer.wf(),
        !writer.finished(),
        writer.max_bytes is Some,
        writer.written + frame_len <= u64::MAX,
    ensures
        ({
            let after = writer.after_frame_of(frame_len, speech);
            let most = writer.max_bytes->Some_0;
            &&& writer.written + frame_len < most ==> after.written == writer.written + frame_len && !(
            after.end is MaxDuration)
            &&& writer.written + frame_len >= most ==> after.written == most && after.finished()
        }),
{
}

/// A limit in milliseconds comes to as many bytes as that much audio takes, rounded down.
pub proof fn law_limits_are_measured_in_audio(limit_ms: u64, bytes_per_second: u64, channels: u16)
    requires
        limit_ms * bytes_per_second <= u64::MAX,
    ensures
        limit_bytes(limit_ms, bytes_per_second) * 1000 <= limit_ms * bytes_per_second < (limit_bytes(
            limit_ms,
            bytes_per_second,
        ) + 1) * 1000,
        channels >= 1 ==> sample_frame_bytes(channels) == channels + channels,
        channels == 0 ==> sample_frame_bytes(channels) == 2,
{
    assert(0 <= limit_ms * bytes_per_second) by (nonlinear_arith)
        requires
            0 <= limit_ms,
            0 <= bytes_per_second,
    ;
}

/// Audio is 16-bit little-endian two's complement: a sample is its low byte and 256 times its high byte, taken
/// from -32768 to 32767.
pub proof fn law_samples_are_little_endian(bytes: Seq<u8>, i: int)
    requires
        0 <= i < bytes.len() / 2,
    ensures
        samples_of(bytes).len() == bytes.len() / 2,
        ({
            let sample = samples_of(bytes)[i] as int;
            let code = bytes[2 * i] + 256 * bytes[2 * i + 1];
            &&& code < 32768 ==> sample == code
            &&& code >= 32768 ==> sample == code - 65536
        }),
{
}

/// The longest recording is whole samples of every channel, lasts no longer than was asked for, and with one
/// more of them would; a second of audio is as many samples of two bytes for each channel as the rate says.
pub proof fn law_longest_recording(writer: WavWriter, sample_rate: u32, channels: u16, limits: RecordingLimits)
    requires
        writer.begins(sample_rate, channels, limits),
        channels >= 1,
        limits.max_duration_ms matches Some(limit) ==> limit * writer.bytes_per_second <= u64::MAX,
        limits.silence_ms matches Some(limit) ==> limit * writer.bytes_per_second <= u64::MAX,
    ensures
        writer.bytes_per_second == sample_rate * (2 * channels),
        writer.written == 0 && writer.silent_bytes == 0 && writer.end is SourceGone,
        limits.max_duration_ms is None ==> writer.max_bytes is None,
        limits.silence_ms is None ==> writer.silence_limit_bytes is None,
        limits.max_duration_ms matches Some(limit) ==> {
            &&& writer.max_bytes matches Some(longest)
            &&& writer.max_bytes->Some_0 as int % (2 * channels) == 0
            &&& writer.max_bytes->Some_0 * 1000 <= limit * writer.bytes_per_second
            &&& (writer.max_bytes->Some_0 + 2 * channels) * 1000 > limit * writer.bytes_per_second
        },
        limits.silence_ms matches Some(limit) ==> {
            &&& writer.silence_limit_bytes is Some
            &&& writer.silence_limit_bytes->Some_0 * 1000 <= limit * writer.bytes_per_second
            &&& (writer.silence_limit_bytes->Some_0 + 1) * 1000 > limit * writer.bytes_per_second
        },
{
    let frame = 2 * channels as int;
    assert(sample_frame_bytes(channels) == frame);
    if let Some(limit) = limits.max_duration_ms {
        law_limits_are_measured_in_audio(limit, writer.bytes_per_second, channels);
        let bytes = limit_bytes(limit, writer.bytes_per_second);
        vstd::arithmetic::div_mod::lemma_fundamental_div_mod(bytes, frame);
        vstd::arithmetic::div_mod::lemma_mod_bound(bytes, frame);
        assert((bytes - bytes % frame) % frame == 0) by {
            assert(bytes - bytes % frame == frame * (bytes / frame));
            vstd::arithmetic::div_mod::lemma_mod_multiples_basic(bytes / frame, frame);
            assert(frame * (bytes / frame) == (bytes / frame) * frame) by (nonlinear_arith);
        }
    }
    if let Some(limit) = limits.silence_ms {
        law_limits_are_measured_in_audio(limit, writer.bytes_per_second, channels);
    }
}

/// A recording lasted as long as the audio that was written, in whole milliseconds; it ended as the writer says,
/// unless the file could not be finished, which is an error like one before it.
pub proof fn law_what_a_recording_came_to(writer: WavWriter, finalized: bool)
    requires
        writer.written * 1000 <= u64::MAX,
    ensures
        ({
            let outcome = writer.came_to(finalized);
            &&& writer.bytes_per_second == 0 ==> outcome.duration_ms == 0
            &&& writer.bytes_per_second > 0 ==> outcome.duration_ms * writer.bytes_per_second <= writer.written * 1000
                < (outcome.duration_ms + 1) * writer.bytes_per_second
            &&& !finalized ==> outcome.end is Error
            &&& finalized ==> outcome.end == writer.end
        }),
{
    let rate = writer.bytes_per_second as int;
    let total = writer.written * 1000;
    if rate > 0 {
        vstd::arithmetic::div_mod::lemma_fundamental_div_mod(total, rate);
        vstd::arithmetic::div_mod::lemma_mod_bound(total, rate);
        assert(0 <= total / rate <= total) by (nonlinear_arith)
            requires
                rate > 0,
                total >= 0,
        ;
        assert((total / rate) * rate == rate * (total / rate) && (total / rate + 1) * rate == rate * (total / rate)
            + rate) by (nonlinear_arith);
    }
}

/// The header tells the size of the audio, as far as it can be told, and that of everything that follows its
/// first eight bytes, which is 36 bytes of header and the audio.
pub proof fn law_header_tells_the_sizes(writer: WavWriter)
    ensures
        writer.written <= u32::MAX ==> writer.sizes().data == writer.written,
        writer.written > u32::MAX ==> writer.sizes().data == u32::MAX,
        writer.sizes().riff == (writer.sizes().data + 36) % 0x1_0000_0000,
{
}

/// Only an end that the writer cannot tell apart takes the reason of the caller.
pub proof fn law_reason_of_an_end(end: WriterEnd, source_gone: RecordingEndReason)
    ensures
        end is SourceGone ==> end.told(source_gone) == source_gone,
        end is MaxDuration ==> end.told(source_gone) is MaxDuration,
        end is Silence ==> end.told(source_gone) is Silence,
        end is Error ==> end.told(source_gone) is Error,
{
}

/// Speech is looked for only where a recording may end of silence, and only in a frame with a sample in it: any
/// other frame counts the same with speech and without.
pub proof fn law_speech_is_looked_for_where_it_matters(writer: WavWriter, frame_len: nat)
    requires
        writer.wf(),
    ensures
        writer.silence_limit_bytes is None ==> !writer.judges(writer.taken(frame_len)) && writer.after_frame_of(
            frame_len,
            true,
        ) == writer.after_frame_of(frame_len, false) && writer.after_frame_of(frame_len, false).silent_bytes
            == writer.silent_bytes,
        writer.taken(frame_len) < 2 ==> writer.after_frame_of(frame_len, true) == writer.after_frame_of(
            frame_len,
            false,
        ),
        writer.silence_limit_bytes is Some && writer.taken(frame_len) >= 2 ==> writer.judges(writer.taken(frame_len))
            && writer.after_frame_of(frame_len, true).silent_bytes == 0,
{
}

} // verus!
