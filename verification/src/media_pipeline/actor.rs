//! The actor of one media call: what each control operation does, and the cadence of the playout
//! clock.
use crate::event::{raises, Event, EventView, PlayEndReason};
use crate::media_pipeline::call::{play_events, Leg, MediaCall, MediaCallView, PcapCapture};
use crate::media_pipeline::direction::{play_finished_event, sinks, DirectionView, Fork, ForkView, Injection};
use crate::media_pipeline::step::RawTee;
use crate::net::EndpointId;
use vstd::prelude::*;

verus! {

/// Milliseconds between playout ticks.
pub const INJECT_TICK_MS: u64 = 20;

/// Playout ticks between quality reports.
pub const QUALITY_INTERVAL_TICKS: u64 = 250;

/// A control operation on a running call.
#[derive(Clone, Debug)]
pub enum MediaControl {
    /// Replace egress audio by silence, or stop doing so.
    Silence(bool),
    /// Drop egress audio, or stop doing so.
    Block(bool),
    /// Reflect each party to itself, or stop doing so.
    Echo(bool),
    /// Keep one party's key presses from the other, or stop doing so.
    BlockDtmf { source: Leg, blocked: bool },
    /// Play a prompt toward a party.
    PlayAudio { toward: Leg, source_rate_hz: u32, resampler_built: bool, play_id: u64 },
    /// Play a key-press sequence toward a party.
    PlayDtmf { toward: Leg, sequence_built: bool },
    /// Stop everything that plays.
    StopPlay,
    /// Attach a fork to a party's decoded audio.
    AddFork { source: Leg, fork: Fork },
    /// Detach every fork of a party.
    RemoveFork { source: Leg },
    /// Detach the forks of a party under one tag.
    RemoveForkTagged { source: Leg, tag: String },
    /// Attach a verbatim subscriber to a party's ingress.
    AddRawTee { source: Leg, tee: RawTee },
    /// Detach the verbatim subscribers at one endpoint from a party's ingress.
    RemoveRawTee { source: Leg, subscriber_endpoint: EndpointId },
    /// Begin a raw capture.
    StartRecording { capture: PcapCapture },
    /// Stop the raw capture.
    StopRecording,
    /// Report the call's quality.
    Report,
    /// Tear the call down.
    Stop,
}

/// What a control operation leaves to do outside the call.
#[derive(Clone, Debug)]
pub enum ControlOutcome {
    /// Finish these fork sinks, and go on.
    Continue { finished: Vec<u64> },
    /// Answer with the quality of the call, and go on.
    Report,
    /// Leave the actor loop.
    Stop,
}

/// The call after a control operation.
pub open spec fn controlled(call: MediaCallView, control: MediaControl) -> MediaCallView {
    match control {
        MediaControl::Silence(silenced) => MediaCallView {
            a_to_b: DirectionView { silenced, ..call.a_to_b },
            b_to_a: DirectionView { silenced, ..call.b_to_a },
            ..call
        },
        MediaControl::Block(blocked) => MediaCallView {
            a_to_b: DirectionView { blocked, ..call.a_to_b },
            b_to_a: DirectionView { blocked, ..call.b_to_a },
            ..call
        },
        MediaControl::Echo(echo) => MediaCallView { echo, ..call },
        MediaControl::BlockDtmf { source, blocked } => call.with_direction(
            source,
            DirectionView { dtmf_blocked: blocked, ..call.direction(source) },
        ),
        MediaControl::PlayAudio { toward, source_rate_hz, resampler_built, play_id } => {
            let direction = call.direction(toward.other_spec());
            call.with_direction(
                toward.other_spec(),
                DirectionView {
                    injection: Some(
                        Injection::Audio {
                            source_rate_hz,
                            resampled: source_rate_hz != direction.egress_sample_rate && resampler_built,
                            play_id,
                            played_ms: 0,
                        },
                    ),
                    ..direction
                },
            )
        },
        MediaControl::PlayDtmf { toward, sequence_built } => {
            let direction = call.direction(toward.other_spec());
            match direction.telephone_event_out {
                Some(payload_type) if sequence_built => call.with_direction(
                    toward.other_spec(),
                    DirectionView {
                        injection: Some(
                            Injection::Dtmf { payload_type, base_timestamp: direction.egress_timestamp },
                        ),
                        ..direction
                    },
                ),
                _ => call,
            }
        },
        MediaControl::StopPlay => call.quiet(),
        MediaControl::AddFork { source, fork } => call.with_direction(
            source,
            DirectionView { forks: call.direction(source).forks.push(fork@), ..call.direction(source) },
        ),
        MediaControl::RemoveFork { source } => call.with_direction(
            source,
            DirectionView { forks: Seq::empty(), ..call.direction(source) },
        ),
        MediaControl::RemoveForkTagged { source, tag } => call.with_direction(
            source,
            DirectionView {
                forks: call.direction(source).forks.filter(|fork: ForkView| fork.tag != Some(tag@)),
                ..call.direction(source)
            },
        ),
        MediaControl::AddRawTee { source, tee } => call.with_direction(
            source,
            DirectionView { raw_tee: call.direction(source).raw_tee.push(tee), ..call.direction(source) },
        ),
        MediaControl::RemoveRawTee { source, subscriber_endpoint } => call.with_direction(
            source,
            DirectionView {
                raw_tee: call.direction(source).raw_tee.filter(
                    |tee: RawTee| tee.subscriber_endpoint != subscriber_endpoint,
                ),
                ..call.direction(source)
            },
        ),
        MediaControl::StartRecording { capture } => MediaCallView { capture: Some(capture), ..call },
        MediaControl::StopRecording => MediaCallView { capture: None, ..call },
        MediaControl::Report => call,
        MediaControl::Stop => call,
    }
}

/// The events a control operation raises: a replaced prompt is superseded, a stopped one stopped.
pub open spec fn control_events(call: MediaCallView, control: MediaControl) -> Seq<EventView> {
    match control {
        MediaControl::PlayAudio { toward, .. } => play_events(
            call.identity,
            call.direction(toward.other_spec()).finished_play(PlayEndReason::Superseded),
        ),
        MediaControl::PlayDtmf { toward, sequence_built } => {
            let direction = call.direction(toward.other_spec());
            if sequence_built && direction.telephone_event_out is Some {
                play_events(call.identity, direction.finished_play(PlayEndReason::Superseded))
            } else {
                Seq::empty()
            }
        },
        MediaControl::StopPlay => call.ended_plays(PlayEndReason::Stopped),
        _ => Seq::empty(),
    }
}

/// The fork sinks a control operation finishes.
pub open spec fn control_sinks(call: MediaCallView, control: MediaControl) -> Seq<u64> {
    match control {
        MediaControl::RemoveFork { source } => sinks(call.direction(source).forks),
        MediaControl::RemoveForkTagged { source, tag } => sinks(
            call.direction(source).forks.filter(|fork: ForkView| fork.tag == Some(tag@)),
        ),
        _ => Seq::empty(),
    }
}

/// Whether a prompt plays in a direction.
pub open spec fn playing(direction: DirectionView, play_id: u64) -> bool {
    direction.injection matches Some(Injection::Audio { play_id: id, .. }) && id == play_id
}

/// No prompt vanishes: a control operation after which a prompt no longer plays reports its end, as
/// superseded or as stopped. (A prompt that is replaced by one under the same name is reported too.)
pub proof fn law_no_prompt_vanishes(call: MediaCallView, control: MediaControl, leg: Leg, play_id: u64)
    requires
        playing(call.direction(leg), play_id),
        !playing(controlled(call, control).direction(leg), play_id) || (control matches MediaControl::PlayAudio {
            toward,
            ..
        } && toward.other_spec() == leg),
    ensures
        ({
            let reason = if control is StopPlay {
                PlayEndReason::Stopped
            } else {
                PlayEndReason::Superseded
            };
            control_events(call, control).contains(
                play_finished_event(call.identity, call.direction(leg).finished_play(reason)->Some_0),
            )
        }),
{
    let events = control_events(call, control);
    if control is StopPlay {
        let first = play_events(call.identity, call.a_to_b.finished_play(PlayEndReason::Stopped));
        if leg is A {
            assert(events[0] == first[0]);
        } else {
            assert(events[first.len() as int] == play_finished_event(
                call.identity,
                call.b_to_a.finished_play(PlayEndReason::Stopped)->Some_0,
            ));
        }
    } else {
        assert(events[0] == play_finished_event(
            call.identity,
            call.direction(leg).finished_play(PlayEndReason::Superseded)->Some_0,
        ));
    }
}

/// Carry out a control operation on a call.
pub fn apply_control(call: &mut MediaCall, control: MediaControl, events: &mut Vec<Event>) -> (outcome: ControlOutcome)
    requires
        old(call).wf(),
    ensures
        final(call).wf(),
        final(call)@ == controlled(old(call)@, control),
        raises(old(events)@, final(events)@, control_events(old(call)@, control)),
        match control {
            MediaControl::Report => outcome is Report,
            MediaControl::Stop => outcome is Stop,
            _ => outcome matches ControlOutcome::Continue { finished } && finished@ == control_sinks(
                old(call)@,
                control,
            ),
        },
{
    let mut finished: Vec<u64> = Vec::new();
    match control {
        MediaControl::Silence(on) => call.set_silenced(on),
        MediaControl::Block(on) => call.set_blocked(on),
        MediaControl::Echo(on) => call.set_echo(on),
        MediaControl::BlockDtmf { source, blocked } => call.set_dtmf_blocked(source, blocked),
        MediaControl::PlayAudio { toward, source_rate_hz, resampler_built, play_id } => {
            call.start_play_audio(toward, source_rate_hz, resampler_built, play_id, events);
        },
        MediaControl::PlayDtmf { toward, sequence_built } => {
            call.start_play_dtmf(toward, sequence_built, events);
        },
        MediaControl::StopPlay => call.stop_play(events),
        MediaControl::AddFork { source, fork } => call.add_fork(source, fork),
        MediaControl::RemoveFork { source } => {
            finished = call.remove_forks(source);
        },
        MediaControl::RemoveForkTagged { source, tag } => {
            finished = call.remove_forks_tagged(source, &tag);
        },
        MediaControl::AddRawTee { source, tee } => call.add_raw_tee(source, tee),
        MediaControl::RemoveRawTee { source, subscriber_endpoint } => call.remove_raw_tee(source, subscriber_endpoint),
        MediaControl::StartRecording { capture } => call.start_recording(capture),
        MediaControl::StopRecording => call.stop_recording(),
        MediaControl::Report => {
            return ControlOutcome::Report;
        },
        MediaControl::Stop => {
            return ControlOutcome::Stop;
        },
    }
    ControlOutcome::Continue { finished }
}

/// The playout clock of a call: its age, and the ticks since the last quality report.
#[derive(Clone, Copy, Debug, PartialEq, Eq, Structural)]
pub struct PlayoutClock {
    pub elapsed_ms: u64,
    pub ticks_since_quality: u64,
}

impl PlayoutClock {
    /// The tick count stays under the reporting interval.
    pub open spec fn wf(self) -> bool {
        self.ticks_since_quality < QUALITY_INTERVAL_TICKS
    }

    /// The clock after one tick.
    pub open spec fn ticked(self) -> PlayoutClock {
        PlayoutClock {
            elapsed_ms: if self.elapsed_ms + INJECT_TICK_MS > u64::MAX {
                u64::MAX
            } else {
                (self.elapsed_ms + INJECT_TICK_MS) as u64
            },
            ticks_since_quality: if self.ticks_since_quality + 1 == QUALITY_INTERVAL_TICKS {
                0
            } else {
                (self.ticks_since_quality + 1) as u64
            },
        }
    }

    /// The age of the call when a quality report is due, after a tick.
    pub open spec fn due(self) -> Option<u64> {
        if self.ticks_since_quality == 0 {
            Some(self.elapsed_ms)
        } else {
            None
        }
    }

    /// The clock after `ticks` ticks.
    pub open spec fn after(self, ticks: nat) -> PlayoutClock
        decreases ticks,
    {
        if ticks == 0 {
            self
        } else {
            self.after((ticks - 1) as nat).ticked()
        }
    }

    /// A clock that has not ticked.
    pub fn new() -> (clock: Self)
        ensures
            clock == (PlayoutClock { elapsed_ms: 0, ticks_since_quality: 0 }),
            clock.wf(),
    {
        PlayoutClock { elapsed_ms: 0, ticks_since_quality: 0 }
    }

    /// Advance one tick. Returns the age of the call when a quality report is due.
    pub fn tick(&mut self) -> (due: Option<u64>)
        requires
            old(self).wf(),
        ensures
            final(self).wf(),
            *final(self) == old(self).ticked(),
            due == final(self).due(),
    {
        self.elapsed_ms = self.elapsed_ms.saturating_add(INJECT_TICK_MS);
        self.ticks_since_quality = self.ticks_since_quality + 1;
        if self.ticks_since_quality >= QUALITY_INTERVAL_TICKS {
            self.ticks_since_quality = 0;
            Some(self.elapsed_ms)
        } else {
            None
        }
    }
}

/// Counted from the start of a call, a quality report is due at every full reporting interval and at
/// no other tick, and the age of the call is the ticks times the tick length.
pub proof fn law_quality_cadence(ticks: nat)
    requires
        ticks * INJECT_TICK_MS <= u64::MAX,
    ensures
        ({
            let clock = PlayoutClock { elapsed_ms: 0, ticks_since_quality: 0 }.after(ticks);
            &&& clock.wf()
            &&& clock.ticks_since_quality == ticks as int % QUALITY_INTERVAL_TICKS as int
            &&& clock.elapsed_ms == ticks * INJECT_TICK_MS
        }),
    decreases ticks,
{
    if ticks > 0 {
        law_quality_cadence((ticks - 1) as nat);
    }
}

/// A call is twenty milliseconds older with each tick, and reports its quality whenever its age is a whole number
/// of five seconds, and at no other.
pub proof fn law_quality_is_reported_every_five_seconds(ticks: nat)
    requires
        ticks * 20 <= u64::MAX,
    ensures
        ({
            let clock = PlayoutClock { elapsed_ms: 0, ticks_since_quality: 0 }.after(ticks);
            &&& clock.elapsed_ms == ticks * 20
            &&& clock.due() is Some <==> clock.elapsed_ms as int % 5000 == 0
            &&& clock.due() matches Some(age) ==> age == ticks * 20
        }),
{
    law_quality_cadence(ticks);
    assert(ticks as int % 250 == 0 <==> (ticks * 20) as int % 5000 == 0);
}

} // verus!
