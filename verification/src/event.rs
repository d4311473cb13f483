//! Events reported to the controller that owns a call.
use crate::text::optional_text;
use vstd::prelude::*;

verus! {

/// How a prompt ended.
#[derive(Clone, Copy, Debug, PartialEq, Eq, Structural)]
pub enum PlayEndReason {
    /// It played to its end.
    Completed,
    /// It was stopped on request.
    Stopped,
    /// A newer prompt replaced it.
    Superseded,
    /// The leg it played on was torn down.
    Error,
}

/// How a WebSocket stream ended.
#[derive(Clone, Copy, Debug, PartialEq, Eq, Structural)]
pub enum WsEndReason {
    /// The server closed the connection.
    ServerClosed,
    /// The server asked to stop.
    ServerStopped,
    /// The call went away.
    CallEnded,
    /// The controller detached it.
    Detached,
    /// The transport failed.
    TransportError,
}

/// Which parties a WebSocket tee carries.
#[derive(Clone, Copy, Debug, PartialEq, Eq, Structural)]
pub enum WsTeeDirection {
    Caller,
    Callee,
    Both,
}

/// An event on the control channel.
#[derive(Clone, Debug)]
pub enum Event {
    /// A telephone key press arrived on a leg (RFC 4733).
    Dtmf {
        call_id: String,
        from_tag: String,
        to_tag: Option<String>,
        digit: String,
        duration_ms: u32,
        volume: i32,
    },
    /// A prompt ended.
    PlayFinished {
        call_id: String,
        from_tag: String,
        to_tag: Option<String>,
        play_id: u64,
        reason: PlayEndReason,
        played_ms: Option<u64>,
    },
    /// A WebSocket server became a leg's far side.
    WsBridgeStarted { call_id: String, from_tag: String, stream_id: String, ws_uri: String, sample_rate: u32 },
    /// A WebSocket far side ended.
    WsBridgeEnded { call_id: String, from_tag: String, stream_id: String, reason: WsEndReason },
    /// A WebSocket server started to receive a call's audio.
    WsTeeStarted {
        call_id: String,
        from_tag: String,
        stream_id: String,
        ws_uri: String,
        direction: WsTeeDirection,
        channels: u8,
        sample_rate: u32,
    },
    /// A WebSocket server stopped to receive a call's audio.
    WsTeeEnded {
        call_id: String,
        from_tag: String,
        stream_id: String,
        reason: WsEndReason,
        frames_sent: Option<u64>,
        frames_dropped: Option<u64>,
    },
}

/// The content of an [`Event`].
pub enum EventView {
    Dtmf {
        call_id: Seq<char>,
        from_tag: Seq<char>,
        to_tag: Option<Seq<char>>,
        digit: Seq<char>,
        duration_ms: u32,
        volume: i32,
    },
    PlayFinished {
        call_id: Seq<char>,
        from_tag: Seq<char>,
        to_tag: Option<Seq<char>>,
        play_id: u64,
        reason: PlayEndReason,
        played_ms: Option<u64>,
    },
    WsBridgeStarted { call_id: Seq<char>, from_tag: Seq<char>, stream_id: Seq<char>, ws_uri: Seq<char>, sample_rate: u32 },
    WsBridgeEnded { call_id: Seq<char>, from_tag: Seq<char>, stream_id: Seq<char>, reason: WsEndReason },
    WsTeeStarted {
        call_id: Seq<char>,
        from_tag: Seq<char>,
        stream_id: Seq<char>,
        ws_uri: Seq<char>,
        direction: WsTeeDirection,
        channels: u8,
        sample_rate: u32,
    },
    WsTeeEnded {
        call_id: Seq<char>,
        from_tag: Seq<char>,
        stream_id: Seq<char>,
        reason: WsEndReason,
        frames_sent: Option<u64>,
        frames_dropped: Option<u64>,
    },
}

impl View for Event {
    type V = EventView;

    open spec fn view(&self) -> EventView {
        match *self {
            Event::Dtmf { call_id, from_tag, to_tag, digit, duration_ms, volume } => EventView::Dtmf {
                call_id: call_id@,
                from_tag: from_tag@,
                to_tag: optional_text(to_tag),
                digit: digit@,
                duration_ms,
                volume,
            },
            Event::PlayFinished { call_id, from_tag, to_tag, play_id, reason, played_ms } => EventView::PlayFinished {
                call_id: call_id@,
                from_tag: from_tag@,
                to_tag: optional_text(to_tag),
                play_id,
                reason,
                played_ms,
            },
            Event::WsBridgeStarted { call_id, from_tag, stream_id, ws_uri, sample_rate } => EventView::WsBridgeStarted {
                call_id: call_id@,
                from_tag: from_tag@,
                stream_id: stream_id@,
                ws_uri: ws_uri@,
                sample_rate,
            },
            Event::WsBridgeEnded { call_id, from_tag, stream_id, reason } => EventView::WsBridgeEnded {
                call_id: call_id@,
                from_tag: from_tag@,
                stream_id: stream_id@,
                reason,
            },
            Event::WsTeeStarted { call_id, from_tag, stream_id, ws_uri, direction, channels, sample_rate } => EventView::WsTeeStarted {
                call_id: call_id@,
                from_tag: from_tag@,
                stream_id: stream_id@,
                ws_uri: ws_uri@,
                direction,
                channels,
                sample_rate,
            },
            Event::WsTeeEnded { call_id, from_tag, stream_id, reason, frames_sent, frames_dropped } => EventView::WsTeeEnded {
                call_id: call_id@,
                from_tag: from_tag@,
                stream_id: stream_id@,
                reason,
                frames_sent,
                frames_dropped,
            },
        }
    }
}

/// `after` is `before` with the events `raised` appended.
pub open spec fn raises(before: Seq<Event>, after: Seq<Event>, raised: Seq<EventView>) -> bool {
    &&& after.len() == before.len() + raised.len()
    &&& after.subrange(0, before.len() as int) =~= before
    &&& forall|k: int| before.len() <= k < after.len() ==> (#[trigger] after[k])@ == raised[k - before.len()]
}

} // verus!
