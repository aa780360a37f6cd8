//! Bus event classification.
//!
//! A dedicated application thread drains each handle's event queue with a
//! non-blocking pop, round-robin across all handles so none starves the
//! others, and never performs state-changing calls itself. What it pops is
//! classified here: completion of a previously issued asynchronous
//! operation, an error or warning (logged only), or end of stream. Loop
//! restarts after end of stream are delegated to the engine's own loop
//! flag — the consumer issues no seek for them, so an end-of-stream never
//! races with stall recovery; a genuinely stuck looping item is caught by
//! the stall scan instead.

use vstd::prelude::*;

use crate::gst_logger::LogLevel;

verus! {

/// A raw message popped from one handle's event queue.
#[derive(Clone, Debug, PartialEq, Eq)]
pub enum BusMessageKind {
    /// A previously issued asynchronous operation (a seek) has taken
    /// effect.
    AsyncDone,
    /// The pipeline reported an error, with its message text.
    ErrorReport(String),
    /// The pipeline reported a warning, with its message text.
    WarningReport(String),
    /// The stream reached its end.
    Eos,
    /// Anything else on the queue; ignored.
    Other,
}

/// A classified event, tagged with the item it concerns.
#[derive(Clone, Debug, PartialEq, Eq)]
pub enum BusEvent {
    AsyncOperationComplete(u64),
    Error(u64, String),
    Warning(u64, String),
    EndOfStream(u64),
}

/// How one raw message is classified; `None` for messages the watcher
/// ignores.
pub open spec fn classified(video_id: u64, kind: BusMessageKind) -> Option<BusEvent> {
    match kind {
        BusMessageKind::AsyncDone => Some(BusEvent::AsyncOperationComplete(video_id)),
        BusMessageKind::ErrorReport(text) => Some(BusEvent::Error(video_id, text)),
        BusMessageKind::WarningReport(text) => Some(BusEvent::Warning(video_id, text)),
        BusMessageKind::Eos => Some(BusEvent::EndOfStream(video_id)),
        BusMessageKind::Other => None,
    }
}

/// Classify one raw message popped from the queue of item `video_id`.
pub fn classify_bus_message(video_id: u64, kind: BusMessageKind) -> (event: Option<BusEvent>)
    ensures
        event == classified(video_id, kind),
{
    match kind {
        BusMessageKind::AsyncDone => Some(BusEvent::AsyncOperationComplete(video_id)),
        BusMessageKind::ErrorReport(text) => Some(BusEvent::Error(video_id, text)),
        BusMessageKind::WarningReport(text) => Some(BusEvent::Warning(video_id, text)),
        BusMessageKind::Eos => Some(BusEvent::EndOfStream(video_id)),
        BusMessageKind::Other => None,
    }
}

/// The level a classified event is logged at.
pub fn bus_event_level(event: &BusEvent) -> (level: LogLevel)
    ensures
        level == match event {
            BusEvent::AsyncOperationComplete(_) => LogLevel::Info,
            BusEvent::Error(_, _) => LogLevel::Error,
            BusEvent::Warning(_, _) => LogLevel::Warn,
            BusEvent::EndOfStream(_) => LogLevel::Debug,
        },
{
    match event {
        BusEvent::AsyncOperationComplete(_) => LogLevel::Info,
        BusEvent::Error(_, _) => LogLevel::Error,
        BusEvent::Warning(_, _) => LogLevel::Warn,
        BusEvent::EndOfStream(_) => LogLevel::Debug,
    }
}

/// Whether an event is forwarded to the consumer. Only the completion of
/// an asynchronous operation carries a state signal; errors, warnings and
/// end of stream are logged and go no further.
pub fn should_forward(event: &BusEvent) -> (forward: bool)
    ensures
        forward == (event is AsyncOperationComplete),
{
    match event {
        BusEvent::AsyncOperationComplete(_) => true,
        _ => false,
    }
}

/// The classified events one drain of one handle's queue yields, in pop
/// order, with ignored messages dropped.
pub open spec fn drained(video_id: u64, kinds: Seq<BusMessageKind>) -> Seq<BusEvent>
    decreases kinds.len(),
{
    if kinds.len() == 0 {
        Seq::empty()
    } else {
        match classified(video_id, kinds.first()) {
            Some(event) => seq![event] + drained(video_id, kinds.drop_first()),
            None => drained(video_id, kinds.drop_first()),
        }
    }
}

/// Classify everything one non-blocking drain popped from the queue of
/// item `video_id`, preserving pop order.
pub fn drain_handle_messages(video_id: u64, kinds: Vec<BusMessageKind>) -> (events: Vec<BusEvent>)
    ensures
        events@ =~= drained(video_id, kinds@),
{
    let mut remaining = kinds;
    let mut events: Vec<BusEvent> = Vec::new();
    while remaining.len() > 0
        invariant
            events@ + drained(video_id, remaining@) =~= drained(video_id, kinds@),
        decreases remaining@.len(),
    {
        let ghost prev = remaining@;
        let kind = remaining.remove(0);
        proof {
            assert(remaining@ =~= prev.drop_first());
            assert(kind == prev.first());
            match classified(video_id, prev.first()) {
                Some(event) => {
                    assert(events@ + (seq![event] + drained(video_id, prev.drop_first())) =~= (
                    events@ + seq![event]) + drained(video_id, prev.drop_first()));
                    assert(events@.push(event) =~= events@ + seq![event]);
                },
                None => {},
            }
        }
        match classify_bus_message(video_id, kind) {
            Some(event) => events.push(event),
            None => {},
        }
    }
    proof {
        assert(drained(video_id, remaining@) =~= Seq::<BusEvent>::empty());
        assert(events@ + Seq::<BusEvent>::empty() =~= events@);
    }
    events
}

} // verus!
