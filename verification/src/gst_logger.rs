//! Timing classification for engine operations.
//!
//! Every engine call and message-handler pass is timed by the application.
//! The functions here turn an operation's elapsed time into the level it
//! should be logged at, so the thresholds that tell a routine call from a
//! slow one or a suspected deadlock live in one audited place. The
//! application does the actual log formatting and emission around them.

use vstd::prelude::*;

verus! {

/// Log categories for filtering.
#[derive(Clone, Copy, Debug, PartialEq, Eq, Structural)]
pub enum LogCategory {
    StateChange,
    PositionQuery,
    Seek,
    Pause,
    Audio,
    Message,
}

impl LogCategory {
    /// The tag this category prints as.
    pub fn as_str(&self) -> (s: &'static str)
        ensures
            s@ == self.tag(),
    {
        match self {
            LogCategory::StateChange => "STATE_CHANGE",
            LogCategory::PositionQuery => "POSITION_QUERY",
            LogCategory::Seek => "SEEK",
            LogCategory::Pause => "PAUSE",
            LogCategory::Audio => "AUDIO",
            LogCategory::Message => "MESSAGE",
        }
    }

    /// The tag of each category, as a sequence of characters.
    pub open spec fn tag(&self) -> Seq<char> {
        match self {
            LogCategory::StateChange => "STATE_CHANGE"@,
            LogCategory::PositionQuery => "POSITION_QUERY"@,
            LogCategory::Seek => "SEEK"@,
            LogCategory::Pause => "PAUSE"@,
            LogCategory::Audio => "AUDIO"@,
            LogCategory::Message => "MESSAGE"@,
        }
    }
}

/// The level an observation is logged at.
#[derive(Clone, Copy, Debug, PartialEq, Eq, Structural)]
pub enum LogLevel {
    Trace,
    Debug,
    Info,
    Warn,
    Error,
}

/// A position query took `elapsed_ms`: over 100 ms is worth a warning,
/// over 10 ms a debug line, anything quicker only a trace.
pub open spec fn position_query_level(elapsed_ms: int) -> LogLevel {
    if elapsed_ms > 100 {
        LogLevel::Warn
    } else if elapsed_ms > 10 {
        LogLevel::Debug
    } else {
        LogLevel::Trace
    }
}

/// Classify a completed position query by how long it took.
pub fn log_position_query_complete(video_id: u64, position_ms: u64, elapsed_ms: u64) -> (level: LogLevel)
    ensures
        level == position_query_level(elapsed_ms as int),
{
    if elapsed_ms > 100 {
        LogLevel::Warn
    } else if elapsed_ms > 10 {
        LogLevel::Debug
    } else {
        LogLevel::Trace
    }
}

/// A seek or pause transition took `elapsed_ms`: over `deadlock_ms` a
/// deadlock is suspected (error), over `slow_ms` it was merely slow
/// (warning), otherwise it completed routinely at `routine` level.
pub open spec fn transition_level(
    elapsed_ms: int,
    deadlock_ms: int,
    slow_ms: int,
    routine: LogLevel,
) -> LogLevel {
    if elapsed_ms > deadlock_ms {
        LogLevel::Error
    } else if elapsed_ms > slow_ms {
        LogLevel::Warn
    } else {
        routine
    }
}

/// Classify a completed seek whose resulting position is known.
pub fn log_seek_complete(video_id: u64, actual_ms: u64, elapsed_ms: u64) -> (level: LogLevel)
    ensures
        level == transition_level(elapsed_ms as int, 2000, 1000, LogLevel::Info),
{
    if elapsed_ms > 2000 {
        LogLevel::Error
    } else if elapsed_ms > 1000 {
        LogLevel::Warn
    } else {
        LogLevel::Info
    }
}

/// Classify a completed seek when the resulting position was deliberately
/// not queried (an immediate re-query is itself a deadlock vector).
pub fn log_seek_complete_no_position(video_id: u64, elapsed_ms: u64) -> (level: LogLevel)
    ensures
        level == transition_level(elapsed_ms as int, 2000, 1000, LogLevel::Info),
{
    if elapsed_ms > 2000 {
        LogLevel::Error
    } else if elapsed_ms > 1000 {
        LogLevel::Warn
    } else {
        LogLevel::Info
    }
}

/// A failed seek is always reported at error level, however fast it failed.
pub fn log_seek_error(video_id: u64, elapsed_ms: u64) -> (level: LogLevel)
    ensures
        level == LogLevel::Error,
{
    LogLevel::Error
}

/// Classify a completed pause toggle by how long it took.
pub fn log_pause_toggle_complete(video_id: u64, paused: bool, elapsed_ms: u64) -> (level: LogLevel)
    ensures
        level == transition_level(elapsed_ms as int, 2000, 500, LogLevel::Debug),
{
    if elapsed_ms > 2000 {
        LogLevel::Error
    } else if elapsed_ms > 500 {
        LogLevel::Warn
    } else {
        LogLevel::Debug
    }
}

/// One pass of the consumer's message handler took `elapsed_ms`: over
/// 100 ms is worth a warning, over one frame (16 ms) a debug line, and a
/// quick pass is not logged at all.
pub open spec fn handler_level(elapsed_ms: int) -> Option<LogLevel> {
    if elapsed_ms > 100 {
        Some(LogLevel::Warn)
    } else if elapsed_ms > 16 {
        Some(LogLevel::Debug)
    } else {
        None
    }
}

/// Classify a completed message-handler pass; `None` means nothing is
/// logged.
pub fn log_message_handler_complete(elapsed_ms: u64) -> (level: Option<LogLevel>)
    ensures
        level == handler_level(elapsed_ms as int),
{
    if elapsed_ms > 100 {
        Some(LogLevel::Warn)
    } else if elapsed_ms > 16 {
        Some(LogLevel::Debug)
    } else {
        None
    }
}

/// Did an operation overrun its timeout? True exactly when `elapsed_ms`
/// exceeds `timeout_ms`, in which case a potential deadlock is reported.
pub fn check_timeout(elapsed_ms: u64, timeout_ms: u64) -> (overrun: bool)
    ensures
        overrun == (elapsed_ms > timeout_ms),
{
    elapsed_ms > timeout_ms
}

} // verus!
