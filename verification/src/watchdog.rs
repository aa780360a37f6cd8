//! Health watchdog for the consumer (UI) thread.
//!
//! The consumer records a heartbeat timestamp once per processed command. A
//! dedicated thread owned by the application wakes every few seconds, reads
//! the shared timestamp, and classifies the elapsed time with [`Watchdog::check`].
//! The watchdog is purely observational: it never intervenes, it only reports.

use vstd::prelude::*;

verus! {

/// How long the watchdog sleeps between checks, in milliseconds.
pub const WATCHDOG_POLL_INTERVAL_MS: u64 = 3000;

/// Elapsed times above this are reported as slow (warning level).
pub const SLOW_THRESHOLD_MS: u64 = 2000;

/// Elapsed times above this are reported as a suspected freeze (error level).
pub const FREEZE_THRESHOLD_MS: u64 = 5000;

/// Elapsed times above this are reported as a critical freeze.
pub const CRITICAL_THRESHOLD_MS: u64 = 30000;

/// Classification of the time elapsed since the last heartbeat.
#[derive(Clone, Copy, Debug, PartialEq, Eq, Structural)]
pub enum HealthStatus {
    /// The consumer thread responded recently.
    Nominal,
    /// The consumer thread is slow to respond.
    Slow,
    /// The consumer thread has not responded for long enough that a
    /// deadlock is suspected.
    FreezeSuspected,
    /// The consumer thread has been unresponsive for so long that the
    /// process is likely deadlocked.
    FreezeCritical,
}

/// The classification the watchdog gives to an elapsed time since the last
/// heartbeat: nominal up to the slow threshold, then slow, then a suspected
/// freeze, then critical.
pub open spec fn health_of(elapsed_ms: int) -> HealthStatus {
    if elapsed_ms > CRITICAL_THRESHOLD_MS {
        HealthStatus::FreezeCritical
    } else if elapsed_ms > FREEZE_THRESHOLD_MS {
        HealthStatus::FreezeSuspected
    } else if elapsed_ms > SLOW_THRESHOLD_MS {
        HealthStatus::Slow
    } else {
        HealthStatus::Nominal
    }
}

/// Watchdog state: the timestamp of the last heartbeat, in milliseconds
/// since some fixed epoch. The application shares this value with the
/// watchdog thread; this type holds the consumer's authoritative copy and
/// the classification rule.
pub struct Watchdog {
    pub last_heartbeat_ms: u64,
}

impl Watchdog {
    /// Create a watchdog whose last heartbeat is the present moment, so a
    /// freshly started watchdog reports `Nominal`.
    pub fn new(now_ms: u64) -> (w: Watchdog)
        ensures
            w.last_heartbeat_ms == now_ms,
    {
        Watchdog { last_heartbeat_ms: now_ms }
    }

    /// Signal that the consumer thread is alive. Called once per processed
    /// command.
    pub fn heartbeat(&mut self, now_ms: u64)
        ensures
            final(self).last_heartbeat_ms == now_ms,
    {
        self.last_heartbeat_ms = now_ms;
    }

    /// Milliseconds since the last heartbeat; zero when the clock reads
    /// earlier than the last heartbeat.
    pub fn elapsed_ms(&self, now_ms: u64) -> (e: u64)
        ensures
            e == if now_ms >= self.last_heartbeat_ms {
                now_ms - self.last_heartbeat_ms
            } else {
                0int
            },
    {
        if now_ms >= self.last_heartbeat_ms {
            now_ms - self.last_heartbeat_ms
        } else {
            0
        }
    }

    /// One watchdog wake-up: classify how long the consumer has been silent.
    pub fn check(&self, now_ms: u64) -> (status: HealthStatus)
        ensures
            status == health_of(self.elapsed_spec(now_ms)),
    {
        let elapsed = self.elapsed_ms(now_ms);
        if elapsed > CRITICAL_THRESHOLD_MS {
            HealthStatus::FreezeCritical
        } else if elapsed > FREEZE_THRESHOLD_MS {
            HealthStatus::FreezeSuspected
        } else if elapsed > SLOW_THRESHOLD_MS {
            HealthStatus::Slow
        } else {
            HealthStatus::Nominal
        }
    }

    /// The elapsed time `check` classifies, as a mathematical value.
    pub open spec fn elapsed_spec(&self, now_ms: u64) -> int {
        if now_ms >= self.last_heartbeat_ms {
            now_ms - self.last_heartbeat_ms
        } else {
            0
        }
    }
}

/// A heartbeat resets the watchdog: whatever was observed before, a check
/// right after a heartbeat reports `Nominal`.
pub proof fn lemma_heartbeat_resets(w: Watchdog, now_ms: u64)
    ensures
        health_of(Watchdog { last_heartbeat_ms: now_ms, ..w }.elapsed_spec(now_ms))
            == HealthStatus::Nominal,
{
}

} // verus!
