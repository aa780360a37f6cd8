//! Core synchronization and health-monitoring subsystem of a multi-stream
//! media player.
//!
//! The player drives many native playback pipelines whose state-changing
//! operations contend on a single process-wide platform lock. This crate
//! holds the logic that keeps that safe: the pipeline access serializer, the
//! position poller's sweep, the bus-event classifier, the health watchdog,
//! and the per-tick playback state reconciler with its stall detection and
//! duration auto-correction. All times are in milliseconds; positions and
//! durations are milliseconds of media time.
//!
//! Everything here works on plain values. The surrounding application owns
//! the actual pipelines, threads and channels, performs the engine calls
//! this crate decides on, and feeds observations back in.

pub mod bus;
pub mod gst_logger;
pub mod poller;
pub mod reconciler;
pub mod state;
pub mod sync;
pub mod watchdog;
