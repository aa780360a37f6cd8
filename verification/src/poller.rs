//! Position poller support.
//!
//! A dedicated application thread sweeps every playback handle at a fixed
//! rate, issuing one bounded, read-only position query per handle, and
//! publishes the successful results to the consumer over a channel. The
//! sweep's logic lives here: which samples become messages, in what order,
//! and in what unit. The consumer drains the channel on its own tick, so
//! the query rate is decoupled from the render rate.
//!
//! Which fields may be queried live at all is a per-field policy
//! ([`query_policy`]), kept declarative here rather than scattered through
//! the call sites: on this platform a synchronous position query from the
//! consumer thread can deadlock against the audio stack, so the consumer
//! must work from cached values and leave live queries to this sweep.

use vstd::prelude::*;

verus! {

/// One position message from the poller to the consumer.
#[derive(Clone, Copy, Debug, PartialEq, Eq, Structural)]
pub struct PositionUpdate {
    pub video_id: u64,
    pub position_ms: u64,
}

/// A field of an item's playback state, from the point of view of the
/// consumer thread.
#[derive(Clone, Copy, Debug, PartialEq, Eq, Structural)]
pub enum StateField {
    Position,
    Duration,
    Paused,
    Looping,
    Muted,
    Volume,
}

/// How a field may be read.
#[derive(Clone, Copy, Debug, PartialEq, Eq, Structural)]
pub enum QueryPolicy {
    /// Only the consumer's cache is trusted; the live handle is never
    /// asked.
    AlwaysCached,
    /// A live query is allowed, bounded, and must be tolerated to be slow.
    BoundedQuery,
    /// A live query from the consumer thread deadlocks on this platform
    /// and must not be issued; the value arrives asynchronously instead.
    NeverQuery,
}

/// The per-field query policy of the consumer thread.
pub open spec fn policy_of(field: StateField) -> QueryPolicy {
    match field {
        StateField::Position => QueryPolicy::NeverQuery,
        StateField::Duration => QueryPolicy::BoundedQuery,
        StateField::Paused => QueryPolicy::AlwaysCached,
        StateField::Looping => QueryPolicy::AlwaysCached,
        StateField::Muted => QueryPolicy::AlwaysCached,
        StateField::Volume => QueryPolicy::AlwaysCached,
    }
}

/// Look up the query policy for a field. The position is the one field the
/// consumer must never query live; the duration is queried once, at load;
/// the flags are authoritative in the cache.
pub fn query_policy(field: StateField) -> (policy: QueryPolicy)
    ensures
        policy == policy_of(field),
{
    match field {
        StateField::Position => QueryPolicy::NeverQuery,
        StateField::Duration => QueryPolicy::BoundedQuery,
        StateField::Paused => QueryPolicy::AlwaysCached,
        StateField::Looping => QueryPolicy::AlwaysCached,
        StateField::Muted => QueryPolicy::AlwaysCached,
        StateField::Volume => QueryPolicy::AlwaysCached,
    }
}

/// Engine position values arrive in nanoseconds; messages carry
/// milliseconds.
pub fn position_ms_from_ns(ns: u64) -> (ms: u64)
    ensures
        ms == ns as int / 1_000_000,
{
    ns / 1_000_000
}

/// The messages one sweep publishes: one per handle whose query succeeded,
/// in sweep order, converted to milliseconds. A failed query publishes
/// nothing.
pub open spec fn sweep_messages(samples: Seq<(u64, Option<u64>)>) -> Seq<PositionUpdate>
    decreases samples.len(),
{
    if samples.len() == 0 {
        Seq::empty()
    } else {
        sweep_messages(samples.drop_last()) + match samples.last().1 {
            Some(ns) => seq![
                PositionUpdate {
                    video_id: samples.last().0,
                    position_ms: (ns as int / 1_000_000) as u64,
                },
            ],
            None => Seq::empty(),
        }
    }
}

/// Turn one sweep's raw samples — item id and the nanosecond result of its
/// bounded query, if it succeeded — into the messages to publish.
pub fn sweep_position_samples(samples: &Vec<(u64, Option<u64>)>) -> (messages: Vec<PositionUpdate>)
    ensures
        messages@ =~= sweep_messages(samples@),
{
    let mut messages: Vec<PositionUpdate> = Vec::new();
    let mut i: usize = 0;
    while i < samples.len()
        invariant
            0 <= i <= samples@.len(),
            messages@ =~= sweep_messages(samples@.take(i as int)),
        decreases samples@.len() - i,
    {
        proof {
            assert(samples@.take(i + 1).drop_last() =~= samples@.take(i as int));
            assert(samples@.take(i + 1).last() == samples@[i as int]);
        }
        let (video_id, sample) = samples[i];
        match sample {
            Some(ns) => {
                let update = PositionUpdate { video_id, position_ms: position_ms_from_ns(ns) };
                messages.push(update);
            },
            None => {},
        }
        i = i + 1;
    }
    proof {
        assert(samples@.take(samples@.len() as int) =~= samples@);
    }
    messages
}

} // verus!
