//! Per-item cached playback state.
//!
//! One [`VideoInstance`] is the consumer's record for one playback handle.
//! Its flags are authoritative: the consumer never queries the live handle
//! for them (a live query from the consumer thread is a known deadlock
//! vector). Positions and durations arrive asynchronously from the
//! background poller and are folded in here.
//!
//! The flags encode the item's state machine: an item is `Ready` (playing
//! or paused by `paused`) from the moment the loader hands its handle off,
//! moves between `Ready` and `Dragging` by the `dragging` flag, passes
//! through recovery within a single reconciler tick, and is `Terminal` once
//! removed from the collection.

use vstd::prelude::*;

verus! {

/// Observed positions within this distance of the last recorded value do
/// not count as movement; an unchanged successful query is the stall
/// signature.
pub const POSITION_EPSILON_MS: u64 = 1;

/// A playing, looping item whose position has not moved for longer than
/// this is considered stalled.
pub const STALL_THRESHOLD_MS: u64 = 3000;

/// Flat amount by which an under-reported duration is grown at minimum.
pub const DURATION_PAD_MS: u64 = 5000;

/// Minimum spacing of UI re-renders driven by new frames.
pub const UI_THROTTLE_MS: u64 = 33;

/// Duration substituted when the cached duration is unusable, so a seek
/// slider always has a positive range.
pub const DEFAULT_DURATION_MS: u64 = 1000;

/// Cached state of one media item.
#[derive(Clone, Copy, Debug, PartialEq, Eq, Structural)]
pub struct VideoInstance {
    /// Stable identity of the item; background messages refer to it.
    pub id: u64,
    /// Last applied display position, in milliseconds of media time.
    pub position_ms: u64,
    /// Cached duration; auto-corrected upward, never shrinks.
    pub duration_ms: u64,
    /// Whether playback is paused, as last commanded by the consumer.
    pub paused: bool,
    /// Whether the item loops, as last commanded by the consumer.
    pub looping_enabled: bool,
    /// Whether the item is muted, as last commanded by the consumer.
    pub muted: bool,
    /// Whether the user is scrubbing the seek slider.
    pub dragging: bool,
    /// Pause intent captured when the current drag began.
    pub pre_drag_paused: bool,
    /// Whether the pointer is over the item's cell.
    pub hovered: bool,
    /// Whether the item is shown full screen.
    pub fullscreen: bool,
    /// When the observed position last moved beyond the epsilon.
    pub last_change_ms: u64,
    /// The observed position at that moment.
    pub last_change_value_ms: u64,
    /// When a new frame last led to a UI re-render.
    pub last_ui_update_ms: u64,
    /// Whether a position update arrived since the last re-render.
    pub pending_position_update: bool,
}

/// The whole second a position is displayed as.
pub open spec fn display_second(pos_ms: int) -> int {
    pos_ms / 1000
}

/// The duration the cache expands to when a position beyond the cached
/// duration is observed: a tenth more than the observed position or the
/// old duration plus the flat pad, whichever is larger, clamped to `u64`.
pub open spec fn corrected_duration(pos_ms: int, duration_ms: int) -> int {
    let grown = if pos_ms * 11 / 10 >= duration_ms + DURATION_PAD_MS {
        pos_ms * 11 / 10
    } else {
        duration_ms + DURATION_PAD_MS
    };
    if grown > u64::MAX {
        u64::MAX as int
    } else {
        grown
    }
}

/// Compute the corrected duration after observing `pos_ms` on an item whose
/// cached duration it exceeds. The duration query is known to be unreliable
/// for some containers, so the cache expands to what is actually observed
/// rather than clamping playback.
pub fn corrected_duration_ms(pos_ms: u64, duration_ms: u64) -> (d: u64)
    ensures
        d == corrected_duration(pos_ms as int, duration_ms as int),
{
    let grown_pos: u128 = (pos_ms as u128) * 11 / 10;
    let padded: u128 = (duration_ms as u128) + (DURATION_PAD_MS as u128);
    let grown: u128 = if grown_pos >= padded { grown_pos } else { padded };
    if grown > u64::MAX as u128 {
        u64::MAX
    } else {
        grown as u64
    }
}

/// Whether `pos_ms` counts as movement away from the last recorded value.
pub open spec fn moved_beyond_epsilon(last_value_ms: int, pos_ms: int) -> bool {
    let diff = if pos_ms >= last_value_ms {
        pos_ms - last_value_ms
    } else {
        last_value_ms - pos_ms
    };
    diff > POSITION_EPSILON_MS
}

impl VideoInstance {
    /// A freshly handed-off item: at the start, playing, looping, with the
    /// duration the loader queried once at handoff.
    pub fn new(id: u64, duration_ms: u64, now_ms: u64) -> (item: VideoInstance)
        ensures
            item == VideoInstance::initial(id, duration_ms, now_ms),
    {
        VideoInstance {
            id,
            position_ms: 0,
            duration_ms,
            paused: false,
            looping_enabled: true,
            muted: false,
            dragging: false,
            pre_drag_paused: false,
            hovered: false,
            fullscreen: false,
            last_change_ms: now_ms,
            last_change_value_ms: 0,
            last_ui_update_ms: now_ms,
            pending_position_update: false,
        }
    }

    /// The state a new item starts in.
    pub open spec fn initial(id: u64, duration_ms: u64, now_ms: u64) -> VideoInstance {
        VideoInstance {
            id,
            position_ms: 0,
            duration_ms,
            paused: false,
            looping_enabled: true,
            muted: false,
            dragging: false,
            pre_drag_paused: false,
            hovered: false,
            fullscreen: false,
            last_change_ms: now_ms,
            last_change_value_ms: 0,
            last_ui_update_ms: now_ms,
            pending_position_update: false,
        }
    }

    /// The cached effect of commanding playback on or off: only the pause
    /// flag moves; confirmation from the engine arrives asynchronously and
    /// is never re-queried.
    pub open spec fn with_playing(self, playing: bool) -> VideoInstance {
        VideoInstance { paused: !playing, ..self }
    }

    /// Apply the cached effect of commanding playback on or off.
    pub fn apply_playing(&mut self, playing: bool)
        ensures
            *final(self) == old(self).with_playing(playing),
    {
        self.paused = !playing;
    }

    /// The state after the reconciler folds in one observed position.
    ///
    /// While dragging, observations are suppressed entirely. Otherwise:
    /// movement beyond the epsilon refreshes the change-tracking pair; the
    /// display position is rewritten only when its whole-second value
    /// changes, to bound re-render frequency; and an observation beyond the
    /// cached duration expands the duration.
    pub open spec fn observed(self, now_ms: u64, pos_ms: u64) -> VideoInstance {
        if self.dragging {
            self
        } else {
            VideoInstance {
                last_change_ms: if moved_beyond_epsilon(
                    self.last_change_value_ms as int,
                    pos_ms as int,
                ) {
                    now_ms
                } else {
                    self.last_change_ms
                },
                last_change_value_ms: if moved_beyond_epsilon(
                    self.last_change_value_ms as int,
                    pos_ms as int,
                ) {
                    pos_ms
                } else {
                    self.last_change_value_ms
                },
                position_ms: if display_second(pos_ms as int) != display_second(
                    self.position_ms as int,
                ) {
                    pos_ms
                } else {
                    self.position_ms
                },
                duration_ms: if pos_ms > self.duration_ms {
                    corrected_duration(pos_ms as int, self.duration_ms as int) as u64
                } else {
                    self.duration_ms
                },
                ..self
            }
        }
    }

    /// Fold one observed position into the cached state.
    pub fn observe_position(&mut self, now_ms: u64, pos_ms: u64)
        ensures
            *final(self) == old(self).observed(now_ms, pos_ms),
    {
        if self.dragging {
            return;
        }
        let diff = if pos_ms >= self.last_change_value_ms {
            pos_ms - self.last_change_value_ms
        } else {
            self.last_change_value_ms - pos_ms
        };
        if diff > POSITION_EPSILON_MS {
            self.last_change_ms = now_ms;
            self.last_change_value_ms = pos_ms;
        }
        if pos_ms / 1000 != self.position_ms / 1000 {
            self.position_ms = pos_ms;
        }
        if pos_ms > self.duration_ms {
            self.duration_ms = corrected_duration_ms(pos_ms, self.duration_ms);
        }
    }

    /// The state after one drag message carrying slider value `pos_ms`.
    /// Entering a drag captures the prior pause intent; every message moves
    /// the cached position to the dragged value.
    pub open spec fn dragged(self, pos_ms: u64) -> VideoInstance {
        VideoInstance {
            dragging: true,
            pre_drag_paused: if self.dragging { self.pre_drag_paused } else { self.paused },
            position_ms: pos_ms,
            ..self
        }
    }

    /// The state after the drag is released.
    pub open spec fn drag_released(self) -> VideoInstance {
        VideoInstance { dragging: false, ..self }
    }

    /// Whether a new frame at `now_ms` falls inside the UI throttle window
    /// and must not trigger a re-render.
    pub open spec fn frame_throttled(self, now_ms: u64) -> bool {
        (if now_ms >= self.last_ui_update_ms {
            now_ms - self.last_ui_update_ms
        } else {
            0int
        }) < UI_THROTTLE_MS
    }

    /// The state after one rendered frame: a position update is pending,
    /// and outside the throttle window the re-render timestamp advances.
    pub open spec fn after_new_frame(self, now_ms: u64) -> VideoInstance {
        VideoInstance {
            pending_position_update: true,
            last_ui_update_ms: if self.frame_throttled(now_ms) {
                self.last_ui_update_ms
            } else {
                now_ms
            },
            ..self
        }
    }

    /// Whether this item is stalled at `now_ms`: playing, looping, not
    /// being dragged, and its observed position has not moved for longer
    /// than the stall threshold despite successful queries.
    pub open spec fn stalled(self, now_ms: u64) -> bool {
        &&& !self.paused
        &&& self.looping_enabled
        &&& !self.dragging
        &&& now_ms - self.last_change_ms > STALL_THRESHOLD_MS
    }

    /// Runtime form of [`VideoInstance::stalled`].
    pub fn is_stalled(&self, now_ms: u64) -> (s: bool)
        ensures
            s == self.stalled(now_ms),
    {
        !self.paused && self.looping_enabled && !self.dragging && now_ms >= self.last_change_ms
            && now_ms - self.last_change_ms > STALL_THRESHOLD_MS
    }

    /// The cached duration with unusable values replaced, so a seek slider
    /// always gets a positive range.
    pub fn safe_duration(&self) -> (d: u64)
        ensures
            d == if self.duration_ms > 0 {
                self.duration_ms as int
            } else {
                DEFAULT_DURATION_MS as int
            },
    {
        if self.duration_ms > 0 {
            self.duration_ms
        } else {
            DEFAULT_DURATION_MS
        }
    }

    /// The cached position as minutes and seconds, for display.
    pub fn position_clock(&self) -> (clock: (u64, u64))
        ensures
            clock.0 == self.position_ms as int / 1000 / 60,
            clock.1 == (self.position_ms as int / 1000) % 60,
    {
        let secs = self.position_ms / 1000;
        (secs / 60, secs % 60)
    }
}

/// Commanding the same playback state twice in a row leaves the cache
/// exactly as commanding it once does.
pub proof fn lemma_set_playing_idempotent(item: VideoInstance, playing: bool)
    ensures
        item.with_playing(playing).with_playing(playing) == item.with_playing(playing),
{
}

/// The cached duration never shrinks: folding in an observation can only
/// keep it or grow it.
pub proof fn lemma_duration_never_shrinks(item: VideoInstance, now_ms: u64, pos_ms: u64)
    ensures
        item.observed(now_ms, pos_ms).duration_ms >= item.duration_ms,
{
}

/// The cached state after a whole sequence of observations, folded in
/// arrival order; each observation is a pair of arrival time and position.
pub open spec fn observed_all(item: VideoInstance, obs: Seq<(u64, u64)>) -> VideoInstance
    decreases obs.len(),
{
    if obs.len() == 0 {
        item
    } else {
        observed_all(item, obs.drop_last()).observed(obs.last().0, obs.last().1)
    }
}

/// Drag suppression: while an item is being dragged, no number of incoming
/// position observations changes its cached state at all.
pub proof fn lemma_drag_suppression(item: VideoInstance, obs: Seq<(u64, u64)>)
    requires
        item.dragging,
    ensures
        observed_all(item, obs) == item,
    decreases obs.len(),
{
    if obs.len() > 0 {
        lemma_drag_suppression(item, obs.drop_last());
    }
}

} // verus!
