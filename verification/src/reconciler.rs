//! Playback state reconciler: the consumer thread's state and entry points.
//!
//! Exactly one thread owns an [`App`]. Per-item commands go through
//! [`App::update`], which edits the cached state and decides which engine
//! calls to make; the application performs the returned actions, in order,
//! against the native pipelines. Once per fixed-rate tick the application
//! drains the poller and bus channels and hands everything to
//! [`App::tick`], which folds the buffered observations into the cache and
//! drives stall detection and recovery.

use vstd::prelude::*;

use crate::bus::BusEvent;
use crate::poller::PositionUpdate;
use crate::state::{VideoInstance, UI_THROTTLE_MS};
use crate::sync::{
    sat_inc, synchronized_seek, synchronized_set_paused, EngineAction, Serializer,
};

verus! {

/// Fewest columns the grid can be narrowed to.
pub const MIN_GRID_COLUMNS: usize = 1;

/// Most columns the grid can be widened to.
pub const MAX_GRID_COLUMNS: usize = 10;

/// Columns a fresh application starts with.
pub const DEFAULT_GRID_COLUMNS: usize = 2;

/// The stall scan runs on every tick whose count is a multiple of this, so
/// at roughly one-second cadence on a 100 ms tick.
pub const STALL_SCAN_PERIOD_TICKS: u64 = 10;

/// A discrete command for the consumer, queued by the surrounding
/// application's input layer.
#[derive(Clone, Copy, Debug, PartialEq, Eq, Structural)]
pub enum Message {
    /// Toggle the item between playing and paused.
    TogglePause(u64),
    /// Toggle the item's loop flag.
    ToggleLoop(u64),
    /// Toggle the item's mute state.
    ToggleMute(u64),
    /// Toggle the item's full-screen display.
    ToggleFullscreen(u64),
    /// The seek slider was dragged to a position, in milliseconds.
    Seek(u64, u64),
    /// The seek slider was released.
    SeekRelease(u64),
    /// The item's stream ended; looping is the engine's business.
    EndOfStream(u64),
    /// The item rendered a new frame.
    NewFrame(u64),
    /// Remove the item and release its handle.
    RemoveVideo(u64),
    /// The pointer entered or left the item's cell.
    VideoHoverChanged(u64, bool),
    /// Widen the grid by one column.
    IncreaseColumns,
    /// Narrow the grid by one column.
    DecreaseColumns,
}

/// What one processed command asks of the application.
pub struct UpdateResult {
    /// Engine calls to perform now, in order.
    pub actions: Vec<EngineAction>,
    /// Whether the view must be rebuilt; new-frame messages inside the UI
    /// throttle window suppress it.
    pub redraw: bool,
}

/// No two items share an id.
pub open spec fn ids_unique(videos: Seq<VideoInstance>) -> bool {
    forall|i: int, j: int| 0 <= i < j < videos.len() ==> videos[i].id != videos[j].id
}

/// Every item's id is below `bound`.
pub open spec fn ids_below(videos: Seq<VideoInstance>, bound: u64) -> bool {
    forall|i: int| 0 <= i < videos.len() ==> videos[i].id < bound
}

/// The index of the first item with the given id, or -1 when no item has
/// it.
pub open spec fn find_index(videos: Seq<VideoInstance>, id: u64) -> int
    decreases videos.len(),
{
    if videos.len() == 0 {
        -1
    } else if videos.first().id == id {
        0
    } else {
        let rest = find_index(videos.drop_first(), id);
        if rest < 0 {
            -1
        } else {
            rest + 1
        }
    }
}

/// `find_index` finds exactly the first match: it answers -1 precisely
/// when no item carries the id, and otherwise points at a carrier of the
/// id before which there is none.
pub proof fn lemma_find_index(videos: Seq<VideoInstance>, id: u64)
    ensures
        find_index(videos, id) == -1 <==> (forall|k: int|
            0 <= k < videos.len() ==> videos[k].id != id),
        find_index(videos, id) >= 0 ==> {
            let r = find_index(videos, id);
            &&& r < videos.len()
            &&& videos[r].id == id
            &&& forall|k: int| 0 <= k < r ==> videos[k].id != id
        },
    decreases videos.len(),
{
    if videos.len() == 0 {
    } else if videos.first().id == id {
        assert(videos[0] == videos.first());
    } else {
        let rest = videos.drop_first();
        lemma_find_index(rest, id);
        assert(forall|k: int| 0 <= k < rest.len() ==> rest[k] == videos[k + 1]);
        if find_index(rest, id) == -1 {
            assert forall|k: int| 0 <= k < videos.len() implies videos[k].id != id by {
                if k > 0 {
                    assert(videos[k] == rest[k - 1]);
                }
            }
        } else {
            let r = find_index(rest, id);
            assert(videos[r + 1] == rest[r]);
            assert forall|k: int| 0 <= k < r + 1 implies videos[k].id != id by {
                if k > 0 {
                    assert(videos[k] == rest[k - 1]);
                }
            }
        }
    }
}

/// Replacing an item by one with the same id keeps ids unique and bounded.
pub proof fn lemma_ids_preserved_by_update(
    videos: Seq<VideoInstance>,
    j: int,
    item: VideoInstance,
    bound: u64,
)
    requires
        0 <= j < videos.len(),
        item.id == videos[j].id,
        ids_unique(videos),
        ids_below(videos, bound),
    ensures
        ids_unique(videos.update(j, item)),
        ids_below(videos.update(j, item), bound),
{
}

/// Removing an item keeps ids unique and bounded.
pub proof fn lemma_ids_preserved_by_remove(videos: Seq<VideoInstance>, j: int, bound: u64)
    requires
        0 <= j < videos.len(),
        ids_unique(videos),
        ids_below(videos, bound),
    ensures
        ids_unique(videos.remove(j)),
        ids_below(videos.remove(j), bound),
{
    videos.remove_ensures(j);
    let removed = videos.remove(j);
    assert forall|i1: int, i2: int|
        0 <= i1 < i2 < removed.len() implies removed[i1].id != removed[i2].id by {
        let a = if i1 < j { i1 } else { i1 + 1 };
        let b = if i2 < j { i2 } else { i2 + 1 };
        assert(removed[i1] == videos[a]);
        assert(removed[i2] == videos[b]);
    }
    assert forall|i: int| 0 <= i < removed.len() implies removed[i].id < bound by {
        let a = if i < j { i } else { i + 1 };
        assert(removed[i] == videos[a]);
    }
}

/// The fields no per-item command touches.
pub open spec fn command_frame(pre: App, post: App) -> bool {
    &&& post.next_id == pre.next_id
    &&& post.error == pre.error
    &&& post.status == pre.status
    &&& post.tick_count == pre.tick_count
    &&& post.last_async_complete == pre.last_async_complete
}

/// The serializer was not used at all.
pub open spec fn serializer_unchanged(pre: Serializer, post: Serializer) -> bool {
    &&& post.log@ == pre.log@
    &&& post.open_sections == pre.open_sections
    &&& post.max_open == pre.max_open
    &&& post.sections_entered == pre.sections_entered
}

/// Exactly one state-changing call went through the serializer, inside one
/// critical section that is closed again.
pub open spec fn serializer_logged_one(pre: Serializer, post: Serializer, action: EngineAction) -> bool {
    &&& post.log@ == pre.log@.push(action)
    &&& post.open_sections == 0
    &&& post.max_open == 1
    &&& post.sections_entered == sat_inc(pre.sections_entered as int)
}

/// The full effect of one processed command: how the cached state moves,
/// which engine calls come out, which of them the serializer guarded, and
/// whether the view is rebuilt.
pub open spec fn update_effect(
    pre: App,
    now_ms: u64,
    message: Message,
    post: App,
    actions: Seq<EngineAction>,
    redraw: bool,
) -> bool {
    &&& command_frame(pre, post)
    &&& match message {
        Message::TogglePause(id) => {
            let j = find_index(pre.videos@, id);
            &&& post.grid_columns == pre.grid_columns
            &&& redraw
            &&& if j < 0 {
                &&& post.videos@ == pre.videos@
                &&& serializer_unchanged(pre.serializer, post.serializer)
                &&& actions.len() == 0
            } else {
                let item = pre.videos@[j];
                let action = EngineAction::SetPlaying { id, playing: item.paused };
                &&& post.videos@ == pre.videos@.update(j, item.with_playing(item.paused))
                &&& serializer_logged_one(pre.serializer, post.serializer, action)
                &&& actions == seq![action]
            }
        },
        Message::ToggleLoop(id) => {
            let j = find_index(pre.videos@, id);
            &&& post.grid_columns == pre.grid_columns
            &&& redraw
            &&& serializer_unchanged(pre.serializer, post.serializer)
            &&& if j < 0 {
                &&& post.videos@ == pre.videos@
                &&& actions.len() == 0
            } else {
                let item = pre.videos@[j];
                &&& post.videos@ == pre.videos@.update(
                    j,
                    VideoInstance { looping_enabled: !item.looping_enabled, ..item },
                )
                &&& actions == seq![
                    EngineAction::SetLooping { id, looping: !item.looping_enabled },
                ]
            }
        },
        Message::ToggleMute(id) => {
            let j = find_index(pre.videos@, id);
            &&& post.grid_columns == pre.grid_columns
            &&& redraw
            &&& serializer_unchanged(pre.serializer, post.serializer)
            &&& if j < 0 {
                &&& post.videos@ == pre.videos@
                &&& actions.len() == 0
            } else {
                let item = pre.videos@[j];
                let muted = !item.muted;
                &&& post.videos@ == pre.videos@.update(j, VideoInstance { muted, ..item })
                &&& actions == seq![
                    EngineAction::SetVolume { id, percent: if muted { 0u8 } else { 100u8 } },
                    EngineAction::SetMuted { id, muted },
                ]
            }
        },
        Message::ToggleFullscreen(id) => {
            let j = find_index(pre.videos@, id);
            &&& post.grid_columns == pre.grid_columns
            &&& redraw
            &&& serializer_unchanged(pre.serializer, post.serializer)
            &&& actions.len() == 0
            &&& if j < 0 {
                post.videos@ == pre.videos@
            } else {
                let item = pre.videos@[j];
                post.videos@ == pre.videos@.update(
                    j,
                    VideoInstance { fullscreen: !item.fullscreen, ..item },
                )
            }
        },
        Message::Seek(id, pos_ms) => {
            let j = find_index(pre.videos@, id);
            &&& post.grid_columns == pre.grid_columns
            &&& redraw
            &&& serializer_unchanged(pre.serializer, post.serializer)
            &&& actions.len() == 0
            &&& if j < 0 {
                post.videos@ == pre.videos@
            } else {
                post.videos@ == pre.videos@.update(j, pre.videos@[j].dragged(pos_ms))
            }
        },
        Message::SeekRelease(id) => {
            let j = find_index(pre.videos@, id);
            &&& post.grid_columns == pre.grid_columns
            &&& redraw
            &&& if j < 0 {
                &&& post.videos@ == pre.videos@
                &&& serializer_unchanged(pre.serializer, post.serializer)
                &&& actions.len() == 0
            } else {
                let item = pre.videos@[j];
                let action = EngineAction::Seek {
                    id,
                    target_ms: item.position_ms,
                    accurate: false,
                };
                &&& post.videos@ == pre.videos@.update(j, item.drag_released())
                &&& serializer_logged_one(pre.serializer, post.serializer, action)
                &&& actions == seq![action]
            }
        },
        Message::EndOfStream(id) => {
            &&& post.grid_columns == pre.grid_columns
            &&& redraw
            &&& post.videos@ == pre.videos@
            &&& serializer_unchanged(pre.serializer, post.serializer)
            &&& actions.len() == 0
        },
        Message::NewFrame(id) => {
            let j = find_index(pre.videos@, id);
            &&& post.grid_columns == pre.grid_columns
            &&& serializer_unchanged(pre.serializer, post.serializer)
            &&& actions.len() == 0
            &&& if j < 0 {
                &&& post.videos@ == pre.videos@
                &&& redraw
            } else {
                let item = pre.videos@[j];
                &&& post.videos@ == pre.videos@.update(j, item.after_new_frame(now_ms))
                &&& redraw == !item.frame_throttled(now_ms)
            }
        },
        Message::RemoveVideo(id) => {
            let j = find_index(pre.videos@, id);
            &&& post.grid_columns == pre.grid_columns
            &&& redraw
            &&& serializer_unchanged(pre.serializer, post.serializer)
            &&& actions.len() == 0
            &&& if j < 0 {
                post.videos@ == pre.videos@
            } else {
                post.videos@ == pre.videos@.remove(j)
            }
        },
        Message::VideoHoverChanged(id, hovered) => {
            let j = find_index(pre.videos@, id);
            &&& post.grid_columns == pre.grid_columns
            &&& redraw
            &&& serializer_unchanged(pre.serializer, post.serializer)
            &&& actions.len() == 0
            &&& if j < 0 {
                post.videos@ == pre.videos@
            } else {
                post.videos@ == pre.videos@.update(
                    j,
                    VideoInstance { hovered, ..pre.videos@[j] },
                )
            }
        },
        Message::IncreaseColumns => {
            &&& post.videos@ == pre.videos@
            &&& serializer_unchanged(pre.serializer, post.serializer)
            &&& actions.len() == 0
            &&& redraw
            &&& post.grid_columns == if pre.grid_columns < MAX_GRID_COLUMNS {
                pre.grid_columns + 1
            } else {
                pre.grid_columns as int
            }
        },
        Message::DecreaseColumns => {
            &&& post.videos@ == pre.videos@
            &&& serializer_unchanged(pre.serializer, post.serializer)
            &&& actions.len() == 0
            &&& redraw
            &&& post.grid_columns == if pre.grid_columns > MIN_GRID_COLUMNS {
                pre.grid_columns - 1
            } else {
                pre.grid_columns as int
            }
        },
    }
}

/// One position message folded into the item set: the item it names, if
/// it still exists, absorbs the observation; a message for a removed item
/// is inert.
pub open spec fn observe_one(
    videos: Seq<VideoInstance>,
    now_ms: u64,
    update: PositionUpdate,
) -> Seq<VideoInstance> {
    let j = find_index(videos, update.video_id);
    if j < 0 {
        videos
    } else {
        videos.update(j, videos[j].observed(now_ms, update.position_ms))
    }
}

/// The item set after a whole drain of position messages, folded in
/// arrival order.
pub open spec fn observe_all(
    videos: Seq<VideoInstance>,
    now_ms: u64,
    updates: Seq<PositionUpdate>,
) -> Seq<VideoInstance>
    decreases updates.len(),
{
    if updates.len() == 0 {
        videos
    } else {
        observe_all(observe_one(videos, now_ms, updates.first()), now_ms, updates.drop_first())
    }
}

/// The index of the first stalled item in scan order, or -1 when none is
/// stalled.
pub open spec fn first_stalled(videos: Seq<VideoInstance>, now_ms: u64) -> int
    decreases videos.len(),
{
    if videos.len() == 0 {
        -1
    } else if videos.first().stalled(now_ms) {
        0
    } else {
        let rest = first_stalled(videos.drop_first(), now_ms);
        if rest < 0 {
            -1
        } else {
            rest + 1
        }
    }
}

/// `first_stalled` finds exactly the first stalled item: it answers -1
/// precisely when nothing is stalled, and otherwise points at a stalled
/// item before which nothing is.
pub proof fn lemma_first_stalled(videos: Seq<VideoInstance>, now_ms: u64)
    ensures
        first_stalled(videos, now_ms) == -1 <==> (forall|k: int|
            0 <= k < videos.len() ==> !videos[k].stalled(now_ms)),
        first_stalled(videos, now_ms) >= 0 ==> {
            let r = first_stalled(videos, now_ms);
            &&& r < videos.len()
            &&& videos[r].stalled(now_ms)
            &&& forall|k: int| 0 <= k < r ==> !videos[k].stalled(now_ms)
        },
    decreases videos.len(),
{
    if videos.len() == 0 {
    } else if videos.first().stalled(now_ms) {
        assert(videos[0] == videos.first());
    } else {
        let rest = videos.drop_first();
        lemma_first_stalled(rest, now_ms);
        assert(forall|k: int| 0 <= k < rest.len() ==> rest[k] == videos[k + 1]);
        if first_stalled(rest, now_ms) == -1 {
            assert forall|k: int| 0 <= k < videos.len() implies !videos[k].stalled(now_ms) by {
                if k > 0 {
                    assert(videos[k] == rest[k - 1]);
                }
            }
        } else {
            let r = first_stalled(rest, now_ms);
            assert(videos[r + 1] == rest[r]);
            assert forall|k: int| 0 <= k < r + 1 implies !videos[k].stalled(now_ms) by {
                if k > 0 {
                    assert(videos[k] == rest[k - 1]);
                }
            }
        }
    }
}

/// The item whose asynchronous operation completed last, given the drained
/// bus events in arrival order and what was recorded before.
pub open spec fn last_async_in(events: Seq<BusEvent>, prior: Option<u64>) -> Option<u64>
    decreases events.len(),
{
    if events.len() == 0 {
        prior
    } else {
        last_async_in(
            events.drop_first(),
            match events.first() {
                BusEvent::AsyncOperationComplete(id) => Some(id),
                _ => prior,
            },
        )
    }
}

/// Scan a drain of bus events for completions of asynchronous operations
/// and report the item of the latest one, or `prior` when the drain holds
/// none. This is the informational half of bus handling: no cached state
/// transition hangs on it.
pub fn latest_async_completion(events: &Vec<BusEvent>, prior: Option<u64>) -> (latest: Option<u64>)
    ensures
        latest == last_async_in(events@, prior),
{
    let mut latest = prior;
    let mut k: usize = 0;
    proof {
        assert(events@.skip(0) =~= events@);
    }
    while k < events.len()
        invariant
            0 <= k <= events@.len(),
            last_async_in(events@.skip(k as int), latest) == last_async_in(events@, prior),
        decreases events@.len() - k,
    {
        proof {
            assert(events@.skip(k as int).first() == events@[k as int]);
            assert(events@.skip(k as int).drop_first() =~= events@.skip(k as int + 1));
        }
        let event = &events[k];
        if let BusEvent::AsyncOperationComplete(id) = event {
            latest = Some(*id);
        }
        k = k + 1;
    }
    proof {
        assert(events@.skip(events@.len() as int) =~= Seq::<BusEvent>::empty());
    }
    latest
}

/// The tick counter after one tick; it wraps rather than saturates, so the
/// stall-scan cadence goes on forever.
pub open spec fn next_tick_count(count: u64) -> int {
    if count == u64::MAX {
        0
    } else {
        count + 1
    }
}

/// The full effect of one consumer tick.
///
/// All buffered position messages are folded into the cache in arrival
/// order; bus events update the informational async-completion record and
/// nothing else; and on a scan tick, at most one stalled item — the first
/// in scan order — is recovered by a seek to its last known position
/// followed by a forced resume, both through the serializer. Recovering
/// more than one item per cycle is forbidden: concurrent recovery across
/// items reproduces the very lock contention the serializer exists to
/// avoid. The recovered item's change clock restarts, so if it is still
/// stuck it is retried a full threshold later, and another stalled item is
/// picked up by a later cycle instead.
pub open spec fn tick_effect(
    pre: App,
    now_ms: u64,
    updates: Seq<PositionUpdate>,
    events: Seq<BusEvent>,
    post: App,
    actions: Seq<EngineAction>,
) -> bool {
    let mid = observe_all(pre.videos@, now_ms, updates);
    let count = next_tick_count(pre.tick_count);
    let scan = count % (STALL_SCAN_PERIOD_TICKS as int) == 0;
    let s = first_stalled(mid, now_ms);
    &&& post.tick_count == count
    &&& post.next_id == pre.next_id
    &&& post.grid_columns == pre.grid_columns
    &&& post.error == pre.error
    &&& post.status == pre.status
    &&& post.last_async_complete == last_async_in(events, pre.last_async_complete)
    &&& if scan && s >= 0 {
        let item = mid[s];
        let seek = EngineAction::Seek {
            id: item.id,
            target_ms: item.last_change_value_ms,
            accurate: false,
        };
        let resume = EngineAction::SetPlaying { id: item.id, playing: true };
        &&& post.videos@ == mid.update(
            s,
            VideoInstance { last_change_ms: now_ms, paused: false, ..item },
        )
        &&& post.serializer.log@ == pre.serializer.log@.push(seek).push(resume)
        &&& post.serializer.open_sections == 0
        &&& post.serializer.max_open == 1
        &&& post.serializer.sections_entered == sat_inc(
            sat_inc(pre.serializer.sections_entered as int),
        )
        &&& actions == seq![seek, resume]
    } else {
        &&& post.videos@ == mid
        &&& serializer_unchanged(pre.serializer, post.serializer)
        &&& actions.len() == 0
    }
}

/// Stall recovery cardinality: when exactly two items are stalled in the
/// same detection cycle, the scan selects the first of them and only it;
/// after its recovery — which restarts its change clock and forces it
/// playing — that item is no longer stalled while the other still is, and
/// the next scan selects the other, never the one just recovered.
pub proof fn lemma_stall_recovery_cardinality(
    videos: Seq<VideoInstance>,
    now_ms: u64,
    a: int,
    b: int,
)
    requires
        0 <= a < b < videos.len(),
        videos[a].stalled(now_ms),
        videos[b].stalled(now_ms),
        forall|k: int| 0 <= k < videos.len() && videos[k].stalled(now_ms) ==> k == a || k == b,
    ensures
        first_stalled(videos, now_ms) == a,
        ({
            let recovered = videos.update(
                a,
                VideoInstance { last_change_ms: now_ms, paused: false, ..videos[a] },
            );
            &&& !recovered[a].stalled(now_ms)
            &&& recovered[b].stalled(now_ms)
            &&& first_stalled(recovered, now_ms) == b
        }),
{
    lemma_first_stalled(videos, now_ms);
    let r = first_stalled(videos, now_ms);
    assert(r != -1);
    assert(r == a || r == b);
    assert(r == a) by {
        if r == b {
            assert(!videos[a].stalled(now_ms));
        }
    }
    let recovered = videos.update(
        a,
        VideoInstance { last_change_ms: now_ms, paused: false, ..videos[a] },
    );
    assert(!recovered[a].stalled(now_ms));
    assert(recovered[b] == videos[b]);
    lemma_first_stalled(recovered, now_ms);
    let r2 = first_stalled(recovered, now_ms);
    assert(r2 != -1);
    assert(r2 == b) by {
        assert(recovered[r2].stalled(now_ms));
        assert(r2 != a);
        assert(recovered[r2] == videos[r2]);
        if r2 != b {
            assert(videos[r2].stalled(now_ms));
        }
        if r2 > b {
            assert(!recovered[b].stalled(now_ms));
        }
    }
}

/// Drag suppression at the reconciler: while an item is being dragged, a
/// whole drain of position messages — however many, whatever they carry —
/// leaves that item's cached state untouched.
pub proof fn lemma_drag_suppression_reconciled(
    videos: Seq<VideoInstance>,
    now_ms: u64,
    updates: Seq<PositionUpdate>,
    j: int,
)
    requires
        0 <= j < videos.len(),
        videos[j].dragging,
    ensures
        observe_all(videos, now_ms, updates).len() == videos.len(),
        observe_all(videos, now_ms, updates)[j] == videos[j],
    decreases updates.len(),
{
    if updates.len() > 0 {
        let u = updates.first();
        let stepped = observe_one(videos, now_ms, u);
        lemma_find_index(videos, u.video_id);
        let target = find_index(videos, u.video_id);
        if target >= 0 {
            assert(stepped == videos.update(
                target,
                videos[target].observed(now_ms, u.position_ms),
            ));
            if target == j {
                assert(videos[j].observed(now_ms, u.position_ms) == videos[j]);
            }
        }
        assert(stepped.len() == videos.len());
        assert(stepped[j] == videos[j]);
        lemma_drag_suppression_reconciled(stepped, now_ms, updates.drop_first(), j);
    }
}

/// State of the whole player, owned by the one consumer thread.
pub struct App {
    /// The media items, in display and scan order.
    pub videos: Vec<VideoInstance>,
    /// Next fresh item id.
    pub next_id: u64,
    /// Columns of the video grid.
    pub grid_columns: usize,
    /// A blocking load failure to surface, if any.
    pub error: Option<String>,
    /// Free-form status line.
    pub status: String,
    /// The process-wide guard around state-changing engine calls.
    pub serializer: Serializer,
    /// Consumer ticks seen so far.
    pub tick_count: u64,
    /// The item whose asynchronous operation most recently completed;
    /// informational only.
    pub last_async_complete: Option<u64>,
}

impl App {
    /// Items have distinct ids below the id counter, the grid is within
    /// bounds, and the serializer is quiescent.
    pub open spec fn wf(&self) -> bool {
        &&& ids_unique(self.videos@)
        &&& ids_below(self.videos@, self.next_id)
        &&& MIN_GRID_COLUMNS <= self.grid_columns <= MAX_GRID_COLUMNS
        &&& self.serializer.wf()
    }

    /// Find the item a message's id refers to. Unknown ids are the normal
    /// fate of messages that raced a removal; the caller treats them as
    /// no-ops.
    pub fn find_video(&self, id: u64) -> (found: Option<usize>)
        ensures
            match found {
                Some(j) => {
                    &&& j == find_index(self.videos@, id)
                    &&& j < self.videos@.len()
                    &&& self.videos@[j as int].id == id
                },
                None => find_index(self.videos@, id) == -1,
            },
    {
        let mut i: usize = 0;
        while i < self.videos.len()
            invariant
                0 <= i <= self.videos@.len(),
                forall|k: int| 0 <= k < i ==> self.videos@[k].id != id,
            decreases self.videos@.len() - i,
        {
            if self.videos[i].id == id {
                proof {
                    lemma_find_index(self.videos@, id);
                    let r = find_index(self.videos@, id);
                    assert(r != -1);
                    assert(r == i) by {
                        if r < i {
                            assert(self.videos@[r].id != id);
                        }
                        if r > i {
                            assert(self.videos@[i as int].id != id);
                        }
                    }
                }
                return Some(i);
            }
            i = i + 1;
        }
        proof {
            lemma_find_index(self.videos@, id);
            let r = find_index(self.videos@, id);
            if r >= 0 {
                assert(self.videos@[r].id != id);
            }
        }
        None
    }

    /// Record a freshly loaded item. The loader — an external collaborator —
    /// has constructed the handle, set it looping, and queried its duration
    /// once; from here on the cache is authoritative.
    pub fn register_video(&mut self, duration_ms: u64, now_ms: u64) -> (id: u64)
        requires
            old(self).wf(),
            old(self).next_id < u64::MAX,
        ensures
            final(self).wf(),
            id == old(self).next_id,
            final(self).videos@ =~= old(self).videos@.push(
                VideoInstance::initial(id, duration_ms, now_ms),
            ),
            final(self).next_id == old(self).next_id + 1,
            final(self).error is None,
            final(self).grid_columns == old(self).grid_columns,
            final(self).status == old(self).status,
            final(self).serializer == old(self).serializer,
            final(self).tick_count == old(self).tick_count,
            final(self).last_async_complete == old(self).last_async_complete,
    {
        let id = self.next_id;
        let item = VideoInstance::new(id, duration_ms, now_ms);
        self.videos.push(item);
        self.next_id = self.next_id + 1;
        self.error = None;
        proof {
            assert(ids_unique(self.videos@));
            assert(ids_below(self.videos@, self.next_id));
        }
        id
    }

    /// Process one command on the consumer thread: edit the cached state
    /// and decide the engine calls to make. Every state-changing call —
    /// seek, play/pause — is routed through the serializer; cheap settings
    /// are not. A message naming an unknown id raced a removal and is a
    /// no-op. The application performs the returned actions in order, then
    /// records a heartbeat.
    #[verifier::rlimit(100)]
    #[verifier::spinoff_prover]
    pub fn update(&mut self, now_ms: u64, message: Message) -> (result: UpdateResult)
        requires
            old(self).wf(),
        ensures
            final(self).wf(),
            update_effect(
                *old(self),
                now_ms,
                message,
                *final(self),
                result.actions@,
                result.redraw,
            ),
    {
        let mut actions: Vec<EngineAction> = Vec::new();
        let mut redraw = true;
        match message {
            Message::TogglePause(id) => {
                if let Some(j) = self.find_video(id) {
                    let mut item = self.videos[j];
                    let action = synchronized_set_paused(&mut self.serializer, id, !item.paused);
                    item.apply_playing(item.paused);
                    self.videos[j] = item;
                    actions.push(action);
                    proof {
                        lemma_ids_preserved_by_update(
                            old(self).videos@,
                            j as int,
                            self.videos@[j as int],
                            old(self).next_id,
                        );
                        assert(actions@ =~= seq![action]);
                    }
                }
            },
            Message::ToggleLoop(id) => {
                if let Some(j) = self.find_video(id) {
                    let item = self.videos[j];
                    let action = EngineAction::SetLooping { id, looping: !item.looping_enabled };
                    self.videos[j] = VideoInstance {
                        looping_enabled: !item.looping_enabled,
                        ..item
                    };
                    actions.push(action);
                    proof {
                        lemma_ids_preserved_by_update(
                            old(self).videos@,
                            j as int,
                            self.videos@[j as int],
                            old(self).next_id,
                        );
                        assert(actions@ =~= seq![action]);
                    }
                }
            },
            Message::ToggleMute(id) => {
                if let Some(j) = self.find_video(id) {
                    let item = self.videos[j];
                    let muted = !item.muted;
                    let volume = EngineAction::SetVolume {
                        id,
                        percent: if muted { 0 } else { 100 },
                    };
                    let mute = EngineAction::SetMuted { id, muted };
                    self.videos[j] = VideoInstance { muted, ..item };
                    actions.push(volume);
                    actions.push(mute);
                    proof {
                        lemma_ids_preserved_by_update(
                            old(self).videos@,
                            j as int,
                            self.videos@[j as int],
                            old(self).next_id,
                        );
                        assert(actions@ =~= seq![volume, mute]);
                    }
                }
            },
            Message::ToggleFullscreen(id) => {
                if let Some(j) = self.find_video(id) {
                    let item = self.videos[j];
                    self.videos[j] = VideoInstance { fullscreen: !item.fullscreen, ..item };
                    proof {
                        lemma_ids_preserved_by_update(
                            old(self).videos@,
                            j as int,
                            self.videos@[j as int],
                            old(self).next_id,
                        );
                    }
                }
            },
            Message::Seek(id, pos_ms) => {
                if let Some(j) = self.find_video(id) {
                    let item = self.videos[j];
                    self.videos[j] = VideoInstance {
                        dragging: true,
                        pre_drag_paused: if item.dragging {
                            item.pre_drag_paused
                        } else {
                            item.paused
                        },
                        position_ms: pos_ms,
                        ..item
                    };
                    proof {
                        lemma_ids_preserved_by_update(
                            old(self).videos@,
                            j as int,
                            self.videos@[j as int],
                            old(self).next_id,
                        );
                    }
                }
            },
            Message::SeekRelease(id) => {
                if let Some(j) = self.find_video(id) {
                    let item = self.videos[j];
                    let action = synchronized_seek(
                        &mut self.serializer,
                        id,
                        item.position_ms,
                        false,
                    );
                    self.videos[j] = VideoInstance { dragging: false, ..item };
                    actions.push(action);
                    proof {
                        lemma_ids_preserved_by_update(
                            old(self).videos@,
                            j as int,
                            self.videos@[j as int],
                            old(self).next_id,
                        );
                        assert(actions@ =~= seq![action]);
                    }
                }
            },
            Message::EndOfStream(_) => {},
            Message::NewFrame(id) => {
                if let Some(j) = self.find_video(id) {
                    let item = self.videos[j];
                    let elapsed = if now_ms >= item.last_ui_update_ms {
                        now_ms - item.last_ui_update_ms
                    } else {
                        0
                    };
                    if elapsed < UI_THROTTLE_MS {
                        self.videos[j] = VideoInstance { pending_position_update: true, ..item };
                        redraw = false;
                    } else {
                        self.videos[j] = VideoInstance {
                            pending_position_update: true,
                            last_ui_update_ms: now_ms,
                            ..item
                        };
                    }
                    proof {
                        lemma_ids_preserved_by_update(
                            old(self).videos@,
                            j as int,
                            self.videos@[j as int],
                            old(self).next_id,
                        );
                    }
                }
            },
            Message::RemoveVideo(id) => {
                if let Some(j) = self.find_video(id) {
                    self.videos.remove(j);
                    proof {
                        lemma_ids_preserved_by_remove(
                            old(self).videos@,
                            j as int,
                            old(self).next_id,
                        );
                    }
                }
            },
            Message::VideoHoverChanged(id, hovered) => {
                if let Some(j) = self.find_video(id) {
                    let item = self.videos[j];
                    self.videos[j] = VideoInstance { hovered, ..item };
                    proof {
                        lemma_ids_preserved_by_update(
                            old(self).videos@,
                            j as int,
                            self.videos@[j as int],
                            old(self).next_id,
                        );
                    }
                }
            },
            Message::IncreaseColumns => {
                if self.grid_columns < MAX_GRID_COLUMNS {
                    self.grid_columns = self.grid_columns + 1;
                }
            },
            Message::DecreaseColumns => {
                if self.grid_columns > MIN_GRID_COLUMNS {
                    self.grid_columns = self.grid_columns - 1;
                }
            },
        }
        UpdateResult { actions, redraw }
    }

    /// Fold a drain of buffered position messages into the cache, in
    /// arrival order.
    fn apply_position_updates(&mut self, now_ms: u64, updates: &Vec<PositionUpdate>)
        requires
            old(self).wf(),
        ensures
            final(self).wf(),
            final(self).videos@ == observe_all(old(self).videos@, now_ms, updates@),
            final(self).next_id == old(self).next_id,
            final(self).grid_columns == old(self).grid_columns,
            final(self).error == old(self).error,
            final(self).status == old(self).status,
            final(self).tick_count == old(self).tick_count,
            final(self).last_async_complete == old(self).last_async_complete,
            serializer_unchanged(old(self).serializer, final(self).serializer),
    {
        let mut i: usize = 0;
        proof {
            assert(updates@.skip(0) =~= updates@);
        }
        while i < updates.len()
            invariant
                0 <= i <= updates@.len(),
                self.wf(),
                observe_all(self.videos@, now_ms, updates@.skip(i as int)) == observe_all(
                    old(self).videos@,
                    now_ms,
                    updates@,
                ),
                self.next_id == old(self).next_id,
                self.grid_columns == old(self).grid_columns,
                self.error == old(self).error,
                self.status == old(self).status,
                self.tick_count == old(self).tick_count,
                self.last_async_complete == old(self).last_async_complete,
                serializer_unchanged(old(self).serializer, self.serializer),
            decreases updates@.len() - i,
        {
            let ghost vpre = self.videos@;
            let u = updates[i];
            if let Some(j) = self.find_video(u.video_id) {
                let mut item = self.videos[j];
                item.observe_position(now_ms, u.position_ms);
                self.videos[j] = item;
                proof {
                    lemma_ids_preserved_by_update(
                        vpre,
                        j as int,
                        self.videos@[j as int],
                        self.next_id,
                    );
                }
            }
            proof {
                assert(self.videos@ == observe_one(vpre, now_ms, updates@[i as int]));
                assert(updates@.skip(i as int).first() == updates@[i as int]);
                assert(updates@.skip(i as int).drop_first() =~= updates@.skip(i as int + 1));
                assert(observe_all(vpre, now_ms, updates@.skip(i as int)) == observe_all(
                    self.videos@,
                    now_ms,
                    updates@.skip(i as int + 1),
                ));
            }
            i = i + 1;
        }
        proof {
            assert(updates@.skip(updates@.len() as int) =~= Seq::<PositionUpdate>::empty());
        }
    }

    /// The first stalled item in scan order, if any.
    pub fn find_stall_candidate(&self, now_ms: u64) -> (found: Option<usize>)
        ensures
            match found {
                Some(s) => {
                    &&& s == first_stalled(self.videos@, now_ms)
                    &&& s < self.videos@.len()
                    &&& self.videos@[s as int].stalled(now_ms)
                },
                None => first_stalled(self.videos@, now_ms) == -1,
            },
    {
        let mut i: usize = 0;
        while i < self.videos.len()
            invariant
                0 <= i <= self.videos@.len(),
                forall|k: int| 0 <= k < i ==> !self.videos@[k].stalled(now_ms),
            decreases self.videos@.len() - i,
        {
            if self.videos[i].is_stalled(now_ms) {
                proof {
                    lemma_first_stalled(self.videos@, now_ms);
                    let r = first_stalled(self.videos@, now_ms);
                    assert(self.videos@[i as int].stalled(now_ms));
                    assert(r != -1);
                    assert(r == i) by {
                        if r < i {
                            assert(!self.videos@[r].stalled(now_ms));
                        }
                        if r > i {
                            assert(!self.videos@[i as int].stalled(now_ms));
                        }
                    }
                }
                return Some(i);
            }
            i = i + 1;
        }
        proof {
            lemma_first_stalled(self.videos@, now_ms);
            let r = first_stalled(self.videos@, now_ms);
            if r >= 0 {
                assert(!self.videos@[r].stalled(now_ms));
            }
        }
        None
    }

    /// One consumer tick: drain and reconcile, then scan for stalls on
    /// every tenth tick and recover at most one item.
    pub fn tick(&mut self, now_ms: u64, updates: Vec<PositionUpdate>, events: Vec<BusEvent>) -> (actions: Vec<EngineAction>)
        requires
            old(self).wf(),
        ensures
            final(self).wf(),
            tick_effect(*old(self), now_ms, updates@, events@, *final(self), actions@),
    {
        self.apply_position_updates(now_ms, &updates);
        let recorded = latest_async_completion(&events, self.last_async_complete);
        self.last_async_complete = recorded;
        if self.tick_count == u64::MAX {
            self.tick_count = 0;
        } else {
            self.tick_count = self.tick_count + 1;
        }
        let mut actions: Vec<EngineAction> = Vec::new();
        if self.tick_count % STALL_SCAN_PERIOD_TICKS == 0 {
            if let Some(s) = self.find_stall_candidate(now_ms) {
                let ghost mid = self.videos@;
                let item = self.videos[s];
                let seek = synchronized_seek(
                    &mut self.serializer,
                    item.id,
                    item.last_change_value_ms,
                    false,
                );
                let resume = synchronized_set_paused(&mut self.serializer, item.id, false);
                self.videos[s] = VideoInstance { last_change_ms: now_ms, paused: false, ..item };
                actions.push(seek);
                actions.push(resume);
                proof {
                    lemma_ids_preserved_by_update(
                        mid,
                        s as int,
                        self.videos@[s as int],
                        self.next_id,
                    );
                    assert(actions@ =~= seq![seek, resume]);
                }
            }
        }
        actions
    }

    /// The snapshot of item ids the background threads are (re)started
    /// with, in scan order. The application pairs each id with its
    /// pipeline; the threads treat ids since removed as no-ops.
    pub fn poller_snapshot(&self) -> (ids: Vec<u64>)
        ensures
            ids@.len() == self.videos@.len(),
            forall|k: int| 0 <= k < ids@.len() ==> ids@[k] == self.videos@[k].id,
    {
        let mut ids: Vec<u64> = Vec::new();
        let mut i: usize = 0;
        while i < self.videos.len()
            invariant
                0 <= i <= self.videos@.len(),
                ids@.len() == i,
                forall|k: int| 0 <= k < i ==> ids@[k] == self.videos@[k].id,
            decreases self.videos@.len() - i,
        {
            ids.push(self.videos[i].id);
            i = i + 1;
        }
        ids
    }
}

impl Default for App {
    /// A fresh, empty player.
    fn default() -> (app: App)
        ensures
            app.wf(),
            app.videos@.len() == 0,
            app.next_id == 0,
            app.grid_columns == DEFAULT_GRID_COLUMNS,
            app.error is None,
            app.status@ == "Drop video files here to load them"@,
            app.serializer.log@.len() == 0,
            app.serializer.max_open == 0,
            app.serializer.sections_entered == 0,
            app.tick_count == 0,
            app.last_async_complete is None,
    {
        let status = "Drop video files here to load them".to_string();
        proof {
            vstd::string::to_string_from_display_ensures_for_str(
                "Drop video files here to load them",
                status,
            );
        }
        App {
            videos: Vec::new(),
            next_id: 0,
            grid_columns: DEFAULT_GRID_COLUMNS,
            error: None,
            status,
            serializer: Serializer::new(),
            tick_count: 0,
            last_async_complete: None,
        }
    }
}

} // verus!
