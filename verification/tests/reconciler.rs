use cineplex::bus::BusEvent;
use cineplex::poller::PositionUpdate;
use cineplex::reconciler::{latest_async_completion, App, Message};
use cineplex::sync::EngineAction;

fn update_of(id: u64, position_ms: u64) -> PositionUpdate {
    PositionUpdate { video_id: id, position_ms }
}

#[test]
fn default_app_is_empty() {
    let app = App::default();
    assert!(app.videos.is_empty());
    assert_eq!(app.next_id, 0);
    assert_eq!(app.grid_columns, 2);
    assert!(app.error.is_none());
    assert_eq!(app.status, "Drop video files here to load them");
    assert_eq!(app.tick_count, 0);
    assert!(app.serializer.is_idle());
}

#[test]
fn registration_hands_out_fresh_ids() {
    let mut app = App::default();
    let a = app.register_video(10_000, 0);
    let b = app.register_video(20_000, 0);
    assert_eq!((a, b), (0, 1));
    assert_eq!(app.next_id, 2);
    assert_eq!(app.videos.len(), 2);
    assert_eq!(app.videos[1].duration_ms, 20_000);
    assert_eq!(app.poller_snapshot(), vec![0, 1]);
}

#[test]
fn toggle_pause_flips_cache_and_serializes_transition() {
    let mut app = App::default();
    app.register_video(10_000, 0);
    let result = app.update(0, Message::TogglePause(0));
    assert!(app.videos[0].paused);
    assert_eq!(result.actions, vec![EngineAction::SetPlaying { id: 0, playing: false }]);
    assert_eq!(app.serializer.log.len(), 1);
    let result = app.update(0, Message::TogglePause(0));
    assert!(!app.videos[0].paused);
    assert_eq!(result.actions, vec![EngineAction::SetPlaying { id: 0, playing: true }]);
    assert_eq!(app.serializer.max_open, 1);
}

#[test]
fn toggle_loop_is_cheap_and_unserialized() {
    let mut app = App::default();
    app.register_video(10_000, 0);
    let result = app.update(0, Message::ToggleLoop(0));
    assert!(!app.videos[0].looping_enabled);
    assert_eq!(result.actions, vec![EngineAction::SetLooping { id: 0, looping: false }]);
    assert_eq!(app.serializer.log.len(), 0);
    assert_eq!(app.serializer.sections_entered, 0);
}

#[test]
fn toggle_mute_sets_volume_then_mute() {
    let mut app = App::default();
    app.register_video(10_000, 0);
    let result = app.update(0, Message::ToggleMute(0));
    assert!(app.videos[0].muted);
    assert_eq!(
        result.actions,
        vec![
            EngineAction::SetVolume { id: 0, percent: 0 },
            EngineAction::SetMuted { id: 0, muted: true },
        ]
    );
    let result = app.update(0, Message::ToggleMute(0));
    assert!(!app.videos[0].muted);
    assert_eq!(
        result.actions,
        vec![
            EngineAction::SetVolume { id: 0, percent: 100 },
            EngineAction::SetMuted { id: 0, muted: false },
        ]
    );
}

#[test]
fn unknown_ids_are_inert() {
    let mut app = App::default();
    app.register_video(10_000, 0);
    let before = app.videos.clone();
    let result = app.update(0, Message::TogglePause(99));
    assert_eq!(app.videos, before);
    assert!(result.actions.is_empty());
    let actions = app.tick(100, vec![update_of(99, 5_000)], vec![]);
    assert!(actions.is_empty());
    assert_eq!(app.videos, before);
}

#[test]
fn drag_suppression_and_release_seeks_last_dragged_value() {
    let mut app = App::default();
    app.register_video(60_000, 0);
    app.update(0, Message::Seek(0, 3_000));
    assert!(app.videos[0].dragging);
    assert_eq!(app.videos[0].position_ms, 3_000);
    // Any number of position messages while dragging changes nothing.
    for k in 0..20u64 {
        app.tick(1_000 + k, vec![update_of(0, 40_000 + k)], vec![]);
        assert_eq!(app.videos[0].position_ms, 3_000);
    }
    // A further drag message moves the slider value.
    app.update(0, Message::Seek(0, 8_000));
    assert_eq!(app.videos[0].position_ms, 8_000);
    // Release performs exactly one seek, to the last dragged value.
    let result = app.update(0, Message::SeekRelease(0));
    assert!(!app.videos[0].dragging);
    assert_eq!(
        result.actions,
        vec![EngineAction::Seek { id: 0, target_ms: 8_000, accurate: false }]
    );
}

#[test]
fn drag_capture_restores_pause_intent_flag() {
    let mut app = App::default();
    app.register_video(60_000, 0);
    app.update(0, Message::TogglePause(0));
    assert!(app.videos[0].paused);
    app.update(0, Message::Seek(0, 1_000));
    assert!(app.videos[0].pre_drag_paused);
    app.update(0, Message::Seek(0, 2_000));
    assert!(app.videos[0].pre_drag_paused);
    app.update(0, Message::SeekRelease(0));
    // The pause intent survives the drag untouched: scrubbing never pauses
    // or resumes by itself.
    assert!(app.videos[0].paused);
}

#[test]
fn stalled_looping_item_gets_exactly_one_recovery() {
    // Item playing and looping with cached duration 12 s; the poller keeps
    // reporting 11.95 s unchanged. Once the silence exceeds the stall
    // threshold, the next scan issues exactly one seek to 11.95 s plus a
    // forced resume, and nothing before that.
    let mut app = App::default();
    app.register_video(12_000, 0);
    let mut recoveries: Vec<(u64, Vec<EngineAction>)> = Vec::new();
    for k in 1..=45u64 {
        let now = 900 + 100 * k; // first report at t=1000 ms
        let actions = app.tick(now, vec![update_of(0, 11_950)], vec![]);
        if !actions.is_empty() {
            recoveries.push((now, actions));
        }
    }
    assert_eq!(recoveries.len(), 1);
    let (when, ref actions) = recoveries[0];
    // Scan ticks are every 10th; the first one past 1000 + 3000 ms of
    // silence is tick 40 at t=4900.
    assert_eq!(when, 4_900);
    assert_eq!(
        *actions,
        vec![
            EngineAction::Seek { id: 0, target_ms: 11_950, accurate: false },
            EngineAction::SetPlaying { id: 0, playing: true },
        ]
    );
    assert_eq!(app.serializer.log, *actions);
    assert_eq!(app.serializer.max_open, 1);
}

#[test]
fn two_stalled_items_recover_in_different_cycles() {
    let mut app = App::default();
    app.register_video(10_000, 0);
    app.register_video(10_000, 0);
    // Both silent since t=0, both playing and looping: stalled together.
    app.tick_count = 9; // next tick is a scan tick
    let actions = app.tick(4_000, vec![], vec![]);
    assert_eq!(
        actions,
        vec![
            EngineAction::Seek { id: 0, target_ms: 0, accurate: false },
            EngineAction::SetPlaying { id: 0, playing: true },
        ]
    );
    assert_eq!(app.videos[0].last_change_ms, 4_000);
    assert_eq!(app.videos[1].last_change_ms, 0);
    // The recovered item is out of the running; the next scan cycle picks
    // up the other one.
    app.tick_count = 19;
    let actions = app.tick(4_100, vec![], vec![]);
    assert_eq!(
        actions,
        vec![
            EngineAction::Seek { id: 1, target_ms: 0, accurate: false },
            EngineAction::SetPlaying { id: 1, playing: true },
        ]
    );
}

#[test]
fn paused_or_dragging_items_are_never_recovered() {
    let mut app = App::default();
    app.register_video(10_000, 0);
    app.update(0, Message::TogglePause(0));
    app.tick_count = 9;
    let actions = app.tick(10_000, vec![], vec![]);
    assert!(actions.is_empty());
    app.update(0, Message::TogglePause(0)); // playing again
    app.update(0, Message::Seek(0, 1_000)); // but dragging
    app.tick_count = 19;
    let actions = app.tick(20_000, vec![], vec![]);
    assert!(actions.is_empty());
}

#[test]
fn concurrent_seek_requests_share_the_guard() {
    // Two items receive a seek request in the same consumer tick: both are
    // issued, in order, and the instrumented counter shows their critical
    // sections never overlapped.
    let mut app = App::default();
    app.register_video(10_000, 0);
    app.register_video(10_000, 0);
    app.update(0, Message::Seek(0, 2_000));
    app.update(0, Message::Seek(1, 5_000));
    let first = app.update(0, Message::SeekRelease(0));
    let second = app.update(0, Message::SeekRelease(1));
    assert_eq!(
        first.actions,
        vec![EngineAction::Seek { id: 0, target_ms: 2_000, accurate: false }]
    );
    assert_eq!(
        second.actions,
        vec![EngineAction::Seek { id: 1, target_ms: 5_000, accurate: false }]
    );
    assert_eq!(app.serializer.log.len(), 2);
    assert_eq!(app.serializer.sections_entered, 2);
    assert_eq!(app.serializer.max_open, 1);
    assert!(app.serializer.is_idle());
}

#[test]
fn removal_is_terminal_for_stale_messages() {
    let mut app = App::default();
    app.register_video(10_000, 0);
    app.register_video(10_000, 0);
    app.update(0, Message::RemoveVideo(0));
    assert_eq!(app.videos.len(), 1);
    assert_eq!(app.videos[0].id, 1);
    // A stale position message for the removed id changes nothing.
    app.tick(1_000, vec![update_of(0, 9_000)], vec![]);
    assert_eq!(app.videos.len(), 1);
    assert_eq!(app.videos[0].position_ms, 0);
}

#[test]
fn new_frames_are_throttled() {
    let mut app = App::default();
    app.register_video(10_000, 0);
    let result = app.update(10, Message::NewFrame(0));
    assert!(!result.redraw); // within 33 ms of the initial timestamp
    assert!(app.videos[0].pending_position_update);
    let result = app.update(40, Message::NewFrame(0));
    assert!(result.redraw);
    assert_eq!(app.videos[0].last_ui_update_ms, 40);
    let result = app.update(50, Message::NewFrame(0));
    assert!(!result.redraw);
    assert_eq!(app.videos[0].last_ui_update_ms, 40);
}

#[test]
fn grid_columns_stay_within_bounds() {
    let mut app = App::default();
    for _ in 0..20 {
        app.update(0, Message::IncreaseColumns);
    }
    assert_eq!(app.grid_columns, 10);
    for _ in 0..20 {
        app.update(0, Message::DecreaseColumns);
    }
    assert_eq!(app.grid_columns, 1);
}

#[test]
fn end_of_stream_is_left_to_the_engine() {
    let mut app = App::default();
    app.register_video(10_000, 0);
    let before = app.videos.clone();
    let result = app.update(0, Message::EndOfStream(0));
    assert_eq!(app.videos, before);
    assert!(result.actions.is_empty());
    assert_eq!(app.serializer.log.len(), 0);
}

#[test]
fn async_completions_are_recorded_informationally() {
    let events = vec![
        BusEvent::AsyncOperationComplete(3),
        BusEvent::Error(3, "x".to_string()),
        BusEvent::AsyncOperationComplete(5),
        BusEvent::EndOfStream(5),
    ];
    assert_eq!(latest_async_completion(&events, None), Some(5));
    assert_eq!(latest_async_completion(&vec![], Some(7)), Some(7));
    let mut app = App::default();
    app.register_video(10_000, 0);
    app.tick(100, vec![], events);
    assert_eq!(app.last_async_complete, Some(5));
}

#[test]
fn tick_counter_wraps() {
    let mut app = App::default();
    app.tick_count = u64::MAX;
    app.tick(0, vec![], vec![]);
    assert_eq!(app.tick_count, 0);
}

#[test]
fn hover_and_fullscreen_are_cached_flags() {
    let mut app = App::default();
    app.register_video(10_000, 0);
    app.update(0, Message::VideoHoverChanged(0, true));
    assert!(app.videos[0].hovered);
    app.update(0, Message::ToggleFullscreen(0));
    assert!(app.videos[0].fullscreen);
    app.update(0, Message::ToggleFullscreen(0));
    assert!(!app.videos[0].fullscreen);
}
