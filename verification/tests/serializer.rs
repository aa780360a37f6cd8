use cineplex::sync::{
    synchronized_seek, synchronized_set_paused, EngineAction, Serializer,
};

#[test]
fn fresh_serializer_is_idle() {
    let s = Serializer::new();
    assert!(s.is_idle());
    assert_eq!(s.max_open, 0);
    assert_eq!(s.sections_entered, 0);
    assert_eq!(s.log.len(), 0);
}

#[test]
fn sections_bracket_one_call_at_a_time() {
    let mut s = Serializer::new();
    s.begin_section();
    assert!(!s.is_idle());
    assert_eq!(s.open_sections, 1);
    s.end_section();
    s.begin_section();
    s.end_section();
    assert!(s.is_idle());
    assert_eq!(s.max_open, 1);
    assert_eq!(s.sections_entered, 2);
}

#[test]
fn seeks_are_forced_inaccurate() {
    let mut s = Serializer::new();
    let action = synchronized_seek(&mut s, 7, 1_234, true);
    assert_eq!(
        action,
        EngineAction::Seek { id: 7, target_ms: 1_234, accurate: false }
    );
    assert_eq!(s.log, vec![action]);
}

#[test]
fn set_paused_issues_play_transition() {
    let mut s = Serializer::new();
    let action = synchronized_set_paused(&mut s, 3, true);
    assert_eq!(action, EngineAction::SetPlaying { id: 3, playing: false });
    let action2 = synchronized_set_paused(&mut s, 3, false);
    assert_eq!(action2, EngineAction::SetPlaying { id: 3, playing: true });
    assert_eq!(s.log, vec![action, action2]);
}

#[test]
fn interleaved_requests_never_overlap() {
    // Seek and pause requests against two different items, interleaved as
    // a consumer would process them: the instrumented reentrancy counter
    // never exceeds one, and every call is on the log in issue order.
    let mut s = Serializer::new();
    let a = synchronized_seek(&mut s, 0, 100, false);
    let b = synchronized_set_paused(&mut s, 1, true);
    let c = synchronized_seek(&mut s, 1, 200, true);
    let d = synchronized_set_paused(&mut s, 0, false);
    assert_eq!(s.max_open, 1);
    assert_eq!(s.open_sections, 0);
    assert_eq!(s.sections_entered, 4);
    assert_eq!(s.log, vec![a, b, c, d]);
}
