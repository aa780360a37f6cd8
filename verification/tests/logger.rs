use cineplex::gst_logger::{
    check_timeout, log_message_handler_complete, log_pause_toggle_complete,
    log_position_query_complete, log_seek_complete, log_seek_complete_no_position,
    log_seek_error, LogCategory, LogLevel,
};

#[test]
fn category_tags() {
    assert_eq!(LogCategory::StateChange.as_str(), "STATE_CHANGE");
    assert_eq!(LogCategory::PositionQuery.as_str(), "POSITION_QUERY");
    assert_eq!(LogCategory::Seek.as_str(), "SEEK");
    assert_eq!(LogCategory::Pause.as_str(), "PAUSE");
    assert_eq!(LogCategory::Audio.as_str(), "AUDIO");
    assert_eq!(LogCategory::Message.as_str(), "MESSAGE");
}

#[test]
fn position_query_levels() {
    assert_eq!(log_position_query_complete(1, 5_000, 5), LogLevel::Trace);
    assert_eq!(log_position_query_complete(1, 5_000, 10), LogLevel::Trace);
    assert_eq!(log_position_query_complete(1, 5_000, 11), LogLevel::Debug);
    assert_eq!(log_position_query_complete(1, 5_000, 100), LogLevel::Debug);
    assert_eq!(log_position_query_complete(1, 5_000, 101), LogLevel::Warn);
}

#[test]
fn seek_completion_levels() {
    assert_eq!(log_seek_complete(0, 1_000, 999), LogLevel::Info);
    assert_eq!(log_seek_complete(0, 1_000, 1_000), LogLevel::Info);
    assert_eq!(log_seek_complete(0, 1_000, 1_001), LogLevel::Warn);
    assert_eq!(log_seek_complete(0, 1_000, 2_000), LogLevel::Warn);
    assert_eq!(log_seek_complete(0, 1_000, 2_001), LogLevel::Error);
}

#[test]
fn seek_completion_without_position_levels() {
    assert_eq!(log_seek_complete_no_position(0, 500), LogLevel::Info);
    assert_eq!(log_seek_complete_no_position(0, 1_500), LogLevel::Warn);
    assert_eq!(log_seek_complete_no_position(0, 3_000), LogLevel::Error);
}

#[test]
fn seek_errors_are_errors_however_fast() {
    assert_eq!(log_seek_error(0, 0), LogLevel::Error);
    assert_eq!(log_seek_error(0, 10_000), LogLevel::Error);
}

#[test]
fn pause_toggle_levels() {
    assert_eq!(log_pause_toggle_complete(0, true, 500), LogLevel::Debug);
    assert_eq!(log_pause_toggle_complete(0, true, 501), LogLevel::Warn);
    assert_eq!(log_pause_toggle_complete(0, false, 2_000), LogLevel::Warn);
    assert_eq!(log_pause_toggle_complete(0, false, 2_001), LogLevel::Error);
}

#[test]
fn message_handler_levels() {
    assert_eq!(log_message_handler_complete(16), None);
    assert_eq!(log_message_handler_complete(17), Some(LogLevel::Debug));
    assert_eq!(log_message_handler_complete(100), Some(LogLevel::Debug));
    assert_eq!(log_message_handler_complete(101), Some(LogLevel::Warn));
}

#[test]
fn timeout_check_is_strict() {
    assert!(!check_timeout(100, 100));
    assert!(check_timeout(101, 100));
    assert!(!check_timeout(0, 0));
}
