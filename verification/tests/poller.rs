use cineplex::poller::{
    position_ms_from_ns, query_policy, sweep_position_samples, PositionUpdate,
    QueryPolicy, StateField,
};

#[test]
fn nanoseconds_truncate_to_milliseconds() {
    assert_eq!(position_ms_from_ns(0), 0);
    assert_eq!(position_ms_from_ns(999_999), 0);
    assert_eq!(position_ms_from_ns(1_000_000), 1);
    assert_eq!(position_ms_from_ns(1_500_000), 1);
    assert_eq!(position_ms_from_ns(11_950_000_000), 11_950);
}

#[test]
fn sweep_publishes_successes_in_order() {
    let samples = vec![
        (1u64, Some(1_000_000_000u64)),
        (2u64, None),
        (3u64, Some(500_000_000u64)),
    ];
    let messages = sweep_position_samples(&samples);
    assert_eq!(
        messages,
        vec![
            PositionUpdate { video_id: 1, position_ms: 1_000 },
            PositionUpdate { video_id: 3, position_ms: 500 },
        ]
    );
}

#[test]
fn sweep_of_failures_publishes_nothing() {
    let samples = vec![(1u64, None), (2u64, None)];
    assert_eq!(sweep_position_samples(&samples), vec![]);
}

#[test]
fn consumer_query_policy_is_declarative() {
    assert_eq!(query_policy(StateField::Position), QueryPolicy::NeverQuery);
    assert_eq!(query_policy(StateField::Duration), QueryPolicy::BoundedQuery);
    assert_eq!(query_policy(StateField::Paused), QueryPolicy::AlwaysCached);
    assert_eq!(query_policy(StateField::Looping), QueryPolicy::AlwaysCached);
    assert_eq!(query_policy(StateField::Muted), QueryPolicy::AlwaysCached);
    assert_eq!(query_policy(StateField::Volume), QueryPolicy::AlwaysCached);
}
