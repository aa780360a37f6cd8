use cineplex::watchdog::{HealthStatus, Watchdog};

#[test]
fn fresh_watchdog_is_nominal() {
    let w = Watchdog::new(1_000);
    assert_eq!(w.check(1_000), HealthStatus::Nominal);
    assert_eq!(w.elapsed_ms(1_000), 0);
}

#[test]
fn classification_boundaries() {
    let w = Watchdog::new(0);
    assert_eq!(w.check(2_000), HealthStatus::Nominal);
    assert_eq!(w.check(2_001), HealthStatus::Slow);
    assert_eq!(w.check(5_000), HealthStatus::Slow);
    assert_eq!(w.check(5_001), HealthStatus::FreezeSuspected);
    assert_eq!(w.check(30_000), HealthStatus::FreezeSuspected);
    assert_eq!(w.check(30_001), HealthStatus::FreezeCritical);
}

#[test]
fn silent_consumer_reported_then_heartbeat_resets() {
    // No heartbeat for six seconds while the watchdog wakes every three:
    // the first check past the five-second threshold reports a suspected
    // freeze; a heartbeat then brings the next check back to nominal.
    let mut w = Watchdog::new(0);
    assert_eq!(w.check(3_000), HealthStatus::Slow);
    assert_eq!(w.check(6_000), HealthStatus::FreezeSuspected);
    w.heartbeat(8_990);
    assert_eq!(w.elapsed_ms(9_000), 10);
    assert_eq!(w.check(9_000), HealthStatus::Nominal);
}

#[test]
fn heartbeat_overwrites_timestamp() {
    let mut w = Watchdog::new(0);
    w.heartbeat(500);
    w.heartbeat(700);
    assert_eq!(w.last_heartbeat_ms, 700);
}

#[test]
fn clock_behind_heartbeat_counts_as_zero() {
    let w = Watchdog::new(10_000);
    assert_eq!(w.elapsed_ms(9_000), 0);
    assert_eq!(w.check(9_000), HealthStatus::Nominal);
}
