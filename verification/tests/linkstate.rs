//! Whether the host is still answering.

use std::time::{Duration, Instant};

use oxutrm::linkstate::{LinkState, Phase, SILENT_AFTER};

fn t0() -> Instant {
    Instant::now()
}

#[test]
fn a_fresh_link_is_live() {
    assert_eq!(LinkState::new(t0()).phase(), Phase::Live);
}

#[test]
fn silence_with_a_reply_owed_becomes_silent_after_the_grace_period() {
    let t = t0();
    let mut s = LinkState::new(t);

    assert_eq!(s.evaluate(t + Duration::from_millis(1900), true), Phase::Live);
    assert!(matches!(
        s.evaluate(t + Duration::from_millis(2100), true),
        Phase::Silent { .. }
    ));
}

#[test]
fn silence_with_nothing_owed_stays_live() {
    let t = t0();
    let mut s = LinkState::new(t);

    assert_eq!(s.evaluate(t + Duration::from_secs(60), false), Phase::Live);
}

#[test]
fn hearing_from_the_host_returns_to_live() {
    let t = t0();
    let mut s = LinkState::new(t);
    s.evaluate(t + Duration::from_secs(3), true);

    s.heard(t + Duration::from_secs(4));
    assert_eq!(s.phase(), Phase::Live);
}

#[test]
fn the_silence_started_when_the_host_went_quiet_not_when_we_noticed() {
    let t = t0();
    let mut s = LinkState::new(t);
    s.heard(t);

    let Phase::Silent { since } = s.evaluate(t + Duration::from_secs(5), true) else {
        panic!("expected Silent");
    };
    assert_eq!(since, t, "the counter must run from the last thing we heard");
}

#[test]
fn silence_persists_across_laps_without_restarting_the_clock() {
    let t = t0();
    let mut s = LinkState::new(t);

    let first = s.evaluate(t + Duration::from_secs(3), true);
    let later = s.evaluate(t + Duration::from_secs(9), true);

    assert_eq!(first, later, "the clock restarted mid-outage");
}

#[test]
fn the_grace_period_is_two_seconds_to_the_nanosecond() {
    let t = t0();
    let mut s = LinkState::new(t);
    assert_eq!(s.evaluate_after(SILENT_AFTER - 1, true), Phase::Live);
    assert_eq!(s.evaluate_after(SILENT_AFTER, true), Phase::Silent { since: t });

    let mut s = LinkState::new(t);
    assert_eq!(
        s.evaluate(t + Duration::from_nanos(1_999_999_999), true),
        Phase::Live
    );
    assert_eq!(
        s.evaluate(t + Duration::from_nanos(2_000_000_000), true),
        Phase::Silent { since: t }
    );
}

#[test]
fn a_moment_before_the_last_thing_heard_is_no_silence() {
    let t = t0();
    let mut s = LinkState::new(t + Duration::from_secs(10));
    assert_eq!(s.evaluate(t, true), Phase::Live);
}
