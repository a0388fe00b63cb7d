use pomodoro_core::event::EventOut;
use pomodoro_core::idle::{IdleDetector, IDLE_THRESHOLD_SECS, POLL_INTERVAL_SECS};

#[test]
fn constants_match_the_design() {
    assert_eq!(IDLE_THRESHOLD_SECS, 300);
    assert_eq!(POLL_INTERVAL_SECS, 10);
}

#[test]
fn fresh_detector_is_disabled_with_no_edge() {
    let d = IdleDetector::new();
    assert!(!d.enabled);
    assert!(!d.was_idle);
}

#[test]
fn disabled_tick_never_emits() {
    let mut d = IdleDetector::new();
    assert_eq!(d.tick(Some(10_000_000)), None);
    assert_eq!(d.tick(None), None);
}

#[test]
fn classification_is_threshold_on_whole_seconds() {
    // 300_000 ms is exactly 300 s: idle
    let mut d = IdleDetector::new();
    d.set_enabled(true);
    assert_eq!(d.tick(Some(300_000)), Some(EventOut::IdlePause));

    // 299_999 ms is 299 whole seconds: not idle, sub-second part discarded
    let mut d = IdleDetector::new();
    d.set_enabled(true);
    assert_eq!(d.tick(Some(299_999)), None);
}

#[test]
fn edges_fire_exactly_once_per_change() {
    let mut d = IdleDetector::new();
    d.set_enabled(true);
    assert_eq!(d.tick(Some(310_000)), Some(EventOut::IdlePause));
    assert_eq!(d.tick(Some(320_000)), None); // still idle: no repeat
    assert_eq!(d.tick(Some(5_000)), Some(EventOut::IdleResume));
    assert_eq!(d.tick(Some(4_000)), None); // still active: no repeat
}

#[test]
fn first_tick_after_enabling_fires_no_resume() {
    let mut d = IdleDetector::new();
    d.set_enabled(true);
    // fresh edge is not-idle, so an active reading is not a transition
    assert_eq!(d.tick(Some(0)), None);
}

#[test]
fn reenabling_clears_the_prior_edge() {
    let mut d = IdleDetector::new();
    d.set_enabled(true);
    assert_eq!(d.tick(Some(400_000)), Some(EventOut::IdlePause));
    d.set_enabled(false);
    d.set_enabled(true);
    // idle time never dropped below the threshold, yet the pause fires again
    assert_eq!(d.tick(Some(400_000)), Some(EventOut::IdlePause));
}

#[test]
fn tick_while_disabled_resets_the_edge() {
    let mut d = IdleDetector::new();
    d.set_enabled(true);
    assert_eq!(d.tick(Some(400_000)), Some(EventOut::IdlePause));
    d.set_enabled(false);
    assert_eq!(d.tick(None), None);
    assert!(!d.was_idle);
    d.set_enabled(true);
    assert_eq!(d.tick(Some(400_000)), Some(EventOut::IdlePause));
}

#[test]
fn ten_failed_queries_then_one_success_emit_exactly_one_pause() {
    let mut d = IdleDetector::new();
    d.set_enabled(true);
    let mut emitted = Vec::new();
    for _ in 0..10 {
        if let Some(e) = d.tick(None) {
            emitted.push(e);
        }
    }
    assert!(emitted.is_empty()); // failed queries are silent
    if let Some(e) = d.tick(Some(310_000)) {
        emitted.push(e);
    }
    assert_eq!(emitted, vec![EventOut::IdlePause]);
}
