use std::collections::VecDeque;
use std::time::Duration;

use overlay_engine::durations::{
    record_compositor_duration, record_render_duration, COMPOSITOR_DURATION_WINDOW,
    RENDER_DURATION_WINDOW,
};

fn nanos(d: Duration) -> u64 {
    d.as_nanos() as u64
}

#[test]
fn record_render_duration_below_threshold_does_not_warn() {
    let mut w: VecDeque<u64> = VecDeque::new();
    for _ in 0..RENDER_DURATION_WINDOW {
        let (_, warn) = record_render_duration(&mut w, nanos(Duration::from_millis(1)));
        assert!(!warn);
    }
    assert_eq!(w.len(), RENDER_DURATION_WINDOW);
}

#[test]
fn record_render_duration_partial_window_never_warns() {
    let mut w: VecDeque<u64> = VecDeque::new();
    for _ in 0..(RENDER_DURATION_WINDOW - 1) {
        let (_, warn) = record_render_duration(&mut w, nanos(Duration::from_millis(100)));
        assert!(!warn, "partial window must not trip the warn threshold");
    }
}

#[test]
fn record_render_duration_full_window_over_threshold_warns() {
    let mut w: VecDeque<u64> = VecDeque::new();
    let mut last_warn = false;
    for _ in 0..RENDER_DURATION_WINDOW {
        let (_, warn) = record_render_duration(&mut w, nanos(Duration::from_millis(10)));
        last_warn = warn;
    }
    assert!(last_warn, "full window of 10ms samples should trip the >8ms rolling-avg warn");
}

#[test]
fn record_render_duration_bounds_window_size() {
    let mut w: VecDeque<u64> = VecDeque::new();
    for _ in 0..(RENDER_DURATION_WINDOW * 3) {
        let _ = record_render_duration(&mut w, nanos(Duration::from_micros(500)));
    }
    assert_eq!(w.len(), RENDER_DURATION_WINDOW, "rolling window must cap its entries");
}

#[test]
fn any_average_above_the_limit_warns() {
    let frame = nanos(Duration::from_micros(8500));
    let mut w: VecDeque<u64> = VecDeque::from(vec![frame; 59]);
    assert_eq!(record_render_duration(&mut w, frame), (frame, true));
    let mut w: VecDeque<u64> = VecDeque::from(vec![8_000_001; 59]);
    assert_eq!(record_render_duration(&mut w, 8_000_001), (8_000_001, true));
    let mut w: VecDeque<u64> = VecDeque::from(vec![8_000_000; 59]);
    assert_eq!(record_render_duration(&mut w, 8_000_000), (8_000_000, false));
}

#[test]
fn averages_are_exact() {
    let mut w: VecDeque<u64> = VecDeque::new();
    assert_eq!(record_render_duration(&mut w, 10), (10, false));
    assert_eq!(record_render_duration(&mut w, 15), (12, false));
    let mut big: VecDeque<u64> = VecDeque::new();
    record_render_duration(&mut big, u64::MAX);
    assert_eq!(record_render_duration(&mut big, u64::MAX).0, u64::MAX);
}

#[test]
fn the_oldest_samples_leave_the_window() {
    let mut w: VecDeque<u64> = VecDeque::new();
    for i in 0..(RENDER_DURATION_WINDOW as u64 + 5) {
        record_render_duration(&mut w, i);
    }
    assert_eq!(w.front(), Some(&5));
    assert_eq!(w.back(), Some(&64));
}

#[test]
fn the_compositor_window_is_its_own() {
    let mut w: VecDeque<u64> = VecDeque::new();
    for i in 0..COMPOSITOR_DURATION_WINDOW {
        let (_, warn) = record_compositor_duration(&mut w, nanos(Duration::from_millis(9)));
        assert_eq!(warn, i + 1 == COMPOSITOR_DURATION_WINDOW);
    }
    let mut w: VecDeque<u64> = VecDeque::new();
    for _ in 0..COMPOSITOR_DURATION_WINDOW * 2 {
        let (_, warn) = record_compositor_duration(&mut w, 8_999_999);
        assert!(!warn);
    }
    assert_eq!(w.len(), COMPOSITOR_DURATION_WINDOW);
}
