use reader_shell::component_counter::ComponentCounterView;
use reader_shell::frame_meter::{FpsSample, FrameMeter, FPS_WINDOW_NANOS};
use reader_shell::native_counter::NativeCounterView;

#[test]
fn counters_start_at_zero() {
    let n = NativeCounterView::new(7);
    let c = ComponentCounterView::new(7);
    assert_eq!(n.count(), 0);
    assert_eq!(c.count(), 0);
    assert_eq!(n.fps(), FpsSample { frames: 0, window_nanos: 0 });
    assert_eq!(n.frames_in_window(), 0);
}

#[test]
fn increment_and_decrement() {
    let mut n = NativeCounterView::new(0);
    n.increment();
    n.increment();
    assert_eq!(n.count(), 2);
    n.decrement();
    assert_eq!(n.count(), 1);
    n.decrement();
    n.decrement();
    assert_eq!(n.count(), -1);
}

#[test]
fn counters_are_independent() {
    let mut n = NativeCounterView::new(0);
    let mut c = ComponentCounterView::new(0);
    n.increment();
    c.decrement();
    c.decrement();
    assert_eq!(n.count(), 1);
    assert_eq!(c.count(), -2);
}

#[test]
fn frames_accumulate_within_window() {
    let mut m = FrameMeter::new(1_000);
    m.record_frame(1_000 + 100_000_000);
    m.record_frame(1_000 + 200_000_000);
    assert_eq!(m.frame_count(), 2);
    assert_eq!(m.accumulated_nanos(), 200_000_000);
    assert_eq!(m.last_frame_nanos(), 200_001_000);
    assert_eq!(m.fps_sample(), FpsSample { frames: 0, window_nanos: 0 });
}

#[test]
fn window_closes_at_half_second() {
    let mut m = FrameMeter::new(0);
    for i in 1..=4u64 {
        m.record_frame(i * 125_000_000);
    }
    assert_eq!(m.fps_sample(), FpsSample { frames: 4, window_nanos: FPS_WINDOW_NANOS });
    assert_eq!(m.frame_count(), 0);
    assert_eq!(m.accumulated_nanos(), 0);
    m.record_frame(600_000_000);
    assert_eq!(m.frame_count(), 1);
    assert_eq!(m.accumulated_nanos(), 100_000_000);
    assert_eq!(m.fps_sample(), FpsSample { frames: 4, window_nanos: 500_000_000 });
}

#[test]
fn long_frame_closes_window_alone() {
    let mut m = FrameMeter::new(10);
    m.record_frame(10 + 2_000_000_000);
    assert_eq!(m.fps_sample(), FpsSample { frames: 1, window_nanos: 2_000_000_000 });
}

#[test]
fn clock_going_back_counts_no_time() {
    let mut m = FrameMeter::new(1_000_000);
    m.record_frame(500);
    assert_eq!(m.accumulated_nanos(), 0);
    assert_eq!(m.frame_count(), 1);
    assert_eq!(m.last_frame_nanos(), 500);
}

#[test]
fn huge_delta_saturates() {
    let mut m = FrameMeter::new(0);
    m.record_frame(400_000_000);
    m.record_frame(u64::MAX);
    assert_eq!(m.fps_sample(), FpsSample { frames: 2, window_nanos: u64::MAX });
}

#[test]
fn redraw_keeps_count() {
    let mut n = NativeCounterView::new(0);
    n.increment();
    n.on_frame(300_000_000);
    n.on_frame(600_000_000);
    assert_eq!(n.count(), 1);
    assert_eq!(n.fps(), FpsSample { frames: 2, window_nanos: 600_000_000 });
    let mut c = ComponentCounterView::new(0);
    c.on_frame(100);
    assert_eq!(c.frames_in_window(), 1);
    assert_eq!(c.count(), 0);
}

#[test]
fn clicks_in_any_order_add_up() {
    let mut a = NativeCounterView::new(0);
    let mut b = NativeCounterView::new(0);
    for up in [true, true, false, true, false, false, false] {
        if up { a.increment() } else { a.decrement() }
    }
    for up in [false, false, false, false, true, true, true] {
        if up { b.increment() } else { b.decrement() }
    }
    assert_eq!(a.count(), 3 - 4);
    assert_eq!(b.count(), a.count());
    assert_eq!(a.fps(), FpsSample { frames: 0, window_nanos: 0 });
}

#[test]
fn window_stays_under_half_second() {
    let mut c = ComponentCounterView::new(0);
    let mut t = 0u64;
    for step in [1u64, 499_999_999, 7, 250_000_000, 250_000_000, 3] {
        t += step;
        c.on_frame(t);
        let s = c.fps();
        assert!(s.window_nanos == 0 || (s.window_nanos >= FPS_WINDOW_NANOS && s.frames >= 1));
    }
    assert_eq!(c.fps(), FpsSample { frames: 3, window_nanos: 500_000_007 });
}
