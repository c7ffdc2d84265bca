//! State of the counter panel drawn with themed button and label components:
//! a count changed by two buttons, and a frame-rate meter fed by every redraw.
use vstd::prelude::*;
use crate::frame_meter::{frame_recorded, FpsSample, FrameMeter, FPS_WINDOW_NANOS};
use crate::native_counter::{downs, ups};

verus! {

/// The count and the frame-rate meter of the panel.
pub struct ComponentCounterView {
    count: i32,
    meter: FrameMeter,
}

impl ComponentCounterView {
    /// The count shown.
    pub closed spec fn count_value(self) -> i32 {
        self.count
    }

    /// The frame-rate meter.
    pub closed spec fn meter_state(self) -> FrameMeter {
        self.meter
    }

    /// This panel with its count replaced by `count` and its meter unchanged.
    pub closed spec fn with_count(self, count: i32) -> Self {
        ComponentCounterView { count, meter: self.meter }
    }

    /// The panel after the clicks `clicks` (`true`: Increment, `false`:
    /// Decrement), in order, each changing the state as `increment` and
    /// `decrement` do.
    pub open spec fn after_clicks(self, clicks: Seq<bool>) -> Self
        decreases clicks.len(),
    {
        if clicks.len() == 0 {
            self
        } else {
            let before = self.after_clicks(clicks.drop_last());
            before.with_count(
                (before.count_value() + if clicks.last() {
                    1int
                } else {
                    -1int
                }) as i32,
            )
        }
    }

    /// A panel opened at `now_nanos`: count 0 and a fresh meter.
    pub fn new(now_nanos: u64) -> (v: Self)
        ensures
            v.count_value() == 0,
            v.meter_state().last_frame() == now_nanos,
            v.meter_state().frames_in_window() == 0,
            v.meter_state().window_nanos() == 0,
            v.meter_state().fps() == (FpsSample { frames: 0, window_nanos: 0 }),
    {
        ComponentCounterView { count: 0, meter: FrameMeter::new(now_nanos) }
    }

    /// A click on "Increment": the count goes up by one.
    pub fn increment(&mut self)
        requires
            old(self).count_value() < i32::MAX,
        ensures
            *final(self) == old(self).with_count((old(self).count_value() + 1) as i32),
            final(self).count_value() == old(self).count_value() + 1,
            final(self).meter_state() == old(self).meter_state(),
    {
        self.count = self.count + 1;
    }

    /// A click on "Decrement": the count goes down by one.
    pub fn decrement(&mut self)
        requires
            old(self).count_value() > i32::MIN,
        ensures
            *final(self) == old(self).with_count((old(self).count_value() - 1) as i32),
            final(self).count_value() == old(self).count_value() - 1,
            final(self).meter_state() == old(self).meter_state(),
    {
        self.count = self.count - 1;
    }

    /// A redraw at `now_nanos`: the frame is recorded; the count is unchanged.
    pub fn on_frame(&mut self, now_nanos: u64)
        requires
            old(self).meter_state().frames_in_window() < u64::MAX,
        ensures
            final(self).count_value() == old(self).count_value(),
            frame_recorded(old(self).meter_state(), final(self).meter_state(), now_nanos),
            final(self).meter_state().window_nanos() < FPS_WINDOW_NANOS,
            final(self).meter_state().fps().window_nanos == 0
                ==> final(self).meter_state().fps().frames == 0,
            final(self).meter_state().fps().window_nanos != 0
                ==> final(self).meter_state().fps().window_nanos >= FPS_WINDOW_NANOS
                && final(self).meter_state().fps().frames >= 1,
    {
        self.meter.record_frame(now_nanos);
    }

    /// The count shown.
    pub fn count(&self) -> (c: i32)
        ensures
            c == self.count_value(),
    {
        self.count
    }

    /// The frame-rate reading shown.
    pub fn fps(&self) -> (s: FpsSample)
        ensures
            s == self.meter_state().fps(),
            s.window_nanos == 0 ==> s.frames == 0,
            s.window_nanos != 0 ==> s.window_nanos >= FPS_WINDOW_NANOS
                && s.frames >= 1,
    {
        self.meter.fps_sample()
    }

    /// Frames counted in the meter's open window.
    pub fn frames_in_window(&self) -> (n: u64)
        ensures
            n == self.meter_state().frames_in_window(),
    {
        self.meter.frame_count()
    }
}

/// A decrement undoes an increment and an increment undoes a decrement;
/// neither touches the meter.
pub proof fn lemma_increment_decrement_undo(v: ComponentCounterView)
    ensures
        v.count_value() < i32::MAX ==> v.with_count((v.count_value() + 1) as i32).with_count(
            (v.count_value() + 1 - 1) as i32,
        ) == v,
        v.count_value() > i32::MIN ==> v.with_count((v.count_value() - 1) as i32).with_count(
            (v.count_value() - 1 + 1) as i32,
        ) == v,
        forall|c: i32| #[trigger] v.with_count(c).meter_state() == v.meter_state(),
        forall|c: i32| #[trigger] v.with_count(c).count_value() == c,
{
}

/// Clicks in any order add up: after `ups` increments and `downs`
/// decrements, with every count along the way within `i32`, the count is the
/// start count plus `ups` minus `downs`, and the meter is untouched.
pub proof fn lemma_clicks_add_up(v: ComponentCounterView, clicks: Seq<bool>)
    requires
        forall|k: int|
            0 <= k <= clicks.len() ==> i32::MIN <= v.count_value() + ups(
                #[trigger] clicks.take(k),
            ) - downs(clicks.take(k)) <= i32::MAX,
    ensures
        v.after_clicks(clicks).count_value() == v.count_value() + ups(clicks) - downs(clicks),
        v.after_clicks(clicks).meter_state() == v.meter_state(),
    decreases clicks.len(),
{
    if clicks.len() > 0 {
        let prefix = clicks.drop_last();
        assert forall|k: int| 0 <= k <= prefix.len() implies i32::MIN <= v.count_value() + ups(
            #[trigger] prefix.take(k),
        ) - downs(prefix.take(k)) <= i32::MAX by {
            assert(prefix.take(k) =~= clicks.take(k));
        }
        lemma_clicks_add_up(v, prefix);
        assert(clicks.take(clicks.len() as int) =~= clicks);
    }
}

/// Each further click moves the count by exactly one, up for "Increment"
/// and down for "Decrement", counted once in `ups` or `downs`, and the first
/// click from the panel itself does what `increment`/`decrement` do.
pub proof fn lemma_each_click_moves_by_one(v: ComponentCounterView, clicks: Seq<bool>)
    ensures
        ups(clicks.push(true)) == ups(clicks) + 1,
        downs(clicks.push(true)) == downs(clicks),
        ups(clicks.push(false)) == ups(clicks),
        downs(clicks.push(false)) == downs(clicks) + 1,
        v.after_clicks(clicks).count_value() < i32::MAX ==> v.after_clicks(clicks.push(true)).count_value()
            == v.after_clicks(clicks).count_value() + 1,
        v.after_clicks(clicks).count_value() > i32::MIN ==> v.after_clicks(clicks.push(false)).count_value()
            == v.after_clicks(clicks).count_value() - 1,
        v.after_clicks(clicks.push(true)).meter_state() == v.after_clicks(clicks).meter_state(),
        v.after_clicks(clicks.push(false)).meter_state() == v.after_clicks(clicks).meter_state(),
        v.count_value() < i32::MAX ==> v.after_clicks(seq![true]) == v.with_count(
            (v.count_value() + 1) as i32,
        ),
        v.count_value() > i32::MIN ==> v.after_clicks(seq![false]) == v.with_count(
            (v.count_value() - 1) as i32,
        ),
{
    assert(clicks.push(true).drop_last() =~= clicks);
    assert(clicks.push(false).drop_last() =~= clicks);
    assert(seq![true].drop_last() =~= Seq::<bool>::empty());
    assert(seq![false].drop_last() =~= Seq::<bool>::empty());
    assert(v.after_clicks(Seq::<bool>::empty()) == v);
}

} // verus!
