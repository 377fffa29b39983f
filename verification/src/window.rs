//! The nightly curtailment window and its rollover.
//!
//! A window opens at a configured hour of the day and closes at another. Both
//! instants are taken from the wall clock's calendar day: the start is today
//! at the start hour; the stop is today at the stop hour, or tomorrow at that
//! hour where today's has passed already, which is how a window that crosses
//! midnight gets its end.

use vstd::prelude::*;
use crate::clock::{Seconds, Timestamp, MAX_TIMESTAMP, is_timestamp, local_now};

verus! {

/// The midnight that begins the day of `t`.
pub open spec fn start_of_day(t: int) -> int {
    t - t % 86_400
}

/// The seconds that have passed of the day of `t`.
pub open spec fn time_of_day(t: int) -> int {
    t % 86_400
}

/// `hour` o'clock on the day of `now`.
pub open spec fn spec_window_start(now: int, hour: int) -> int {
    start_of_day(now) + hour * 3_600
}

/// `hour` o'clock on the day of `now`, and on the day after where that is no
/// later than `reference`.
pub open spec fn spec_window_stop(now: int, reference: int, hour: int) -> int {
    let today = start_of_day(now) + hour * 3_600;
    if today <= reference {
        today + 86_400
    } else {
        today
    }
}

/// The midnight that begins the day of `t`.
pub fn day_start(t: Timestamp) -> (midnight: Timestamp)
    requires
        is_timestamp(t as int),
    ensures
        midnight == start_of_day(t as int),
{
    let since: i64 = t % 86_400;
    if since < 0 {
        t - (since + 86_400)
    } else {
        t - since
    }
}

/// The start of the window on the day of `now`: that day at
/// `curtailment_start_hour` o'clock.
pub fn window_start(now: Timestamp, curtailment_start_hour: u32) -> (start_time: Timestamp)
    requires
        is_timestamp(now as int),
        curtailment_start_hour < 24,
    ensures
        start_time == spec_window_start(now as int, curtailment_start_hour as int),
{
    day_start(now) + (curtailment_start_hour as i64) * 3_600
}

/// The stop of the window as seen on the day of `now`: that day at
/// `curtailment_stop_hour` o'clock, moved to the next day where it is no
/// later than `reference`, the time the window is computed for.
pub fn window_stop(now: Timestamp, reference: Timestamp, curtailment_stop_hour: u32) -> (stop_time:
    Timestamp)
    requires
        is_timestamp(now as int),
        curtailment_stop_hour < 24,
    ensures
        stop_time == spec_window_stop(now as int, reference as int, curtailment_stop_hour as int),
{
    let today: i64 = day_start(now) + (curtailment_stop_hour as i64) * 3_600;
    if today <= reference {
        today + 86_400
    } else {
        today
    }
}

/// Today at `curtailment_start_hour` o'clock, by the local wall clock.
///
/// The day is the one the clock shows when it is read, so the result is
/// `curtailment_start_hour` o'clock on the day of some time that the clock
/// can show. [`window_start`] says which, given the reading.
pub fn set_start_time(curtailment_start_hour: u32) -> (start_time: Timestamp)
    requires
        curtailment_start_hour < 24,
    ensures
        exists|now: int|
            is_timestamp(now) && start_time == spec_window_start(
                now,
                curtailment_start_hour as int,
            ),
        time_of_day(start_time as int) == curtailment_start_hour * 3_600,
{
    let now = local_now();
    let start_time = window_start(now, curtailment_start_hour);
    proof {
        lemma_window_start_on_the_hour(now as int, curtailment_start_hour as int);
    }
    start_time
}

/// Today at `curtailment_stop_hour` o'clock by the local wall clock, or
/// tomorrow at that hour where today's is no later than `last_recalculation`.
///
/// The day is the one the clock shows when it is read. [`window_stop`] says
/// what comes back, given the reading.
pub fn set_stop_time(last_recalculation: Timestamp, curtailment_stop_hour: u32) -> (stop_time:
    Timestamp)
    requires
        curtailment_stop_hour < 24,
    ensures
        exists|now: int|
            is_timestamp(now) && stop_time == spec_window_stop(
                now,
                last_recalculation as int,
                curtailment_stop_hour as int,
            ),
        time_of_day(stop_time as int) == curtailment_stop_hour * 3_600,
{
    let now = local_now();
    let stop_time = window_stop(now, last_recalculation, curtailment_stop_hour);
    proof {
        lemma_window_stop_on_the_hour(
            now as int,
            last_recalculation as int,
            curtailment_stop_hour as int,
        );
    }
    stop_time
}

/// The window in force: the hours it is configured with and the instants it
/// currently opens and closes at.
#[derive(Clone, Copy, Debug, PartialEq, Eq)]
pub struct CurtailmentWindow {
    pub start_hour: u32,
    pub stop_hour: u32,
    pub start_time: Timestamp,
    pub stop_time: Timestamp,
}

impl CurtailmentWindow {
    /// Both hours are hours of a day, both instants fall on their hour within
    /// reach of the times the library works with, and the stop is taken from
    /// the start's day or the day after.
    pub open spec fn wf(&self) -> bool {
        &&& self.start_hour < 24
        &&& self.stop_hour < 24
        &&& time_of_day(self.start_time as int) == self.start_hour * 3_600
        &&& time_of_day(self.stop_time as int) == self.stop_hour * 3_600
        &&& -MAX_TIMESTAMP - 86_400 <= self.start_time <= MAX_TIMESTAMP + 86_400
        &&& start_of_day(self.start_time as int) <= start_of_day(self.stop_time as int)
            <= start_of_day(self.start_time as int) + 86_400
    }

    /// The window that `start_hour` and `stop_hour` give when it is computed
    /// at `now`: it opens on the day of `now` at the start hour, and closes on
    /// that day at the stop hour, or on the next where that is no later than
    /// `now`.
    pub open spec fn spec_compute(now: int, start_hour: u32, stop_hour: u32) -> CurtailmentWindow {
        CurtailmentWindow {
            start_hour,
            stop_hour,
            start_time: spec_window_start(now, start_hour as int) as i64,
            stop_time: spec_window_stop(now, now, stop_hour as int) as i64,
        }
    }

    /// Whether the window's start lies a full day or more from `now`, behind
    /// it or ahead of it.
    pub open spec fn is_stale(&self, now: int) -> bool {
        now - self.start_time >= 86_400 || self.start_time - now >= 86_400
    }

    /// The window in force after a look at the clock at `now`: computed anew
    /// where it was stale, and as it was where it was not.
    pub open spec fn spec_roll_forward(&self, now: int) -> CurtailmentWindow {
        if self.is_stale(now) {
            CurtailmentWindow::spec_compute(now, self.start_hour, self.stop_hour)
        } else {
            *self
        }
    }

    /// Whether the window has opened by `now`.
    pub open spec fn spec_has_opened(&self, now: int) -> bool {
        now >= self.start_time
    }

    /// The time from `now` until the window closes; negative once it has.
    pub open spec fn spec_remaining(&self, now: int) -> int {
        self.stop_time - now
    }

    /// The window for the day of `now`.
    pub fn compute(now: Timestamp, start_hour: u32, stop_hour: u32) -> (window: Self)
        requires
            is_timestamp(now as int),
            start_hour < 24,
            stop_hour < 24,
        ensures
            window == CurtailmentWindow::spec_compute(now as int, start_hour, stop_hour),
            window.start_time == spec_window_start(now as int, start_hour as int),
            window.stop_time == spec_window_stop(now as int, now as int, stop_hour as int),
            window.wf(),
            !window.is_stale(now as int),
    {
        CurtailmentWindow {
            start_hour,
            stop_hour,
            start_time: window_start(now, start_hour),
            stop_time: window_stop(now, now, stop_hour),
        }
    }

    /// Recomputes the window for the day of `now` where it is stale, and
    /// leaves it alone where it is not. Returns whether it was recomputed.
    pub fn roll_forward(&mut self, now: Timestamp) -> (rolled: bool)
        requires
            old(self).wf(),
            is_timestamp(now as int),
        ensures
            rolled == old(self).is_stale(now as int),
            *final(self) == old(self).spec_roll_forward(now as int),
            final(self).wf(),
            !final(self).is_stale(now as int),
    {
        if now - self.start_time >= 86_400 || self.start_time - now >= 86_400 {
            *self = CurtailmentWindow::compute(now, self.start_hour, self.stop_hour);
            true
        } else {
            false
        }
    }

    /// Whether the window has opened by `now`.
    pub fn has_opened(&self, now: Timestamp) -> (opened: bool)
        ensures
            opened == self.spec_has_opened(now as int),
    {
        now >= self.start_time
    }

    /// The time from `now` until the window closes; negative once it has.
    pub fn remaining(&self, now: Timestamp) -> (left: Seconds)
        requires
            self.wf(),
            is_timestamp(now as int),
        ensures
            left == self.spec_remaining(now as int),
    {
        self.stop_time - now
    }
}

/// A window's start falls on its hour.
pub proof fn lemma_window_start_on_the_hour(now: int, hour: int)
    requires
        0 <= hour < 24,
    ensures
        time_of_day(spec_window_start(now, hour)) == hour * 3_600,
        start_of_day(spec_window_start(now, hour)) == start_of_day(now),
{
}

/// A window's stop falls on its hour.
pub proof fn lemma_window_stop_on_the_hour(now: int, reference: int, hour: int)
    requires
        0 <= hour < 24,
    ensures
        time_of_day(spec_window_stop(now, reference, hour)) == hour * 3_600,
{
}

/// A window computed at `now` starts on the day of `now`: less than a day
/// from `now` on either side, and within the day that follows `now` where
/// the start hour has not passed yet.
pub proof fn lemma_computed_start_near_now(now: int, start_hour: int)
    requires
        0 <= start_hour < 24,
    ensures
        now - 86_400 < spec_window_start(now, start_hour) < now + 86_400,
        time_of_day(now) <= start_hour * 3_600 ==> now <= spec_window_start(now, start_hour),
        time_of_day(now) > start_hour * 3_600 ==> spec_window_start(now, start_hour) < now,
{
}

/// A window computed at `now` closes after `now` and no more than a day
/// later.
pub proof fn lemma_computed_stop_after_now(now: int, stop_hour: int)
    requires
        0 <= stop_hour < 24,
    ensures
        now < spec_window_stop(now, now, stop_hour) <= now + 86_400,
{
}

/// A window computed at `now` closes after it opens exactly where the stop
/// hour is the later of the two hours, or today's stop hour has passed.
pub proof fn lemma_computed_stop_after_start(now: int, start_hour: int, stop_hour: int)
    requires
        0 <= start_hour < 24,
        0 <= stop_hour < 24,
    ensures
        spec_window_stop(now, now, stop_hour) > spec_window_start(now, start_hour) <==> (stop_hour
            > start_hour || time_of_day(now) >= stop_hour * 3_600),
{
}

/// What a computed window holds, without the casts: its start and stop are
/// the instants that [`spec_window_start`] and [`spec_window_stop`] give, and
/// it is well formed.
pub proof fn lemma_computed_window(now: int, start_hour: u32, stop_hour: u32)
    requires
        is_timestamp(now),
        start_hour < 24,
        stop_hour < 24,
    ensures
        CurtailmentWindow::spec_compute(now, start_hour, stop_hour).start_time == spec_window_start(
            now,
            start_hour as int,
        ),
        CurtailmentWindow::spec_compute(now, start_hour, stop_hour).stop_time == spec_window_stop(
            now,
            now,
            stop_hour as int,
        ),
        CurtailmentWindow::spec_compute(now, start_hour, stop_hour).wf(),
{
}

/// A window whose start lies a day or more behind `now` is stale, and
/// rolling it forward gives one that starts on the day of `now`: later than
/// the old start, less than a day from `now` on either side, within the day
/// that follows `now` where the start hour has not passed, and stale no
/// longer. It closes after `now`.
pub proof fn lemma_rollover_realigns(window: CurtailmentWindow, now: int)
    requires
        window.wf(),
        is_timestamp(now),
        now - window.start_time >= 86_400,
    ensures
        window.is_stale(now),
        window.spec_roll_forward(now) == CurtailmentWindow::spec_compute(
            now,
            window.start_hour,
            window.stop_hour,
        ),
        window.spec_roll_forward(now).start_time > window.start_time,
        now - 86_400 < window.spec_roll_forward(now).start_time < now + 86_400,
        time_of_day(now) <= window.start_hour * 3_600 ==> now <= window.spec_roll_forward(
            now,
        ).start_time,
        !window.spec_roll_forward(now).is_stale(now),
        window.spec_roll_forward(now).stop_time > now,
        window.spec_roll_forward(now).wf(),
{
}

/// A stale window that is rolled forward on the day after the one it opened
/// on moves by exactly one day.
pub proof fn lemma_roll_forward_by_one_day(window: CurtailmentWindow, now: int)
    requires
        window.wf(),
        is_timestamp(now),
        window.is_stale(now),
        start_of_day(now) == start_of_day(window.start_time as int) + 86_400,
    ensures
        window.spec_roll_forward(now).start_time == window.start_time + 86_400,
{
}

/// A window that is not stale is left as it is.
pub proof fn lemma_fresh_window_stays(window: CurtailmentWindow, now: int)
    requires
        !window.is_stale(now),
    ensures
        window.spec_roll_forward(now) == window,
{
}

} // verus!
