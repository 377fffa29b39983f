use chrono::{Local, Timelike};
use curtailment::window::{
    day_start, set_start_time, set_stop_time, window_start, window_stop, CurtailmentWindow,
};

const HOUR: i64 = 3_600;
const DAY: i64 = 86_400;

/// Day `day` after the start of 1970, at `hour`:`minute`.
fn at(day: i64, hour: i64, minute: i64) -> i64 {
    day * DAY + hour * HOUR + minute * 60
}

#[test]
fn day_start_is_the_midnight_before() {
    assert_eq!(day_start(at(20_000, 0, 0)), at(20_000, 0, 0));
    assert_eq!(day_start(at(20_000, 13, 37)), at(20_000, 0, 0));
    assert_eq!(day_start(at(20_000, 23, 59) + 59), at(20_000, 0, 0));
    assert_eq!(day_start(0), 0);
}

#[test]
fn day_start_before_1970_is_still_the_midnight_before() {
    assert_eq!(day_start(-1), -DAY);
    assert_eq!(day_start(-DAY), -DAY);
    assert_eq!(day_start(-DAY - 1), -2 * DAY);
}

#[test]
fn window_start_is_today_at_the_start_hour() {
    assert_eq!(window_start(at(20_000, 10, 15), 19), at(20_000, 19, 0));
    assert_eq!(window_start(at(20_000, 22, 15), 19), at(20_000, 19, 0));
    assert_eq!(window_start(at(20_000, 19, 0), 19), at(20_000, 19, 0));
    assert_eq!(window_start(at(20_000, 10, 15), 0), at(20_000, 0, 0));
    assert_eq!(window_start(at(20_000, 10, 15), 23), at(20_000, 23, 0));
}

#[test]
fn window_stop_moves_to_tomorrow_once_the_hour_has_passed() {
    let now = at(20_000, 19, 30);
    assert_eq!(window_stop(now, now, 5), at(20_001, 5, 0));
}

#[test]
fn window_stop_stays_today_while_the_hour_is_ahead() {
    let now = at(20_000, 3, 0);
    assert_eq!(window_stop(now, now, 5), at(20_000, 5, 0));
    let now = at(20_000, 19, 30);
    assert_eq!(window_stop(now, now, 23), at(20_000, 23, 0));
}

#[test]
fn window_stop_moves_to_tomorrow_at_the_very_hour() {
    let now = at(20_000, 5, 0);
    assert_eq!(window_stop(now, now, 5), at(20_001, 5, 0));
    assert_eq!(window_stop(now, now - 1, 5), at(20_000, 5, 0));
}

#[test]
fn window_stop_compares_with_the_reference_not_with_now() {
    let now = at(20_000, 19, 30);
    assert_eq!(window_stop(now, at(20_000, 4, 0), 5), at(20_000, 5, 0));
    assert_eq!(window_stop(now, at(20_000, 6, 0), 5), at(20_001, 5, 0));
}

#[test]
fn window_computed_in_the_evening_crosses_midnight() {
    let window = CurtailmentWindow::compute(at(20_000, 20, 0), 19, 5);
    assert_eq!(
        window,
        CurtailmentWindow {
            start_hour: 19,
            stop_hour: 5,
            start_time: at(20_000, 19, 0),
            stop_time: at(20_001, 5, 0),
        }
    );
    assert!(window.stop_time > window.start_time);
}

#[test]
fn window_computed_before_the_stop_hour_closes_before_it_opens() {
    let window = CurtailmentWindow::compute(at(20_000, 3, 0), 19, 5);
    assert_eq!(window.start_time, at(20_000, 19, 0));
    assert_eq!(window.stop_time, at(20_000, 5, 0));
}

#[test]
fn window_with_stop_after_start_stays_within_the_day() {
    let window = CurtailmentWindow::compute(at(20_000, 3, 0), 8, 17);
    assert_eq!(window.start_time, at(20_000, 8, 0));
    assert_eq!(window.stop_time, at(20_000, 17, 0));
}

#[test]
fn window_rolls_forward_once_a_day_behind() {
    let mut window = CurtailmentWindow::compute(at(20_000, 10, 0), 19, 5);
    assert_eq!(window.start_time, at(20_000, 19, 0));

    let now = at(20_001, 19, 0);
    assert!(window.roll_forward(now));
    assert_eq!(window.start_time, at(20_001, 19, 0));
    assert_eq!(window.stop_time, at(20_002, 5, 0));
    assert_eq!(window.start_hour, 19);
    assert_eq!(window.stop_hour, 5);
    assert!((window.start_time - now).abs() < DAY);
}

#[test]
fn window_rolled_before_the_start_hour_opens_within_the_next_day() {
    let mut window = CurtailmentWindow::compute(at(20_000, 10, 0), 19, 5);
    let now = at(20_002, 9, 0);
    assert!(window.roll_forward(now));
    assert_eq!(window.start_time, at(20_002, 19, 0));
    assert!(now <= window.start_time && window.start_time < now + DAY);
    assert!(window.stop_time > now);
}

#[test]
fn window_rolled_after_the_start_hour_has_opened_already() {
    let mut window = CurtailmentWindow::compute(at(20_000, 10, 0), 19, 5);
    let now = at(20_001, 19, 30);
    assert!(window.roll_forward(now));
    assert_eq!(window.start_time, at(20_001, 19, 0));
    assert!(window.start_time < now);
    assert!(window.has_opened(now));
}

#[test]
fn window_stays_while_less_than_a_day_behind() {
    let mut window = CurtailmentWindow::compute(at(20_000, 10, 0), 19, 5);
    let before = window;
    assert!(!window.roll_forward(at(20_001, 18, 59) + 59));
    assert_eq!(window, before);
    assert!(!window.roll_forward(at(20_000, 0, 0)));
    assert_eq!(window, before);
}

#[test]
fn window_rolls_when_its_start_lies_a_day_ahead() {
    let mut window = CurtailmentWindow::compute(at(20_000, 10, 0), 19, 5);
    let now = at(19_999, 19, 0);
    assert!(window.roll_forward(now));
    assert_eq!(window.start_time, at(19_999, 19, 0));
    assert!(!window.roll_forward(now));
}

#[test]
fn window_rolled_a_day_later_moves_by_one_day() {
    let mut window = CurtailmentWindow::compute(at(20_000, 21, 0), 19, 5);
    let before = window;
    assert!(window.roll_forward(at(20_001, 19, 4)));
    assert_eq!(window.start_time, before.start_time + DAY);
    assert_eq!(window.stop_time, before.stop_time + DAY);
}

#[test]
fn window_is_not_stale_after_rolling() {
    let mut window = CurtailmentWindow::compute(at(20_000, 10, 0), 19, 5);
    let now = at(20_007, 2, 0);
    assert!(window.roll_forward(now));
    assert!(!window.roll_forward(now));
}

#[test]
fn window_opens_at_its_start() {
    let window = CurtailmentWindow::compute(at(20_000, 10, 0), 19, 5);
    assert!(!window.has_opened(at(20_000, 18, 59)));
    assert!(window.has_opened(at(20_000, 19, 0)));
    assert!(window.has_opened(at(20_001, 2, 0)));
}

#[test]
fn window_remaining_counts_down_to_the_stop() {
    let window = CurtailmentWindow::compute(at(20_000, 20, 0), 19, 5);
    assert_eq!(window.remaining(at(20_001, 2, 30)), 2 * HOUR + 30 * 60);
    assert_eq!(window.remaining(at(20_001, 5, 0)), 0);
    assert_eq!(window.remaining(at(20_001, 6, 0)), -HOUR);
}

fn wall_clock() -> i64 {
    Local::now().naive_local().and_utc().timestamp()
}

#[test]
fn set_start_time_is_today_at_the_hour_by_the_wall_clock() {
    let before = wall_clock();
    let start = set_start_time(19);
    let after = wall_clock();
    assert_eq!(start.rem_euclid(DAY), 19 * HOUR);
    assert!(start == window_start(before, 19) || start == window_start(after, 19));
    assert_ne!(set_start_time(0), 0);
}

#[test]
fn set_start_time_agrees_with_the_calendar_of_the_outside_clock() {
    let before = Local::now();
    let start = set_start_time(7);
    let after = Local::now();
    let expected = |now: chrono::DateTime<Local>| {
        now.naive_local()
            .with_hour(7)
            .unwrap()
            .with_minute(0)
            .unwrap()
            .with_second(0)
            .unwrap()
            .and_utc()
            .timestamp()
    };
    assert!(start == expected(before) || start == expected(after));
}

#[test]
fn set_stop_time_moves_past_a_reference_in_the_future_of_today() {
    let before = wall_clock();
    let far_ahead = before + 10 * DAY;
    let stop = set_stop_time(far_ahead, 5);
    let after = wall_clock();
    assert_eq!(stop.rem_euclid(DAY), 5 * HOUR);
    assert!(
        stop == window_stop(before, far_ahead, 5) || stop == window_stop(after, far_ahead, 5)
    );
    assert!(stop == day_start(before) + DAY + 5 * HOUR || stop == day_start(after) + DAY + 5 * HOUR);
}

#[test]
fn set_stop_time_stays_today_for_a_reference_long_past() {
    let before = wall_clock();
    let stop = set_stop_time(before - 10 * DAY, 5);
    let after = wall_clock();
    assert!(stop == day_start(before) + 5 * HOUR || stop == day_start(after) + 5 * HOUR);
}
