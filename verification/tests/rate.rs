use curtailment::rate::{clamp, get_charge_rate};
use curtailment::types::ChargingBounds;

const MINUTE: i64 = 60;
const HOUR: i64 = 3_600;

fn kilowatts(kw: i32) -> i32 {
    kw * 1_000
}

#[test]
fn rate_spreads_missing_energy_over_remaining_time() {
    // 20 % of 300 kWh is 60 kWh; over 2.5 h that is 24 kW.
    assert_eq!(get_charge_rate(2 * HOUR + 30 * MINUTE, 20, &300), 24_000);
}

#[test]
fn rate_then_clamp_caps_at_upper_bound() {
    let bounds = ChargingBounds { lower_bnd: kilowatts(10), upper_bnd: kilowatts(20) };
    let rate = get_charge_rate(2 * HOUR + 30 * MINUTE, 20, &300);
    assert_eq!(clamp(rate, &bounds), 20_000);
}

#[test]
fn rate_is_zero_without_deficit() {
    assert_eq!(get_charge_rate(8 * HOUR, 0, &300), 0);
}

#[test]
fn rate_rounds_toward_zero() {
    // 20 % of 300 kWh over 7 h is 8571.43 W.
    assert_eq!(get_charge_rate(7 * HOUR, 20, &300), 8_571);
    assert_eq!(get_charge_rate(7 * HOUR, -20, &300), -8_571);
    assert_eq!(get_charge_rate(7 * HOUR, 20, &-300), -8_571);
}

#[test]
fn rate_counts_whole_minutes_only() {
    assert_eq!(get_charge_rate(150 * MINUTE + 59, 20, &300), 24_000);
    assert_eq!(get_charge_rate(151 * MINUTE, 20, &300), 23_841);
}

#[test]
fn rate_treats_an_elapsed_window_as_one_minute() {
    let within_a_minute = 20 * 300 * 600;
    assert_eq!(get_charge_rate(MINUTE, 20, &300), within_a_minute);
    assert_eq!(get_charge_rate(59, 20, &300), within_a_minute);
    assert_eq!(get_charge_rate(0, 20, &300), within_a_minute);
    assert_eq!(get_charge_rate(-3 * HOUR, 20, &300), within_a_minute);
    assert_eq!(get_charge_rate(i64::MIN, 20, &300), within_a_minute);
}

#[test]
fn rate_takes_the_widest_inputs() {
    assert_eq!(get_charge_rate(MINUTE, i16::MAX, &i32::MAX), 32_767 * 2_147_483_647 * 600);
    assert_eq!(get_charge_rate(MINUTE, i16::MIN, &i32::MIN), 32_768 * 2_147_483_648 * 600);
    assert_eq!(get_charge_rate(i64::MAX, 100, &300), 0);
}

#[test]
fn rate_never_falls_as_the_deficit_grows() {
    let mut last = 0;
    for deficit in 0..=100 {
        let rate = get_charge_rate(5 * HOUR + 17 * MINUTE, deficit, &437);
        assert!(rate >= last, "deficit {deficit}");
        last = rate;
    }
    assert_eq!(last, 100 * 437 * 600 / 317);
}

#[test]
fn rate_never_rises_as_the_time_grows() {
    let mut last = i64::MAX;
    for minutes in 1..=24 * 60 {
        let rate = get_charge_rate(minutes * MINUTE, 35, &437);
        assert!(rate <= last, "minutes {minutes}");
        last = rate;
    }
    assert_eq!(last, 35 * 437 * 600 / 1_440);
}

#[test]
fn clamp_keeps_a_rate_within_bounds() {
    let bounds = ChargingBounds { lower_bnd: 10_000, upper_bnd: 20_000 };
    assert_eq!(clamp(9_999, &bounds), 10_000);
    assert_eq!(clamp(10_000, &bounds), 10_000);
    assert_eq!(clamp(15_000, &bounds), 15_000);
    assert_eq!(clamp(20_000, &bounds), 20_000);
    assert_eq!(clamp(20_001, &bounds), 20_000);
    assert_eq!(clamp(i64::MIN, &bounds), 10_000);
    assert_eq!(clamp(i64::MAX, &bounds), 20_000);
    assert_eq!(clamp(-5, &bounds), 10_000);
}

#[test]
fn clamp_is_idempotent() {
    let bounds = ChargingBounds { lower_bnd: -7, upper_bnd: 12 };
    for rate in -30..30 {
        let once = clamp(rate, &bounds);
        assert!(-7 <= once && once <= 12);
        assert_eq!(clamp(once, &bounds), once);
    }
}

#[test]
fn clamp_with_a_single_rate_in_range() {
    let bounds = ChargingBounds { lower_bnd: 11_000, upper_bnd: 11_000 };
    assert_eq!(clamp(0, &bounds), 11_000);
    assert_eq!(clamp(50_000, &bounds), 11_000);
}

#[test]
fn clamp_with_inverted_bounds_gives_the_lower_bound() {
    let bounds = ChargingBounds { lower_bnd: 20_000, upper_bnd: 10_000 };
    assert_eq!(clamp(5_000, &bounds), 20_000);
    assert_eq!(clamp(15_000, &bounds), 20_000);
    assert_eq!(clamp(25_000, &bounds), 20_000);
    assert_eq!(clamp(clamp(15_000, &bounds), &bounds), 20_000);
}

#[test]
fn clamp_takes_the_widest_bounds() {
    let bounds = ChargingBounds { lower_bnd: i32::MIN, upper_bnd: i32::MAX };
    assert_eq!(clamp(i64::MIN, &bounds), i32::MIN as i64);
    assert_eq!(clamp(i64::MAX, &bounds), i32::MAX as i64);
    assert_eq!(clamp(0, &bounds), 0);
}
