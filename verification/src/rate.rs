//! Charge rates: the rate a session needs, and the clamp to the configured
//! operating range.

use vstd::prelude::*;
use vstd::arithmetic::div_mod::{lemma_div_is_ordered, lemma_div_is_ordered_by_denominator};
use crate::clock::Seconds;
use crate::types::ChargingBounds;

verus! {

/// Watts delivered over one minute that fill one percent of one kilowatt-hour:
/// 1000 W/kW * 60 min/h / 100 %.
pub const WATT_MINUTES_PER_PERCENT_KWH: i64 = 600;

/// `a / b` rounded toward zero.
pub open spec fn div_toward_zero(a: int, b: int) -> int
    recommends
        b > 0,
{
    if a >= 0 {
        a / b
    } else {
        -((-a) / b)
    }
}

/// The whole minutes in a span of seconds, rounded toward zero.
pub open spec fn whole_minutes(seconds: int) -> int {
    div_toward_zero(seconds, 60)
}

/// The minutes a charge is spread over: the whole minutes that remain, and
/// one minute where less than that remains or the time has run out.
pub open spec fn charging_minutes(seconds: int) -> int {
    if whole_minutes(seconds) < 1 {
        1
    } else {
        whole_minutes(seconds)
    }
}

/// The rate in watts that delivers `percent` of a battery of `capacity_kwh`
/// evenly over the time that remains:
/// `percent / 100 * capacity_kwh / hours`, with `hours` taken as
/// `charging_minutes / 60`, times 1000 and rounded toward zero.
pub open spec fn charge_rate(seconds: int, percent: int, capacity_kwh: int) -> int {
    div_toward_zero(
        percent * capacity_kwh * WATT_MINUTES_PER_PERCENT_KWH,
        charging_minutes(seconds),
    )
}

/// The rate in watts needed to raise the state of charge of a battery of
/// `battery_capacity` kilowatt-hours by `charge_amount` percent within
/// `time_allotment`.
///
/// The time counts in whole minutes and never as less than one, so a window
/// that has just closed asks for the charge within a minute and divides by
/// nothing smaller.
pub fn get_charge_rate(time_allotment: Seconds, charge_amount: i16, battery_capacity: &i32) -> (rate: i64)
    ensures
        rate == charge_rate(time_allotment as int, charge_amount as int, *battery_capacity as int),
{
    let whole: i64 = time_allotment / 60;
    let minutes: i64 = if whole < 1 { 1 } else { whole };
    let percent: i64 = charge_amount as i64;
    let capacity: i64 = *battery_capacity as i64;
    assert(-0x4000_0000_0000 <= percent * capacity <= 0x4000_0000_0000) by (nonlinear_arith)
        requires
            -0x8000 <= percent <= 0x8000,
            -0x8000_0000 <= capacity <= 0x8000_0000,
    ;
    let energy: i64 = percent * capacity * WATT_MINUTES_PER_PERCENT_KWH;
    energy / minutes
}

/// `rate` brought into the range of `bounds`: the upper bound where it lies
/// above, then the lower bound where that lies below.
pub open spec fn clamp_rate(rate: int, bounds: ChargingBounds) -> int {
    vstd::math::max(bounds.lower_bnd as int, vstd::math::min(bounds.upper_bnd as int, rate))
}

/// Brings `rate` into the configured operating range.
pub fn clamp(rate: i64, bounds: &ChargingBounds) -> (clamped: i64)
    ensures
        clamped == clamp_rate(rate as int, *bounds),
        bounds.is_ordered() ==> bounds.lower_bnd <= clamped <= bounds.upper_bnd,
{
    let upper: i64 = bounds.upper_bnd as i64;
    let lower: i64 = bounds.lower_bnd as i64;
    let capped: i64 = if rate > upper { upper } else { rate };
    if capped < lower {
        lower
    } else {
        capped
    }
}

/// A larger deficit never asks for a smaller rate.
pub proof fn lemma_charge_rate_rises_with_deficit(
    seconds: int,
    lesser: int,
    greater: int,
    capacity_kwh: int,
)
    requires
        0 <= lesser <= greater <= 100,
        capacity_kwh > 0,
        seconds > 0,
    ensures
        charge_rate(seconds, lesser, capacity_kwh) <= charge_rate(seconds, greater, capacity_kwh),
{
    let minutes = charging_minutes(seconds);
    assert(0 <= lesser * capacity_kwh * 600 <= greater * capacity_kwh * 600) by (nonlinear_arith)
        requires
            0 <= lesser <= greater,
            capacity_kwh > 0,
    ;
    lemma_div_is_ordered(lesser * capacity_kwh * 600, greater * capacity_kwh * 600, minutes);
}

/// More time never asks for a larger rate.
pub proof fn lemma_charge_rate_falls_with_time(
    shorter: int,
    longer: int,
    percent: int,
    capacity_kwh: int,
)
    requires
        0 <= percent <= 100,
        capacity_kwh > 0,
        0 < shorter <= longer,
    ensures
        charge_rate(shorter, percent, capacity_kwh) >= charge_rate(longer, percent, capacity_kwh),
{
    assert(0 <= percent * capacity_kwh * 600) by (nonlinear_arith)
        requires
            0 <= percent,
            capacity_kwh > 0,
    ;
    lemma_div_is_ordered_by_denominator(
        percent * capacity_kwh * 600,
        charging_minutes(shorter),
        charging_minutes(longer),
    );
}

/// A clamped rate lies within the bounds, provided the bounds leave room for
/// one.
pub proof fn lemma_clamp_within_bounds(rate: int, bounds: ChargingBounds)
    requires
        bounds.is_ordered(),
    ensures
        bounds.lower_bnd <= clamp_rate(rate, bounds) <= bounds.upper_bnd,
{
}

/// Clamping a clamped rate changes nothing.
pub proof fn lemma_clamp_idempotent(rate: int, bounds: ChargingBounds)
    ensures
        clamp_rate(clamp_rate(rate, bounds), bounds) == clamp_rate(rate, bounds),
{
}

} // verus!
