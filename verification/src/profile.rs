//! The charge profile that sets a connector's rate.

use vstd::prelude::*;
use vstd::string::StringExecFns;
use crate::clock::{Timestamp, is_timestamp, utc_now};
use crate::rate::{clamp, clamp_rate};
use crate::types::{ChargeProfile, ChargeProfileView, ChargingBounds};

verus! {

/// The profile that sets the connector `connector_id` of `charger_id` to
/// `rate`, clamped to `bounds`: one rate from the start of the schedule on,
/// at the lowest stack level, as the default of the connector's
/// transactions, with the schedule starting at `start_schedule`.
pub open spec fn spec_charge_profile(
    charger_id: Seq<char>,
    connector_id: i32,
    rate: int,
    bounds: ChargingBounds,
    start_schedule: Timestamp,
) -> ChargeProfileView {
    ChargeProfileView {
        charger_id,
        connector_id,
        start_periods: seq![0i32],
        stack_level: 0,
        charge_rates: seq![clamp_rate(rate, bounds) as i64],
        purpose: "TxDefaultProfile"@,
        start_schedule,
    }
}

/// Clamps `charge_rate` to `crg_bounds` and builds the profile that sets the
/// connector to it, with the schedule starting at `start_schedule`.
pub fn charge_profile_at(
    connector_id: &i32,
    charger_id: &String,
    charge_rate: &mut i64,
    crg_bounds: ChargingBounds,
    start_schedule: Timestamp,
) -> (profile: ChargeProfile)
    ensures
        *final(charge_rate) == clamp_rate(*old(charge_rate) as int, crg_bounds),
        profile@ == spec_charge_profile(
            charger_id@,
            *connector_id,
            *old(charge_rate) as int,
            crg_bounds,
            start_schedule,
        ),
{
    *charge_rate = clamp(*charge_rate, &crg_bounds);
    let profile = ChargeProfile {
        charger_id: charger_id.clone(),
        connector_id: *connector_id,
        start_periods: [0],
        stack_level: 0,
        charge_rates: [*charge_rate],
        purpose: String::from_str("TxDefaultProfile"),
        start_schedule,
    };
    assert(profile@.start_periods =~= seq![0i32]);
    assert(profile@.charge_rates =~= seq![*charge_rate]);
    profile
}

/// Clamps `charge_rate` to `crg_bounds` and builds the profile that sets the
/// connector to it, with the schedule starting now.
///
/// The start of the schedule is the time the UTC clock shows when it is
/// read. [`charge_profile_at`] says what comes back, given the reading.
pub fn create_charge_profile(
    connector_id: &i32,
    charger_id: &String,
    charge_rate: &mut i64,
    crg_bounds: ChargingBounds,
) -> (profile: ChargeProfile)
    ensures
        *final(charge_rate) == clamp_rate(*old(charge_rate) as int, crg_bounds),
        is_timestamp(profile.start_schedule as int),
        profile@ == spec_charge_profile(
            charger_id@,
            *connector_id,
            *old(charge_rate) as int,
            crg_bounds,
            profile.start_schedule,
        ),
{
    let start_schedule = utc_now();
    charge_profile_at(connector_id, charger_id, charge_rate, crg_bounds, start_schedule)
}

} // verus!
