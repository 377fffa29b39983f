use chrono::Utc;
use curtailment::profile::{charge_profile_at, create_charge_profile};
use curtailment::types::{ChargeProfile, ChargingBounds};

const BOUNDS: ChargingBounds = ChargingBounds { lower_bnd: 10_000, upper_bnd: 20_000 };

#[test]
fn profile_sets_one_rate_from_the_start_of_the_schedule() {
    let mut rate = 15_000;
    let profile = charge_profile_at(&2, &String::from("depot-07"), &mut rate, BOUNDS, 1_700_000_000);
    assert_eq!(
        profile,
        ChargeProfile {
            charger_id: String::from("depot-07"),
            connector_id: 2,
            start_periods: [0],
            stack_level: 0,
            charge_rates: [15_000],
            purpose: String::from("TxDefaultProfile"),
            start_schedule: 1_700_000_000,
        }
    );
    assert_eq!(rate, 15_000);
}

#[test]
fn profile_clamps_the_rate_in_place() {
    let mut rate = 24_000;
    let profile = charge_profile_at(&1, &String::from("a"), &mut rate, BOUNDS, 0);
    assert_eq!(profile.charge_rates, [20_000]);
    assert_eq!(rate, 20_000);

    let mut rate = -3;
    let profile = charge_profile_at(&1, &String::from("a"), &mut rate, BOUNDS, 0);
    assert_eq!(profile.charge_rates, [10_000]);
    assert_eq!(rate, 10_000);
}

#[test]
fn profile_copy_equals_the_profile() {
    let mut rate = 12_345;
    let profile = charge_profile_at(&-4, &String::from("dépôt"), &mut rate, BOUNDS, -86_400);
    assert_eq!(profile.clone(), profile);
}

#[test]
fn profile_created_now_starts_now() {
    let before = Utc::now().timestamp();
    let mut rate = 30_000;
    let profile = create_charge_profile(&1, &String::from("depot-07"), &mut rate, BOUNDS);
    let after = Utc::now().timestamp();
    assert!(before <= profile.start_schedule && profile.start_schedule <= after);
    assert_eq!(rate, 20_000);
    assert_eq!(
        profile,
        ChargeProfile {
            charger_id: String::from("depot-07"),
            connector_id: 1,
            start_periods: [0],
            stack_level: 0,
            charge_rates: [20_000],
            purpose: String::from("TxDefaultProfile"),
            start_schedule: profile.start_schedule,
        }
    );
}
