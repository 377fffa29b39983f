use curtailment::history::{history_key, HistoryStore};
use curtailment::types::ChargeProfile;

fn profile(charger_id: &str, connector_id: i32, rate: i64) -> ChargeProfile {
    ChargeProfile {
        charger_id: String::from(charger_id),
        connector_id,
        start_periods: [0],
        stack_level: 0,
        charge_rates: [rate],
        purpose: String::from("TxDefaultProfile"),
        start_schedule: 1_700_000_000,
    }
}

fn key(text: &str) -> String {
    String::from(text)
}

#[test]
fn history_key_joins_charger_and_connector() {
    assert_eq!(history_key(&key("depot-07"), 2), "depot-07-2");
    assert_eq!(history_key(&key("a"), 0), "a-0");
    assert_eq!(history_key(&key("a"), 10), "a-10");
    assert_eq!(history_key(&key("a"), 1_203), "a-1203");
    assert_eq!(history_key(&key(""), 7), "-7");
    assert_eq!(history_key(&key("çhargeur №5"), 9), "çhargeur №5-9");
}

#[test]
fn history_key_writes_the_widest_connectors() {
    assert_eq!(history_key(&key("a"), i32::MAX), "a-2147483647");
    assert_eq!(history_key(&key("a"), i32::MIN), "a--2147483648");
    assert_eq!(history_key(&key("a"), -1), "a--1");
}

#[test]
fn history_starts_empty() {
    let store = HistoryStore::new();
    assert_eq!(store.most_recent(&key("depot-07-1")), None);
    assert_eq!(store.most_recent(&key("")), None);
}

#[test]
fn history_returns_what_was_recorded_last() {
    let mut store = HistoryStore::new();
    store.record(key("a-1"), profile("a", 1, 11_000));
    assert_eq!(store.most_recent(&key("a-1")), Some(&profile("a", 1, 11_000)));
    store.record(key("a-1"), profile("a", 1, 12_000));
    assert_eq!(store.most_recent(&key("a-1")), Some(&profile("a", 1, 12_000)));
    store.record(key("a-1"), profile("a", 1, 9_000));
    assert_eq!(store.most_recent(&key("a-1")), Some(&profile("a", 1, 9_000)));
}

#[test]
fn history_keeps_keys_apart() {
    let mut store = HistoryStore::new();
    store.record(key("a-1"), profile("a", 1, 11_000));
    store.record(key("a-2"), profile("a", 2, 12_000));
    store.record(key("b-1"), profile("b", 1, 13_000));
    store.record(key("a-2"), profile("a", 2, 14_000));
    assert_eq!(store.most_recent(&key("a-1")), Some(&profile("a", 1, 11_000)));
    assert_eq!(store.most_recent(&key("a-2")), Some(&profile("a", 2, 14_000)));
    assert_eq!(store.most_recent(&key("b-1")), Some(&profile("b", 1, 13_000)));
    assert_eq!(store.most_recent(&key("b-2")), None);
    assert_eq!(store.most_recent(&key("a-")), None);
    assert_eq!(store.most_recent(&key("A-1")), None);
}

#[test]
fn history_goes_by_the_key_not_by_the_profile() {
    let mut store = HistoryStore::new();
    store.record(key("shared"), profile("a", 1, 11_000));
    store.record(key("shared"), profile("b", 2, 12_000));
    assert_eq!(store.most_recent(&key("shared")), Some(&profile("b", 2, 12_000)));
    assert_eq!(store.most_recent(&history_key(&key("a"), 1)), None);
}

#[test]
fn history_grows_without_forgetting() {
    let mut store = HistoryStore::new();
    for round in 0..200i64 {
        for connector in 1..=4 {
            let charger = format!("c{}", connector % 2);
            store.record(history_key(&charger, connector), profile(&charger, connector, round * 10 + connector as i64));
        }
    }
    for connector in 1..=4 {
        let charger = format!("c{}", connector % 2);
        assert_eq!(
            store.most_recent(&history_key(&charger, connector)),
            Some(&profile(&charger, connector, 1_990 + connector as i64))
        );
    }
}
