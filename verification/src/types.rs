//! The data model: chargers, telemetry, transactions and charge profiles.
//!
//! Each type carries a view that shows its text as sequences of characters and
//! its lists as sequences, and the contracts of the library speak of those
//! views.

use vstd::prelude::*;
use crate::clock::Timestamp;

verus! {

/// How the management service talks to a charger.
#[derive(Clone, Copy, Debug, PartialEq, Eq)]
pub enum CommunicationType {
    RustDirectOcpp,
    OpenAdrMicrogrid,
}

/// The configured operating range for charge rates, in watts.
#[derive(Clone, Copy, Debug, PartialEq, Eq)]
pub struct ChargingBounds {
    pub lower_bnd: i32,
    pub upper_bnd: i32,
}

impl ChargingBounds {
    /// Whether the range holds at least one rate.
    pub open spec fn is_ordered(&self) -> bool {
        self.lower_bnd <= self.upper_bnd
    }
}

/// A charging station, as the management service lists it.
#[derive(Debug, PartialEq, Eq)]
pub struct Charger {
    pub id: String,
    pub charger_name: String,
    pub location_id: Option<i32>,
    pub communicate_through: CommunicationType,
}

pub struct ChargerView {
    pub id: Seq<char>,
    pub charger_name: Seq<char>,
    pub location_id: Option<i32>,
    pub communicate_through: CommunicationType,
}

impl View for Charger {
    type V = ChargerView;

    open spec fn view(&self) -> ChargerView {
        ChargerView {
            id: self.id@,
            charger_name: self.charger_name@,
            location_id: self.location_id,
            communicate_through: self.communicate_through,
        }
    }
}

impl DeepView for Charger {
    type V = ChargerView;

    open spec fn deep_view(&self) -> ChargerView {
        self@
    }
}

impl Clone for Charger {
    fn clone(&self) -> (copy: Self)
        ensures
            copy@ == self@,
    {
        Charger {
            id: self.id.clone(),
            charger_name: self.charger_name.clone(),
            location_id: self.location_id,
            communicate_through: self.communicate_through,
        }
    }
}

/// A copy of a text that may be absent.
pub fn clone_text(text: &Option<String>) -> (copy: Option<String>)
    ensures
        copy.deep_view() == text.deep_view(),
{
    match text {
        Some(text) => Some(text.clone()),
        None => None,
    }
}

/// One sampled value of a meter reading: what was measured, and the reading
/// as the charger wrote it. Either is absent where the record holds no text
/// under that name.
#[derive(Debug, PartialEq, Eq)]
pub struct SampledValue {
    pub measurand: Option<String>,
    pub value: Option<String>,
}

pub struct SampledValueView {
    pub measurand: Option<Seq<char>>,
    pub value: Option<Seq<char>>,
}

impl View for SampledValue {
    type V = SampledValueView;

    open spec fn view(&self) -> SampledValueView {
        SampledValueView { measurand: self.measurand.deep_view(), value: self.value.deep_view() }
    }
}

impl DeepView for SampledValue {
    type V = SampledValueView;

    open spec fn deep_view(&self) -> SampledValueView {
        self@
    }
}

impl Clone for SampledValue {
    fn clone(&self) -> (copy: Self)
        ensures
            copy@ == self@,
    {
        SampledValue { measurand: clone_text(&self.measurand), value: clone_text(&self.value) }
    }
}

/// The latest telemetry of one connector.
#[derive(Debug, PartialEq, Eq)]
pub struct MeterValue {
    pub connector_id: i32,
    pub charger_id: String,
    pub transaction_id: i32,
    pub time_stamp: Timestamp,
    pub sampled_value: Vec<SampledValue>,
}

pub struct MeterValueView {
    pub connector_id: i32,
    pub charger_id: Seq<char>,
    pub transaction_id: i32,
    pub time_stamp: Timestamp,
    pub sampled_value: Seq<SampledValueView>,
}

impl View for MeterValue {
    type V = MeterValueView;

    open spec fn view(&self) -> MeterValueView {
        MeterValueView {
            connector_id: self.connector_id,
            charger_id: self.charger_id@,
            transaction_id: self.transaction_id,
            time_stamp: self.time_stamp,
            sampled_value: self.sampled_value.deep_view(),
        }
    }
}

impl DeepView for MeterValue {
    type V = MeterValueView;

    open spec fn deep_view(&self) -> MeterValueView {
        self@
    }
}

impl Clone for MeterValue {
    fn clone(&self) -> (copy: Self)
        ensures
            copy@ == self@,
    {
        let mut sampled_value: Vec<SampledValue> = Vec::new();
        let mut i: usize = 0;
        while i < self.sampled_value.len()
            invariant
                i <= self.sampled_value.len(),
                sampled_value.deep_view() == self.sampled_value.deep_view().take(i as int),
            decreases self.sampled_value.len() - i,
        {
            let ghost before = sampled_value.deep_view();
            sampled_value.push(self.sampled_value[i].clone());
            assert(sampled_value.deep_view() =~= before.push(self.sampled_value[i as int]@));
            assert(self.sampled_value.deep_view().take(i + 1) =~= before.push(
                self.sampled_value[i as int]@,
            ));
            i += 1;
        }
        assert(self.sampled_value.deep_view().take(i as int) =~= self.sampled_value.deep_view());
        MeterValue {
            connector_id: self.connector_id,
            charger_id: self.charger_id.clone(),
            transaction_id: self.transaction_id,
            time_stamp: self.time_stamp,
            sampled_value,
        }
    }
}

/// A charging transaction, as the management service reports it.
#[derive(Debug, PartialEq, Eq)]
pub struct Transaction {
    pub connector_id: i32,
    pub id_tag: String,
    pub meter_start: i32,
    pub timestamp_start: Timestamp,
    pub transaction_id: Option<i32>,
    pub meter_stop: Option<i32>,
    pub timestamp_stop: Option<Timestamp>,
    pub stop_reason: Option<String>,
    pub charger_id: Option<String>,
    pub voided: Option<bool>,
}

pub struct TransactionView {
    pub connector_id: i32,
    pub id_tag: Seq<char>,
    pub meter_start: i32,
    pub timestamp_start: Timestamp,
    pub transaction_id: Option<i32>,
    pub meter_stop: Option<i32>,
    pub timestamp_stop: Option<Timestamp>,
    pub stop_reason: Option<Seq<char>>,
    pub charger_id: Option<Seq<char>>,
    pub voided: Option<bool>,
}

impl View for Transaction {
    type V = TransactionView;

    open spec fn view(&self) -> TransactionView {
        TransactionView {
            connector_id: self.connector_id,
            id_tag: self.id_tag@,
            meter_start: self.meter_start,
            timestamp_start: self.timestamp_start,
            transaction_id: self.transaction_id,
            meter_stop: self.meter_stop,
            timestamp_stop: self.timestamp_stop,
            stop_reason: self.stop_reason.deep_view(),
            charger_id: self.charger_id.deep_view(),
            voided: self.voided,
        }
    }
}

impl DeepView for Transaction {
    type V = TransactionView;

    open spec fn deep_view(&self) -> TransactionView {
        self@
    }
}

impl Clone for Transaction {
    fn clone(&self) -> (copy: Self)
        ensures
            copy@ == self@,
    {
        Transaction {
            connector_id: self.connector_id,
            id_tag: self.id_tag.clone(),
            meter_start: self.meter_start,
            timestamp_start: self.timestamp_start,
            transaction_id: self.transaction_id,
            meter_stop: self.meter_stop,
            timestamp_stop: self.timestamp_stop,
            stop_reason: clone_text(&self.stop_reason),
            charger_id: clone_text(&self.charger_id),
            voided: self.voided,
        }
    }
}

/// A command that sets the rate of one connector.
#[derive(Debug, PartialEq, Eq)]
pub struct ChargeProfile {
    pub charger_id: String,
    pub connector_id: i32,
    pub start_periods: [i32; 1],
    pub stack_level: i32,
    pub charge_rates: [i64; 1],
    pub purpose: String,
    pub start_schedule: Timestamp,
}

pub struct ChargeProfileView {
    pub charger_id: Seq<char>,
    pub connector_id: i32,
    pub start_periods: Seq<i32>,
    pub stack_level: i32,
    pub charge_rates: Seq<i64>,
    pub purpose: Seq<char>,
    pub start_schedule: Timestamp,
}

impl View for ChargeProfile {
    type V = ChargeProfileView;

    open spec fn view(&self) -> ChargeProfileView {
        ChargeProfileView {
            charger_id: self.charger_id@,
            connector_id: self.connector_id,
            start_periods: self.start_periods@,
            stack_level: self.stack_level,
            charge_rates: self.charge_rates@,
            purpose: self.purpose@,
            start_schedule: self.start_schedule,
        }
    }
}

impl DeepView for ChargeProfile {
    type V = ChargeProfileView;

    open spec fn deep_view(&self) -> ChargeProfileView {
        self@
    }
}

impl Clone for ChargeProfile {
    fn clone(&self) -> (copy: Self)
        ensures
            copy@ == self@,
    {
        ChargeProfile {
            charger_id: self.charger_id.clone(),
            connector_id: self.connector_id,
            start_periods: self.start_periods,
            stack_level: self.stack_level,
            charge_rates: self.charge_rates,
            purpose: self.purpose.clone(),
            start_schedule: self.start_schedule,
        }
    }
}

} // verus!
