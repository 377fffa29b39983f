//! Which chargers and sessions a cycle works on.
//!
//! A cycle asks every connector of every charger at the site for its latest
//! meter reading, and keeps a reading where the transaction behind it is
//! still open. The order is fixed: chargers as they were listed, and for each
//! its connectors from the first up.

use vstd::prelude::*;
use crate::types::{Charger, ChargerView, MeterValue, MeterValueView, Transaction, TransactionView};

verus! {

/// The number of connectors asked of each charger where nothing else is
/// known of it.
pub const CONNECTORS_PER_CHARGER: i32 = 2;

impl TransactionView {
    /// Whether the transaction is still open: it has not been stopped, and it
    /// has not been voided.
    pub open spec fn is_active(&self) -> bool {
        self.stop_reason is None && (self.voided is None || self.voided == Some(false))
    }
}

impl Transaction {
    /// Whether the transaction is still open.
    pub fn is_active(&self) -> (active: bool)
        ensures
            active == self@.is_active(),
    {
        match self.stop_reason {
            Some(_) => false,
            None => match self.voided {
                Some(voided) => !voided,
                None => true,
            },
        }
    }
}

/// Whether the transactions reported for a connector, latest first, show an
/// open session: there is one, and the latest is still open.
pub open spec fn session_is_active(transactions: Seq<TransactionView>) -> bool {
    transactions.len() > 0 && transactions[0].is_active()
}

/// Whether the session behind a meter reading is still open, judged by the
/// transactions reported for its connector, latest first. Where none was
/// reported there is nothing to curtail.
pub fn is_meterval_active(transactions: &Vec<Transaction>) -> (active: bool)
    ensures
        active == session_is_active(transactions.deep_view()),
{
    if transactions.len() == 0 {
        false
    } else {
        transactions[0].is_active()
    }
}

/// How a transaction is classed: one that was neither stopped nor voided is
/// active; one that was voided is not, whatever its stop reason; and one
/// that was stopped is not, voided or not.
pub proof fn lemma_liveness_classes(transaction: TransactionView)
    ensures
        transaction.stop_reason is None && transaction.voided is None ==> transaction.is_active(),
        transaction.voided == Some(true) ==> !transaction.is_active(),
        transaction.stop_reason is Some ==> !transaction.is_active(),
{
}

/// Whether a charger stands at `location_id`.
pub open spec fn is_at_location(charger: ChargerView, location_id: i32) -> bool {
    charger.location_id == Some(location_id)
}

/// The chargers among `listed` that stand at `location_id`, in their order.
pub open spec fn chargers_at(listed: Seq<ChargerView>, location_id: i32) -> Seq<ChargerView> {
    listed.filter(|charger: ChargerView| is_at_location(charger, location_id))
}

/// The chargers that stand at `location_id`, in the order they were listed.
pub fn get_chargers(chargers: Vec<Charger>, location_id: i32) -> (located: Vec<Charger>)
    ensures
        located.deep_view() == chargers_at(chargers.deep_view(), location_id),
{
    let ghost listed = chargers.deep_view();
    let mut located: Vec<Charger> = Vec::new();
    proof {
        reveal(Seq::filter);
        assert(listed.take(0) =~= Seq::empty());
        assert(located.deep_view() =~= Seq::empty());
    }
    for charger in it: chargers
        invariant
            it.seq().len() == listed.len(),
            forall|i: int| 0 <= i < listed.len() ==> (#[trigger] it.seq()[i])@ == listed[i],
            located.deep_view() == chargers_at(listed.take(it.index() as int), location_id),
    {
        let ghost done = it.index() as int;
        let ghost before = located.deep_view();
        proof {
            reveal(Seq::filter);
            assert(listed.take(done + 1).drop_last() =~= listed.take(done));
            assert(listed.take(done + 1).last() == charger@);
        }
        let stands_here = match charger.location_id {
            Some(id) => id == location_id,
            None => false,
        };
        if stands_here {
            located.push(charger);
            assert(located.deep_view() =~= before.push(charger@));
        }
    }
    assert(listed.take(listed.len() as int) =~= listed);
    located
}

/// The request for the latest meter reading of one connector.
#[derive(Debug, PartialEq, Eq)]
pub struct MeterValueQuery {
    pub charger_id: String,
    pub connector_id: i32,
}

pub struct MeterValueQueryView {
    pub charger_id: Seq<char>,
    pub connector_id: i32,
}

impl View for MeterValueQuery {
    type V = MeterValueQueryView;

    open spec fn view(&self) -> MeterValueQueryView {
        MeterValueQueryView { charger_id: self.charger_id@, connector_id: self.connector_id }
    }
}

impl DeepView for MeterValueQuery {
    type V = MeterValueQueryView;

    open spec fn deep_view(&self) -> MeterValueQueryView {
        self@
    }
}

/// The queries for the connectors of one charger: connector 1 up to
/// connector `connectors`.
pub open spec fn connector_queries(charger_id: Seq<char>, connectors: int) -> Seq<
    MeterValueQueryView,
> {
    Seq::new(
        if connectors > 0 {
            connectors as nat
        } else {
            0
        },
        |k: int| MeterValueQueryView { charger_id, connector_id: (k + 1) as i32 },
    )
}

/// The queries of a cycle: for each charger in order, each of its connectors
/// in order.
pub open spec fn queries_for(chargers: Seq<ChargerView>, connectors: int) -> Seq<
    MeterValueQueryView,
>
    decreases chargers.len(),
{
    if chargers.len() == 0 {
        Seq::empty()
    } else {
        queries_for(chargers.drop_last(), connectors) + connector_queries(
            chargers.last().id,
            connectors,
        )
    }
}

/// The meter readings to ask for in one cycle, in the order the cycle works
/// through them: the chargers as they are listed, and `connectors_per_charger`
/// connectors of each, numbered from 1. A count below 1 asks for nothing.
pub fn meter_value_queries(chargers: &Vec<Charger>, connectors_per_charger: i32) -> (queries: Vec<
    MeterValueQuery,
>)
    ensures
        queries.deep_view() == queries_for(chargers.deep_view(), connectors_per_charger as int),
{
    let ghost listed = chargers.deep_view();
    let mut queries: Vec<MeterValueQuery> = Vec::new();
    let mut i: usize = 0;
    proof {
        assert(listed.take(0) =~= Seq::empty());
        assert(queries.deep_view() =~= Seq::empty());
    }
    while i < chargers.len()
        invariant
            i <= chargers.len(),
            listed == chargers.deep_view(),
            queries.deep_view() == queries_for(listed.take(i as int), connectors_per_charger as int),
        decreases chargers.len() - i,
    {
        let ghost done = queries.deep_view();
        let ghost id = chargers[i as int].id@;
        let mut connector: i32 = 0;
        while connector < connectors_per_charger
            invariant
                0 <= connector,
                connector <= connectors_per_charger || connector == 0,
                i < chargers.len(),
                id == chargers[i as int].id@,
                queries.deep_view() == done + connector_queries(id, connector as int),
            decreases connectors_per_charger - connector,
        {
            let ghost before = queries.deep_view();
            connector += 1;
            queries.push(MeterValueQuery { charger_id: chargers[i].id.clone(), connector_id: connector });
            assert(queries.deep_view() =~= before.push(
                MeterValueQueryView { charger_id: id, connector_id: connector },
            ));
            assert(connector_queries(id, connector as int) =~= connector_queries(
                id,
                connector - 1,
            ).push(MeterValueQueryView { charger_id: id, connector_id: connector }));
        }
        proof {
            assert(connector_queries(id, connector as int) =~= connector_queries(
                id,
                connectors_per_charger as int,
            ));
            assert(listed.take(i + 1).drop_last() =~= listed.take(i as int));
            assert(listed.take(i + 1).last().id == id);
        }
        i += 1;
    }
    assert(listed.take(i as int) =~= listed);
    queries
}

/// What the service reported for one connector: its meter readings and its
/// transactions, each latest first and each possibly empty.
#[derive(Debug, PartialEq, Eq)]
pub struct ConnectorReading {
    pub meter_values: Vec<MeterValue>,
    pub transactions: Vec<Transaction>,
}

pub struct ConnectorReadingView {
    pub meter_values: Seq<MeterValueView>,
    pub transactions: Seq<TransactionView>,
}

impl View for ConnectorReading {
    type V = ConnectorReadingView;

    open spec fn view(&self) -> ConnectorReadingView {
        ConnectorReadingView {
            meter_values: self.meter_values.deep_view(),
            transactions: self.transactions.deep_view(),
        }
    }
}

impl DeepView for ConnectorReading {
    type V = ConnectorReadingView;

    open spec fn deep_view(&self) -> ConnectorReadingView {
        self@
    }
}

/// The session a connector's reading stands for: its latest meter reading,
/// where there is one and the session behind it is still open.
pub open spec fn active_session(reading: ConnectorReadingView) -> Option<MeterValueView> {
    if reading.meter_values.len() > 0 && session_is_active(reading.transactions) {
        Some(reading.meter_values[0])
    } else {
        None
    }
}

/// The sessions that a cycle's readings stand for, in the order of the
/// readings.
pub open spec fn active_sessions(readings: Seq<ConnectorReadingView>) -> Seq<MeterValueView> {
    readings.filter_map(|reading: ConnectorReadingView| active_session(reading))
}

/// The latest meter reading of every connector whose session is still open,
/// in the order of `readings`. A connector for which no reading or no
/// transaction was reported is passed over.
pub fn get_meter_values(readings: Vec<ConnectorReading>) -> (meter_values: Vec<MeterValue>)
    ensures
        meter_values.deep_view() == active_sessions(readings.deep_view()),
{
    let ghost reported = readings.deep_view();
    let mut meter_values: Vec<MeterValue> = Vec::new();
    proof {
        assert(reported.take(0) =~= Seq::empty());
        assert(meter_values.deep_view() =~= Seq::empty());
    }
    for reading in it: readings
        invariant
            it.seq().len() == reported.len(),
            forall|i: int| 0 <= i < reported.len() ==> (#[trigger] it.seq()[i])@ == reported[i],
            meter_values.deep_view() == active_sessions(reported.take(it.index() as int)),
    {
        let ghost done = it.index() as int;
        let ghost before = meter_values.deep_view();
        proof {
            assert(reported.take(done + 1).drop_last() =~= reported.take(done));
            assert(reported.take(done + 1).last() == reading@);
        }
        if reading.meter_values.len() > 0 && is_meterval_active(&reading.transactions) {
            let mut latest = reading.meter_values;
            let meter_value = latest.swap_remove(0);
            assert(meter_value@ == reading@.meter_values[0]);
            meter_values.push(meter_value);
            assert(meter_values.deep_view() =~= before + seq![meter_value@]);
        }
    }
    assert(reported.take(reported.len() as int) =~= reported);
    meter_values
}

} // verus!
