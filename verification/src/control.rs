//! The control loop's decisions.
//!
//! The loop wakes at a fixed interval and looks at the clock. It first rolls
//! the curtailment window forward where the window has gone stale. It then
//! recalculates where the window has opened and the last recalculation lies
//! a full recalculation interval back, and waits otherwise. A recalculation
//! works through the sessions of the site in order and sets a rate for each:
//! the rate the session needs to reach the desired state of charge by the
//! end of the window where its state of charge can be read, and otherwise the
//! rate it was last given, or the default rate where it was given none. Every
//! rate is clamped before it leaves. Rates computed from a reading are
//! recorded; rates that were only repeated are not.
//!
//! The caller runs the loop: it reads the clock, asks the service, sends the
//! profiles and sleeps. The controller holds the state and decides, and
//! [`runner_loop`] is one turn of the loop: it takes what the caller has to
//! report and says what to do next.

use vstd::prelude::*;
use crate::clock::{Seconds, Timestamp, MAX_TIMESTAMP, is_timestamp};
use crate::history::{
    History,
    HistoryStore,
    history_key,
    most_recent_of,
    profiles_of,
    recorded,
    spec_history_key,
};
use crate::profile::{charge_profile_at, spec_charge_profile};
use crate::rate::{charge_rate, clamp_rate, get_charge_rate};
use crate::sessions::{
    ConnectorReading,
    ConnectorReadingView,
    MeterValueQuery,
    MeterValueQueryView,
    active_sessions,
    chargers_at,
    get_chargers,
    get_meter_values,
    meter_value_queries,
    queries_for,
};
use crate::soc::{UNREADABLE_SOC, parse_meterval, soc_needed, soc_of_meterval, spec_soc_needed};
use crate::types::{
    ChargeProfile,
    ChargeProfileView,
    Charger,
    ChargerView,
    ChargingBounds,
    MeterValue,
    MeterValueView,
};
use crate::window::CurtailmentWindow;

verus! {

/// The seconds the loop sleeps between two looks at the clock.
pub const TIME_BETWEEN_LOOPS: u64 = 5 * 60;

/// The seconds that pass between two recalculations where nothing else is
/// configured.
pub const TIME_BETWEEN_RECALCULATIONS: i64 = 15 * 60;

/// What the controller is configured with, read once when it starts.
#[derive(Clone, Copy, Debug, PartialEq, Eq)]
pub struct Settings {
    /// The capacity of a vehicle's battery in kilowatt-hours.
    pub battery_capacity: i32,
    /// The state of charge to reach by the end of the window, in percent.
    pub desired_soc: i8,
    /// The range every issued rate is clamped to, in watts.
    pub charging_bounds: ChargingBounds,
    /// The site whose chargers are curtailed.
    pub location_id: i32,
    /// The rate, in watts, for a session that cannot be read and has no
    /// history.
    pub default_charge_rate: i64,
    /// The hour of the day at which curtailment starts.
    pub curtailment_start_hour: u32,
    /// The hour of the day at which curtailment stops.
    pub curtailment_stop_hour: u32,
    /// The least time between two recalculations.
    pub recalculation_interval: Seconds,
    /// The number of connectors asked of each charger.
    pub connectors_per_charger: i32,
}

impl Settings {
    /// Both hours are hours of a day, and the recalculation interval is a
    /// span of time the library works with.
    pub open spec fn wf(&self) -> bool {
        &&& self.curtailment_start_hour < 24
        &&& self.curtailment_stop_hour < 24
        &&& 0 <= self.recalculation_interval <= MAX_TIMESTAMP
    }

    /// Whether the settings are well formed.
    pub fn is_valid(&self) -> (valid: bool)
        ensures
            valid == self.wf(),
    {
        self.curtailment_start_hour < 24 && self.curtailment_stop_hour < 24 && 0
            <= self.recalculation_interval && self.recalculation_interval <= MAX_TIMESTAMP
    }
}

/// What the loop does after a look at the clock.
#[derive(Clone, Copy, Debug, PartialEq, Eq)]
pub enum Decision {
    /// Gather the sessions of the site and recalculate their rates.
    Recalculate,
    /// Do nothing now. `recheck_at` is when a recalculation would be due if
    /// the last one had just been made.
    Wait { recheck_at: Timestamp },
}

/// Whether a recalculation is due at `now`: none has been made yet, or the
/// last one lies at least `interval` back.
pub open spec fn is_due(last_recalculation: Option<Timestamp>, interval: int, now: int) -> bool {
    match last_recalculation {
        Some(last) => now - last >= interval,
        None => true,
    }
}

/// What the loop does at `now`, given the window in force: it recalculates
/// where a recalculation is due and the window has opened, and waits
/// otherwise.
pub open spec fn spec_decision(
    window: CurtailmentWindow,
    last_recalculation: Option<Timestamp>,
    interval: Seconds,
    now: Timestamp,
) -> Decision {
    if is_due(last_recalculation, interval as int, now as int) && window.spec_has_opened(
        now as int,
    ) {
        Decision::Recalculate
    } else {
        Decision::Wait { recheck_at: (now + interval) as i64 }
    }
}

/// Whether the state of charge of a session can be read.
pub open spec fn is_readable(session: MeterValueView) -> bool {
    soc_of_meterval(session) != UNREADABLE_SOC
}

/// The key under which the profiles of a session's connector are kept.
pub open spec fn session_key(session: MeterValueView) -> Seq<char> {
    spec_history_key(session.charger_id, session.connector_id as int)
}

/// The rate chosen for a session at `now`, before it is clamped.
///
/// Where the state of charge can be read, it is the rate that fills what is
/// missing to the desired state of charge in the time until the window
/// closes. Where it cannot, it is the rate of the profile recorded last for
/// the connector, and the default rate where none was recorded.
pub open spec fn session_rate(
    settings: Settings,
    window: CurtailmentWindow,
    history: History,
    session: MeterValueView,
    now: int,
) -> int {
    if is_readable(session) {
        charge_rate(
            window.spec_remaining(now),
            spec_soc_needed(settings.desired_soc as int, soc_of_meterval(session) as int),
            settings.battery_capacity as int,
        )
    } else {
        match most_recent_of(history, session_key(session)) {
            Some(profile) => profile.charge_rates[0] as int,
            None => settings.default_charge_rate as int,
        }
    }
}

/// The profile issued for a session at `now`: the chosen rate, clamped.
pub open spec fn session_profile(
    settings: Settings,
    window: CurtailmentWindow,
    history: History,
    session: MeterValueView,
    now: int,
    start_schedule: Timestamp,
) -> ChargeProfileView {
    spec_charge_profile(
        session.charger_id,
        session.connector_id,
        session_rate(settings, window, history, session, now),
        settings.charging_bounds,
        start_schedule,
    )
}

/// The history after a session was worked on: with the issued profile
/// recorded where the state of charge could be read, and unchanged where it
/// could not.
pub open spec fn history_after_session(
    settings: Settings,
    window: CurtailmentWindow,
    history: History,
    session: MeterValueView,
    now: int,
    start_schedule: Timestamp,
) -> History {
    if is_readable(session) {
        recorded(
            history,
            session_key(session),
            session_profile(settings, window, history, session, now, start_schedule),
        )
    } else {
        history
    }
}

/// The history after the sessions of a cycle were worked on, one after the
/// other.
pub open spec fn cycle_history(
    settings: Settings,
    window: CurtailmentWindow,
    history: History,
    sessions: Seq<MeterValueView>,
    now: int,
    start_schedule: Timestamp,
) -> History
    decreases sessions.len(),
{
    if sessions.len() == 0 {
        history
    } else {
        history_after_session(
            settings,
            window,
            cycle_history(settings, window, history, sessions.drop_last(), now, start_schedule),
            sessions.last(),
            now,
            start_schedule,
        )
    }
}

/// The profiles issued in a cycle, one for each session and in the order of
/// the sessions, each chosen with the history that the sessions before it
/// left behind.
pub open spec fn cycle_profiles(
    settings: Settings,
    window: CurtailmentWindow,
    history: History,
    sessions: Seq<MeterValueView>,
    now: int,
    start_schedule: Timestamp,
) -> Seq<ChargeProfileView>
    decreases sessions.len(),
{
    if sessions.len() == 0 {
        Seq::empty()
    } else {
        cycle_profiles(
            settings,
            window,
            history,
            sessions.drop_last(),
            now,
            start_schedule,
        ).push(
            session_profile(
                settings,
                window,
                cycle_history(settings, window, history, sessions.drop_last(), now, start_schedule),
                sessions.last(),
                now,
                start_schedule,
            ),
        )
    }
}

/// Where the loop stands between two turns.
#[derive(Clone, Copy, Debug, PartialEq, Eq)]
pub enum Phase {
    /// Waiting for the window to open or for the recalculation interval to
    /// pass.
    IdleWaiting,
    /// A recalculation was decided on at `since`, and the sessions of the
    /// site are being gathered.
    Recalculating { since: Timestamp },
}

/// The state of the control loop.
pub struct Controller {
    pub settings: Settings,
    pub window: CurtailmentWindow,
    /// When the last recalculation was completed; nothing before the first.
    pub last_recalculation: Option<Timestamp>,
    pub phase: Phase,
    pub prev_profiles: HistoryStore,
}

/// The state of the control loop, with the history shown as what it holds.
pub struct ControllerView {
    pub settings: Settings,
    pub window: CurtailmentWindow,
    pub last_recalculation: Option<Timestamp>,
    pub phase: Phase,
    pub history: History,
}

impl View for Controller {
    type V = ControllerView;

    open spec fn view(&self) -> ControllerView {
        ControllerView {
            settings: self.settings,
            window: self.window,
            last_recalculation: self.last_recalculation,
            phase: self.phase,
            history: self.prev_profiles@,
        }
    }
}

impl ControllerView {
    /// The settings and the window are well formed, the window is the one
    /// the settings ask for, and the times held are times the library works
    /// with.
    pub open spec fn wf(&self) -> bool {
        &&& self.settings.wf()
        &&& self.window.wf()
        &&& self.window.start_hour == self.settings.curtailment_start_hour
        &&& self.window.stop_hour == self.settings.curtailment_stop_hour
        &&& self.last_recalculation matches Some(last) ==> is_timestamp(last as int)
        &&& self.phase matches Phase::Recalculating { since } ==> is_timestamp(since as int)
    }

    /// The state as the loop starts at `now`: the window computed for the
    /// day of `now`, no recalculation made and nothing recorded.
    pub open spec fn initial(settings: Settings, now: Timestamp) -> ControllerView {
        ControllerView {
            settings,
            window: CurtailmentWindow::spec_compute(
                now as int,
                settings.curtailment_start_hour,
                settings.curtailment_stop_hour,
            ),
            last_recalculation: None,
            phase: Phase::IdleWaiting,
            history: Map::empty(),
        }
    }

    /// What the loop decides at `now`, by the window in force once it has
    /// been rolled forward.
    pub open spec fn decision(self, now: Timestamp) -> Decision {
        spec_decision(
            self.window.spec_roll_forward(now as int),
            self.last_recalculation,
            self.settings.recalculation_interval,
            now,
        )
    }

    /// The state after a look at the clock at `now`: the window rolled
    /// forward, and a recalculation begun where one was decided on.
    pub open spec fn ticked(self, now: Timestamp) -> ControllerView {
        ControllerView {
            window: self.window.spec_roll_forward(now as int),
            phase: if self.decision(now) == Decision::Recalculate {
                Phase::Recalculating { since: now }
            } else {
                Phase::IdleWaiting
            },
            ..self
        }
    }

    /// The profile issued for `session` at `now`.
    pub open spec fn profile_for(
        self,
        session: MeterValueView,
        now: Timestamp,
        start_schedule: Timestamp,
    ) -> ChargeProfileView {
        session_profile(
            self.settings,
            self.window,
            self.history,
            session,
            now as int,
            start_schedule,
        )
    }

    /// The state after `session` was worked on at `now`.
    pub open spec fn dispatched(
        self,
        session: MeterValueView,
        now: Timestamp,
        start_schedule: Timestamp,
    ) -> ControllerView {
        ControllerView {
            history: history_after_session(
                self.settings,
                self.window,
                self.history,
                session,
                now as int,
                start_schedule,
            ),
            ..self
        }
    }

    /// The profiles issued for `sessions` at `now`, in their order.
    pub open spec fn profiles_for(
        self,
        sessions: Seq<MeterValueView>,
        now: Timestamp,
        start_schedule: Timestamp,
    ) -> Seq<ChargeProfileView> {
        cycle_profiles(
            self.settings,
            self.window,
            self.history,
            sessions,
            now as int,
            start_schedule,
        )
    }

    /// The state after `sessions` were worked on at `now`, one after the
    /// other.
    pub open spec fn recalculated(
        self,
        sessions: Seq<MeterValueView>,
        now: Timestamp,
        start_schedule: Timestamp,
    ) -> ControllerView {
        ControllerView {
            history: cycle_history(
                self.settings,
                self.window,
                self.history,
                sessions,
                now as int,
                start_schedule,
            ),
            ..self
        }
    }

    /// The state after a recalculation was completed at `now`.
    pub open spec fn finished(self, now: Timestamp) -> ControllerView {
        ControllerView { last_recalculation: Some(now), phase: Phase::IdleWaiting, ..self }
    }
}

impl Controller {
    /// The state is well formed, and so is the store behind its history.
    pub open spec fn wf(&self) -> bool {
        self@.wf() && self.prev_profiles.wf()
    }

    /// The controller as the loop starts at `now`.
    pub fn new(settings: Settings, now: Timestamp) -> (controller: Self)
        requires
            settings.wf(),
            is_timestamp(now as int),
        ensures
            controller.wf(),
            controller@ == ControllerView::initial(settings, now),
    {
        Controller {
            settings,
            window: CurtailmentWindow::compute(
                now,
                settings.curtailment_start_hour,
                settings.curtailment_stop_hour,
            ),
            last_recalculation: None,
            phase: Phase::IdleWaiting,
            prev_profiles: HistoryStore::new(),
        }
    }

    /// One look at the clock: rolls the window forward where it is stale at
    /// `now`, and decides by the window then in force whether to recalculate.
    pub fn tick(&mut self, now: Timestamp) -> (decision: Decision)
        requires
            old(self).wf(),
            is_timestamp(now as int),
        ensures
            final(self).wf(),
            final(self)@ == old(self)@.ticked(now),
            decision == old(self)@.decision(now),
    {
        self.window.roll_forward(now);
        let due = match self.last_recalculation {
            Some(last) => now - last >= self.settings.recalculation_interval,
            None => true,
        };
        if due && self.window.has_opened(now) {
            self.phase = Phase::Recalculating { since: now };
            Decision::Recalculate
        } else {
            self.phase = Phase::IdleWaiting;
            Decision::Wait { recheck_at: now + self.settings.recalculation_interval }
        }
    }

    /// Chooses the rate of one session at `now` and builds the profile that
    /// sets it, with the schedule starting at `start_schedule`. The profile
    /// is recorded where the rate was computed from the session's state of
    /// charge.
    pub fn dispatch(&mut self, value: &MeterValue, now: Timestamp, start_schedule: Timestamp) -> (profile:
        ChargeProfile)
        requires
            old(self).wf(),
            is_timestamp(now as int),
        ensures
            final(self).wf(),
            final(self)@ == old(self)@.dispatched(value@, now, start_schedule),
            profile@ == old(self)@.profile_for(value@, now, start_schedule),
    {
        let current_soc = parse_meterval(value);
        let key = history_key(&value.charger_id, value.connector_id);
        if current_soc != UNREADABLE_SOC {
            let needed = soc_needed(self.settings.desired_soc, current_soc);
            let time_to_charge = self.window.remaining(now);
            let mut rate = get_charge_rate(time_to_charge, needed, &self.settings.battery_capacity);
            let profile = charge_profile_at(
                &value.connector_id,
                &value.charger_id,
                &mut rate,
                self.settings.charging_bounds,
                start_schedule,
            );
            self.prev_profiles.record(key, profile.clone());
            profile
        } else {
            let mut rate = match self.prev_profiles.most_recent(&key) {
                Some(profile) => profile.charge_rates[0],
                None => self.settings.default_charge_rate,
            };
            charge_profile_at(
                &value.connector_id,
                &value.charger_id,
                &mut rate,
                self.settings.charging_bounds,
                start_schedule,
            )
        }
    }

    /// One recalculation at `now`: a profile for each session, in the order
    /// of the sessions, each chosen as [`Controller::dispatch`] chooses it.
    pub fn recalculate(
        &mut self,
        meter_values: &Vec<MeterValue>,
        now: Timestamp,
        start_schedule: Timestamp,
    ) -> (profiles: Vec<ChargeProfile>)
        requires
            old(self).wf(),
            is_timestamp(now as int),
        ensures
            final(self).wf(),
            final(self)@ == old(self)@.recalculated(meter_values.deep_view(), now, start_schedule),
            profiles.deep_view() == old(self)@.profiles_for(
                meter_values.deep_view(),
                now,
                start_schedule,
            ),
    {
        let ghost sessions = meter_values.deep_view();
        let ghost before = self@;
        let mut profiles: Vec<ChargeProfile> = Vec::new();
        let mut i: usize = 0;
        proof {
            assert(sessions.take(0) =~= Seq::empty());
            assert(profiles.deep_view() =~= Seq::empty());
        }
        while i < meter_values.len()
            invariant
                i <= meter_values.len(),
                sessions == meter_values.deep_view(),
                is_timestamp(now as int),
                self.wf(),
                self@ == before.recalculated(sessions.take(i as int), now, start_schedule),
                profiles.deep_view() == before.profiles_for(
                    sessions.take(i as int),
                    now,
                    start_schedule,
                ),
            decreases meter_values.len() - i,
        {
            let ghost issued = profiles.deep_view();
            proof {
                assert(sessions.take(i + 1).drop_last() =~= sessions.take(i as int));
                assert(sessions.take(i + 1).last() == meter_values[i as int]@);
            }
            let profile = self.dispatch(&meter_values[i], now, start_schedule);
            profiles.push(profile);
            assert(profiles.deep_view() =~= issued.push(profile@));
            i += 1;
        }
        assert(sessions.take(i as int) =~= sessions);
        profiles
    }

    /// Marks the recalculation as completed at `now`, and the loop as
    /// waiting again.
    pub fn finish_cycle(&mut self, now: Timestamp)
        requires
            old(self).wf(),
            is_timestamp(now as int),
        ensures
            final(self).wf(),
            final(self)@ == old(self)@.finished(now),
    {
        self.last_recalculation = Some(now);
        self.phase = Phase::IdleWaiting;
    }
}

/// What the caller reports to the loop.
#[derive(Debug, PartialEq, Eq)]
pub enum LoopEvent {
    /// The loop woke and the clock shows `now`.
    Tick { now: Timestamp },
    /// The service listed its chargers.
    Chargers { chargers: Vec<Charger> },
    /// The meters were read: one reading for each query that was answered,
    /// in the order of the queries, the clock showing `now`, and
    /// `start_schedule` the time from which the new rates are to hold.
    Readings { readings: Vec<ConnectorReading>, now: Timestamp, start_schedule: Timestamp },
}

pub enum LoopEventView {
    Tick { now: Timestamp },
    Chargers { chargers: Seq<ChargerView> },
    Readings { readings: Seq<ConnectorReadingView>, now: Timestamp, start_schedule: Timestamp },
}

impl View for LoopEvent {
    type V = LoopEventView;

    open spec fn view(&self) -> LoopEventView {
        match self {
            LoopEvent::Tick { now } => LoopEventView::Tick { now: *now },
            LoopEvent::Chargers { chargers } => LoopEventView::Chargers {
                chargers: chargers.deep_view(),
            },
            LoopEvent::Readings { readings, now, start_schedule } => LoopEventView::Readings {
                readings: readings.deep_view(),
                now: *now,
                start_schedule: *start_schedule,
            },
        }
    }
}

impl LoopEventView {
    /// The time of the event, where it has one, is a time the library works
    /// with.
    pub open spec fn wf(&self) -> bool {
        match self {
            LoopEventView::Tick { now } => is_timestamp(*now as int),
            LoopEventView::Chargers { .. } => true,
            LoopEventView::Readings { now, .. } => is_timestamp(*now as int),
        }
    }
}

/// What the loop asks the caller to do.
#[derive(Debug, PartialEq, Eq)]
pub enum LoopAction {
    /// Ask the service for its chargers and report them.
    ListChargers,
    /// Ask for the latest meter reading of each of these connectors, and for
    /// the latest transaction of each connector that has a reading, and
    /// report what came back in this order.
    ReadMeters { queries: Vec<MeterValueQuery> },
    /// Send these profiles, in this order, then sleep.
    Send { profiles: Vec<ChargeProfile> },
    /// Sleep. `recheck_at` is when a recalculation would be due if the last
    /// one had just been made.
    Wait { recheck_at: Timestamp },
}

pub enum LoopActionView {
    ListChargers,
    ReadMeters { queries: Seq<MeterValueQueryView> },
    Send { profiles: Seq<ChargeProfileView> },
    Wait { recheck_at: Timestamp },
}

impl View for LoopAction {
    type V = LoopActionView;

    open spec fn view(&self) -> LoopActionView {
        match self {
            LoopAction::ListChargers => LoopActionView::ListChargers,
            LoopAction::ReadMeters { queries } => LoopActionView::ReadMeters {
                queries: queries.deep_view(),
            },
            LoopAction::Send { profiles } => LoopActionView::Send { profiles: profiles.deep_view() },
            LoopAction::Wait { recheck_at } => LoopActionView::Wait { recheck_at: *recheck_at },
        }
    }
}

/// The state after one turn of the loop.
///
/// A tick rolls the window forward and begins a recalculation where one is
/// due. A list of chargers changes nothing. Readings that arrive while a
/// recalculation is under way have their open sessions worked on, with the
/// time left counted from when the recalculation was decided on, and
/// complete it at the time they arrived. Readings that arrive while the loop
/// is waiting change nothing.
pub open spec fn spec_next_state(state: ControllerView, event: LoopEventView) -> ControllerView {
    match event {
        LoopEventView::Tick { now } => state.ticked(now),
        LoopEventView::Chargers { .. } => state,
        LoopEventView::Readings { readings, now, start_schedule } => match state.phase {
            Phase::Recalculating { since } => state.recalculated(
                active_sessions(readings),
                since,
                start_schedule,
            ).finished(now),
            Phase::IdleWaiting => state,
        },
    }
}

/// What one turn of the loop asks for.
///
/// A tick asks for the chargers where a recalculation is due, and for sleep
/// otherwise. A list of chargers is answered with the meters to read: every
/// connector of every charger at the configured site, and none while the
/// loop is waiting. Readings are answered with a profile for each open
/// session, and with sleep while the loop is waiting.
pub open spec fn spec_next_action(state: ControllerView, event: LoopEventView) -> LoopActionView {
    match event {
        LoopEventView::Tick { now } => match state.decision(now) {
            Decision::Recalculate => LoopActionView::ListChargers,
            Decision::Wait { recheck_at } => LoopActionView::Wait { recheck_at },
        },
        LoopEventView::Chargers { chargers } => match state.phase {
            Phase::Recalculating { .. } => LoopActionView::ReadMeters {
                queries: queries_for(
                    chargers_at(chargers, state.settings.location_id),
                    state.settings.connectors_per_charger as int,
                ),
            },
            Phase::IdleWaiting => LoopActionView::ReadMeters { queries: Seq::empty() },
        },
        LoopEventView::Readings { readings, now, start_schedule } => match state.phase {
            Phase::Recalculating { since } => LoopActionView::Send {
                profiles: state.profiles_for(active_sessions(readings), since, start_schedule),
            },
            Phase::IdleWaiting => LoopActionView::Wait {
                recheck_at: (now + state.settings.recalculation_interval) as i64,
            },
        },
    }
}

/// One turn of the control loop: takes what the caller has to report and
/// says what to do next.
///
/// The caller starts with a tick and does as it is told: it lists the
/// chargers and reports them, reads the meters and reports the readings,
/// sends the profiles. Whenever it is told to wait, and whenever it has sent
/// what it was told to send, it sleeps [`TIME_BETWEEN_LOOPS`] seconds and
/// starts over with a tick. A charger or connector it cannot reach it leaves
/// out of its report.
pub fn runner_loop(controller: &mut Controller, event: LoopEvent) -> (action: LoopAction)
    requires
        old(controller).wf(),
        event@.wf(),
    ensures
        final(controller).wf(),
        final(controller)@ == spec_next_state(old(controller)@, event@),
        action@ == spec_next_action(old(controller)@, event@),
{
    match event {
        LoopEvent::Tick { now } => match controller.tick(now) {
            Decision::Recalculate => LoopAction::ListChargers,
            Decision::Wait { recheck_at } => LoopAction::Wait { recheck_at },
        },
        LoopEvent::Chargers { chargers } => match controller.phase {
            Phase::Recalculating { .. } => {
                let located = get_chargers(chargers, controller.settings.location_id);
                LoopAction::ReadMeters {
                    queries: meter_value_queries(
                        &located,
                        controller.settings.connectors_per_charger,
                    ),
                }
            },
            Phase::IdleWaiting => {
                let queries: Vec<MeterValueQuery> = Vec::new();
                assert(queries.deep_view() =~= Seq::empty());
                LoopAction::ReadMeters { queries }
            },
        },
        LoopEvent::Readings { readings, now, start_schedule } => match controller.phase {
            Phase::Recalculating { since } => {
                let meter_values = get_meter_values(readings);
                let profiles = controller.recalculate(&meter_values, since, start_schedule);
                controller.finish_cycle(now);
                LoopAction::Send { profiles }
            },
            Phase::IdleWaiting => LoopAction::Wait {
                recheck_at: now + controller.settings.recalculation_interval,
            },
        },
    }
}

/// A session whose state of charge cannot be read, and whose connector has
/// no history, is given exactly the default rate, clamped, and leaves the
/// history as it is.
pub proof fn lemma_fallback_to_default(
    state: ControllerView,
    session: MeterValueView,
    now: Timestamp,
    start_schedule: Timestamp,
)
    requires
        !is_readable(session),
        most_recent_of(state.history, session_key(session)) is None,
    ensures
        state.profile_for(session, now, start_schedule).charge_rates == seq![
            clamp_rate(state.settings.default_charge_rate as int, state.settings.charging_bounds) as i64,
        ],
        state.dispatched(session, now, start_schedule) == state,
{
}

/// A session whose state of charge cannot be read, and whose connector has
/// a history, is given the rate recorded last for it, clamped, whatever the
/// default rate is, and leaves the history as it is.
pub proof fn lemma_fallback_to_history(
    state: ControllerView,
    session: MeterValueView,
    now: Timestamp,
    start_schedule: Timestamp,
    last: ChargeProfileView,
)
    requires
        !is_readable(session),
        most_recent_of(state.history, session_key(session)) == Some(last),
    ensures
        state.profile_for(session, now, start_schedule).charge_rates == seq![
            clamp_rate(last.charge_rates[0] as int, state.settings.charging_bounds) as i64,
        ],
        state.dispatched(session, now, start_schedule) == state,
{
}

/// A session whose state of charge can be read is given the rate that fills
/// what is missing in the time that is left, clamped; what is missing is
/// never negative; and the profile is recorded as the most recent of its
/// connector.
pub proof fn lemma_readable_session(
    state: ControllerView,
    session: MeterValueView,
    now: Timestamp,
    start_schedule: Timestamp,
)
    requires
        is_readable(session),
    ensures
        spec_soc_needed(state.settings.desired_soc as int, soc_of_meterval(session) as int) >= 0,
        state.profile_for(session, now, start_schedule).charge_rates == seq![
            clamp_rate(
                charge_rate(
                    state.window.stop_time - now,
                    spec_soc_needed(
                        state.settings.desired_soc as int,
                        soc_of_meterval(session) as int,
                    ),
                    state.settings.battery_capacity as int,
                ),
                state.settings.charging_bounds,
            ) as i64,
        ],
        most_recent_of(
            state.dispatched(session, now, start_schedule).history,
            session_key(session),
        ) == Some(state.profile_for(session, now, start_schedule)),
{
}

/// Every issued rate lies within the configured bounds, provided the bounds
/// leave room for one.
pub proof fn lemma_issued_rate_within_bounds(
    state: ControllerView,
    session: MeterValueView,
    now: Timestamp,
    start_schedule: Timestamp,
)
    requires
        state.settings.charging_bounds.is_ordered(),
    ensures
        state.settings.charging_bounds.lower_bnd <= state.profile_for(
            session,
            now,
            start_schedule,
        ).charge_rates[0] <= state.settings.charging_bounds.upper_bnd,
{
}

/// A cycle issues one profile for each session, and the profile at each
/// position is for the session at that position.
pub proof fn lemma_cycle_keeps_order(
    state: ControllerView,
    sessions: Seq<MeterValueView>,
    now: Timestamp,
    start_schedule: Timestamp,
)
    ensures
        state.profiles_for(sessions, now, start_schedule).len() == sessions.len(),
        forall|i: int|
            0 <= i < sessions.len() ==> {
                &&& (#[trigger] state.profiles_for(sessions, now, start_schedule)[i]).charger_id
                    == sessions[i].charger_id
                &&& state.profiles_for(sessions, now, start_schedule)[i].connector_id
                    == sessions[i].connector_id
                &&& state.profiles_for(sessions, now, start_schedule)[i] == state.recalculated(
                    sessions.take(i),
                    now,
                    start_schedule,
                ).profile_for(sessions[i], now, start_schedule)
            },
    decreases sessions.len(),
{
    if sessions.len() > 0 {
        let earlier = sessions.drop_last();
        lemma_cycle_keeps_order(state, earlier, now, start_schedule);
        assert forall|i: int| 0 <= i < sessions.len() implies {
            &&& (#[trigger] state.profiles_for(sessions, now, start_schedule)[i]).charger_id
                == sessions[i].charger_id
            &&& state.profiles_for(sessions, now, start_schedule)[i].connector_id
                == sessions[i].connector_id
            &&& state.profiles_for(sessions, now, start_schedule)[i] == state.recalculated(
                sessions.take(i),
                now,
                start_schedule,
            ).profile_for(sessions[i], now, start_schedule)
        } by {
            if i < sessions.len() - 1 {
                assert(earlier[i] == sessions[i]);
                assert(earlier.take(i) =~= sessions.take(i));
                assert(state.profiles_for(sessions, now, start_schedule)[i] == state.profiles_for(
                    earlier,
                    now,
                    start_schedule,
                )[i]);
            } else {
                assert(sessions.take(i) =~= earlier);
            }
        }
    }
}

/// A cycle never takes anything out of the history: what was recorded under
/// a key before the cycle is still there after it, in the same order and
/// ahead of whatever the cycle added.
pub proof fn lemma_cycle_only_appends(
    state: ControllerView,
    sessions: Seq<MeterValueView>,
    now: Timestamp,
    start_schedule: Timestamp,
    key: Seq<char>,
)
    ensures
        profiles_of(state.history, key).is_prefix_of(
            profiles_of(state.recalculated(sessions, now, start_schedule).history, key),
        ),
    decreases sessions.len(),
{
    if sessions.len() > 0 {
        let earlier = sessions.drop_last();
        lemma_cycle_only_appends(state, earlier, now, start_schedule, key);
        let midway = state.recalculated(earlier, now, start_schedule);
        assert(state.recalculated(sessions, now, start_schedule).history
            == midway.dispatched(sessions.last(), now, start_schedule).history);
        assert(profiles_of(midway.history, key).is_prefix_of(
            profiles_of(midway.dispatched(sessions.last(), now, start_schedule).history, key),
        ));
    }
}

} // verus!
