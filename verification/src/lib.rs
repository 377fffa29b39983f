//! Curtailment control for overnight fleet charging.
//!
//! The library holds the decisions of a charging curtailment controller: the
//! nightly window and its rollover, the rate a session needs to reach its
//! target state of charge before the window closes, the clamp to the
//! configured operating range, the per-connector history of issued profiles,
//! and the cycle that ties them together. Transport, configuration and the
//! passing of time stay with the caller, who hands in plain values.
//!
//! Times are whole seconds. Rates are whole watts.

pub mod clock;
pub mod control;
pub mod history;
pub mod profile;
pub mod rate;
pub mod sessions;
pub mod soc;
pub mod types;
pub mod window;
