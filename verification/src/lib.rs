//! Charge-budget control for an electric vehicle that shares a home's
//! electrical service.
//!
//! The crate decides how many amps the vehicle may draw so that vehicle and
//! home together stay under a configured ceiling, from nothing but the
//! home's power readings and a remote API to the vehicle. It is a single
//! controller for a single vehicle and keeps its state in memory only.
//!
//! Apart from reading the wall clock the crate does nothing to the outside
//! world. Every remote call is described as an action for the embedding
//! program to perform, and its outcome is handed back as an event; see
//! [`car::fairing`].
//!
//! Units are integral throughout: currents measured by a meter are whole
//! milliamps, currents requested of the vehicle are whole amps, distances
//! are whole metres and times are whole seconds since the Unix epoch.
//!
//! Besides the controller in [`car`], the crate holds a few rules of the
//! logging server that the controller lives in: how tokens are shown
//! ([`token`]), what a silent sensor leads to ([`alive_check`]) and how the
//! logged rows are paged ([`print_table`]).

pub mod alive_check;
pub mod car;
mod clock;
pub mod print_table;
pub mod text;
pub mod token;
