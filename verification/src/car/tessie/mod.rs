//! The Tessie backend: a third-party API in front of Tesla vehicles.
//!
//! Tessie keeps the vehicle's tokens fresh and knows whether the vehicle is
//! awake, so that a controller can ask for the vehicle's state without waking
//! it. This module says which requests are sent to Tessie and how its answers
//! are read; sending them is left to the embedding program.

pub mod api;
