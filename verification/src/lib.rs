//! Verified core of the Hubnity desktop time tracker.
//!
//! The executable pieces that decide what the tracker does (the timer state
//! machine, the screenshot scheduler, application-usage accumulation, the
//! sync bookkeeping and the settings resolution) live here with contracts.
//! Everything that talks to the window system, the database, the network or
//! the clock lives in the companion application crate.

pub mod calendar;
pub mod text;
pub mod timer;
pub mod activity;
pub mod screenshot;
pub mod app_tracker;
pub mod settings;
pub mod models;
pub mod sync;
pub mod commands;
