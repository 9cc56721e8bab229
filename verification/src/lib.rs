//! Indoor positioning from Bluetooth beacon signal strengths.
//!
//! A client reports how strongly it hears which beacons; the beacons'
//! coordinates are known; the service answers with an estimated position, a
//! confidence and an error.
//!
//! `algorithms` is the positioning engine and `network` the service built on
//! it. Everything the engine decides is decided here: which readings count,
//! which method runs, when a system is singular, when an iteration stops,
//! which estimates may be handed out. What it needs computed on measurements
//! it asks of a numeric kernel that the caller supplies; measurements are
//! held by their encoding (`scalar`) and only ever compared. `domain`,
//! `infrastructure` and `api` are the inventory of beacons as devices.

pub mod algorithms;
pub mod api;
pub mod config;
pub mod domain;
pub mod error;
pub mod infrastructure;
pub mod network;
pub mod registry;
pub mod scalar;
pub mod text;
