//! Verified core of a website archiving pipeline: liveness classification,
//! store synchronisation decisions, archive command construction and a
//! bounded pool of archive jobs driven as a state machine.

pub mod checker;
pub mod command;
pub mod config;
pub mod controller;
pub mod job;
pub mod website;
