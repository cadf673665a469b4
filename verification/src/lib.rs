//! Presence and telemetry coordination for a fleet of fixed Bluetooth
//! scanners that observe beacon devices and report raw advertisements to a
//! central server over UDP.
//!
//! The crate holds the server's verified core: the advertisement decoder, the
//! scanner and device registries, the activity tracker with best-scanner
//! selection, the deduplicated event log, the alarm workflow and the operator
//! command processing. I/O (sockets, persistence, notification delivery) is
//! left to the surrounding application, which hands the core plain values.

pub mod ids;
pub mod util;
pub mod parser;
pub mod entities;
pub mod activity;
pub mod messages;
pub mod config;
pub mod database;
pub mod scanner;
pub mod context;
pub mod operator;
pub mod broker;
pub mod server;
pub mod ble;
