//! The core of an ingestion agent for wireless telemetry.
//!
//! The agent holds a session with a message broker, consumes binary frames
//! that describe the links of wireless clients, and stores one point per
//! client in a time-series store. This crate is what the agent decides:
//!
//! - [`parser`] reads a frame from bytes;
//! - [`rabbit::state_machine`] keeps the state of the session, and
//!   [`rabbit::header_parser`] tells it of the broker's notifications;
//! - [`rabbit`] and [`config`] choose how a session is opened;
//! - [`dispatch`] says what is done with a delivery, and [`tsdb::push`]
//!   which points are written for a frame.
//!
//! Sockets, the broker's protocol and the store's protocol are the
//! caller's. Every function here has a contract that Verus proves; the few
//! calls into other crates are named where they stand.

pub mod config;
pub mod dispatch;
pub mod parser;
pub mod rabbit;
pub mod tsdb;
