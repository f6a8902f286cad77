//! A periodic health-check monitor core: classifies probe outcomes, tracks
//! consecutive failures, and decides when an alert must be sent to a chat
//! webhook. The surrounding runtime performs the HTTP requests and the
//! pauses; this crate holds the state machine and the alert payload
//! construction.

pub mod alert;
pub mod config;
pub mod counter;
pub mod history;
pub mod probe;
