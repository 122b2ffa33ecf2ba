//! A multi-tenant key-value storage layer over a shared key-value backend.
//!
//! Every operation is a small state machine: it hands out one backend
//! command at a time and decides, from the reply, what to do next. The
//! caller performs the commands (network round trips, sleeps, random
//! draws, record encoding) and feeds the replies back.
pub mod config;
pub mod cost;
pub mod handler;
pub mod keys;
pub mod laws;
pub mod listing;
pub mod locking;
pub mod overflow;
pub mod protocol;
pub mod storage;
