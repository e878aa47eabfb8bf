//! Core of an on-screen-keyboard backend for a compositor input-method
//! protocol.
//!
//! The library is the decision-making half of the backend: it tracks which
//! globals are bound, runs the per-seat session state machine, translates
//! logical key tokens into protocol requests, and edge-filters the activation
//! signal for the UI thread.  All socket, timer and widget work stays with the
//! caller, which performs the actions these functions decide on and feeds the
//! resulting protocol events back in.

pub mod bridge;
pub mod client;
pub mod config;
pub mod injector;
pub mod session;
