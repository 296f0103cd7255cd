//! Decision logic of a cross-process "new message" notifier.
//!
//! An agent living inside the observed application latches a flag from a
//! message hook and forwards it as one byte over a named channel; the
//! controller's channel server turns that byte into a timestamp, and a
//! lifecycle orchestrator injects and removes the agent as the observed
//! process starts and stops. Every component here is a pure state machine:
//! the surrounding program performs the requested actions and hands the
//! outcomes back.

pub mod agent;
pub mod channel;
pub mod common;
pub mod display;
pub mod injection;
pub mod lifecycle;
pub mod shutdown;
pub mod state;
pub mod watch;
