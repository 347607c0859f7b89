//! Scheduling core of a work/break focus timer.
//!
//! The library models the phase/session state machine: a cyclic segment
//! plan, deadline-based phase timing, pause/resume/skip/stop commands,
//! OS power signals, break suppression, and the next-break predictor.
//! All I/O (persistence, notifications, windows) lives outside, behind
//! plain-value boundaries.

pub mod analytics;
pub mod bytes;
pub mod display;
pub mod engine;
pub mod error;
pub mod models;
pub mod quotes;
pub mod segments;
pub mod settings;
pub mod updater;
