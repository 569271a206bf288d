//! Synthetic load generator core for an account-update event sink.
//!
//! The library holds the verified pipeline logic: payload synthesis with a
//! tunable entropy prefix, per-period batch planning against a byte budget,
//! pacing arithmetic, the debounced diagnostic rate limiter, and the mapping
//! from queued messages to sink calls. Channel plumbing, timers and the
//! dynamically loaded sink itself live outside the library and hand plain
//! values in and out.

pub mod debounce;
pub mod events;
pub mod synth;
pub mod planner;
pub mod generator;
pub mod dispatch;
