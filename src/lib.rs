//! Hourly uptime history for a monitored domain, read from a metrics backend.
//!
//! The library holds the decisions of the service: configuration defaults,
//! the allowlist guard, the query window, the bucketing of raw samples into a
//! fixed-length hourly history, and the shape of the reply envelope.

pub mod backend;
pub mod config;
pub mod envelope;
pub mod history;
pub mod service;
pub mod window;
