//! Core of a service-health monitoring daemon.
//!
//! The library holds the verified heart of the daemon: the per-service health
//! state machine with its failure/recovery hysteresis, the bounded latency
//! history, and the configuration and capability types that the surrounding
//! runtime (scheduler, probes, notification delivery) acts on.

pub mod alert;
pub mod check;
pub mod cli;
pub mod config;
pub mod debugger;
pub mod helper;
pub mod service;
