//! One monitored service: its status, health state machine, latency history
//! and the check-cycle entry point.

pub mod error;
pub mod history;
pub mod model;
pub mod state;
pub mod status;

pub use error::ServiceError;
pub use history::LatencyHistory;
pub use model::Service;
pub use state::{CycleDecision, HealthState, ServiceState};
pub use status::ServiceStatus;
