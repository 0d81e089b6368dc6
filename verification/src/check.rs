//! The checker capability: protocol-specific probe configuration and the
//! classification of a probe's result.

pub mod error;
pub mod http;
pub mod model;

pub use error::CheckError;
pub use http::{HttpCheck, HttpMethod};
pub use model::{Check, CheckType, ProbeFailReason, ProbeOutcome};
