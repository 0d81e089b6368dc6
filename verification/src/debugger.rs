//! Process-wide logging policy: levels and the decision of what to log. The
//! writing itself (console or file, with timestamps) is left to the runtime.

pub mod log;

pub use log::{LogLevel, Logger};
