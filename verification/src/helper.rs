//! Small shared helpers: HTTP method names and message-template formatting.

pub mod format;
pub mod http;

pub use format::format_contents;
pub use http::HttpMethod;
