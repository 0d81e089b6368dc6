//! The notifier capability: outbound notification configuration, payload
//! construction and the classification of a delivery's result.

pub mod discord;
pub mod error;
pub mod http;
pub mod model;

pub use discord::{DiscordAlert, DiscordWebHookBody};
pub use error::{AlertError, DeliveryError};
pub use http::HttpAlert;
pub use model::{classify_delivery, Alert, AlertType};
