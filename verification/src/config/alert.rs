use vstd::prelude::*;

use std::collections::HashMap;

verus! {

/// Configuration of a generic HTTP webhook notification, as written in the
/// configuration file.
#[derive(Debug, Clone)]
pub struct HttpAlert {
    pub method: String,
    pub url: String,
    pub timeout: u64,
    pub is_insecure: bool,
    pub body: Option<String>,
    pub body_is_file: bool,
    pub headers: Option<HashMap<String, String>>,
}

/// Configuration of a webhook-chat notification, as written in the
/// configuration file.
#[derive(Debug, Clone)]
pub struct DiscordAlert {
    pub webhook_url: String,
    pub timeout: u32,
    pub is_insecure: bool,
    pub content_basic: String,
    pub content_raw: Option<String>,
}

/// The notification kind a configured alert names.
#[allow(non_camel_case_types)]
#[derive(Debug, Clone, Copy, PartialEq, Eq, Structural)]
pub enum AlertType {
    DISCORD,
    HTTP,
}

/// One configured alert: its kind, and the kind-specific settings.
#[derive(Debug, Clone)]
pub struct Alert {
    pub alert_type: AlertType,
    pub discord: Option<DiscordAlert>,
    pub http: Option<HttpAlert>,
}

} // verus!
