//! The shape of the daemon's configuration, as the core sees it after the
//! startup code has read and parsed the configuration file: plain values
//! with every default already resolved.

pub mod alert;
pub mod check;
pub mod defaults;
pub mod service;

pub use alert::{Alert, AlertType, DiscordAlert, HttpAlert};
pub use check::{Check, CheckType, HttpCheckConfig};
pub use defaults::{
    def_alert_discord_content_basic, def_alert_discord_is_insecure, def_alert_discord_timeout,
    def_alert_type, def_check_http_is_insecure, def_check_http_method, def_check_http_timeout,
    def_check_http_url, def_check_type, def_cron, def_debug_lvl, def_fails_cnt_to_alert,
    def_lats_max_track, def_log_dir,
};
pub use service::Service;

use vstd::prelude::*;

verus! {

/// The whole configuration: process-wide logging settings and the list of
/// services to monitor. Loaded once at startup; never reloaded.
#[derive(Debug, Clone)]
pub struct Config {
    pub debug_lvl: Option<String>,
    pub log_dir: Option<String>,
    pub services: Vec<Service>,
}

impl Config {
    /// An empty configuration; the startup code replaces it with what the
    /// configuration file holds.
    pub fn new() -> (r: Self)
        ensures
            r.debug_lvl is None,
            r.log_dir is None,
            r.services@ == Seq::<Service>::empty(),
    {
        Config { debug_lvl: None, log_dir: None, services: Vec::new() }
    }
}

} // verus!
