use vstd::prelude::*;

use crate::config::alert::AlertType;
use crate::config::check::CheckType;

verus! {

/// Default log level: informational and above.
pub fn def_debug_lvl() -> (r: Option<String>)
    ensures
        r matches Some(lvl) && lvl@ == "info"@,
{
    Some("info".to_owned())
}

/// Default log directory: none, log to the console.
pub fn def_log_dir() -> (r: Option<String>)
    ensures
        r is None,
{
    None
}

/// Default alerting threshold: three consecutive failures.
pub fn def_fails_cnt_to_alert() -> (r: Option<u32>)
    ensures
        r == Some(3u32),
{
    Some(3)
}

/// Default latency-history capacity: the ten most recent durations.
pub fn def_lats_max_track() -> (r: Option<u32>)
    ensures
        r == Some(10u32),
{
    Some(10)
}

/// Default check schedule: once a minute.
pub fn def_cron() -> (r: String)
    ensures
        r@ == "0 * * * * *"@,
{
    "0 * * * * *".to_owned()
}

/// Default check kind: the HTTP-like probe.
pub fn def_check_type() -> (r: CheckType)
    ensures
        r == CheckType::HTTP,
{
    CheckType::HTTP
}

/// Default probe method.
pub fn def_check_http_method() -> (r: String)
    ensures
        r@ == "GET"@,
{
    "GET".to_owned()
}

/// Default probe timeout, in whole seconds.
pub fn def_check_http_timeout() -> (r: u32)
    ensures
        r == 10u32,
{
    10
}

/// Default probe target.
pub fn def_check_http_url() -> (r: String)
    ensures
        r@ == "http://127.0.0.1"@,
{
    "http://127.0.0.1".to_owned()
}

/// Default alert kind: the webhook-chat notification.
pub fn def_alert_type() -> (r: AlertType)
    ensures
        r == AlertType::DISCORD,
{
    AlertType::DISCORD
}

/// Default webhook-chat delivery timeout, in whole seconds.
pub fn def_alert_discord_timeout() -> (r: u32)
    ensures
        r == 10u32,
{
    10
}

/// Default templated message for the webhook-chat notification.
pub fn def_alert_discord_content_basic() -> (r: String)
    ensures
        r@ == "Found {s.name} offline!"@,
{
    "Found {s.name} offline!".to_owned()
}

/// Probes verify TLS unless explicitly opted out.
pub fn def_check_http_is_insecure() -> (r: bool)
    ensures
        r == false,
{
    false
}

/// Webhook-chat deliveries verify TLS unless explicitly opted out.
pub fn def_alert_discord_is_insecure() -> (r: bool)
    ensures
        r == false,
{
    false
}

} // verus!
