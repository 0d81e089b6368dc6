use vstd::prelude::*;

use std::collections::HashMap;

verus! {

/// The cron expression a check runs on when none is configured: once a
/// minute.
pub fn def_cron() -> (r: String)
    ensures
        r@ == "0 * * * * *"@,
{
    "0 * * * * *".to_owned()
}

/// The response status codes a check accepts when none are configured: the
/// common success codes 200 through 206.
pub fn def_http_accept_codes() -> (r: Vec<u16>)
    ensures
        r@ =~= seq![200u16, 201u16, 202u16, 203u16, 204u16, 205u16, 206u16],
{
    let mut codes: Vec<u16> = Vec::new();
    codes.push(200);
    codes.push(201);
    codes.push(202);
    codes.push(203);
    codes.push(204);
    codes.push(205);
    codes.push(206);
    codes
}

/// Configuration of an HTTP-like probe, as written in the configuration
/// file.
#[derive(Debug, Clone)]
pub struct HttpCheckConfig {
    pub method: String,
    pub url: String,
    pub timeout: u64,
    pub is_insecure: bool,
    pub body: Option<String>,
    pub body_is_file: bool,
    pub headers: Option<HashMap<String, String>>,
    pub accept_codes: Vec<u16>,
}

/// The probe kind a configured check names.
#[allow(non_camel_case_types)]
#[derive(Debug, Clone, Copy, PartialEq, Eq, Structural)]
pub enum CheckType {
    HTTP,
}

/// One configured check: its schedule, its kind, and the kind-specific
/// settings.
#[derive(Debug, Clone)]
pub struct Check {
    pub cron: String,
    pub check_type: CheckType,
    pub http: Option<HttpCheckConfig>,
}

} // verus!
