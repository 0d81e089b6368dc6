use vstd::prelude::*;

use crate::config::alert::Alert;
use crate::config::check::Check;

verus! {

/// One service as written in the configuration file: its name, its check,
/// optional pass/fail alerts, and optional overrides for the alerting
/// threshold and the latency-history capacity.
#[derive(Debug, Clone)]
pub struct Service {
    pub name: String,
    pub check: Check,
    pub alert_pass: Option<Alert>,
    pub alert_fail: Option<Alert>,
    pub fails_cnt_to_alert: Option<u32>,
    pub lats_max_track: Option<u32>,
}

} // verus!
