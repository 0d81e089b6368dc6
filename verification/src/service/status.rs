use vstd::prelude::*;

use crate::service::model::Service;

verus! {

/// Health of one monitored service as the state machine sees it: `INIT` before
/// the first probe, `CHECKING` while a probe is in flight, then `HEALTHY` or
/// `UNHEALTHY` after each completed probe.
#[allow(non_camel_case_types)]
#[derive(Clone, Copy, Debug, PartialEq, Eq, Structural)]
pub enum ServiceStatus {
    INIT,
    HEALTHY,
    CHECKING,
    UNHEALTHY,
}

impl ServiceStatus {
    /// The label under which the status listing shows this status.
    pub open spec fn spec_label(self) -> Seq<char> {
        match self {
            ServiceStatus::INIT => "INIT"@,
            ServiceStatus::HEALTHY => "HEALTHY"@,
            ServiceStatus::CHECKING => "CHECKING"@,
            ServiceStatus::UNHEALTHY => "UNHEALTHY"@,
        }
    }

    pub fn as_str(&self) -> (r: &str)
        ensures
            r@ == self.spec_label(),
    {
        match self {
            ServiceStatus::INIT => "INIT",
            ServiceStatus::HEALTHY => "HEALTHY",
            ServiceStatus::CHECKING => "CHECKING",
            ServiceStatus::UNHEALTHY => "UNHEALTHY",
        }
    }
}

impl Service {
    /// The most recently committed status, for concurrent readers.
    pub fn get_status(&self) -> (r: ServiceStatus)
        ensures
            r == self.state.status,
    {
        self.state.status
    }

    /// Publish a status, leaving everything else untouched; used to make the
    /// transient `CHECKING` state visible while a probe is in flight.
    pub fn set_status(&mut self, status: ServiceStatus)
        ensures
            final(self).state.status == status,
            final(self).state.fails_cur == old(self).state.fails_cur,
            final(self).state.fails_tot == old(self).state.fails_tot,
            final(self).name == old(self).name,
            final(self).lats == old(self).lats,
            final(self).fails_cnt_to_alert == old(self).fails_cnt_to_alert,
            final(self).check == old(self).check,
            final(self).alert_pass == old(self).alert_pass,
            final(self).alert_fail == old(self).alert_fail,
    {
        self.state.status = status;
    }
}

} // verus!
