use vstd::prelude::*;

use crate::alert::model::Alert;
use crate::check::model::{Check, ProbeOutcome};
use crate::service::history::{record_model, sum_of, LatencyHistory};
use crate::service::state::{decision_on, init_state, next_state, CycleDecision, HealthState};

verus! {

/// One monitored service: its name, health state, latency history, alerting
/// threshold, probe configuration and optional pass/fail notifiers. A
/// service is fully independent of every other; its state is mutated only by
/// its own check cycles, one at a time.
#[derive(Debug, Clone)]
pub struct Service {
    pub name: String,
    pub state: HealthState,
    pub lats: LatencyHistory,
    /// Number of consecutive failures at which the fail notifier fires; zero
    /// means alert on every failure and on every recovery after a failure.
    pub fails_cnt_to_alert: u32,
    pub check: Check,
    pub alert_pass: Option<Alert>,
    pub alert_fail: Option<Alert>,
}

impl Service {
    /// Build a service in its initial state. An absent alerting threshold
    /// defaults to 3 consecutive failures, an absent latency capacity to the
    /// 10 most recent durations.
    pub fn new(
        name: String,
        check: Check,
        alert_pass: Option<Alert>,
        alert_fail: Option<Alert>,
        fails_cnt_to_alert: Option<u32>,
        lats_max_track: Option<u32>,
    ) -> (r: Self)
        ensures
            r.name == name,
            r.state == init_state(),
            r.lats.cap == (match lats_max_track {
                Some(n) => n,
                None => 10u32,
            }),
            r.lats.durations@ == Seq::<u32>::empty(),
            r.fails_cnt_to_alert == (match fails_cnt_to_alert {
                Some(n) => n,
                None => 3u32,
            }),
            r.check == check,
            r.alert_pass == alert_pass,
            r.alert_fail == alert_fail,
    {
        let cap: u32 = match lats_max_track {
            Some(n) => n,
            None => 10,
        };
        let threshold: u32 = match fails_cnt_to_alert {
            Some(n) => n,
            None => 3,
        };
        Service {
            name,
            state: HealthState::new(),
            lats: LatencyHistory::new(cap),
            fails_cnt_to_alert: threshold,
            check,
            alert_pass,
            alert_fail,
        }
    }

    /// The smallest recorded latency, or no value when none is recorded.
    pub fn lat_min(&self) -> (r: Option<u32>)
        ensures
            r is None <==> self.lats.durations@.len() == 0,
            r matches Some(m) ==> self.lats.durations@.contains(m) && forall|k: int|
                0 <= k < self.lats.durations@.len() ==> m <= self.lats.durations@[k],
    {
        self.lats.min()
    }

    /// The greatest recorded latency, or no value when none is recorded.
    pub fn lat_max(&self) -> (r: Option<u32>)
        ensures
            r is None <==> self.lats.durations@.len() == 0,
            r matches Some(m) ==> self.lats.durations@.contains(m) && forall|k: int|
                0 <= k < self.lats.durations@.len() ==> m >= self.lats.durations@[k],
    {
        self.lats.max()
    }

    /// The mean recorded latency under integer division, or no value when
    /// none is recorded.
    pub fn lat_avg(&self) -> (r: Option<u32>)
        ensures
            r is None <==> self.lats.durations@.len() == 0,
            self.lats.durations@.len() > 0 ==> r == Some(
                (sum_of(self.lats.durations@) / self.lats.durations@.len() as int) as u32,
            ),
    {
        self.lats.avg()
    }

    /// The most recently recorded latency, or no value when none is recorded.
    pub fn lat_last(&self) -> (r: Option<u32>)
        ensures
            r is None <==> self.lats.durations@.len() == 0,
            self.lats.durations@.len() > 0 ==> r == Some(self.lats.durations@.last()),
    {
        self.lats.last()
    }

    /// Apply one completed probe to the service: the whole cycle's state
    /// mutation. On success the probe's latency is recorded (and the oldest
    /// entry evicted if the capacity was exceeded) before the status moves;
    /// on failure the history is untouched. The returned decision tells the
    /// runtime what to log and which configured notifier to fire; delivering
    /// a notification never feeds back into the state.
    pub fn run_check_cycle(&mut self, outcome: &ProbeOutcome, latency_ms: u32) -> (d: CycleDecision)
        requires
            old(self).state.fails_cur < u32::MAX,
            old(self).state.fails_tot < u32::MAX,
            old(self).lats.durations@.len() < usize::MAX,
        ensures
            final(self).state == next_state(old(self).state, *outcome is Success),
            d == decision_on(
                old(self).state,
                *outcome is Success,
                old(self).fails_cnt_to_alert,
                old(self).alert_fail is Some,
                old(self).alert_pass is Some,
            ),
            *outcome is Success ==> final(self).lats.durations@ == record_model(
                old(self).lats.durations@,
                old(self).lats.cap,
                latency_ms,
            ),
            !(*outcome is Success) ==> final(self).lats.durations@ == old(self).lats.durations@,
            final(self).lats.cap == old(self).lats.cap,
            final(self).name == old(self).name,
            final(self).fails_cnt_to_alert == old(self).fails_cnt_to_alert,
            final(self).check == old(self).check,
            final(self).alert_pass == old(self).alert_pass,
            final(self).alert_fail == old(self).alert_fail,
    {
        let success = outcome.is_success();
        if success {
            self.lats.record(latency_ms);
        }
        let has_fail = self.alert_fail.is_some();
        let has_pass = self.alert_pass.is_some();
        self.state.apply(success, self.fails_cnt_to_alert, has_fail, has_pass)
    }
}

} // verus!
