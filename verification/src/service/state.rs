use vstd::prelude::*;

use crate::service::status::ServiceStatus;

verus! {

/// The per-service health state machine: the current status together with the
/// consecutive-failure counter (reset on every success) and the lifetime
/// failure counter (monotonic). It is mutated only by the one check cycle
/// running for its service at a time.
#[derive(Clone, Copy, Debug, PartialEq, Eq, Structural)]
pub struct HealthState {
    pub status: ServiceStatus,
    pub fails_cur: u32,
    pub fails_tot: u32,
}

/// What one completed check cycle asks the surrounding runtime to do, besides
/// the state mutation itself: which log lines to emit and which of the two
/// configured notifiers to fire. Delivery never feeds back into the state.
#[derive(Clone, Copy, Debug, PartialEq, Eq, Structural)]
pub struct CycleDecision {
    /// Log the failure, which is done only on the first failure of a
    /// consecutive run, to avoid log spam.
    pub log_first_failure: bool,
    /// Deliver the fail notification: the alerting threshold was just reached.
    pub fire_fail_alert: bool,
    /// Log the recovery: the service was not healthy before this success.
    pub log_recovery: bool,
    /// Deliver the pass notification: a recovery from an episode whose fail
    /// alert had fired (or, with a zero threshold, from any failure at all).
    pub fire_pass_alert: bool,
}

/// The state every service starts in, before its first probe.
pub open spec fn init_state() -> HealthState {
    HealthState { status: ServiceStatus::INIT, fails_cur: 0, fails_tot: 0 }
}

/// State after a failed probe: unhealthy, both failure counters advanced.
pub open spec fn next_on_failure(s: HealthState) -> HealthState {
    HealthState {
        status: ServiceStatus::UNHEALTHY,
        fails_cur: (s.fails_cur + 1) as u32,
        fails_tot: (s.fails_tot + 1) as u32,
    }
}

/// State after a successful probe: healthy, the consecutive-failure counter
/// reset; the lifetime counter keeps its value.
pub open spec fn next_on_success(s: HealthState) -> HealthState {
    HealthState { status: ServiceStatus::HEALTHY, fails_cur: 0, fails_tot: s.fails_tot }
}

pub open spec fn next_state(s: HealthState, success: bool) -> HealthState {
    if success {
        next_on_success(s)
    } else {
        next_on_failure(s)
    }
}

/// The failure being applied to `s` is the first of a consecutive run, so it
/// is the one that gets logged.
pub open spec fn logs_first_failure(s: HealthState) -> bool {
    s.fails_cur == 0
}

/// The failure being applied to `s` is the one on which the fail notifier
/// fires: with a positive threshold, exactly when the consecutive-failure
/// counter first reaches the threshold; with a zero threshold, on every
/// failure.
pub open spec fn fail_alert_due(s: HealthState, threshold: u32, has_fail_alert: bool) -> bool {
    has_fail_alert && (threshold == 0 || s.fails_cur + 1 == threshold)
}

/// The success being applied to `s` is a genuine recovery (the service was
/// not already healthy), so it gets logged.
pub open spec fn logs_recovery(s: HealthState) -> bool {
    s.status != ServiceStatus::HEALTHY
}

/// The success being applied to `s` is one on which the pass notifier fires:
/// a genuine recovery from an episode that had reached the alerting threshold
/// (or, with a zero threshold, that had at least one failure).
pub open spec fn pass_alert_due(s: HealthState, threshold: u32, has_pass_alert: bool) -> bool {
    has_pass_alert && s.status != ServiceStatus::HEALTHY && ((threshold == 0 && s.fails_cur > 0)
        || (threshold > 0 && s.fails_cur >= threshold))
}

/// Everything one completed probe asks of the runtime, as a function of the
/// state before the cycle, the probe's outcome, and what is configured.
pub open spec fn decision_on(
    s: HealthState,
    success: bool,
    threshold: u32,
    has_fail_alert: bool,
    has_pass_alert: bool,
) -> CycleDecision {
    if success {
        CycleDecision {
            log_first_failure: false,
            fire_fail_alert: false,
            log_recovery: logs_recovery(s),
            fire_pass_alert: pass_alert_due(s, threshold, has_pass_alert),
        }
    } else {
        CycleDecision {
            log_first_failure: logs_first_failure(s),
            fire_fail_alert: fail_alert_due(s, threshold, has_fail_alert),
            log_recovery: false,
            fire_pass_alert: false,
        }
    }
}

impl HealthState {
    pub fn new() -> (r: Self)
        ensures
            r == init_state(),
    {
        HealthState { status: ServiceStatus::INIT, fails_cur: 0, fails_tot: 0 }
    }

    /// Apply one completed probe to the state: the hysteresis step. The
    /// returned decision tells the runtime what to log and which notifier to
    /// fire; the state moves to the successor state.
    pub fn apply(
        &mut self,
        success: bool,
        threshold: u32,
        has_fail_alert: bool,
        has_pass_alert: bool,
    ) -> (d: CycleDecision)
        requires
            old(self).fails_cur < u32::MAX,
            old(self).fails_tot < u32::MAX,
        ensures
            *final(self) == next_state(*old(self), success),
            d == decision_on(*old(self), success, threshold, has_fail_alert, has_pass_alert),
    {
        if success {
            let recovery = self.status != ServiceStatus::HEALTHY;
            let d = CycleDecision {
                log_first_failure: false,
                fire_fail_alert: false,
                log_recovery: recovery,
                fire_pass_alert: has_pass_alert && recovery && ((threshold == 0 && self.fails_cur
                    > 0) || (threshold > 0 && self.fails_cur >= threshold)),
            };
            self.status = ServiceStatus::HEALTHY;
            self.fails_cur = 0;
            d
        } else {
            let d = CycleDecision {
                log_first_failure: self.fails_cur == 0,
                fire_fail_alert: has_fail_alert && (threshold == 0 || self.fails_cur + 1
                    == threshold),
                log_recovery: false,
                fire_pass_alert: false,
            };
            self.status = ServiceStatus::UNHEALTHY;
            self.fails_cur = self.fails_cur + 1;
            self.fails_tot = self.fails_tot + 1;
            d
        }
    }
}

/// A service's published status under its stable identifier, as kept in a
/// shared listing for concurrent readers.
#[derive(Clone, Debug)]
pub struct ServiceState {
    pub uid: String,
    pub status: ServiceStatus,
}

/// The state after a whole sequence of completed probes, applied in order
/// (`true` is a success, `false` a failure).
pub open spec fn run_steps(s: HealthState, outcomes: Seq<bool>) -> HealthState
    decreases outcomes.len(),
{
    if outcomes.len() == 0 {
        s
    } else {
        run_steps(next_state(s, outcomes[0]), outcomes.drop_first())
    }
}

/// Over a run of consecutive failures both counters advance by exactly one
/// per probe — serialized cycles never double-count an outcome — and the
/// service is unhealthy as soon as the run is non-empty.
pub proof fn lemma_failure_run_counters(s: HealthState, outcomes: Seq<bool>)
    requires
        forall|k: int| 0 <= k < outcomes.len() ==> !outcomes[k],
        s.fails_cur + outcomes.len() <= u32::MAX,
        s.fails_tot + outcomes.len() <= u32::MAX,
    ensures
        run_steps(s, outcomes).fails_cur == s.fails_cur + outcomes.len(),
        run_steps(s, outcomes).fails_tot == s.fails_tot + outcomes.len(),
        outcomes.len() > 0 ==> run_steps(s, outcomes).status == ServiceStatus::UNHEALTHY,
    decreases outcomes.len(),
{
    if outcomes.len() > 0 {
        let s1 = next_state(s, outcomes[0]);
        lemma_failure_run_counters(s1, outcomes.drop_first());
    }
}

/// With a positive threshold, over a maximal run of consecutive failures that
/// starts from a reset counter, the fail notifier is due on exactly one
/// probe: the one where the consecutive-failure counter first reaches the
/// threshold. It is not due again before a success resets the counter.
pub proof fn lemma_fail_alert_once_per_run(
    s: HealthState,
    outcomes: Seq<bool>,
    threshold: u32,
    has_pass_alert: bool,
    i: int,
)
    requires
        threshold > 0,
        s.fails_cur == 0,
        forall|k: int| 0 <= k < outcomes.len() ==> !outcomes[k],
        outcomes.len() <= u32::MAX,
        s.fails_tot + outcomes.len() <= u32::MAX,
        0 <= i < outcomes.len(),
    ensures
        decision_on(
            run_steps(s, outcomes.take(i)),
            false,
            threshold,
            true,
            has_pass_alert,
        ).fire_fail_alert <==> i == threshold - 1,
{
    let prefix = outcomes.take(i);
    assert(forall|k: int| 0 <= k < prefix.len() ==> !prefix[k]);
    lemma_failure_run_counters(s, prefix);
}

/// A healthy service carries a zero consecutive-failure counter. This holds
/// of the initial state and is preserved by every completed probe, so it
/// holds of every state check cycles can reach.
pub open spec fn counter_consistent(s: HealthState) -> bool {
    s.status == ServiceStatus::HEALTHY ==> s.fails_cur == 0
}

pub proof fn lemma_counter_consistent_init()
    ensures
        counter_consistent(init_state()),
{
}

/// One completed probe keeps the invariant, whatever state it starts from: a
/// success resets the counter as it turns the service healthy, a failure
/// turns it unhealthy.
pub proof fn lemma_counter_consistent_preserved(s: HealthState, success: bool)
    ensures
        counter_consistent(next_state(s, success)),
{
}

/// The invariant carries over any whole sequence of completed probes.
pub proof fn lemma_counter_consistent_run(s: HealthState, outcomes: Seq<bool>)
    requires
        counter_consistent(s),
    ensures
        counter_consistent(run_steps(s, outcomes)),
    decreases outcomes.len(),
{
    if outcomes.len() > 0 {
        lemma_counter_consistent_preserved(s, outcomes[0]);
        lemma_counter_consistent_run(next_state(s, outcomes[0]), outcomes.drop_first());
    }
}

/// With a zero threshold, on any state check cycles can reach, a configured
/// pass notifier fires on a success exactly when at least one failure
/// preceded it; afterwards the counter is reset and the service is healthy.
pub proof fn lemma_pass_alert_iff_preceding_failure(
    s: HealthState,
    has_fail_alert: bool,
    has_pass_alert: bool,
)
    requires
        counter_consistent(s),
    ensures
        decision_on(s, true, 0, has_fail_alert, has_pass_alert).fire_pass_alert == (
        has_pass_alert && s.fails_cur > 0),
        next_state(s, true).fails_cur == 0,
        next_state(s, true).status == ServiceStatus::HEALTHY,
{
}

/// With a zero threshold a configured fail notifier is due on every failure,
/// and a configured pass notifier is due on exactly the recoveries that
/// follow at least one failure.
pub proof fn lemma_threshold_zero_alerts(
    s: HealthState,
    has_fail_alert: bool,
    has_pass_alert: bool,
)
    ensures
        decision_on(s, false, 0, has_fail_alert, has_pass_alert).fire_fail_alert
            == has_fail_alert,
        decision_on(s, true, 0, has_fail_alert, has_pass_alert).fire_pass_alert == (
        has_pass_alert && s.status != ServiceStatus::HEALTHY && s.fails_cur > 0),
{
}

/// A success on an already-healthy service is a no-op recovery: nothing is
/// logged and no notification is due, whatever is configured.
pub proof fn lemma_recovery_suppressed(
    s: HealthState,
    threshold: u32,
    has_fail_alert: bool,
    has_pass_alert: bool,
)
    requires
        s.status == ServiceStatus::HEALTHY,
    ensures
        !decision_on(s, true, threshold, has_fail_alert, has_pass_alert).log_recovery,
        !decision_on(s, true, threshold, has_fail_alert, has_pass_alert).fire_pass_alert,
        !decision_on(s, true, threshold, has_fail_alert, has_pass_alert).log_first_failure,
        !decision_on(s, true, threshold, has_fail_alert, has_pass_alert).fire_fail_alert,
{
}

} // verus!
