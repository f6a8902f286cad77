//! The failure-counting state machine: consecutive probe failures are
//! counted, a success resets the count, and reaching the threshold decides
//! an alert and resets the count unconditionally.

use vstd::prelude::*;
use crate::alert::AlertMessage;
use crate::config::HealthCheckConfig;
use crate::probe::ProbeOutcome;
use crate::probe::is_failure;

verus! {

/// Number of consecutive failures that triggers an alert.
pub const MAX_FAILURES: u32 = 3;

/// Seconds the failure path pauses before the alert decision is acted on,
/// throttling repeated failure handling.
pub const THROTTLE_SECS: u64 = 30;

/// What the caller must do after one tick: pause for `delay_secs`, then POST
/// the alert, if one is due, to the configured webhook.
pub struct TickAction {
    /// Seconds to pause before dispatching the alert.
    pub delay_secs: u64,
    /// The alert to send; present exactly when the failure threshold was
    /// crossed and a webhook URL is configured.
    pub alert: Option<AlertMessage>,
}

/// The count of consecutive probe failures since the last success or the
/// last threshold-triggered reset. Lives for the process's lifetime;
/// initialized to zero.
pub struct FailureCounter {
    failures: u32,
}

/// The counter value after processing one probe outcome from count `c`: a
/// success resets it, a failure raises it by one, and reaching the
/// threshold resets it.
pub open spec fn spec_next_count(c: nat, o: ProbeOutcome) -> nat {
    if !is_failure(o) {
        0
    } else if c + 1 >= MAX_FAILURES {
        0
    } else {
        c + 1
    }
}

/// Whether processing outcome `o` from count `c` crosses the threshold and
/// so decides an alert (sent only when a webhook is configured).
pub open spec fn spec_alerts(c: nat, o: ProbeOutcome) -> bool {
    is_failure(o) && c + 1 >= MAX_FAILURES
}

impl FailureCounter {
    /// The current count of consecutive failures.
    pub closed spec fn count(self) -> nat {
        self.failures as nat
    }

    /// The counter is always strictly below the threshold between ticks.
    pub open spec fn wf(self) -> bool {
        self.count() < MAX_FAILURES
    }

    /// A fresh counter, at zero.
    pub fn new() -> (c: Self)
        ensures
            c.count() == 0,
            c.wf(),
    {
        FailureCounter { failures: 0 }
    }

    /// Resumes a counter from a count the host kept between ticks. A count
    /// at or above the threshold never persists past a tick, so such a
    /// value is rejected.
    pub fn resume(count: u32) -> (r: Option<FailureCounter>)
        ensures
            (r is Some) <==> count < MAX_FAILURES,
            r matches Some(c) ==> c.count() == count && c.wf(),
    {
        if count < MAX_FAILURES {
            Some(FailureCounter { failures: count })
        } else {
            None
        }
    }

    /// Reads the current count.
    pub fn current(&self) -> (r: u32)
        ensures
            r == self.count(),
    {
        self.failures
    }

    /// A successful probe resets the counter immediately; no alert.
    pub fn record_success(&mut self)
        ensures
            final(self).count() == 0,
            final(self).wf(),
    {
        self.failures = 0;
    }

    /// Handles one failed probe: increments the counter, and on reaching the
    /// threshold decides an alert (when a webhook is configured) and resets
    /// the counter unconditionally — whether or not the alert can be sent,
    /// and whether or not sending it will succeed.
    pub fn handle_failed_check(&mut self, config: &HealthCheckConfig) -> (r: TickAction)
        requires
            old(self).wf(),
        ensures
            final(self).wf(),
            final(self).count() == if old(self).count() + 1 >= MAX_FAILURES {
                0
            } else {
                old(self).count() + 1
            },
            r.delay_secs == THROTTLE_SECS,
            (r.alert is Some) <==> (old(self).count() + 1 >= MAX_FAILURES
                && config.webhook_url is Some),
            r.alert matches Some(a) ==> a.failures == MAX_FAILURES && a.target_url@
                == config.target_url@,
    {
        let n = self.failures + 1;
        self.failures = n;
        let mut alert: Option<AlertMessage> = None;
        if n >= MAX_FAILURES {
            if config.webhook_url.is_some() {
                alert = Some(
                    AlertMessage { failures: n, target_url: config.target_url.clone() },
                );
            }
            self.failures = 0;
        }
        TickAction { delay_secs: THROTTLE_SECS, alert }
    }

    /// Processes one classified probe outcome: a success resets the counter
    /// with no alert and no pause; a failure goes through
    /// `handle_failed_check`. The new count depends only on the old count
    /// and the outcome — never on the webhook or on how the alert send
    /// fares.
    pub fn run_check(&mut self, config: &HealthCheckConfig, outcome: &ProbeOutcome) -> (r:
        TickAction)
        requires
            old(self).wf(),
            config.wf(),
        ensures
            final(self).wf(),
            final(self).count() == spec_next_count(old(self).count(), *outcome),
            (r.alert is Some) <==> (spec_alerts(old(self).count(), *outcome)
                && config.webhook_url is Some),
            r.alert matches Some(a) ==> a.failures == MAX_FAILURES && a.target_url@
                == config.target_url@,
            r.delay_secs == if is_failure(*outcome) {
                THROTTLE_SECS as int
            } else {
                0
            },
    {
        match outcome {
            ProbeOutcome::Success(_) => {
                self.record_success();
                TickAction { delay_secs: 0, alert: None }
            },
            _ => self.handle_failed_check(config),
        }
    }
}

} // verus!
