//! The counter's behaviour over a whole history of probe outcomes: what the
//! count is after any sequence of ticks, and how many alerts the sequence
//! decides.

use vstd::prelude::*;
use crate::counter::MAX_FAILURES;
use crate::counter::spec_alerts;
use crate::counter::spec_next_count;
use crate::probe::ProbeOutcome;
use crate::probe::is_failure;

verus! {

/// The counter value after processing the outcomes of `s` in order,
/// starting from count `c0`.
pub open spec fn count_after(c0: nat, s: Seq<ProbeOutcome>) -> nat
    decreases s.len(),
{
    if s.len() == 0 {
        c0
    } else {
        spec_next_count(count_after(c0, s.drop_last()), s.last())
    }
}

/// How many threshold crossings (alert decisions) processing `s` from count
/// `c0` produces.
pub open spec fn alerts_after(c0: nat, s: Seq<ProbeOutcome>) -> nat
    decreases s.len(),
{
    if s.len() == 0 {
        0
    } else {
        alerts_after(c0, s.drop_last()) + if spec_alerts(
            count_after(c0, s.drop_last()),
            s.last(),
        ) {
            1 as nat
        } else {
            0 as nat
        }
    }
}

/// How many notifications are actually sent: one per threshold crossing
/// when a webhook is configured, none otherwise.
pub open spec fn notifications_after(c0: nat, s: Seq<ProbeOutcome>, webhook: bool) -> nat {
    if webhook {
        alerts_after(c0, s)
    } else {
        0
    }
}

/// The length of the trailing run of failures in `s`: how many consecutive
/// failures arrived since the last success (or since the start).
pub open spec fn trailing_failures(s: Seq<ProbeOutcome>) -> nat
    decreases s.len(),
{
    if s.len() == 0 {
        0
    } else if is_failure(s.last()) {
        trailing_failures(s.drop_last()) + 1
    } else {
        0
    }
}

/// After any sequence of probe outcomes from a fresh counter, the count
/// equals the number of consecutive failures since the last success,
/// reduced by the threshold resets — and is always in `[0, MAX_FAILURES)`.
pub proof fn lemma_count_tracks_failures(s: Seq<ProbeOutcome>)
    ensures
        count_after(0, s) == trailing_failures(s) % (MAX_FAILURES as nat),
        count_after(0, s) < MAX_FAILURES,
    decreases s.len(),
{
    if s.len() == 0 {
    } else {
        lemma_count_tracks_failures(s.drop_last());
        let t = trailing_failures(s.drop_last());
        let c = count_after(0, s.drop_last());
        if is_failure(s.last()) {
            if c + 1 >= MAX_FAILURES {
                assert(t % 3 == 2 ==> (t + 1) % 3 == 0) by (nonlinear_arith);
            } else {
                assert(t % 3 < 2 ==> (t + 1) % 3 == t % 3 + 1) by (nonlinear_arith);
            }
        }
    }
}

/// Over an unbroken run of failures from a fresh counter, every third
/// failure decides exactly one alert and resets the count, and the count
/// after the run is the remainder: three failures decide one alert and
/// leave the count at zero, a fourth starts a fresh count of one.
pub proof fn lemma_failure_streak(s: Seq<ProbeOutcome>)
    requires
        forall|i: int| 0 <= i < s.len() ==> is_failure(#[trigger] s[i]),
    ensures
        count_after(0, s) == s.len() % (MAX_FAILURES as nat),
        alerts_after(0, s) == s.len() / (MAX_FAILURES as nat),
        notifications_after(0, s, true) == s.len() / (MAX_FAILURES as nat),
    decreases s.len(),
{
    if s.len() == 0 {
    } else {
        let prefix = s.drop_last();
        assert(forall|i: int| 0 <= i < prefix.len() ==> is_failure(#[trigger] prefix[i]));
        lemma_failure_streak(prefix);
        let n = s.len();
        assert(is_failure(s.last()));
        if count_after(0, prefix) + 1 >= MAX_FAILURES {
            assert((n - 1) % 3 == 2 ==> n % 3 == 0 && n / 3 == (n - 1) / 3 + 1)
                by (nonlinear_arith)
                requires n >= 1;
        } else {
            assert((n - 1) % 3 < 2 ==> n % 3 == (n - 1) % 3 + 1 && n / 3 == (n - 1) / 3)
                by (nonlinear_arith)
                requires n >= 1;
        }
    }
}

/// A success at any point resets the count to zero immediately and decides
/// no alert.
pub proof fn lemma_success_resets(c0: nat, s: Seq<ProbeOutcome>, o: ProbeOutcome)
    requires
        !is_failure(o),
    ensures
        count_after(c0, s.push(o)) == 0,
        alerts_after(c0, s.push(o)) == alerts_after(c0, s),
{
    assert(s.push(o).drop_last() =~= s);
    assert(s.push(o).last() == o);
}

/// Without a configured webhook no notification is ever sent, while the
/// count still evolves — and still resets at the threshold — exactly as
/// with one: `count_after` does not depend on the webhook at all.
pub proof fn lemma_no_webhook_no_notification(c0: nat, s: Seq<ProbeOutcome>)
    ensures
        notifications_after(c0, s, false) == 0,
{
}

} // verus!
