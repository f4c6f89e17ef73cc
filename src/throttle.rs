//! Throttling of external alerts for upstream source failures.
use vstd::prelude::*;

verus! {

/// Minimum number of seconds between two external alerts.
pub const ALERT_WINDOW_SECS: u64 = 600;

/// Whether a source failure at `now` (seconds on a monotonic clock) is alerted,
/// given the time of the last alert: only when there was none, or it lies more
/// than the window in the past.
pub open spec fn alert_due(last: Option<u64>, now: u64) -> bool {
    match last {
        None => true,
        Some(t) => now >= t && now - t > ALERT_WINDOW_SECS,
    }
}

/// The last alert time after a source failure at `now`.
pub open spec fn after_failure(last: Option<u64>, now: u64) -> Option<u64> {
    if alert_due(last, now) {
        Some(now)
    } else {
        last
    }
}

/// The number of alerts sent for source failures at `times`, in order, starting
/// from the last alert time `last`.
pub open spec fn alerts_sent(last: Option<u64>, times: Seq<u64>) -> nat
    decreases times.len(),
{
    if times.len() == 0 {
        0
    } else {
        let first: nat = if alert_due(last, times[0]) { 1 } else { 0 };
        first + alerts_sent(after_failure(last, times[0]), times.drop_first())
    }
}

/// The single "last alert time" of the loop driver.
#[derive(Debug, Clone, Copy, PartialEq, Eq, Structural)]
pub struct AlertThrottle {
    pub last_alert: Option<u64>,
}

impl AlertThrottle {
    /// A throttle that has not alerted yet.
    pub fn new() -> (r: AlertThrottle)
        ensures
            r.last_alert == None::<u64>,
    {
        AlertThrottle { last_alert: None }
    }

    /// Records a source failure at `now`; returns whether to send the external
    /// alert, and if so remembers `now` as the last alert time.
    pub fn on_source_failure(&mut self, now: u64) -> (r: bool)
        ensures
            r == alert_due(old(self).last_alert, now),
            final(self).last_alert == after_failure(old(self).last_alert, now),
    {
        let due = match self.last_alert {
            None => true,
            Some(t) => now >= t && now - t > ALERT_WINDOW_SECS,
        };
        if due {
            self.last_alert = Some(now);
        }
        due
    }
}

/// Two source failures with no earlier alert: the first is always alerted; the
/// second only when it comes more than the window after the first. So two
/// failures one minute apart give one alert, and eleven minutes apart give two.
pub proof fn lemma_two_failures(t1: u64, t2: u64)
    requires
        t1 <= t2,
    ensures
        alerts_sent(None, seq![t1, t2]) == if t2 - t1 > ALERT_WINDOW_SECS { 2nat } else { 1nat },
{
    let s = seq![t1, t2];
    assert(s.drop_first() =~= seq![t2]);
    assert(seq![t2].drop_first() =~= Seq::<u64>::empty());
    assert(s[0] == t1);
    assert(seq![t2][0] == t2);
    assert(alerts_sent(after_failure(Some(t1), t2), Seq::<u64>::empty()) == 0);
    assert(alerts_sent(Some(t1), seq![t2]) == if t2 - t1 > ALERT_WINDOW_SECS { 1nat } else { 0nat });
}

/// After an alert at `t`, no failure within the window alerts again.
pub proof fn lemma_no_alert_within_window(t: u64, now: u64)
    requires
        t <= now,
        now - t <= ALERT_WINDOW_SECS,
    ensures
        !alert_due(Some(t), now),
{
}

} // verus!
