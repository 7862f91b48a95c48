//! The startup retry policy: one attempt a second until a ceiling.
use vstd::prelude::*;

verus! {

/// Seconds between progress reports while waiting.
pub const REPORT_EVERY_SECS: u64 = 5;

/// Seconds the connector waits for the dependencies it starts with.
pub const STARTUP_WAIT_SECS: u64 = 60;

/// What to do after an attempt.
#[derive(Clone, Copy, Debug, PartialEq, Eq, Structural)]
pub enum RetryStep {
    /// The attempt succeeded.
    Ready,
    /// The ceiling is reached: fail.
    GiveUp,
    /// Sleep one second and try again; `report` asks for a progress line.
    Wait { report: bool },
}

/// Seconds waited so far against the ceiling.
#[derive(Clone, Copy, Debug, PartialEq, Eq, Structural)]
pub struct RetryClock {
    pub waited: u64,
    pub max_secs: u64,
}

/// The clock and decision after an attempt.
pub open spec fn attempt(c: RetryClock, ok: bool) -> (RetryClock, RetryStep) {
    if ok {
        (c, RetryStep::Ready)
    } else if c.waited >= c.max_secs {
        (c, RetryStep::GiveUp)
    } else {
        (
            RetryClock { waited: (c.waited + 1) as u64, ..c },
            RetryStep::Wait { report: c.waited % REPORT_EVERY_SECS == 0 },
        )
    }
}

/// The clock after `n` failed attempts.
pub open spec fn after_failures(c: RetryClock, n: nat) -> RetryClock
    decreases n,
{
    if n == 0 {
        c
    } else {
        attempt(after_failures(c, (n - 1) as nat), false).0
    }
}

/// From a fresh clock with ceiling `max`, each of the first `max` failed
/// attempts asks to wait one more second, and the one after gives up.
pub proof fn lemma_gives_up_at_ceiling(max: u64, n: nat)
    requires
        n <= max,
    ensures
        after_failures(RetryClock { waited: 0, max_secs: max }, n) == (RetryClock { waited: n as u64, max_secs: max }),
        n < max ==> attempt(after_failures(RetryClock { waited: 0, max_secs: max }, n), false).1 is Wait,
        n == max ==> attempt(after_failures(RetryClock { waited: 0, max_secs: max }, n), false).1
            == RetryStep::GiveUp,
    decreases n,
{
    if n > 0 {
        lemma_gives_up_at_ceiling(max, (n - 1) as nat);
    }
}

impl RetryClock {
    pub fn new(max_secs: u64) -> (r: RetryClock)
        ensures
            r.waited == 0,
            r.max_secs == max_secs,
    {
        RetryClock { waited: 0, max_secs }
    }

    pub open spec fn wf(&self) -> bool {
        self.waited <= self.max_secs
    }

    /// Decides after an attempt. A failure before the ceiling counts one more
    /// second waited, and asks for a report at each multiple of the cadence.
    pub fn on_attempt(&mut self, ok: bool) -> (r: RetryStep)
        requires
            old(self).wf(),
        ensures
            final(self).wf(),
            (*final(self), r) == attempt(*old(self), ok),
            final(self).max_secs == old(self).max_secs,
            ok ==> r == RetryStep::Ready && final(self).waited == old(self).waited,
            !ok && old(self).waited >= old(self).max_secs ==> r == RetryStep::GiveUp && final(self).waited
                == old(self).waited,
            !ok && old(self).waited < old(self).max_secs ==> r == (RetryStep::Wait {
                report: old(self).waited % REPORT_EVERY_SECS == 0,
            }) && final(self).waited == old(self).waited + 1,
    {
        if ok {
            RetryStep::Ready
        } else if self.waited >= self.max_secs {
            RetryStep::GiveUp
        } else {
            let report = self.waited % REPORT_EVERY_SECS == 0;
            self.waited = self.waited + 1;
            RetryStep::Wait { report }
        }
    }
}

} // verus!
