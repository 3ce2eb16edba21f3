//! Readiness polling of the upstream service.
//!
//! A probe qualifies only when its status is a success or redirection and its
//! body is longer than a minimum threshold (a placeholder page served during
//! initialization must not count). Readiness needs a fixed number of
//! consecutive qualifying probes; any other probe resets the run. When the
//! attempt budget runs out first, the poller times out, naming that budget.

use vstd::prelude::*;
use crate::errors::CoreError;

verus! {

/// Number of consecutive qualifying probes that mean "ready".
pub const REQUIRED_QUALIFYING: u32 = 3;

/// A body this short (in bytes) does not qualify; it must be longer.
pub const MIN_QUALIFYING_BODY: usize = 100;

/// Seconds between probes.
pub const POLL_INTERVAL_SECS: u64 = 2;

/// Seconds to wait after readiness, absorbing trailing initialization.
pub const SETTLE_DELAY_SECS: u64 = 2;

/// Seconds each probe is given before it counts as a transport error.
pub const PROBE_TIMEOUT_SECS: u64 = 5;

/// What one probe of the upstream endpoint came back with.
#[derive(Debug)]
pub enum ProbeOutcome {
    /// A response arrived; `body_len` is its body's length in bytes, absent
    /// when the body could not be read.
    Response { status: u16, body_len: Option<usize> },
    /// The request itself failed.
    TransportError,
}

/// Status codes that can qualify: success or redirection.
pub open spec fn qualifying_status(status: u16) -> bool {
    200 <= status < 400
}

/// Whether one probe qualifies.
pub open spec fn spec_qualifies(p: ProbeOutcome) -> bool {
    &&& p matches ProbeOutcome::Response { status, body_len }
    &&& qualifying_status(status)
    &&& body_len matches Some(l) && l > MIN_QUALIFYING_BODY
}

/// What the poller says after folding a probe in.
#[derive(Clone, Copy, Debug, PartialEq, Eq, Structural)]
pub enum PollVerdict {
    /// Enough consecutive qualifying probes: the upstream is ready.
    Ready,
    /// Not ready yet; budget remains.
    Continue,
    /// The attempt budget is exhausted.
    TimedOut,
}

/// Counts probes and the current run of consecutive qualifying ones.
pub struct ReadinessPoller {
    /// The attempt budget.
    pub max_attempts: u32,
    /// Probes folded in so far.
    pub attempts_made: u32,
    /// Length of the current run of qualifying probes.
    pub consecutive: u32,
}

/// The run can never be longer than the probe count.
pub open spec fn poller_wf(p: ReadinessPoller) -> bool {
    p.consecutive <= p.attempts_made
}

/// The poller state after folding in a probe with qualification `q`.
pub open spec fn spec_step_state(p: ReadinessPoller, q: bool) -> ReadinessPoller {
    ReadinessPoller {
        max_attempts: p.max_attempts,
        attempts_made: (p.attempts_made + 1) as u32,
        consecutive: if q {
            (p.consecutive + 1) as u32
        } else {
            0
        },
    }
}

/// The verdict after folding in a probe with qualification `q`: ready as
/// soon as the run reaches the required length, timed out when the budget is
/// spent first, and otherwise still in progress.
pub open spec fn spec_verdict(p: ReadinessPoller, q: bool) -> PollVerdict {
    if q && p.consecutive + 1 >= REQUIRED_QUALIFYING {
        PollVerdict::Ready
    } else if p.attempts_made + 1 >= p.max_attempts {
        PollVerdict::TimedOut
    } else {
        PollVerdict::Continue
    }
}

/// Whether one probe qualifies.
pub fn qualifies(p: &ProbeOutcome) -> (r: bool)
    ensures
        r == spec_qualifies(*p),
{
    match p {
        ProbeOutcome::Response { status, body_len } => {
            let status_ok = 200 <= *status && *status < 400;
            match body_len {
                Some(l) => status_ok && *l > MIN_QUALIFYING_BODY,
                None => false,
            }
        },
        ProbeOutcome::TransportError => false,
    }
}

impl ReadinessPoller {
    /// A fresh poller with the given attempt budget.
    pub fn new(max_attempts: u32) -> (r: ReadinessPoller)
        ensures
            r.max_attempts == max_attempts,
            r.attempts_made == 0,
            r.consecutive == 0,
            poller_wf(r),
    {
        ReadinessPoller { max_attempts, attempts_made: 0, consecutive: 0 }
    }

    /// Folds one probe in and says where the poll stands.
    pub fn step(&mut self, probe: &ProbeOutcome) -> (v: PollVerdict)
        requires
            poller_wf(*old(self)),
            old(self).attempts_made < old(self).max_attempts,
        ensures
            poller_wf(*final(self)),
            *final(self) == spec_step_state(*old(self), spec_qualifies(*probe)),
            v == spec_verdict(*old(self), spec_qualifies(*probe)),
    {
        let q = qualifies(probe);
        self.attempts_made = self.attempts_made + 1;
        if q {
            self.consecutive = self.consecutive + 1;
        } else {
            self.consecutive = 0;
        }
        if q && self.consecutive >= REQUIRED_QUALIFYING {
            PollVerdict::Ready
        } else if self.attempts_made >= self.max_attempts {
            PollVerdict::TimedOut
        } else {
            PollVerdict::Continue
        }
    }

    /// The error a timed-out poll surfaces: it names the attempt budget.
    pub fn timeout_error(&self) -> (e: CoreError)
        ensures
            e == (CoreError::ReadinessTimeout { attempts: self.max_attempts }),
    {
        CoreError::ReadinessTimeout { attempts: self.max_attempts }
    }
}

/// Three consecutive qualifying probes from a fresh poller are exactly
/// enough: the first two leave the poll in progress and the third makes it
/// ready, whenever the budget allows three probes at all.
pub proof fn lemma_three_qualifying_probes_suffice(p0: ReadinessPoller)
    requires
        p0.attempts_made == 0,
        p0.consecutive == 0,
        p0.max_attempts >= 3,
    ensures
        ({
            let p1 = spec_step_state(p0, true);
            let p2 = spec_step_state(p1, true);
            &&& spec_verdict(p0, true) is Continue
            &&& spec_verdict(p1, true) is Continue
            &&& spec_verdict(p2, true) is Ready
        }),
{
}

/// A probe that does not qualify never readies the poll, and times it out
/// exactly when it was the last probe of the budget.
pub proof fn lemma_unqualified_probe(p: ReadinessPoller)
    requires
        poller_wf(p),
        p.attempts_made < p.max_attempts,
    ensures
        !(spec_verdict(p, false) is Ready),
        spec_verdict(p, false) is TimedOut <==> p.attempts_made + 1 == p.max_attempts,
        spec_step_state(p, false).consecutive == 0,
{
}

} // verus!
