use vstd::prelude::*;

verus! {

/// Wait between two looks at the control socket, in milliseconds.
pub const POLL_INTERVAL_MILLIS: u64 = 500;

/// Number of waits before the daemon is declared not ready.
pub const DEFAULT_MAX_ATTEMPTS: u32 = 10;

/// What the poller asks for after one look at the filesystem.
#[derive(Clone, Copy, Debug, PartialEq, Eq, Structural)]
pub enum PollDecision {
    /// The socket exists: go on.
    Ready,
    /// Not there yet: wait one interval and look again.
    Wait,
    /// The budget of waits is spent and the socket is still missing.
    TimedOut,
}

/// Bounded wait for the daemon's control socket to appear.
#[derive(Clone, Copy, Debug)]
pub struct ReadinessPoller {
    pub attempts: u32,
    pub max_attempts: u32,
}

/// One look: `attempts` waits have been spent so far.
pub open spec fn poll_decision(attempts: nat, max_attempts: nat, exists: bool) -> PollDecision {
    if exists {
        PollDecision::Ready
    } else if attempts < max_attempts {
        PollDecision::Wait
    } else {
        PollDecision::TimedOut
    }
}

/// The outcome of polling, starting after `attempts` waits, a file that is
/// created just before look number `created_at` (counting from zero).
/// `Some(n)`: ready at look `n`; `None`: timed out.
pub open spec fn poll_run(attempts: nat, max_attempts: nat, created_at: nat) -> Option<nat>
    decreases max_attempts - attempts,
{
    match poll_decision(attempts, max_attempts, attempts >= created_at) {
        PollDecision::Ready => Some(attempts),
        PollDecision::Wait => poll_run(attempts + 1, max_attempts, created_at),
        PollDecision::TimedOut => None,
    }
}

impl ReadinessPoller {
    pub open spec fn wf(&self) -> bool {
        self.attempts <= self.max_attempts
    }

    pub fn new(max_attempts: u32) -> (r: ReadinessPoller)
        ensures
            r.attempts == 0,
            r.max_attempts == max_attempts,
            r.wf(),
    {
        ReadinessPoller { attempts: 0, max_attempts }
    }

    /// Records one look at the filesystem and says what to do next. A `Wait`
    /// counts one more attempt.
    pub fn observe(&mut self, exists: bool) -> (r: PollDecision)
        requires
            old(self).wf(),
        ensures
            r == poll_decision(old(self).attempts as nat, old(self).max_attempts as nat, exists),
            final(self).max_attempts == old(self).max_attempts,
            final(self).attempts == if r == PollDecision::Wait {
                old(self).attempts + 1
            } else {
                old(self).attempts as int
            },
            final(self).wf(),
    {
        if exists {
            PollDecision::Ready
        } else if self.attempts < self.max_attempts {
            self.attempts = self.attempts + 1;
            PollDecision::Wait
        } else {
            PollDecision::TimedOut
        }
    }
}

/// The poller reports ready exactly when the socket appears within the
/// budget: at look `created_at` if that is at most `max_attempts`, and times
/// out otherwise.
pub proof fn lemma_ready_iff_within_budget(max_attempts: nat, created_at: nat)
    ensures
        created_at <= max_attempts ==> poll_run(0, max_attempts, created_at) == Some(created_at),
        created_at > max_attempts ==> poll_run(0, max_attempts, created_at) is None,
{
    lemma_poll_run_from(0, max_attempts, created_at);
}

proof fn lemma_poll_run_from(attempts: nat, max_attempts: nat, created_at: nat)
    requires
        attempts <= max_attempts,
        attempts <= created_at,
    ensures
        created_at <= max_attempts ==> poll_run(attempts, max_attempts, created_at) == Some(
            created_at,
        ),
        created_at > max_attempts ==> poll_run(attempts, max_attempts, created_at) is None,
    decreases max_attempts - attempts,
{
    if attempts < created_at && attempts < max_attempts {
        lemma_poll_run_from(attempts + 1, max_attempts, created_at);
    }
}

} // verus!
