//! Readiness probing: polling the server's port until it accepts a
//! connection or a time budget runs out.
use vstd::prelude::*;

verus! {

/// Port on which the server listens, on the loopback interface.
pub const SERVER_PORT: u16 = 3847;

/// Time budget for the server to become reachable, in milliseconds.
pub const READY_TIMEOUT_MS: u64 = 8000;

/// Pause between two connection attempts, in milliseconds.
pub const POLL_INTERVAL_MS: u64 = 200;

/// What the host does next while probing.
#[derive(Clone, Copy, Debug, PartialEq, Eq, Structural)]
pub enum ProbeStep {
    /// Try one TCP connection to the port.
    Connect,
    /// Sleep `ms` milliseconds, then ask again.
    Wait { ms: u64 },
    /// A connection succeeded: the server is ready.
    Ready,
    /// The budget ran out without a successful connection.
    NotReady,
}

/// Abstract state of a [`Prober`]: its budget and its poll interval.
pub struct ProberView {
    pub timeout_ms: nat,
    pub poll_interval_ms: nat,
}

/// Whether an attempt is made when `elapsed_ms` have gone by since probing
/// began: only until the time spent exceeds the budget.
pub open spec fn step_before_attempt(p: ProberView, elapsed_ms: nat) -> ProbeStep {
    if elapsed_ms <= p.timeout_ms {
        ProbeStep::Connect
    } else {
        ProbeStep::NotReady
    }
}

/// What follows an attempt that came out as `connected`.
pub open spec fn step_after_attempt(p: ProberView, connected: bool) -> ProbeStep {
    if connected {
        ProbeStep::Ready
    } else {
        ProbeStep::Wait { ms: p.poll_interval_ms as u64 }
    }
}

/// Whether a port that accepts connections from `ready_at` on (never, for
/// `None`) accepts one at time `t`.
pub open spec fn port_open(ready_at: Option<nat>, t: nat) -> bool {
    ready_at is Some && ready_at->0 <= t
}

/// Outcome of probing with `p` from time `elapsed_ms` on, on a clock that
/// moves only while the host waits, against a port that opens at `ready_at`:
/// whether the server was found ready, and the time at which probing ended.
pub open spec fn probe_run(p: ProberView, ready_at: Option<nat>, elapsed_ms: nat) -> (bool, nat)
    decreases p.timeout_ms + p.poll_interval_ms - elapsed_ms,
{
    if step_before_attempt(p, elapsed_ms) is NotReady {
        (false, elapsed_ms)
    } else if step_after_attempt(p, port_open(ready_at, elapsed_ms)) is Ready {
        (true, elapsed_ms)
    } else if p.poll_interval_ms == 0 {
        // a prober that never waits is not well formed
        (false, elapsed_ms)
    } else {
        probe_run(p, ready_at, elapsed_ms + p.poll_interval_ms)
    }
}

/// The prober that the launcher uses: the standard budget and interval.
pub open spec fn standard_prober() -> ProberView {
    ProberView { timeout_ms: READY_TIMEOUT_MS as nat, poll_interval_ms: POLL_INTERVAL_MS as nat }
}

/// With the standard prober, from any multiple of the interval that is
/// less than one interval past the opening, a port that opens before the
/// budget is spent is found ready, no earlier than it opens and less than
/// one interval after.
proof fn lemma_found_from_poll(t: nat, elapsed_ms: nat)
    requires
        t < READY_TIMEOUT_MS,
        elapsed_ms % (POLL_INTERVAL_MS as nat) == 0,
        elapsed_ms < t + POLL_INTERVAL_MS,
    ensures
        probe_run(standard_prober(), Some(t), elapsed_ms).0,
        elapsed_ms <= t ==> t <= probe_run(standard_prober(), Some(t), elapsed_ms).1,
        probe_run(standard_prober(), Some(t), elapsed_ms).1 < t + POLL_INTERVAL_MS,
    decreases t + POLL_INTERVAL_MS - elapsed_ms,
{
    if elapsed_ms < t {
        lemma_found_from_poll(t, elapsed_ms + POLL_INTERVAL_MS as nat);
    }
}

/// From any time up to one interval past the budget, a port that never
/// opens is given up on once the time spent exceeds the budget, at most one
/// interval after it.
proof fn lemma_gives_up_within_interval(p: ProberView, elapsed_ms: nat)
    requires
        p.poll_interval_ms > 0,
        elapsed_ms <= p.timeout_ms + p.poll_interval_ms,
    ensures
        !probe_run(p, None, elapsed_ms).0,
        p.timeout_ms < probe_run(p, None, elapsed_ms).1,
        elapsed_ms <= probe_run(p, None, elapsed_ms).1,
        probe_run(p, None, elapsed_ms).1 <= p.timeout_ms + p.poll_interval_ms,
    decreases p.timeout_ms + p.poll_interval_ms - elapsed_ms,
{
    if elapsed_ms <= p.timeout_ms {
        lemma_gives_up_within_interval(p, elapsed_ms + p.poll_interval_ms);
    }
}

/// A port that opens at `t`, before the budget is spent, is found ready at
/// some time in `[t, t + 200)`.
pub proof fn lemma_ready_within_one_interval(t: nat)
    requires
        t < READY_TIMEOUT_MS,
    ensures
        probe_run(standard_prober(), Some(t), 0).0,
        t <= probe_run(standard_prober(), Some(t), 0).1,
        probe_run(standard_prober(), Some(t), 0).1 < t + POLL_INTERVAL_MS,
{
    lemma_found_from_poll(t, 0);
}

/// A port that never opens is reported not ready, at some time in
/// `(8000, 8200]`.
pub proof fn lemma_not_ready_after_budget()
    ensures
        !probe_run(standard_prober(), None, 0).0,
        READY_TIMEOUT_MS < probe_run(standard_prober(), None, 0).1,
        probe_run(standard_prober(), None, 0).1 <= READY_TIMEOUT_MS + POLL_INTERVAL_MS,
{
    lemma_gives_up_within_interval(standard_prober(), 0);
}

/// Decides, from the time spent and the outcome of each connection attempt,
/// when to try, when to wait and when to stop.
pub struct Prober {
    timeout_ms: u64,
    poll_interval_ms: u64,
}

impl View for Prober {
    type V = ProberView;

    closed spec fn view(&self) -> ProberView {
        ProberView {
            timeout_ms: self.timeout_ms as nat,
            poll_interval_ms: self.poll_interval_ms as nat,
        }
    }
}

impl Prober {
    /// A prober that waits between attempts.
    pub open spec fn wf(&self) -> bool {
        self@.poll_interval_ms > 0
    }

    /// A prober with the given budget and interval.
    pub fn new(timeout_ms: u64, poll_interval_ms: u64) -> (r: Prober)
        requires
            poll_interval_ms > 0,
        ensures
            r.wf(),
            r@ == (ProberView {
                timeout_ms: timeout_ms as nat,
                poll_interval_ms: poll_interval_ms as nat,
            }),
    {
        Prober { timeout_ms, poll_interval_ms }
    }

    /// The prober with the standard budget and interval.
    pub fn standard() -> (r: Prober)
        ensures
            r.wf(),
            r@ == standard_prober(),
    {
        Prober::new(READY_TIMEOUT_MS, POLL_INTERVAL_MS)
    }

    /// Budget, in milliseconds.
    pub fn timeout_ms(&self) -> (r: u64)
        ensures
            r as nat == self@.timeout_ms,
    {
        self.timeout_ms
    }

    /// Interval between attempts, in milliseconds.
    pub fn poll_interval_ms(&self) -> (r: u64)
        ensures
            r as nat == self@.poll_interval_ms,
    {
        self.poll_interval_ms
    }

    /// Says, once `elapsed_ms` have passed since probing began, whether to
    /// try a connection or to report the server not ready.
    pub fn before_attempt(&self, elapsed_ms: u64) -> (r: ProbeStep)
        ensures
            r == step_before_attempt(self@, elapsed_ms as nat),
    {
        if elapsed_ms <= self.timeout_ms {
            ProbeStep::Connect
        } else {
            ProbeStep::NotReady
        }
    }

    /// Says, after a connection attempt, whether the server is ready or the
    /// host waits one interval before asking again.
    pub fn after_attempt(&self, connected: bool) -> (r: ProbeStep)
        ensures
            r == step_after_attempt(self@, connected),
    {
        if connected {
            ProbeStep::Ready
        } else {
            ProbeStep::Wait { ms: self.poll_interval_ms }
        }
    }
}

} // verus!
