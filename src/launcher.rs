//! Retry policy for starting the server process.
use vstd::prelude::*;

verus! {

/// Attempts made at most before a start is given up.
pub const MAX_SPAWN_ATTEMPTS: u32 = 3;

/// Pause between a failed attempt and the next one, in milliseconds.
pub const SPAWN_BACKOFF_MS: u64 = 500;

/// Program that runs the server.
pub const SERVER_PROGRAM: &'static str = "node";

/// Arguments the server is started with, the same on every attempt: its
/// script, and the request not to open a browser.
pub open spec fn server_args_spec() -> Seq<Seq<char>> {
    seq!["server.js"@, "--no-open"@]
}

/// The arguments the server is started with.
pub fn server_args() -> (r: Vec<String>)
    ensures
        r@.map_values(|a: String| a@) == server_args_spec(),
{
    let mut args: Vec<String> = Vec::new();
    args.push("server.js".to_owned());
    args.push("--no-open".to_owned());
    assert(args@.map_values(|a: String| a@) =~= server_args_spec());
    args
}

/// What the host does after reporting the outcome of one spawn attempt.
#[derive(Clone, Copy, Debug, PartialEq, Eq, Structural)]
pub enum LaunchStep {
    /// Attempt `attempt` failed: wait `backoff_ms`, then spawn again with the
    /// same program, arguments and directory.
    Retry { attempt: u32, backoff_ms: u64 },
    /// The process is running; it took `attempts` attempts.
    Started { attempts: u32 },
    /// Every attempt failed; startup must be aborted.
    GaveUp { attempts: u32 },
}

/// Abstract state of a [`Launcher`]: attempts made so far, and whether the
/// start has been decided either way.
pub struct LauncherView {
    pub attempts: nat,
    pub finished: bool,
}

/// The decision taken after attempt number `attempt` came out as `spawned`.
pub open spec fn step_after(attempt: nat, spawned: bool) -> LaunchStep {
    if spawned {
        LaunchStep::Started { attempts: attempt as u32 }
    } else if attempt < MAX_SPAWN_ATTEMPTS {
        LaunchStep::Retry { attempt: attempt as u32, backoff_ms: SPAWN_BACKOFF_MS }
    } else {
        LaunchStep::GaveUp { attempts: attempt as u32 }
    }
}

/// The state that follows `s` once the next attempt came out as `spawned`.
pub open spec fn launcher_next(s: LauncherView, spawned: bool) -> LauncherView {
    LauncherView {
        attempts: s.attempts + 1,
        finished: !(step_after(s.attempts + 1, spawned) is Retry),
    }
}

/// The state reached from `s` after the attempts whose outcomes are
/// `outcomes`, in order; outcomes reported after the start was decided are
/// not attempts and change nothing.
pub open spec fn launcher_run(s: LauncherView, outcomes: Seq<bool>) -> LauncherView
    decreases outcomes.len(),
{
    if outcomes.len() == 0 || s.finished {
        s
    } else {
        launcher_run(launcher_next(s, outcomes[0]), outcomes.drop_first())
    }
}

/// The steps that the host is told, one per attempt, from state `s`.
pub open spec fn launcher_steps(s: LauncherView, outcomes: Seq<bool>) -> Seq<LaunchStep>
    decreases outcomes.len(),
{
    if outcomes.len() == 0 || s.finished {
        Seq::empty()
    } else {
        seq![step_after(s.attempts + 1, outcomes[0])]
            + launcher_steps(launcher_next(s, outcomes[0]), outcomes.drop_first())
    }
}

/// `n` failed attempts.
pub open spec fn failures(n: nat) -> Seq<bool> {
    Seq::new(n, |i: int| false)
}

/// The state of a launcher that has made no attempt.
pub open spec fn fresh_launcher() -> LauncherView {
    LauncherView { attempts: 0, finished: false }
}

/// From an undecided state with room for `n` more failures, `n` failed
/// attempts followed by a successful one are all attempted: each failure is
/// followed by a retry after the backoff, and the success ends the start.
proof fn lemma_failures_then_success(s: LauncherView, n: nat)
    requires
        !s.finished,
        s.attempts + n < MAX_SPAWN_ATTEMPTS,
    ensures
        launcher_run(s, failures(n).push(true)) == (LauncherView {
            attempts: s.attempts + n + 1,
            finished: true,
        }),
        launcher_steps(s, failures(n).push(true)) == Seq::new(
            n,
            |i: int|
                LaunchStep::Retry {
                    attempt: (s.attempts + i + 1) as u32,
                    backoff_ms: SPAWN_BACKOFF_MS,
                },
        ).push(LaunchStep::Started { attempts: (s.attempts + n + 1) as u32 }),
    decreases n,
{
    let o = failures(n).push(true);
    let t = launcher_next(s, o[0]);
    if n == 0 {
        assert(o.drop_first() =~= Seq::<bool>::empty());
        assert(launcher_steps(t, o.drop_first()) =~= Seq::<LaunchStep>::empty());
        assert(launcher_run(t, o.drop_first()) == t);
        assert(launcher_steps(s, o) =~= seq![step_after(s.attempts + 1, true)]);
    } else {
        assert(o.drop_first() =~= failures((n - 1) as nat).push(true));
        lemma_failures_then_success(t, (n - 1) as nat);
        assert(launcher_steps(s, o) =~= Seq::new(
            n,
            |i: int|
                LaunchStep::Retry {
                    attempt: (s.attempts + i + 1) as u32,
                    backoff_ms: SPAWN_BACKOFF_MS,
                },
        ).push(LaunchStep::Started { attempts: (s.attempts + n + 1) as u32 }));
    }
}

/// A fresh launcher that sees `n` failed attempts (`n` at most two) and then
/// a successful one makes exactly `n + 1` attempts and ends started; every
/// failure before it is answered by a retry after a pause of the backoff
/// interval.
pub proof fn lemma_retries_until_started(n: nat)
    requires
        n < MAX_SPAWN_ATTEMPTS,
    ensures
        launcher_run(fresh_launcher(), failures(n).push(true)).attempts == n + 1,
        launcher_run(fresh_launcher(), failures(n).push(true)).finished,
        launcher_steps(fresh_launcher(), failures(n).push(true)).len() == n + 1,
        launcher_steps(fresh_launcher(), failures(n).push(true))[n as int] == (LaunchStep::Started {
            attempts: (n + 1) as u32,
        }),
        forall|i: int|
            0 <= i < n ==> #[trigger] launcher_steps(fresh_launcher(), failures(n).push(true))[i]
                == (LaunchStep::Retry { attempt: (i + 1) as u32, backoff_ms: SPAWN_BACKOFF_MS }),
{
    lemma_failures_then_success(fresh_launcher(), n);
}

/// A decided launcher ignores whatever is reported after it.
proof fn lemma_finished_is_final(s: LauncherView, outcomes: Seq<bool>)
    requires
        s.finished,
    ensures
        launcher_run(s, outcomes) == s,
        launcher_steps(s, outcomes) == Seq::<LaunchStep>::empty(),
{
}

/// A fresh launcher whose first three attempts fail gives up after the third,
/// telling the host so, and makes no fourth attempt whatever follows.
pub proof fn lemma_gives_up_after_three_failures(rest: Seq<bool>)
    ensures
        launcher_run(fresh_launcher(), failures(3) + rest) == (LauncherView {
            attempts: 3,
            finished: true,
        }),
        launcher_steps(fresh_launcher(), failures(3) + rest) == seq![
            LaunchStep::Retry { attempt: 1, backoff_ms: SPAWN_BACKOFF_MS },
            LaunchStep::Retry { attempt: 2, backoff_ms: SPAWN_BACKOFF_MS },
            LaunchStep::GaveUp { attempts: 3 },
        ],
{
    let o0 = failures(3) + rest;
    let s0 = fresh_launcher();
    let s1 = launcher_next(s0, false);
    let s2 = launcher_next(s1, false);
    let s3 = launcher_next(s2, false);
    let o1 = o0.drop_first();
    let o2 = o1.drop_first();
    let o3 = o2.drop_first();
    assert(o0[0] == false && o1[0] == false && o2[0] == false);
    lemma_finished_is_final(s3, o3);
    assert(launcher_run(s2, o2) == s3);
    assert(launcher_run(s1, o1) == s3);
    assert(launcher_steps(s2, o2) =~= seq![LaunchStep::GaveUp { attempts: 3 }]);
    assert(launcher_steps(s1, o1) =~= seq![
        LaunchStep::Retry { attempt: 2, backoff_ms: SPAWN_BACKOFF_MS },
        LaunchStep::GaveUp { attempts: 3 },
    ]);
    assert(launcher_steps(s0, o0) =~= seq![
        LaunchStep::Retry { attempt: 1, backoff_ms: SPAWN_BACKOFF_MS },
        LaunchStep::Retry { attempt: 2, backoff_ms: SPAWN_BACKOFF_MS },
        LaunchStep::GaveUp { attempts: 3 },
    ]);
}

/// Counts the attempts to start the server and decides, after each one,
/// whether to retry, to go on, or to give up.
pub struct Launcher {
    attempts: u32,
    finished: bool,
}

impl View for Launcher {
    type V = LauncherView;

    closed spec fn view(&self) -> LauncherView {
        LauncherView { attempts: self.attempts as nat, finished: self.finished }
    }
}

impl Launcher {
    /// No more attempts than allowed, and one more is owed while undecided.
    pub open spec fn wf(&self) -> bool {
        &&& self@.attempts <= MAX_SPAWN_ATTEMPTS
        &&& !self@.finished ==> self@.attempts < MAX_SPAWN_ATTEMPTS
    }

    /// A launcher that has made no attempt yet.
    pub fn new() -> (r: Launcher)
        ensures
            r.wf(),
            r@ == (LauncherView { attempts: 0, finished: false }),
    {
        Launcher { attempts: 0, finished: false }
    }

    /// Attempts made so far.
    pub fn attempts(&self) -> (r: u32)
        ensures
            r as nat == self@.attempts,
    {
        self.attempts
    }

    /// Whether the start was decided, by a success or by giving up; once it
    /// is, no further attempt is made.
    pub fn is_finished(&self) -> (r: bool)
        ensures
            r == self@.finished,
    {
        self.finished
    }

    /// Records the outcome of the next attempt and says what to do now.
    pub fn record(&mut self, spawned: bool) -> (step: LaunchStep)
        requires
            old(self).wf(),
            !old(self)@.finished,
        ensures
            final(self).wf(),
            final(self)@ == launcher_next(old(self)@, spawned),
            step == step_after(old(self)@.attempts + 1, spawned),
    {
        self.attempts = self.attempts + 1;
        let step = if spawned {
            LaunchStep::Started { attempts: self.attempts }
        } else if self.attempts < MAX_SPAWN_ATTEMPTS {
            LaunchStep::Retry { attempt: self.attempts, backoff_ms: SPAWN_BACKOFF_MS }
        } else {
            LaunchStep::GaveUp { attempts: self.attempts }
        };
        self.finished = match step {
            LaunchStep::Retry { .. } => false,
            _ => true,
        };
        step
    }
}

} // verus!
