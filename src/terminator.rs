//! Stopping the server process: which strategy a platform needs, and what
//! the host runs for it.
use vstd::prelude::*;

verus! {

/// Program that the tree-kill strategy runs.
pub const TREE_KILL_PROGRAM: &'static str = "taskkill";

/// How the supervised process is stopped.
#[derive(Clone, Copy, Debug, PartialEq, Eq, Structural)]
pub enum KillStrategy {
    /// Run the platform's recursive-kill utility on the process id, forcing
    /// the whole tree down, with no console window.
    TreeKill,
    /// Send a forced kill to the process itself.
    DirectKill,
}

/// What the host does to stop a process.
#[derive(Debug)]
pub enum KillCommand {
    /// Run `program` with `args`, with no console window; its outcome is
    /// ignored.
    RunUtility { program: String, args: Vec<String> },
    /// Kill the process through its handle; the outcome is ignored.
    KillHandle,
}

/// The digit `d` (below ten) as a character.
pub open spec fn digit_char(d: nat) -> char {
    seq!['0', '1', '2', '3', '4', '5', '6', '7', '8', '9'][d as int]
}

/// Decimal digits of `n`, most significant first, with no leading zero.
pub open spec fn decimal(n: nat) -> Seq<char>
    decreases n,
{
    if n < 10 {
        seq![digit_char(n)]
    } else {
        decimal(n / 10).push(digit_char(n % 10))
    }
}

/// Arguments of the recursive-kill utility for process `pid`: select it by
/// id, take its descendants, force.
pub open spec fn tree_kill_args(pid: u32) -> Seq<Seq<char>> {
    seq!["/PID"@, decimal(pid as nat), "/T"@, "/F"@]
}

/// The strategy for a platform: the tree kill where killing a process
/// leaves its descendants running, else the direct kill.
pub open spec fn strategy_spec(orphans_survive: bool) -> KillStrategy {
    if orphans_survive {
        KillStrategy::TreeKill
    } else {
        KillStrategy::DirectKill
    }
}

/// Relies on `u32`'s `ToString`, from its `Display`: the decimal digits of
/// the value, with no sign, padding or leading zero.
#[verifier::external_body]
fn decimal_text(n: u32) -> (r: String)
    ensures
        r@ == decimal(n as nat),
{
    n.to_string()
}

/// Picks the strategy once, for the platform the launcher runs on.
pub fn strategy_for(orphans_survive: bool) -> (r: KillStrategy)
    ensures
        r == strategy_spec(orphans_survive),
{
    if orphans_survive {
        KillStrategy::TreeKill
    } else {
        KillStrategy::DirectKill
    }
}

/// What stopping process `pid` takes under `strategy`.
pub fn kill_command(strategy: KillStrategy, pid: u32) -> (r: KillCommand)
    ensures
        strategy is TreeKill <==> r is RunUtility,
        r is RunUtility ==> r->program@ == TREE_KILL_PROGRAM@,
        r is RunUtility ==> r->args@.map_values(|a: String| a@) == tree_kill_args(pid),
{
    match strategy {
        KillStrategy::TreeKill => {
            let mut args: Vec<String> = Vec::new();
            args.push("/PID".to_owned());
            args.push(decimal_text(pid));
            args.push("/T".to_owned());
            args.push("/F".to_owned());
            assert(args@.map_values(|a: String| a@) =~= tree_kill_args(pid));
            KillCommand::RunUtility { program: TREE_KILL_PROGRAM.to_owned(), args }
        },
        KillStrategy::DirectKill => KillCommand::KillHandle,
    }
}

} // verus!
