//! The supervision state and the lifecycle coordinator: which process is
//! live, which phase the application is in, and what each trigger from the
//! window and the tray leads to.
use vstd::prelude::*;

verus! {

/// Phase of the application's lifecycle.
#[derive(Clone, Copy, Debug, PartialEq, Eq, Structural)]
pub enum Phase {
    NotStarted,
    /// The server is being started and probed.
    Starting,
    /// The server was started; the window is up or hidden in the tray.
    Running,
    /// The server's process has been taken for termination.
    ShuttingDown,
    Stopped,
}

/// Something the window or the tray reports.
#[derive(Clone, Copy, Debug, PartialEq, Eq, Structural)]
pub enum Trigger {
    /// "Show window" from the tray menu, or a left click on the tray icon.
    ShowWindow,
    /// The user asked to close the main window.
    CloseRequested,
    /// The main window was destroyed.
    Destroyed,
    /// "Quit" from the tray menu.
    Quit,
}

/// What the host does in answer to a trigger.
#[derive(Debug)]
pub enum Response<P> {
    /// Show the main window, unminimize it and give it focus.
    ShowWindow,
    /// Cancel the close and hide the window; everything keeps running.
    HideWindow,
    /// Stop `kill`, if there is one, outside any lock; then, where
    /// `exit_code` is given, end the application with it.
    Shutdown { kill: Option<P>, exit_code: Option<i32> },
}

/// Where the server's working directory comes from.
#[derive(Clone, Copy, Debug, PartialEq, Eq, Structural)]
pub enum ServerDir {
    /// The parent of the current directory (a development run).
    ParentOfCurrentDir,
    /// The directory that holds the launcher's executable (a packaged run).
    ExecutableDir,
    /// The current directory, where the executable's directory is unknown.
    CurrentDir,
}

/// The single slot that holds the live server process, if any.
pub struct ProcessSlot<P> {
    content: Option<P>,
}

impl<P> View for ProcessSlot<P> {
    type V = Option<P>;

    closed spec fn view(&self) -> Option<P> {
        self.content
    }
}

impl<P> ProcessSlot<P> {
    /// A slot with no process.
    pub fn empty() -> (r: ProcessSlot<P>)
        ensures
            r@ is None,
    {
        ProcessSlot { content: None }
    }

    /// Whether a process is held.
    pub fn is_occupied(&self) -> (r: bool)
        ensures
            r == self@ is Some,
    {
        self.content.is_some()
    }

    /// Stores `p`, handing back what was held before.
    pub fn replace(&mut self, p: P) -> (r: Option<P>)
        ensures
            r == old(self)@,
            final(self)@ == Some(p),
    {
        let prev = self.content.take();
        self.content = Some(p);
        prev
    }

    /// Hands out what is held and leaves the slot empty, so that whoever
    /// takes second finds nothing.
    pub fn take(&mut self) -> (r: Option<P>)
        ensures
            r == old(self)@,
            final(self)@ is None,
    {
        self.content.take()
    }
}

/// Abstract state of a [`Supervisor`].
pub struct SupervisorView<P> {
    pub phase: Phase,
    pub process: Option<P>,
}

/// A process is held while running, may be held while starting, and is
/// held at no other time.
pub open spec fn supervisor_wf<P>(s: SupervisorView<P>) -> bool {
    match s.phase {
        Phase::Starting => true,
        Phase::Running => s.process is Some,
        _ => s.process is None,
    }
}

/// The state after the process has been taken for termination.
pub open spec fn shut_down<P>(s: SupervisorView<P>) -> SupervisorView<P> {
    SupervisorView {
        phase: if s.phase is Stopped {
            Phase::Stopped
        } else {
            Phase::ShuttingDown
        },
        process: None,
    }
}

/// The state and the response that follow trigger `t` in state `s`.
pub open spec fn handle_spec<P>(s: SupervisorView<P>, t: Trigger) -> (
    SupervisorView<P>,
    Response<P>,
) {
    match t {
        Trigger::ShowWindow => (s, Response::ShowWindow),
        Trigger::CloseRequested => (s, Response::HideWindow),
        Trigger::Destroyed => (shut_down(s), Response::Shutdown { kill: s.process, exit_code: None }),
        Trigger::Quit => (shut_down(s), Response::Shutdown { kill: s.process, exit_code: Some(0) }),
    }
}

/// The state once termination has been carried out: stopped, if it was
/// shutting down.
pub open spec fn terminated<P>(s: SupervisorView<P>) -> SupervisorView<P> {
    if s.phase is ShuttingDown {
        SupervisorView { phase: Phase::Stopped, process: s.process }
    } else {
        s
    }
}

/// Whether a response asks for a process to be killed.
pub open spec fn kills<P>(r: Response<P>) -> bool {
    r is Shutdown && r->kill is Some
}

/// Whether a trigger shuts the application down.
pub open spec fn is_shutdown_trigger(t: Trigger) -> bool {
    t is Destroyed || t is Quit
}

/// Two shutdown triggers in a row, with or without the first termination
/// completed in between, kill the process at most once: the second finds
/// the slot empty.
pub proof fn lemma_shutdown_kills_at_most_once<P>(s: SupervisorView<P>, first: Trigger, second: Trigger)
    requires
        supervisor_wf(s),
        is_shutdown_trigger(first),
        is_shutdown_trigger(second),
    ensures
        !kills(handle_spec(handle_spec(s, first).0, second).1),
        !kills(handle_spec(terminated(handle_spec(s, first).0), second).1),
        kills(handle_spec(s, first).1) ==> s.process is Some,
{
}

/// Closing the window changes nothing in the state: the process stays in
/// the slot and the phase stays as it was; the window is only hidden.
pub proof fn lemma_close_keeps_process<P>(s: SupervisorView<P>)
    ensures
        handle_spec(s, Trigger::CloseRequested).0 == s,
        handle_spec(s, Trigger::CloseRequested).1 is HideWindow,
{
}

/// The trigger that a tray menu item with id `id` fires.
pub open spec fn menu_trigger_spec(id: Seq<char>) -> Option<Trigger> {
    if id == "show"@ {
        Some(Trigger::ShowWindow)
    } else if id == "quit"@ {
        Some(Trigger::Quit)
    } else {
        None
    }
}

/// The trigger that a tray menu item with id `id` fires, if any.
pub fn menu_trigger(id: &str) -> (r: Option<Trigger>)
    ensures
        r == menu_trigger_spec(id@),
{
    let id = id.to_owned();
    if id == "show".to_owned() {
        Some(Trigger::ShowWindow)
    } else if id == "quit".to_owned() {
        Some(Trigger::Quit)
    } else {
        None
    }
}

/// The trigger that a click on the tray icon fires: a left button, once
/// released, shows the window; nothing else does anything.
pub fn tray_click_trigger(left_button: bool, released: bool) -> (r: Option<Trigger>)
    ensures
        r == (if left_button && released {
            Some(Trigger::ShowWindow)
        } else {
            None
        }),
{
    if left_button && released {
        Some(Trigger::ShowWindow)
    } else {
        None
    }
}

/// Where the server's working directory is taken from.
pub fn server_dir_source(development_run: bool, executable_dir_known: bool) -> (r: ServerDir)
    ensures
        development_run ==> r == ServerDir::ParentOfCurrentDir,
        !development_run && executable_dir_known ==> r == ServerDir::ExecutableDir,
        !development_run && !executable_dir_known ==> r == ServerDir::CurrentDir,
{
    if development_run {
        ServerDir::ParentOfCurrentDir
    } else if executable_dir_known {
        ServerDir::ExecutableDir
    } else {
        ServerDir::CurrentDir
    }
}

/// Coordinates the lifecycle: holds the live server process and answers
/// every trigger. A host shares one behind a lock, and never holds that lock
/// while spawning, probing or killing.
pub struct Supervisor<P> {
    phase: Phase,
    slot: ProcessSlot<P>,
}

impl<P> View for Supervisor<P> {
    type V = SupervisorView<P>;

    closed spec fn view(&self) -> SupervisorView<P> {
        SupervisorView { phase: self.phase, process: self.slot@ }
    }
}

impl<P> Supervisor<P> {
    /// A supervisor before launch, holding nothing.
    pub fn new() -> (r: Supervisor<P>)
        ensures
            supervisor_wf(r@),
            r@.phase == Phase::NotStarted,
            r@.process is None,
    {
        Supervisor { phase: Phase::NotStarted, slot: ProcessSlot::empty() }
    }

    /// The current phase.
    pub fn phase(&self) -> (r: Phase)
        ensures
            r == self@.phase,
    {
        self.phase
    }

    /// Whether a server process is held.
    pub fn has_process(&self) -> (r: bool)
        ensures
            r == self@.process is Some,
    {
        self.slot.is_occupied()
    }

    /// Launch begins.
    pub fn begin_start(&mut self)
        requires
            old(self)@.phase == Phase::NotStarted,
            supervisor_wf(old(self)@),
        ensures
            supervisor_wf(final(self)@),
            final(self)@ == (SupervisorView { phase: Phase::Starting, process: old(self)@.process }),
    {
        self.phase = Phase::Starting;
    }

    /// The launcher started the server as `p`: it is now held here.
    pub fn server_started(&mut self, p: P)
        requires
            old(self)@.phase == Phase::Starting,
            old(self)@.process is None,
        ensures
            supervisor_wf(final(self)@),
            final(self)@ == (SupervisorView { phase: Phase::Starting, process: Some(p) }),
    {
        let _ = self.slot.replace(p);
    }

    /// The launcher gave up: no process exists, and the application stops.
    pub fn start_failed(&mut self)
        requires
            old(self)@.phase == Phase::Starting,
            old(self)@.process is None,
        ensures
            supervisor_wf(final(self)@),
            final(self)@ == (SupervisorView::<P> { phase: Phase::Stopped, process: None }),
    {
        self.phase = Phase::Stopped;
    }

    /// The readiness probe returned `ready`: the application runs either
    /// way, and the result says whether a warning is due.
    pub fn probe_finished(&mut self, ready: bool) -> (warn: bool)
        requires
            old(self)@.phase == Phase::Starting,
            old(self)@.process is Some,
        ensures
            supervisor_wf(final(self)@),
            final(self)@ == (SupervisorView { phase: Phase::Running, process: old(self)@.process }),
            warn == !ready,
    {
        self.phase = Phase::Running;
        !ready
    }

    /// Answers a trigger from the window or the tray. A shutdown trigger
    /// takes the process out of the slot, so only the first one gets it.
    pub fn handle(&mut self, t: Trigger) -> (r: Response<P>)
        requires
            supervisor_wf(old(self)@),
        ensures
            supervisor_wf(final(self)@),
            (final(self)@, r) == handle_spec(old(self)@, t),
    {
        match t {
            Trigger::ShowWindow => Response::ShowWindow,
            Trigger::CloseRequested => Response::HideWindow,
            Trigger::Destroyed | Trigger::Quit => {
                let kill = self.slot.take();
                if !matches!(self.phase, Phase::Stopped) {
                    self.phase = Phase::ShuttingDown;
                }
                let exit_code = match t {
                    Trigger::Quit => Some(0),
                    _ => None,
                };
                Response::Shutdown { kill, exit_code }
            },
        }
    }

    /// The termination that a shutdown asked for has been carried out.
    pub fn termination_done(&mut self)
        requires
            supervisor_wf(old(self)@),
        ensures
            supervisor_wf(final(self)@),
            final(self)@ == terminated(old(self)@),
    {
        if matches!(self.phase, Phase::ShuttingDown) {
            self.phase = Phase::Stopped;
        }
    }
}

} // verus!
