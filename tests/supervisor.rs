use cockpit::launcher::{LaunchStep, Launcher};
use cockpit::prober::{ProbeStep, Prober};
use cockpit::supervisor::{
    menu_trigger, server_dir_source, tray_click_trigger, Phase, ProcessSlot, Response, ServerDir,
    Supervisor, Trigger,
};

/// A supervisor that started process `pid` and probed it ready.
fn running(pid: u32) -> Supervisor<u32> {
    let mut s = Supervisor::new();
    s.begin_start();
    s.server_started(pid);
    assert!(!s.probe_finished(true));
    s
}

/// The process that a response asks to kill, and the exit code it asks for.
fn shutdown_parts(r: Response<u32>) -> (Option<u32>, Option<i32>) {
    match r {
        Response::Shutdown { kill, exit_code } => (kill, exit_code),
        other => panic!("expected a shutdown, got {:?}", other),
    }
}

#[test]
fn start_probe_then_quit() {
    let mut s: Supervisor<u32> = Supervisor::new();
    assert_eq!(s.phase(), Phase::NotStarted);
    s.begin_start();
    assert_eq!(s.phase(), Phase::Starting);

    let mut launcher = Launcher::new();
    assert_eq!(launcher.record(true), LaunchStep::Started { attempts: 1 });
    s.server_started(77);

    let prober = Prober::standard();
    let mut now = 0u64;
    let ready = loop {
        match prober.before_attempt(now) {
            ProbeStep::Connect => match prober.after_attempt(now >= 1500) {
                ProbeStep::Ready => break true,
                ProbeStep::Wait { ms } => now += ms,
                other => panic!("unexpected step {:?}", other),
            },
            _ => break false,
        }
    };
    assert!(ready);
    let warn = s.probe_finished(ready);
    assert!(!warn);
    assert_eq!(s.phase(), Phase::Running);
    assert!(s.has_process());

    let mut killed = Vec::new();
    let (kill, exit_code) = shutdown_parts(s.handle(Trigger::Quit));
    killed.extend(kill);
    assert_eq!(s.phase(), Phase::ShuttingDown);
    assert!(!s.has_process());
    s.termination_done();
    assert_eq!(s.phase(), Phase::Stopped);
    assert_eq!(killed, vec![77]);
    assert_eq!(exit_code, Some(0));
}

#[test]
fn probe_timeout_warns_but_runs() {
    let mut s = Supervisor::new();
    s.begin_start();
    s.server_started(5u32);
    assert!(s.probe_finished(false));
    assert_eq!(s.phase(), Phase::Running);
    assert!(s.has_process());
}

#[test]
fn close_hides_window_and_keeps_process() {
    let mut s = running(12);
    assert!(matches!(s.handle(Trigger::CloseRequested), Response::HideWindow));
    assert_eq!(s.phase(), Phase::Running);
    assert!(s.has_process());
}

#[test]
fn destroy_after_close_kills_once() {
    let mut s = running(12);
    assert!(matches!(s.handle(Trigger::CloseRequested), Response::HideWindow));
    let (kill, exit_code) = shutdown_parts(s.handle(Trigger::Destroyed));
    assert_eq!(kill, Some(12));
    assert_eq!(exit_code, None);
    let (kill, _) = shutdown_parts(s.handle(Trigger::Destroyed));
    assert_eq!(kill, None);
}

#[test]
fn second_shutdown_kills_nothing() {
    for (first, second) in [
        (Trigger::Quit, Trigger::Quit),
        (Trigger::Quit, Trigger::Destroyed),
        (Trigger::Destroyed, Trigger::Quit),
        (Trigger::Destroyed, Trigger::Destroyed),
    ] {
        let mut s = running(3);
        let mut kills = 0;
        if shutdown_parts(s.handle(first)).0.is_some() {
            kills += 1;
        }
        if shutdown_parts(s.handle(second)).0.is_some() {
            kills += 1;
        }
        assert_eq!(kills, 1);
    }
}

#[test]
fn shutdown_after_termination_kills_nothing() {
    let mut s = running(3);
    assert_eq!(shutdown_parts(s.handle(Trigger::Destroyed)).0, Some(3));
    s.termination_done();
    let (kill, exit_code) = shutdown_parts(s.handle(Trigger::Quit));
    assert_eq!(kill, None);
    assert_eq!(exit_code, Some(0));
    assert_eq!(s.phase(), Phase::Stopped);
}

#[test]
fn show_keeps_state() {
    let mut s = running(9);
    assert!(matches!(s.handle(Trigger::ShowWindow), Response::ShowWindow));
    assert_eq!(s.phase(), Phase::Running);
    assert!(s.has_process());
}

#[test]
fn failed_start_stops() {
    let mut s: Supervisor<u32> = Supervisor::new();
    s.begin_start();
    s.start_failed();
    assert_eq!(s.phase(), Phase::Stopped);
    assert!(!s.has_process());
}

#[test]
fn menu_ids_route() {
    assert_eq!(menu_trigger("show"), Some(Trigger::ShowWindow));
    assert_eq!(menu_trigger("quit"), Some(Trigger::Quit));
    assert_eq!(menu_trigger("Quit"), None);
    assert_eq!(menu_trigger(""), None);
}

#[test]
fn tray_left_click_shows_window() {
    assert_eq!(tray_click_trigger(true, true), Some(Trigger::ShowWindow));
    assert_eq!(tray_click_trigger(true, false), None);
    assert_eq!(tray_click_trigger(false, true), None);
}

#[test]
fn server_dir_by_run_kind() {
    assert_eq!(server_dir_source(true, true), ServerDir::ParentOfCurrentDir);
    assert_eq!(server_dir_source(true, false), ServerDir::ParentOfCurrentDir);
    assert_eq!(server_dir_source(false, true), ServerDir::ExecutableDir);
    assert_eq!(server_dir_source(false, false), ServerDir::CurrentDir);
}

#[test]
fn slot_take_is_single_use() {
    let mut slot = ProcessSlot::empty();
    assert!(!slot.is_occupied());
    assert_eq!(slot.replace(4u32), None);
    assert!(slot.is_occupied());
    assert_eq!(slot.replace(5), Some(4));
    assert_eq!(slot.take(), Some(5));
    assert_eq!(slot.take(), None);
    assert!(!slot.is_occupied());
}
