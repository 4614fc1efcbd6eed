use cockpit::prober::{ProbeStep, Prober, POLL_INTERVAL_MS, READY_TIMEOUT_MS, SERVER_PORT};

/// Runs a prober against a port that opens at `ready_at` (never, for
/// `None`) on a clock that advances only while waiting; returns whether it
/// was found ready and when probing ended.
fn simulate(prober: &Prober, ready_at: Option<u64>) -> (bool, u64) {
    let mut now = 0u64;
    loop {
        match prober.before_attempt(now) {
            ProbeStep::Connect => {
                let open = matches!(ready_at, Some(t) if t <= now);
                match prober.after_attempt(open) {
                    ProbeStep::Ready => return (true, now),
                    ProbeStep::Wait { ms } => now += ms,
                    other => panic!("unexpected step {:?}", other),
                }
            }
            ProbeStep::NotReady => return (false, now),
            other => panic!("unexpected step {:?}", other),
        }
    }
}

#[test]
fn ready_port_found_within_one_interval() {
    let prober = Prober::standard();
    for t in [0u64, 1, 199, 200, 1500, 3333, 7800, 7801, 7900, 7999] {
        let (ready, at) = simulate(&prober, Some(t));
        assert!(ready, "port opening at {} ms", t);
        assert!(t <= at && at <= t + 200, "port opening at {} ms found at {}", t, at);
    }
}

#[test]
fn port_open_just_before_budget_is_found() {
    assert_eq!(simulate(&Prober::standard(), Some(7900)), (true, 8000));
    assert_eq!(simulate(&Prober::standard(), Some(7999)), (true, 8000));
}

#[test]
fn port_open_at_1500_found_at_1600() {
    assert_eq!(simulate(&Prober::standard(), Some(1500)), (true, 1600));
}

#[test]
fn closed_port_reported_not_ready_after_budget() {
    let (ready, at) = simulate(&Prober::standard(), None);
    assert!(!ready);
    assert!((8000..=8200).contains(&at));
    assert_eq!(at, 8200);
}

#[test]
fn probe_steps() {
    let prober = Prober::standard();
    assert_eq!(prober.before_attempt(0), ProbeStep::Connect);
    assert_eq!(prober.before_attempt(7999), ProbeStep::Connect);
    assert_eq!(prober.before_attempt(8000), ProbeStep::Connect);
    assert_eq!(prober.before_attempt(8001), ProbeStep::NotReady);
    assert_eq!(prober.after_attempt(true), ProbeStep::Ready);
    assert_eq!(prober.after_attempt(false), ProbeStep::Wait { ms: 200 });
}

#[test]
fn custom_prober() {
    let prober = Prober::new(1000, 300);
    assert_eq!(prober.timeout_ms(), 1000);
    assert_eq!(prober.poll_interval_ms(), 300);
    assert_eq!(simulate(&prober, None), (false, 1200));
    assert_eq!(simulate(&prober, Some(650)), (true, 900));
}

#[test]
fn probe_constants() {
    assert_eq!(SERVER_PORT, 3847);
    assert_eq!(READY_TIMEOUT_MS, 8000);
    assert_eq!(POLL_INTERVAL_MS, 200);
}
