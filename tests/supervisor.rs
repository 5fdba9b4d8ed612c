use rcrdr::supervisor::{
    mode_for, remaining_wait, MIN_RECORDING_SECS, Action, Event, ExitPoll, JobError, Mode, Phase, Supervisor, GRACE_MS,
    POLL_INTERVAL_MS,
};

fn drive(sup: &mut Supervisor, events: Vec<Event>) -> Vec<Action> {
    let mut actions = vec![sup.action()];
    for e in events {
        actions.push(sup.step(e));
    }
    actions
}

fn reaps(actions: &[Action]) -> usize {
    actions.iter().filter(|a| **a == Action::Reap).count()
}

fn running(stop: bool) -> Event {
    Event::Polled { stop_requested: stop, exit: ExitPoll::Running }
}

fn reaped(success: bool, text: &str) -> Event {
    Event::Reaped { success, diagnostics: text.to_string() }
}

#[test]
fn mode_follows_duration() {
    assert_eq!(mode_for(0), Mode::Unbounded);
    assert_eq!(mode_for(3), Mode::Bounded);
}

#[test]
fn interrupted_job_is_reaped_once() {
    let mut sup = Supervisor::new(Mode::Unbounded);
    let actions = drive(
        &mut sup,
        vec![
            Event::Spawned { ok: true },
            running(false),
            running(true),
            Event::Signalled,
            Event::GraceElapsed,
            Event::Killed,
            reaped(false, "frame=1"),
        ],
    );
    assert_eq!(
        actions,
        vec![
            Action::Spawn,
            Action::Poll { after_ms: POLL_INTERVAL_MS },
            Action::Poll { after_ms: POLL_INTERVAL_MS },
            Action::Interrupt,
            Action::Pause { ms: GRACE_MS },
            Action::Kill,
            Action::Reap,
            Action::Finish,
        ]
    );
    assert_eq!(reaps(&actions), 1);
    assert!(matches!(sup.outcome(), Some(Ok(()))));
}

#[test]
fn naturally_exited_job_is_reaped_once() {
    let mut sup = Supervisor::new(Mode::Unbounded);
    let actions = drive(
        &mut sup,
        vec![
            Event::Spawned { ok: true },
            Event::Polled { stop_requested: false, exit: ExitPoll::Exited { success: true } },
            Event::Signalled,
            Event::GraceElapsed,
            Event::Killed,
            reaped(true, ""),
        ],
    );
    assert_eq!(reaps(&actions), 1);
    assert_eq!(*actions.last().unwrap(), Action::Finish);
    assert!(matches!(sup.outcome(), Some(Ok(()))));
}

#[test]
fn failed_job_is_reaped_once() {
    let mut sup = Supervisor::new(Mode::Unbounded);
    let actions = drive(
        &mut sup,
        vec![
            Event::Spawned { ok: true },
            Event::Polled { stop_requested: false, exit: ExitPoll::Exited { success: false } },
            reaped(false, "x11grab: cannot open display :0.0"),
        ],
    );
    assert_eq!(actions[2], Action::Reap);
    assert_eq!(reaps(&actions), 1);
    assert!(!actions.contains(&Action::Kill));
    assert!(!actions.contains(&Action::Interrupt));
    match sup.outcome() {
        Some(Err(JobError::ProcessFailed(d))) => assert_eq!(d, "x11grab: cannot open display :0.0"),
        other => panic!("unexpected outcome {:?}", other),
    }
}

#[test]
fn poll_failure_still_runs_the_protocol() {
    let mut sup = Supervisor::new(Mode::Unbounded);
    let actions = drive(
        &mut sup,
        vec![
            Event::Spawned { ok: true },
            Event::Polled { stop_requested: false, exit: ExitPoll::Unknown },
            Event::Signalled,
            Event::GraceElapsed,
            Event::Killed,
            reaped(false, ""),
        ],
    );
    assert_eq!(reaps(&actions), 1);
    assert!(matches!(sup.outcome(), Some(Err(JobError::ProcessFailed(_)))));
}

#[test]
fn grace_pause_comes_before_kill() {
    let mut sup = Supervisor::new(Mode::Unbounded);
    let actions = drive(
        &mut sup,
        vec![Event::Spawned { ok: true }, running(true), Event::Signalled, Event::GraceElapsed],
    );
    let k = actions.len();
    assert_eq!(actions[k - 3], Action::Interrupt);
    assert_eq!(actions[k - 2], Action::Pause { ms: GRACE_MS });
    assert_eq!(actions[k - 1], Action::Kill);
    assert!(GRACE_MS >= 100);
}

#[test]
fn bounded_job_goes_straight_to_reap() {
    let mut sup = Supervisor::new(Mode::Bounded);
    let actions = drive(&mut sup, vec![Event::Spawned { ok: true }, reaped(true, "Error error")]);
    assert_eq!(actions, vec![Action::Spawn, Action::Reap, Action::Finish]);
    assert!(matches!(sup.outcome(), Some(Ok(()))));
}

#[test]
fn bounded_failure_carries_diagnostics() {
    let mut sup = Supervisor::new(Mode::Bounded);
    drive(&mut sup, vec![Event::Spawned { ok: true }, reaped(false, "No such device")]);
    match sup.outcome() {
        Some(Err(JobError::ProcessFailed(d))) => assert_eq!(d, "No such device"),
        other => panic!("unexpected outcome {:?}", other),
    }
}

#[test]
fn unbounded_error_text_fails_the_job() {
    let mut sup = Supervisor::new(Mode::Unbounded);
    drive(
        &mut sup,
        vec![
            Event::Spawned { ok: true },
            running(true),
            Event::Signalled,
            Event::GraceElapsed,
            Event::Killed,
            reaped(false, "Error: device error"),
        ],
    );
    assert!(matches!(sup.outcome(), Some(Err(JobError::ProcessFailed(_)))));
}

#[test]
fn spawn_failure_finishes_without_reaping() {
    let mut sup = Supervisor::new(Mode::Unbounded);
    let actions = drive(&mut sup, vec![Event::Spawned { ok: false }]);
    assert_eq!(actions, vec![Action::Spawn, Action::Finish]);
    assert!(matches!(sup.outcome(), Some(Err(JobError::SpawnFailed))));
}

#[test]
fn unexpected_events_change_nothing() {
    let mut sup = Supervisor::new(Mode::Unbounded);
    assert_eq!(sup.step(Event::Killed), Action::Spawn);
    assert_eq!(sup.phase, Phase::Launch);
    assert!(sup.outcome().is_none());
    sup.step(Event::Spawned { ok: false });
    assert_eq!(sup.step(reaped(true, "")), Action::Finish);
}

#[test]
fn minimum_recording_wait() {
    assert_eq!(remaining_wait(0, MIN_RECORDING_SECS), 2);
    assert_eq!(remaining_wait(1, 2), 1);
    assert_eq!(remaining_wait(2, 2), 0);
    assert_eq!(remaining_wait(10, 2), 0);
}
