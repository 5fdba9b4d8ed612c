//! The decisions of the job supervisor, as a state machine that a runner
//! drives: the machine names the next action (spawn, poll, interrupt, pause,
//! kill, reap, finish) and the runner performs it and reports the event.
//!
//! A bounded job is spawned and reaped. An unbounded job is polled until a
//! stop is requested or the process exits; then it is interrupted, given a
//! grace pause to finalise its output, killed and reaped.
use vstd::prelude::*;
use crate::progress::{reports_error, shows_error};

verus! {

/// Pause between two polls of an unbounded job, in milliseconds.
pub const POLL_INTERVAL_MS: u64 = 100;

/// Pause between the interrupt and the forced termination, in milliseconds.
pub const GRACE_MS: u64 = 500;

/// Pause after the command-line tool starts an unbounded capture, before it
/// may be stopped, in milliseconds.
pub const STARTUP_PAUSE_MS: u64 = 1000;

/// Shortest unbounded capture that the command-line tool lets stop, in
/// seconds, so that the file is valid.
pub const MIN_RECORDING_SECS: u64 = 2;

/// How much longer to wait before stopping a capture that has run for
/// `elapsed` seconds, so that it lasts at least `minimum` seconds.
pub fn remaining_wait(elapsed: u64, minimum: u64) -> (r: u64)
    ensures
        r == (if elapsed < minimum {
            minimum - elapsed
        } else {
            0
        }),
        elapsed + r >= minimum,
{
    if elapsed < minimum {
        minimum - elapsed
    } else {
        0
    }
}

/// Whether a job runs for a fixed time or until it is stopped.
#[derive(Clone, Copy, PartialEq, Eq, Structural, Debug)]
pub enum Mode {
    Bounded,
    Unbounded,
}

/// The mode of a job with the given duration limit (`0`: unbounded).
pub open spec fn mode_of(duration_limit: u64) -> Mode {
    if duration_limit == 0 {
        Mode::Unbounded
    } else {
        Mode::Bounded
    }
}

/// The mode of a job with the given duration limit.
pub fn mode_for(duration_limit: u64) -> (r: Mode)
    ensures
        r == mode_of(duration_limit),
{
    if duration_limit == 0 {
        Mode::Unbounded
    } else {
        Mode::Bounded
    }
}

/// Why a job ended without success.
#[derive(Debug)]
pub enum JobError {
    /// The process could not be started.
    SpawnFailed,
    /// The process failed; the text says how.
    ProcessFailed(String),
}

/// The model of a `JobError`.
pub enum JobErrorModel {
    SpawnFailed,
    ProcessFailed(Seq<char>),
}

impl View for JobError {
    type V = JobErrorModel;

    open spec fn view(&self) -> JobErrorModel {
        match self {
            JobError::SpawnFailed => JobErrorModel::SpawnFailed,
            JobError::ProcessFailed(s) => JobErrorModel::ProcessFailed(s@),
        }
    }
}

impl JobError {
    /// A copy of this error.
    pub fn duplicate(&self) -> (r: JobError)
        ensures
            r@ == self@,
    {
        match self {
            JobError::SpawnFailed => JobError::SpawnFailed,
            JobError::ProcessFailed(s) => JobError::ProcessFailed(s.clone()),
        }
    }
}

/// Where the supervisor stands.
#[derive(Clone, Copy, PartialEq, Eq, Structural, Debug)]
pub enum Phase {
    Launch,
    Watch,
    Interrupt,
    Grace,
    Terminate,
    Reap,
    Done,
}

/// What a poll of a running job found.
#[derive(Clone, Copy, PartialEq, Eq, Structural, Debug)]
pub enum ExitPoll {
    Running,
    Exited { success: bool },
    /// The state of the process could not be read.
    Unknown,
}

/// What the runner reports after performing an action.
#[derive(Debug)]
pub enum Event {
    Spawned { ok: bool },
    Polled { stop_requested: bool, exit: ExitPoll },
    Signalled,
    GraceElapsed,
    Killed,
    Reaped { success: bool, diagnostics: String },
}

/// What the runner is asked to do next.
#[derive(Clone, Copy, PartialEq, Eq, Structural, Debug)]
pub enum Action {
    /// Start the process.
    Spawn,
    /// Sleep this long, then read the stop signal and whether the process exited.
    Poll { after_ms: u64 },
    /// Send the graceful-termination signal.
    Interrupt,
    /// Sleep this long.
    Pause { ms: u64 },
    /// Terminate the process forcibly (harmless when it is gone).
    Kill,
    /// Wait for the process and collect its status and diagnostics.
    Reap,
    /// Nothing is left to do; the outcome is ready.
    Finish,
}

/// The supervisor of one job.
pub struct Supervisor {
    pub mode: Mode,
    pub phase: Phase,
    /// The process exited with a failure status, or its state could not be
    /// read: the job fails with the diagnostics collected when it is reaped.
    pub failing: bool,
    /// The failure that the job has met, if any.
    pub failure: Option<JobError>,
}

/// The model of a `Supervisor`.
pub struct SupervisorModel {
    pub mode: Mode,
    pub phase: Phase,
    pub failing: bool,
    pub failure: Option<JobErrorModel>,
}

pub open spec fn failure_model(f: Option<JobError>) -> Option<JobErrorModel> {
    match f {
        Some(e) => Some(e@),
        None => None,
    }
}

impl View for Supervisor {
    type V = SupervisorModel;

    open spec fn view(&self) -> SupervisorModel {
        SupervisorModel {
            mode: self.mode,
            phase: self.phase,
            failing: self.failing,
            failure: failure_model(self.failure),
        }
    }
}

/// The action that each phase asks for.
pub open spec fn pending(p: Phase) -> Action {
    match p {
        Phase::Launch => Action::Spawn,
        Phase::Watch => Action::Poll { after_ms: POLL_INTERVAL_MS },
        Phase::Interrupt => Action::Interrupt,
        Phase::Grace => Action::Pause { ms: GRACE_MS },
        Phase::Terminate => Action::Kill,
        Phase::Reap => Action::Reap,
        Phase::Done => Action::Finish,
    }
}

/// The event that answers the action of phase `p`.
pub open spec fn expects(p: Phase, e: Event) -> bool {
    match p {
        Phase::Launch => e is Spawned,
        Phase::Watch => e is Polled,
        Phase::Interrupt => e is Signalled,
        Phase::Grace => e is GraceElapsed,
        Phase::Terminate => e is Killed,
        Phase::Reap => e is Reaped,
        Phase::Done => false,
    }
}

/// The failure recorded when the process has been reaped: its diagnostics,
/// verbatim, when it failed.
pub open spec fn failure_after_reap(
    v: SupervisorModel,
    success: bool,
    diagnostics: Seq<char>,
) -> Option<JobErrorModel> {
    if v.failing {
        Some(JobErrorModel::ProcessFailed(diagnostics))
    } else if v.mode == Mode::Bounded && !success {
        Some(JobErrorModel::ProcessFailed(diagnostics))
    } else if v.mode == Mode::Unbounded && reports_error(diagnostics) {
        Some(JobErrorModel::ProcessFailed(diagnostics))
    } else {
        None
    }
}

/// The supervisor after event `e`; an event that does not answer the
/// pending action leaves it as it is.
pub open spec fn next(v: SupervisorModel, e: Event) -> SupervisorModel {
    if !expects(v.phase, e) {
        v
    } else {
        match e {
            Event::Spawned { ok } => if !ok {
                SupervisorModel { phase: Phase::Done, failure: Some(JobErrorModel::SpawnFailed), ..v }
            } else if v.mode == Mode::Bounded {
                SupervisorModel { phase: Phase::Reap, ..v }
            } else {
                SupervisorModel { phase: Phase::Watch, ..v }
            },
            Event::Polled { stop_requested, exit } => match exit {
                ExitPoll::Exited { success } => if success {
                    SupervisorModel { phase: Phase::Interrupt, ..v }
                } else {
                    SupervisorModel { phase: Phase::Reap, failing: true, ..v }
                },
                ExitPoll::Unknown => SupervisorModel { phase: Phase::Interrupt, failing: true, ..v },
                ExitPoll::Running => if stop_requested {
                    SupervisorModel { phase: Phase::Interrupt, ..v }
                } else {
                    v
                },
            },
            Event::Signalled => SupervisorModel { phase: Phase::Grace, ..v },
            Event::GraceElapsed => SupervisorModel { phase: Phase::Terminate, ..v },
            Event::Killed => SupervisorModel { phase: Phase::Reap, ..v },
            Event::Reaped { success, diagnostics } => SupervisorModel {
                phase: Phase::Done,
                failure: failure_after_reap(v, success, diagnostics@),
                ..v
            },
        }
    }
}

/// A fresh supervisor.
pub open spec fn fresh(mode: Mode) -> SupervisorModel {
    SupervisorModel { mode, phase: Phase::Launch, failing: false, failure: None }
}

/// Each event of `events` answers the action pending before it.
pub open spec fn well_driven(v: SupervisorModel, events: Seq<Event>) -> bool
    decreases events.len(),
{
    events.len() == 0 || (expects(v.phase, events[0]) && well_driven(
        next(v, events[0]),
        events.drop_first(),
    ))
}

/// The supervisor after all of `events`.
pub open spec fn after(v: SupervisorModel, events: Seq<Event>) -> SupervisorModel
    decreases events.len(),
{
    if events.len() == 0 {
        v
    } else {
        after(next(v, events[0]), events.drop_first())
    }
}

/// The actions asked for along `events`: the one pending at the start, then
/// the one pending after each event.
pub open spec fn actions(v: SupervisorModel, events: Seq<Event>) -> Seq<Action>
    decreases events.len(),
{
    if events.len() == 0 {
        seq![pending(v.phase)]
    } else {
        seq![pending(v.phase)] + actions(next(v, events[0]), events.drop_first())
    }
}

/// How many times `t` asks for the process to be reaped.
pub open spec fn reap_count(t: Seq<Action>) -> nat
    decreases t.len(),
{
    if t.len() == 0 {
        0
    } else {
        (if t[0] is Reap {
            1nat
        } else {
            0nat
        }) + reap_count(t.drop_first())
    }
}

/// The forced termination at index `k` of `t` comes right after the
/// interrupt and the full grace pause.
pub open spec fn kill_after_grace(t: Seq<Action>, k: int) -> bool {
    k >= 2 && t[k - 1] == (Action::Pause { ms: GRACE_MS }) && t[k - 2] == Action::Interrupt
}

proof fn lemma_reaps_at_most(v: SupervisorModel, events: Seq<Event>)
    requires
        well_driven(v, events),
    ensures
        reap_count(actions(v, events)) <= (if v.phase == Phase::Done {
            0nat
        } else {
            1nat
        }),
        v.phase != Phase::Launch && v.phase != Phase::Done && after(v, events).phase
            == Phase::Done ==> reap_count(actions(v, events)) >= 1,
    decreases events.len(),
{
    let t = actions(v, events);
    assert(t[0] == pending(v.phase));
    assert(reap_count(t) == (if t[0] is Reap {
        1nat
    } else {
        0nat
    }) + reap_count(t.drop_first()));
    if events.len() == 0 {
        assert(t.drop_first().len() == 0);
    } else {
        let w = next(v, events[0]);
        lemma_reaps_at_most(w, events.drop_first());
        assert(t.drop_first() == actions(w, events.drop_first()));
        if v.phase == Phase::Reap {
            assert(w.phase == Phase::Done);
        }
    }
}

/// The process of a job is reaped exactly once. In every run of a fresh
/// supervisor in which each event answers the pending action, the reap is
/// asked for at most once; and where the spawn succeeded and the run has
/// come to its end, it has been asked for exactly once, whether the process
/// exited by itself, was interrupted, or was killed.
pub proof fn lemma_reaped_once(mode: Mode, events: Seq<Event>)
    requires
        well_driven(fresh(mode), events),
    ensures
        reap_count(actions(fresh(mode), events)) <= 1,
        events.len() > 0 && events[0] == (Event::Spawned { ok: true }) && after(
            fresh(mode),
            events,
        ).phase == Phase::Done ==> reap_count(actions(fresh(mode), events)) == 1,
{
    let v = fresh(mode);
    lemma_reaps_at_most(v, events);
    if events.len() > 0 && events[0] == (Event::Spawned { ok: true }) {
        let w = next(v, events[0]);
        lemma_reaps_at_most(w, events.drop_first());
        assert(actions(v, events).drop_first() == actions(w, events.drop_first()));
    }
}

proof fn lemma_kill_guarded(v: SupervisorModel, events: Seq<Event>)
    requires
        well_driven(v, events),
    ensures
        ({
            let t = actions(v, events);
            forall|k: int|
                0 <= k < t.len() && #[trigger] t[k] == Action::Kill ==> if v.phase
                    == Phase::Grace {
                    k >= 1 && t[k - 1] == (Action::Pause { ms: GRACE_MS }) && (k >= 2 ==> t[k
                        - 2] == Action::Interrupt)
                } else if v.phase == Phase::Terminate {
                    k == 0 || kill_after_grace(t, k)
                } else {
                    kill_after_grace(t, k)
                }
        }),
    decreases events.len(),
{
    let t = actions(v, events);
    if events.len() > 0 {
        let w = next(v, events[0]);
        let rest = events.drop_first();
        lemma_kill_guarded(w, rest);
        let u = actions(w, rest);
        assert(t == seq![pending(v.phase)] + u);
        assert forall|k: int| 1 <= k < t.len() implies t[k] == u[k - 1] by {}
    }
}

/// Forced termination only ever comes right after the interrupt and the
/// full grace pause: in every run of a fresh supervisor in which each event
/// answers the pending action, each `Kill` is preceded by `Interrupt` and
/// then `Pause { ms: GRACE_MS }`.
pub proof fn lemma_grace_before_kill(mode: Mode, events: Seq<Event>)
    requires
        well_driven(fresh(mode), events),
    ensures
        forall|k: int|
            0 <= k < actions(fresh(mode), events).len() && #[trigger] actions(fresh(mode), events)[k]
                == Action::Kill ==> kill_after_grace(actions(fresh(mode), events), k),
{
    lemma_kill_guarded(fresh(mode), events);
}

/// An event that reports no failure: no failed spawn, no failed exit and no
/// unreadable process state.
pub open spec fn clean_event(e: Event) -> bool {
    match e {
        Event::Spawned { ok } => ok,
        Event::Polled { exit, .. } => exit == ExitPoll::Running || exit == (ExitPoll::Exited {
            success: true,
        }),
        _ => true,
    }
}

proof fn lemma_clean_outcome(v: SupervisorModel, events: Seq<Event>)
    requires
        well_driven(v, events),
        events.len() > 0,
        v.mode == Mode::Unbounded,
        !v.failing,
        v.phase != Phase::Done,
        forall|i: int| 0 <= i < events.len() ==> clean_event(#[trigger] events[i]),
        after(v, events).phase == Phase::Done,
    ensures
        events.last() is Reaped,
        after(v, events).failure == (if reports_error(events.last()->Reaped_diagnostics@) {
            Some(JobErrorModel::ProcessFailed(events.last()->Reaped_diagnostics@))
        } else {
            None
        }),
    decreases events.len(),
{
    let w = next(v, events[0]);
    let rest = events.drop_first();
    assert(clean_event(events[0]));
    if events.len() == 1 {
        assert(rest.len() == 0);
        assert(after(w, rest) == w);
    } else {
        assert forall|i: int| 0 <= i < rest.len() implies clean_event(#[trigger] rest[i]) by {
            assert(rest[i] == events[i + 1]);
        }
        assert(well_driven(w, rest));
        assert(expects(w.phase, rest[0]));
        assert(w.phase != Phase::Done);
        lemma_clean_outcome(w, rest);
        assert(rest.last() == events.last());
    }
}

/// An unbounded job that starts, runs and ends without reporting a failure
/// on the way (whether it exited by itself, was stopped and interrupted, or
/// was killed) finishes with the reap as its last action, and succeeds
/// exactly when the diagnostics collected at the reap do not hold both
/// "Error" and "error"; otherwise it fails with those diagnostics.
pub proof fn lemma_unbounded_outcome(events: Seq<Event>)
    requires
        well_driven(fresh(Mode::Unbounded), events),
        forall|i: int| 0 <= i < events.len() ==> clean_event(#[trigger] events[i]),
        after(fresh(Mode::Unbounded), events).phase == Phase::Done,
    ensures
        events.len() > 0,
        events.last() is Reaped,
        after(fresh(Mode::Unbounded), events).failure == (if reports_error(
            events.last()->Reaped_diagnostics@,
        ) {
            Some(JobErrorModel::ProcessFailed(events.last()->Reaped_diagnostics@))
        } else {
            None
        }),
{
    assert(events.len() > 0);
    lemma_clean_outcome(fresh(Mode::Unbounded), events);
}

impl Supervisor {
    /// A supervisor for a job in `mode`, about to spawn it.
    pub fn new(mode: Mode) -> (r: Supervisor)
        ensures
            r@ == fresh(mode),
    {
        Supervisor { mode, phase: Phase::Launch, failing: false, failure: None }
    }

    /// The action pending now.
    pub fn action(&self) -> (a: Action)
        ensures
            a == pending(self.phase),
    {
        match self.phase {
            Phase::Launch => Action::Spawn,
            Phase::Watch => Action::Poll { after_ms: POLL_INTERVAL_MS },
            Phase::Interrupt => Action::Interrupt,
            Phase::Grace => Action::Pause { ms: GRACE_MS },
            Phase::Terminate => Action::Kill,
            Phase::Reap => Action::Reap,
            Phase::Done => Action::Finish,
        }
    }

    /// Takes in what the runner reports and names the next action.
    pub fn step(&mut self, event: Event) -> (a: Action)
        ensures
            final(self)@ == next(old(self)@, event),
            a == pending(final(self).phase),
    {
        match event {
            Event::Spawned { ok } => {
                if self.phase == Phase::Launch {
                    if !ok {
                        self.phase = Phase::Done;
                        self.failure = Some(JobError::SpawnFailed);
                    } else if self.mode == Mode::Bounded {
                        self.phase = Phase::Reap;
                    } else {
                        self.phase = Phase::Watch;
                    }
                }
            },
            Event::Polled { stop_requested, exit } => {
                if self.phase == Phase::Watch {
                    match exit {
                        ExitPoll::Exited { success } => {
                            if success {
                                self.phase = Phase::Interrupt;
                            } else {
                                self.phase = Phase::Reap;
                                self.failing = true;
                            }
                        },
                        ExitPoll::Unknown => {
                            self.phase = Phase::Interrupt;
                            self.failing = true;
                        },
                        ExitPoll::Running => {
                            if stop_requested {
                                self.phase = Phase::Interrupt;
                            }
                        },
                    }
                }
            },
            Event::Signalled => {
                if self.phase == Phase::Interrupt {
                    self.phase = Phase::Grace;
                }
            },
            Event::GraceElapsed => {
                if self.phase == Phase::Grace {
                    self.phase = Phase::Terminate;
                }
            },
            Event::Killed => {
                if self.phase == Phase::Terminate {
                    self.phase = Phase::Reap;
                }
            },
            Event::Reaped { success, diagnostics } => {
                if self.phase == Phase::Reap {
                    let failed = if self.failing {
                        true
                    } else if self.mode == Mode::Bounded {
                        !success
                    } else {
                        shows_error(diagnostics.as_str())
                    };
                    self.failure = if failed {
                        Some(JobError::ProcessFailed(diagnostics))
                    } else {
                        None
                    };
                    self.phase = Phase::Done;
                }
            },
        }
        self.action()
    }

    /// The outcome of the job, once the supervisor is done.
    pub fn outcome(&self) -> (r: Option<Result<(), JobError>>)
        ensures
            r is Some <==> self.phase == Phase::Done,
            r is Some ==> match r->0 {
                Ok(()) => self@.failure is None,
                Err(e) => self@.failure == Some(e@),
            },
    {
        if self.phase != Phase::Done {
            return None;
        }
        match &self.failure {
            None => Some(Ok(())),
            Some(e) => Some(Err(e.duplicate())),
        }
    }
}

} // verus!
