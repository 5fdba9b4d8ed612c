use rcrdr::artifact::ArtifactProblem;
use rcrdr::command::{CaptureParams, Platform, Preset};
use rcrdr::job::{gif_path_for, JobFailure, JobMachine, JobState};
use rcrdr::supervisor::{Action, Event, JobError, Mode, Supervisor};

fn params(output: &str, duration: u64) -> CaptureParams {
    CaptureParams { output: output.to_string(), duration, fps: 30, preset: Preset::Standard }
}

#[test]
fn bounded_job_reaches_completed() {
    let mut job = JobMachine::new(true, Platform::Linux);
    assert!(job.start_job(&params("/tmp/rec/clip.mp4", 3)));
    assert_eq!(job.state, JobState::Starting);
    assert_eq!(job.mode, Mode::Bounded);
    let mut sup = Supervisor::new(job.mode);
    assert_eq!(sup.action(), Action::Spawn);
    assert_eq!(sup.step(Event::Spawned { ok: true }), Action::Reap);
    job.spawned(true);
    assert_eq!(job.state, JobState::Running);
    assert!(!job.request_stop());
    assert_eq!(sup.step(Event::Reaped { success: true, diagnostics: String::new() }), Action::Finish);
    job.process_ended(&sup.outcome().unwrap());
    assert_eq!(job.state, JobState::Verifying);
    job.verified(Ok(()));
    assert_eq!(job.state, JobState::Completed);
    assert!(matches!(job.is_terminal(), Some(Ok(()))));
    assert_eq!(job.suggested_input, "/tmp/rec/clip.mp4");
    assert_eq!(job.suggested_gif, "/tmp/rec/clip.gif");
}

#[test]
fn tool_unavailable_never_spawns() {
    let mut job = JobMachine::new(false, Platform::Linux);
    assert!(!job.start_job(&params("a.mp4", 0)));
    assert_eq!(job.state, JobState::Failed);
    assert!(matches!(job.is_terminal(), Some(Err(JobFailure::ToolUnavailable))));
    assert!(!job.start_job(&params("b.mp4", 3)));
    assert!(matches!(job.failure, Some(JobFailure::ToolUnavailable)));
}

#[test]
fn unbounded_stop_goes_through_stopping() {
    let mut job = JobMachine::new(true, Platform::Linux);
    assert!(job.start_job(&params("x.mp4", 0)));
    job.spawned(true);
    assert_eq!(job.state, JobState::Running);
    assert!(job.request_stop());
    assert!(job.stop_requested);
    assert_eq!(job.state, JobState::Stopping);
    assert!(!job.request_stop());
    assert!(job.stop_requested);
    job.process_ended(&Ok(()));
    assert_eq!(job.state, JobState::Verifying);
    assert!(job.stop_requested);
    job.verified(Err(ArtifactProblem::Empty));
    assert_eq!(job.state, JobState::Failed);
    assert_eq!(job.suggested_input, "");
    assert_eq!(job.suggested_gif, "");
    assert!(matches!(
        job.is_terminal(),
        Some(Err(JobFailure::VerificationFailed(ArtifactProblem::Empty)))
    ));
}

#[test]
fn process_failure_is_recorded() {
    let mut job = JobMachine::new(true, Platform::Linux);
    job.start_job(&params("x.mp4", 5));
    job.spawned(true);
    job.process_ended(&Err(JobError::ProcessFailed("boom".to_string())));
    assert_eq!(job.state, JobState::Failed);
    match job.is_terminal() {
        Some(Err(JobFailure::ProcessFailed(d))) => assert_eq!(d, "boom"),
        other => panic!("unexpected outcome {:?}", other),
    }
}

#[test]
fn spawn_failure_is_recorded() {
    let mut job = JobMachine::new(true, Platform::Linux);
    job.start_job(&params("x.mp4", 5));
    job.spawned(false);
    assert!(matches!(job.is_terminal(), Some(Err(JobFailure::SpawnFailed))));
}

#[test]
fn new_job_only_from_rest() {
    let mut job = JobMachine::new(true, Platform::Linux);
    assert!(job.is_terminal().is_none());
    assert!(job.start_job(&params("x.mp4", 0)));
    assert!(!job.start_job(&params("y.mp4", 0)));
    assert_eq!(job.output, "x.mp4");
    job.spawned(true);
    job.request_stop();
    job.process_ended(&Ok(()));
    job.verified(Ok(()));
    assert!(job.start_job(&params("y.mp4", 0)));
    assert!(!job.stop_requested);
    assert_eq!(job.output, "y.mp4");
}

#[test]
fn gif_path_suggestions() {
    let l = Platform::Linux;
    let w = Platform::Windows;
    assert_eq!(gif_path_for("clip.mp4", l).as_deref(), Some("clip.gif"));
    assert_eq!(gif_path_for("/a/b.c/clip", l).as_deref(), Some("/a/b.c/clip.gif"));
    assert_eq!(gif_path_for("dir/archive.tar.mkv", l).as_deref(), Some("dir/archive.tar.gif"));
    assert_eq!(gif_path_for("C:\\video\\x.mov", w).as_deref(), Some("C:\\video\\x.gif"));
    assert_eq!(gif_path_for("a.b\\x", l).as_deref(), Some("a.gif"));
    assert_eq!(gif_path_for("a.b\\x", w).as_deref(), Some("a.b\\x.gif"));
    assert_eq!(gif_path_for(".hidden", l).as_deref(), Some(".hidden.gif"));
    assert_eq!(gif_path_for("dir/", l).as_deref(), Some("dir.gif"));
    assert_eq!(gif_path_for("/a/b.mp4//", l).as_deref(), Some("/a/b.gif"));
    assert_eq!(gif_path_for("a/..", l).as_deref(), None);
    assert_eq!(gif_path_for(".", l).as_deref(), None);
    assert_eq!(gif_path_for("/", l).as_deref(), None);
    assert_eq!(gif_path_for("", l).as_deref(), None);
}
