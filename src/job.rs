//! The lifecycle of one job as the controller sees it:
//! `Idle -> Starting -> Running -> Stopping -> Verifying -> Completed | Failed`.
use vstd::prelude::*;
use crate::artifact::ArtifactProblem;
use crate::command::{CaptureParams, Platform};
use crate::supervisor::{mode_for, mode_of, JobError, Mode};
use crate::text::chars_of;

verus! {

/// The state of a job.
#[derive(Clone, Copy, PartialEq, Eq, Structural, Debug)]
pub enum JobState {
    Idle,
    Starting,
    Running,
    Stopping,
    Verifying,
    Completed,
    Failed,
}

/// Why a job failed.
#[derive(Debug)]
pub enum JobFailure {
    /// The encoder is not on the search path; no job can start.
    ToolUnavailable,
    /// The process could not be started.
    SpawnFailed,
    /// The process failed; its diagnostics are attached.
    ProcessFailed(String),
    /// The process reported success but its artifact is unusable.
    VerificationFailed(ArtifactProblem),
}

/// The model of a `JobFailure`.
pub enum JobFailureModel {
    ToolUnavailable,
    SpawnFailed,
    ProcessFailed(Seq<char>),
    VerificationFailed(ArtifactProblem),
}

impl View for JobFailure {
    type V = JobFailureModel;

    open spec fn view(&self) -> JobFailureModel {
        match self {
            JobFailure::ToolUnavailable => JobFailureModel::ToolUnavailable,
            JobFailure::SpawnFailed => JobFailureModel::SpawnFailed,
            JobFailure::ProcessFailed(s) => JobFailureModel::ProcessFailed(s@),
            JobFailure::VerificationFailed(p) => JobFailureModel::VerificationFailed(*p),
        }
    }
}

impl JobFailure {
    /// A copy of this failure.
    pub fn duplicate(&self) -> (r: JobFailure)
        ensures
            r@ == self@,
    {
        match self {
            JobFailure::ToolUnavailable => JobFailure::ToolUnavailable,
            JobFailure::SpawnFailed => JobFailure::SpawnFailed,
            JobFailure::ProcessFailed(s) => JobFailure::ProcessFailed(s.clone()),
            JobFailure::VerificationFailed(p) => JobFailure::VerificationFailed(*p),
        }
    }
}

/// A path separator on `platform`: `/`, and `\\` as well on Windows.
pub open spec fn is_separator(c: char, platform: Platform) -> bool {
    c == '/' || (platform == Platform::Windows && c == '\\')
}

/// `s[..j]` without its trailing separators: the index where they start.
pub open spec fn name_end(s: Seq<char>, j: int, platform: Platform) -> int
    decreases j,
{
    if 0 < j <= s.len() && is_separator(s[j - 1], platform) {
        name_end(s, j - 1, platform)
    } else {
        j
    }
}

/// Index just past the last separator of `s[..j]`, `0` when there is none.
pub open spec fn name_start(s: Seq<char>, j: int, platform: Platform) -> int
    decreases j,
{
    if j <= 0 || j > s.len() {
        0
    } else if is_separator(s[j - 1], platform) {
        j
    } else {
        name_start(s, j - 1, platform)
    }
}

/// Index of the last `.` of `s[..j]` that lies after index `lo`, `-1` when
/// there is none.
pub open spec fn last_dot(s: Seq<char>, lo: int, j: int) -> int
    decreases j - lo,
{
    if j <= lo + 1 || j > s.len() {
        -1
    } else if s[j - 1] == '.' {
        j - 1
    } else {
        last_dot(s, lo, j - 1)
    }
}

/// `.` or `..`, which name no file.
pub open spec fn is_dot_name(n: Seq<char>) -> bool {
    (n.len() == 1 && n[0] == '.') || (n.len() == 2 && n[0] == '.' && n[1] == '.')
}

/// The GIF path suggested for a video at `path` on `platform`: trailing
/// separators dropped, then the extension of the file name replaced by
/// `.gif` (appended when it has none; a leading dot of the file name is no
/// extension). `None` when the path names no file (empty, only separators,
/// or ending in `.` or `..`).
pub open spec fn gif_path(path: Seq<char>, platform: Platform) -> Option<Seq<char>> {
    let end = name_end(path, path.len() as int, platform);
    let base = name_start(path, end, platform);
    let dot = last_dot(path, base, end);
    if base == end || is_dot_name(path.subrange(base, end)) {
        None
    } else if dot >= 0 {
        Some(path.subrange(0, dot) + ".gif"@)
    } else {
        Some(path.subrange(0, end) + ".gif"@)
    }
}

/// The GIF path suggested for converting the video at `path`.
pub fn gif_path_for(path: &str, platform: Platform) -> (r: Option<String>)
    ensures
        r is Some <==> gif_path(path@, platform) is Some,
        r is Some ==> r->0@ == gif_path(path@, platform)->0,
{
    let cs = chars_of(path);
    let n = cs.len();
    let windows = platform == Platform::Windows;
    let mut end: usize = n;
    while end > 0 && (cs[end - 1] == '/' || (windows && cs[end - 1] == '\\'))
        invariant
            end <= n == cs@.len(),
            windows == (platform == Platform::Windows),
            name_end(cs@, n as int, platform) == name_end(cs@, end as int, platform),
        decreases end,
    {
        end -= 1;
    }
    let mut base: usize = end;
    while base > 0 && !(cs[base - 1] == '/' || (windows && cs[base - 1] == '\\'))
        invariant
            base <= end <= n == cs@.len(),
            windows == (platform == Platform::Windows),
            name_end(cs@, n as int, platform) == end,
            name_start(cs@, end as int, platform) == name_start(cs@, base as int, platform),
        decreases base,
    {
        base -= 1;
    }
    assert(base == end ==> name_start(cs@, end as int, platform) == end);
    if base == end {
        return None;
    }
    if (end - base == 1 && cs[base] == '.') || (end - base == 2 && cs[base] == '.' && cs[base + 1]
        == '.') {
        return None;
    }
    let mut j: usize = end;
    while j > base + 1 && cs[j - 1] != '.'
        invariant
            base < end <= n == cs@.len(),
            base < j <= end,
            last_dot(cs@, base as int, end as int) == last_dot(cs@, base as int, j as int),
        decreases j,
    {
        j -= 1;
    }
    let mut out: String;
    if j > base + 1 {
        out = String::from_str(path.substring_char(0, j - 1));
    } else {
        out = String::from_str(path.substring_char(0, end));
    }
    out.append(".gif");
    Some(out)
}

/// One job as the controller tracks it.
pub struct JobMachine {
    pub state: JobState,
    pub mode: Mode,
    /// The one-shot stop signal of an unbounded job.
    pub stop_requested: bool,
    /// Whether the encoder was found when the session began.
    pub tool_available: bool,
    /// The platform whose path separators the suggestions follow.
    pub platform: Platform,
    /// The output path of the current job.
    pub output: String,
    pub failure: Option<JobFailure>,
    /// After a completed job: the video to convert next.
    pub suggested_input: String,
    /// After a completed job: where its conversion would go.
    pub suggested_gif: String,
}

pub open spec fn failure_view(f: Option<JobFailure>) -> Option<JobFailureModel> {
    match f {
        Some(e) => Some(e@),
        None => None,
    }
}

/// A job may start from these states.
pub open spec fn may_start(s: JobState) -> bool {
    s == JobState::Idle || s == JobState::Completed || s == JobState::Failed
}

impl JobMachine {
    /// A failed job has its reason; only an unbounded job has a stop signal
    /// set.
    pub open spec fn wf(&self) -> bool {
        &&& self.state == JobState::Failed ==> self.failure is Some
        &&& self.stop_requested ==> self.mode == Mode::Unbounded
    }

    /// A session, with the availability of the encoder found at its start.
    pub fn new(tool_available: bool, platform: Platform) -> (r: JobMachine)
        ensures
            r.wf(),
            r.state == JobState::Idle,
            r.tool_available == tool_available,
            r.platform == platform,
            !r.stop_requested,
            r.failure is None,
            r.output@ == Seq::<char>::empty(),
    {
        JobMachine {
            state: JobState::Idle,
            mode: Mode::Bounded,
            stop_requested: false,
            tool_available,
            platform,
            output: String::new(),
            failure: None,
            suggested_input: String::new(),
            suggested_gif: String::new(),
        }
    }

    /// Requests a job. Returns whether the process is to be spawned: only
    /// from `Idle`, `Completed` or `Failed`, and only when the encoder is
    /// available; otherwise the job fails at once with `ToolUnavailable`.
    /// From any other state nothing changes.
    pub fn start_job(&mut self, params: &CaptureParams) -> (spawn: bool)
        requires
            old(self).wf(),
        ensures
            final(self).wf(),
            spawn <==> may_start(old(self).state) && old(self).tool_available,
            !may_start(old(self).state) ==> *final(self) == *old(self),
            may_start(old(self).state) && !old(self).tool_available ==> final(self).state
                == JobState::Failed && failure_view(final(self).failure) == Some(
                JobFailureModel::ToolUnavailable,
            ) && !final(self).stop_requested,
            spawn ==> final(self).state == JobState::Starting && final(self).mode == mode_of(
                params.duration,
            ) && final(self).output@ == params.output@ && final(self).failure is None
                && !final(self).stop_requested,
            final(self).tool_available == old(self).tool_available,
            final(self).platform == old(self).platform,
            final(self).suggested_input == old(self).suggested_input,
            final(self).suggested_gif == old(self).suggested_gif,
    {
        if !(self.state == JobState::Idle || self.state == JobState::Completed || self.state
            == JobState::Failed) {
            return false;
        }
        self.stop_requested = false;
        if !self.tool_available {
            self.state = JobState::Failed;
            self.failure = Some(JobFailure::ToolUnavailable);
            return false;
        }
        self.state = JobState::Starting;
        self.mode = mode_for(params.duration);
        self.output = params.output.clone();
        self.failure = None;
        true
    }

    /// The runner reports whether the process started: `Starting` moves to
    /// `Running`, or to `Failed` with `SpawnFailed`.
    pub fn spawned(&mut self, ok: bool)
        requires
            old(self).wf(),
        ensures
            final(self).wf(),
            old(self).state != JobState::Starting ==> *final(self) == *old(self),
            old(self).state == JobState::Starting && ok ==> final(self).state == JobState::Running
                && final(self).failure == old(self).failure,
            old(self).state == JobState::Starting && !ok ==> final(self).state == JobState::Failed
                && failure_view(final(self).failure) == Some(JobFailureModel::SpawnFailed),
            final(self).stop_requested == old(self).stop_requested,
            final(self).mode == old(self).mode,
            final(self).output == old(self).output,
            final(self).tool_available == old(self).tool_available,
            final(self).platform == old(self).platform,
    {
        if self.state == JobState::Starting {
            if ok {
                self.state = JobState::Running;
            } else {
                self.state = JobState::Failed;
                self.failure = Some(JobFailure::SpawnFailed);
            }
        }
    }

    /// Asks a running unbounded job to stop: sets the stop signal (once) and
    /// moves to `Stopping`. Returns whether it did; a bounded job has no
    /// manual stop.
    pub fn request_stop(&mut self) -> (r: bool)
        requires
            old(self).wf(),
        ensures
            final(self).wf(),
            r <==> old(self).state == JobState::Running && old(self).mode == Mode::Unbounded,
            r ==> final(self).state == JobState::Stopping && final(self).stop_requested,
            !r ==> *final(self) == *old(self),
            final(self).mode == old(self).mode,
            final(self).output == old(self).output,
            final(self).failure == old(self).failure,
            final(self).tool_available == old(self).tool_available,
            final(self).platform == old(self).platform,
    {
        if self.state == JobState::Running && self.mode == Mode::Unbounded {
            self.stop_requested = true;
            self.state = JobState::Stopping;
            true
        } else {
            false
        }
    }

    /// The runner reports how the supervised process ended: from `Running`
    /// or `Stopping`, success moves to `Verifying`, a failure to `Failed`
    /// with the same reason.
    pub fn process_ended(&mut self, result: &Result<(), JobError>)
        requires
            old(self).wf(),
        ensures
            final(self).wf(),
            !(old(self).state == JobState::Running || old(self).state == JobState::Stopping)
                ==> *final(self) == *old(self),
            (old(self).state == JobState::Running || old(self).state == JobState::Stopping)
                ==> match result {
                Ok(()) => final(self).state == JobState::Verifying && final(self).failure
                    == old(self).failure,
                Err(JobError::SpawnFailed) => final(self).state == JobState::Failed && failure_view(
                    final(self).failure,
                ) == Some(JobFailureModel::SpawnFailed),
                Err(JobError::ProcessFailed(d)) => final(self).state == JobState::Failed
                    && failure_view(final(self).failure) == Some(
                    JobFailureModel::ProcessFailed(d@),
                ),
            },
            final(self).stop_requested == old(self).stop_requested,
            final(self).mode == old(self).mode,
            final(self).output == old(self).output,
            final(self).tool_available == old(self).tool_available,
            final(self).platform == old(self).platform,
    {
        if self.state == JobState::Running || self.state == JobState::Stopping {
            match result {
                Ok(()) => {
                    self.state = JobState::Verifying;
                },
                Err(JobError::SpawnFailed) => {
                    self.state = JobState::Failed;
                    self.failure = Some(JobFailure::SpawnFailed);
                },
                Err(JobError::ProcessFailed(d)) => {
                    self.state = JobState::Failed;
                    self.failure = Some(JobFailure::ProcessFailed(d.clone()));
                },
            }
        }
    }

    /// The result of checking the artifact: `Verifying` moves to
    /// `Completed`, which suggests converting the new video next, or to
    /// `Failed` with `VerificationFailed`.
    pub fn verified(&mut self, check: Result<(), ArtifactProblem>)
        requires
            old(self).wf(),
        ensures
            final(self).wf(),
            old(self).state != JobState::Verifying ==> *final(self) == *old(self),
            old(self).state == JobState::Verifying ==> match check {
                Ok(()) => {
                    &&& final(self).state == JobState::Completed
                    &&& final(self).failure == old(self).failure
                    &&& final(self).suggested_input@ == old(self).output@
                    &&& gif_path(old(self).output@, old(self).platform) is Some
                        ==> final(self).suggested_gif@ == gif_path(
                        old(self).output@,
                        old(self).platform,
                    )->0
                    &&& gif_path(old(self).output@, old(self).platform) is None
                        ==> final(self).suggested_gif == old(self).suggested_gif
                },
                Err(p) => {
                    &&& final(self).state == JobState::Failed
                    &&& failure_view(final(self).failure) == Some(
                        JobFailureModel::VerificationFailed(p),
                    )
                    &&& final(self).suggested_input == old(self).suggested_input
                    &&& final(self).suggested_gif == old(self).suggested_gif
                },
            },
            final(self).stop_requested == old(self).stop_requested,
            final(self).mode == old(self).mode,
            final(self).output == old(self).output,
            final(self).tool_available == old(self).tool_available,
            final(self).platform == old(self).platform,
    {
        if self.state == JobState::Verifying {
            match check {
                Ok(()) => {
                    self.state = JobState::Completed;
                    self.suggested_input = self.output.clone();
                    if let Some(g) = gif_path_for(self.output.as_str(), self.platform) {
                        self.suggested_gif = g;
                    }
                },
                Err(p) => {
                    self.state = JobState::Failed;
                    self.failure = Some(JobFailure::VerificationFailed(p));
                },
            }
        }
    }

    /// The outcome once the job is in a terminal state, `None` before.
    pub fn is_terminal(&self) -> (r: Option<Result<(), JobFailure>>)
        requires
            self.wf(),
        ensures
            r is Some <==> self.state == JobState::Completed || self.state == JobState::Failed,
            self.state == JobState::Completed ==> r == Some(Ok::<(), JobFailure>(())),
            self.state == JobState::Failed ==> r is Some && r->0 is Err && Some(r->0->Err_0@)
                == failure_view(self.failure),
    {
        if self.state == JobState::Completed {
            Some(Ok(()))
        } else if self.state == JobState::Failed {
            match &self.failure {
                Some(f) => Some(Err(f.duplicate())),
                None => None,
            }
        } else {
            None
        }
    }
}

} // verus!
