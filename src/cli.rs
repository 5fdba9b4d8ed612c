//! The command-line interface's commands, and the jobs they ask for.
use vstd::prelude::*;
use crate::command::{CaptureParams, Preset};

verus! {

/// Length of a test recording, in seconds.
pub const TEST_SECONDS: u64 = 3;

/// Frame rate of a test recording.
pub const TEST_FPS: u32 = 30;

/// The parsed command line: a command, or none to open the window.
#[derive(Debug)]
pub struct Cli {
    pub command: Option<Commands>,
}

/// The commands of the command-line interface.
#[derive(Debug)]
pub enum Commands {
    /// Record the screen to a video file; a duration of `0` records until
    /// interrupted.
    Record { output: String, duration: u64, fps: u32 },
    /// Convert a video to a GIF.
    ConvertToGif { input: String, output: String },
    /// Record a short test video to check that capture works.
    Test { output: String },
}

/// The capture that a test recording to `output` makes: a few seconds at a
/// fixed frame rate, with the quick preset.
pub open spec fn is_test_capture(p: CaptureParams, output: Seq<char>) -> bool {
    p.output@ == output && p.duration == TEST_SECONDS && p.fps == TEST_FPS && p.preset
        == Preset::Quick
}

/// The capture that a test recording to `output` makes.
pub fn test_capture(output: &str) -> (r: CaptureParams)
    ensures
        is_test_capture(r, output@),
{
    CaptureParams {
        output: String::from_str(output),
        duration: TEST_SECONDS,
        fps: TEST_FPS,
        preset: Preset::Quick,
    }
}

impl Commands {
    /// The capture that this command asks for; a conversion asks for none.
    pub fn capture(&self) -> (r: Option<CaptureParams>)
        ensures
            match self {
                Commands::Record { output, duration, fps } => r is Some && r->0.output@ == output@
                    && r->0.duration == *duration && r->0.fps == *fps && r->0.preset
                    == Preset::Standard,
                Commands::ConvertToGif { .. } => r is None,
                Commands::Test { output } => r is Some && is_test_capture(r->0, output@),
            },
    {
        match self {
            Commands::Record { output, duration, fps } => Some(
                CaptureParams {
                    output: output.clone(),
                    duration: *duration,
                    fps: *fps,
                    preset: Preset::Standard,
                },
            ),
            Commands::ConvertToGif { .. } => None,
            Commands::Test { output } => Some(test_capture(output.as_str())),
        }
    }
}

} // verus!
