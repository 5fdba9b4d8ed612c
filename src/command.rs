//! Argument vectors for the encoder, the probe and the tool lookup.
use vstd::prelude::*;

verus! {

/// The operating system whose screen-grab source a capture uses.
#[derive(Clone, Copy, PartialEq, Eq, Structural, Debug)]
pub enum Platform {
    Windows,
    Linux,
    MacOs,
}

/// Encoder speed and quality of a capture.
#[derive(Clone, Copy, PartialEq, Eq, Structural, Debug)]
pub enum Preset {
    /// Medium speed, constant rate factor 23.
    Standard,
    /// Fastest speed, constant rate factor 28, for a short test.
    Quick,
}

/// The parameters of a capture job.
#[derive(Debug)]
pub struct CaptureParams {
    /// Where the recording goes.
    pub output: String,
    /// Duration limit in seconds; `0` runs until stopped.
    pub duration: u64,
    /// Frames per second.
    pub fps: u32,
    pub preset: Preset,
}

/// The character of decimal digit `d`.
pub open spec fn digit_char(d: nat) -> char {
    if d == 0 {
        '0'
    } else if d == 1 {
        '1'
    } else if d == 2 {
        '2'
    } else if d == 3 {
        '3'
    } else if d == 4 {
        '4'
    } else if d == 5 {
        '5'
    } else if d == 6 {
        '6'
    } else if d == 7 {
        '7'
    } else if d == 8 {
        '8'
    } else {
        '9'
    }
}

/// `n` written in decimal, without leading zeros.
pub open spec fn decimal(n: nat) -> Seq<char>
    decreases n,
{
    if n < 10 {
        seq![digit_char(n)]
    } else {
        decimal(n / 10).push(digit_char(n % 10))
    }
}

pub(crate) fn digit_text(d: u64) -> (r: &'static str)
    requires
        d < 10,
    ensures
        r@ == seq![digit_char(d as nat)],
{
    proof {
        reveal_strlit("0");
        reveal_strlit("1");
        reveal_strlit("2");
        reveal_strlit("3");
        reveal_strlit("4");
        reveal_strlit("5");
        reveal_strlit("6");
        reveal_strlit("7");
        reveal_strlit("8");
        reveal_strlit("9");
    }
    let r = if d == 0 {
        "0"
    } else if d == 1 {
        "1"
    } else if d == 2 {
        "2"
    } else if d == 3 {
        "3"
    } else if d == 4 {
        "4"
    } else if d == 5 {
        "5"
    } else if d == 6 {
        "6"
    } else if d == 7 {
        "7"
    } else if d == 8 {
        "8"
    } else {
        "9"
    };
    assert(r@ =~= seq![digit_char(d as nat)]);
    r
}

/// `n` written in decimal.
pub fn decimal_text(n: u64) -> (r: String)
    ensures
        r@ == decimal(n as nat),
    decreases n,
{
    if n < 10 {
        String::from_str(digit_text(n))
    } else {
        let mut s = decimal_text(n / 10);
        s.append(digit_text(n % 10));
        s
    }
}

/// The screen-grab input options of `platform` at `fps` frames per second.
pub open spec fn capture_source(platform: Platform, fps: nat) -> Seq<Seq<char>> {
    match platform {
        Platform::Windows => seq![
            "-f"@,
            "gdigrab"@,
            "-framerate"@,
            decimal(fps),
            "-i"@,
            "desktop"@,
        ],
        Platform::Linux => seq!["-f"@, "x11grab"@, "-framerate"@, decimal(fps), "-i"@, ":0.0"@],
        Platform::MacOs => seq![
            "-f"@,
            "avfoundation"@,
            "-framerate"@,
            decimal(fps),
            "-i"@,
            "1:none"@,
            "-pix_fmt"@,
            "uyvy422"@,
        ],
    }
}

/// The output encoding options of `preset`.
pub open spec fn encoder_options(preset: Preset) -> Seq<Seq<char>> {
    match preset {
        Preset::Standard => seq![
            "-c:v"@,
            "libx264"@,
            "-pix_fmt"@,
            "yuv420p"@,
            "-preset"@,
            "medium"@,
            "-crf"@,
            "23"@,
        ],
        Preset::Quick => seq![
            "-c:v"@,
            "libx264"@,
            "-pix_fmt"@,
            "yuv420p"@,
            "-preset"@,
            "ultrafast"@,
            "-crf"@,
            "28"@,
        ],
    }
}

/// The time-limit options of a job limited to `duration` seconds (none when
/// unbounded).
pub open spec fn limit_options(duration: nat) -> Seq<Seq<char>> {
    if duration > 0 {
        seq!["-t"@, decimal(duration)]
    } else {
        seq![]
    }
}

/// The encoder's arguments for a capture: overwrite, screen-grab source,
/// encoding options, time limit if any, output path.
pub open spec fn capture_args(
    output: Seq<char>,
    duration: nat,
    fps: nat,
    preset: Preset,
    platform: Platform,
) -> Seq<Seq<char>> {
    seq!["-y"@] + capture_source(platform, fps) + encoder_options(preset) + limit_options(duration)
        + seq![output]
}

/// The filter graph of a GIF conversion: 10 frames per second, 640 pixels
/// wide, with a palette computed from the video.
pub open spec fn gif_filter() -> Seq<char> {
    "fps=10,scale=640:-1:flags=lanczos,split[s0][s1];[s0]palettegen[p];[s1][p]paletteuse"@
}

/// The encoder's arguments for converting `input` into a looping GIF at `output`.
pub open spec fn gif_args(input: Seq<char>, output: Seq<char>) -> Seq<Seq<char>> {
    seq!["-i"@, input, "-vf"@, gif_filter(), "-loop"@, "0"@, output]
}

/// The probe's arguments for reading the duration of `path` as one bare value.
pub open spec fn probe_args(path: Seq<char>) -> Seq<Seq<char>> {
    seq![
        "-v"@,
        "error"@,
        "-show_entries"@,
        "format=duration"@,
        "-of"@,
        "default=noprint_wrappers=1:nokey=1"@,
        path,
    ]
}

/// The encoder's arguments that list the capture devices on macOS.
pub open spec fn device_listing_args() -> Seq<Seq<char>> {
    seq!["-f"@, "avfoundation"@, "-list_devices"@, "true"@, "-i"@, ""@]
}

fn push_text(v: &mut Vec<String>, s: &str)
    ensures
        final(v).deep_view() == old(v).deep_view().push(s@),
{
    v.push(String::from_str(s));
    assert(final(v).deep_view() =~= old(v).deep_view().push(s@));
}

fn push_string(v: &mut Vec<String>, s: String)
    ensures
        final(v).deep_view() == old(v).deep_view().push(s@),
{
    let ghost t = s@;
    v.push(s);
    assert(final(v).deep_view() =~= old(v).deep_view().push(t));
}

/// The program that captures and encodes.
pub fn encoder_program() -> (r: &'static str)
    ensures
        r@ == "ffmpeg"@,
{
    "ffmpeg"
}

/// The program that probes a media file.
pub fn probe_program() -> (r: &'static str)
    ensures
        r@ == "ffprobe"@,
{
    "ffprobe"
}

impl CaptureParams {
    /// The encoder's arguments for this capture on `platform`.
    pub fn args(&self, platform: Platform) -> (r: Vec<String>)
        ensures
            r.deep_view() == capture_args(
                self.output@,
                self.duration as nat,
                self.fps as nat,
                self.preset,
                platform,
            ),
    {
        let mut v: Vec<String> = Vec::new();
        push_text(&mut v, "-y");
        push_text(&mut v, "-f");
        match platform {
            Platform::Windows => push_text(&mut v, "gdigrab"),
            Platform::Linux => push_text(&mut v, "x11grab"),
            Platform::MacOs => push_text(&mut v, "avfoundation"),
        }
        push_text(&mut v, "-framerate");
        push_string(&mut v, decimal_text(self.fps as u64));
        push_text(&mut v, "-i");
        match platform {
            Platform::Windows => push_text(&mut v, "desktop"),
            Platform::Linux => push_text(&mut v, ":0.0"),
            Platform::MacOs => {
                push_text(&mut v, "1:none");
                push_text(&mut v, "-pix_fmt");
                push_text(&mut v, "uyvy422");
            },
        }
        push_text(&mut v, "-c:v");
        push_text(&mut v, "libx264");
        push_text(&mut v, "-pix_fmt");
        push_text(&mut v, "yuv420p");
        push_text(&mut v, "-preset");
        match self.preset {
            Preset::Standard => push_text(&mut v, "medium"),
            Preset::Quick => push_text(&mut v, "ultrafast"),
        }
        push_text(&mut v, "-crf");
        match self.preset {
            Preset::Standard => push_text(&mut v, "23"),
            Preset::Quick => push_text(&mut v, "28"),
        }
        if self.duration > 0 {
            push_text(&mut v, "-t");
            push_string(&mut v, decimal_text(self.duration));
        }
        push_string(&mut v, self.output.clone());
        assert(v.deep_view() =~= capture_args(
            self.output@,
            self.duration as nat,
            self.fps as nat,
            self.preset,
            platform,
        ));
        v
    }
}

/// The encoder's arguments for converting `input` into a GIF at `output`.
pub fn gif_conversion_args(input: &str, output: &str) -> (r: Vec<String>)
    ensures
        r.deep_view() == gif_args(input@, output@),
{
    let mut v: Vec<String> = Vec::new();
    push_text(&mut v, "-i");
    push_text(&mut v, input);
    push_text(&mut v, "-vf");
    push_text(
        &mut v,
        "fps=10,scale=640:-1:flags=lanczos,split[s0][s1];[s0]palettegen[p];[s1][p]paletteuse",
    );
    push_text(&mut v, "-loop");
    push_text(&mut v, "0");
    push_text(&mut v, output);
    assert(v.deep_view() =~= gif_args(input@, output@));
    v
}

/// The encoder's arguments that list the capture devices on macOS.
pub fn device_list_args() -> (r: Vec<String>)
    ensures
        r.deep_view() == device_listing_args(),
{
    let mut v: Vec<String> = Vec::new();
    push_text(&mut v, "-f");
    push_text(&mut v, "avfoundation");
    push_text(&mut v, "-list_devices");
    push_text(&mut v, "true");
    push_text(&mut v, "-i");
    push_text(&mut v, "");
    assert(v.deep_view() =~= device_listing_args());
    v
}

/// The probe's arguments for reading the duration of the file at `path`.
pub fn duration_probe_args(path: &str) -> (r: Vec<String>)
    ensures
        r.deep_view() == probe_args(path@),
{
    let mut v: Vec<String> = Vec::new();
    push_text(&mut v, "-v");
    push_text(&mut v, "error");
    push_text(&mut v, "-show_entries");
    push_text(&mut v, "format=duration");
    push_text(&mut v, "-of");
    push_text(&mut v, "default=noprint_wrappers=1:nokey=1");
    push_text(&mut v, path);
    assert(v.deep_view() =~= probe_args(path@));
    v
}

/// The program that resolves a command name on `platform`'s search path.
pub fn lookup_program(platform: Platform) -> (r: &'static str)
    ensures
        r@ == (if platform == Platform::Windows {
            "where"@
        } else {
            "which"@
        }),
{
    match platform {
        Platform::Windows => "where",
        _ => "which",
    }
}

} // verus!
