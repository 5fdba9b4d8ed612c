//! What the window keeps between frames: its screen, the default file name,
//! the log tail it shows and the installation hint.
use vstd::prelude::*;
use crate::command::{decimal, decimal_text, digit_char, digit_text};

verus! {

/// The screen the window shows.
#[derive(Clone, Copy, PartialEq, Eq, Structural, Debug)]
pub enum AppState {
    /// The encoder is missing: installation help.
    Setup,
    Main,
    Recording,
    Converting,
    Testing,
}

impl AppState {
    /// The first screen: the main one when the encoder is available, else setup.
    pub fn initial(encoder_available: bool) -> (r: AppState)
        ensures
            r == (if encoder_available {
                AppState::Main
            } else {
                AppState::Setup
            }),
    {
        if encoder_available {
            AppState::Main
        } else {
            AppState::Setup
        }
    }

    /// Whether a job runs behind this screen, so that it must keep redrawing.
    pub fn is_active(&self) -> (r: bool)
        ensures
            r <==> (*self == AppState::Recording || *self == AppState::Converting || *self
                == AppState::Testing),
    {
        match self {
            AppState::Recording | AppState::Converting | AppState::Testing => true,
            _ => false,
        }
    }
}

/// The last `n` lines of `logs` (all of them when there are fewer), oldest first.
pub fn tail_lines(logs: &Vec<String>, n: usize) -> (r: Vec<String>)
    ensures
        r.deep_view() == logs.deep_view().subrange(
            if logs.len() > n {
                logs.len() - n
            } else {
                0
            },
            logs.len() as int,
        ),
{
    let start: usize = if logs.len() > n {
        logs.len() - n
    } else {
        0
    };
    let mut r: Vec<String> = Vec::new();
    let mut i: usize = start;
    while i < logs.len()
        invariant
            start <= i <= logs.len(),
            r.deep_view() == logs.deep_view().subrange(start as int, i as int),
        decreases logs.len() - i,
    {
        let line = logs[i].clone();
        let ghost before = r.deep_view();
        r.push(line);
        assert(r.deep_view() =~= before.push(logs.deep_view()[i as int]));
        i += 1;
        assert(r.deep_view() =~= logs.deep_view().subrange(start as int, i as int));
    }
    r
}

/// A package manager that can install the encoder on Linux.
#[derive(Clone, Copy, PartialEq, Eq, Structural, Debug)]
pub enum PackageManager {
    Apt,
    Dnf,
    Pacman,
}

/// The first of apt, dnf and pacman that is available, in that order.
pub fn detect_package_manager(apt: bool, dnf: bool, pacman: bool) -> (r: Option<PackageManager>)
    ensures
        r == (if apt {
            Some(PackageManager::Apt)
        } else if dnf {
            Some(PackageManager::Dnf)
        } else if pacman {
            Some(PackageManager::Pacman)
        } else {
            None
        }),
{
    if apt {
        Some(PackageManager::Apt)
    } else if dnf {
        Some(PackageManager::Dnf)
    } else if pacman {
        Some(PackageManager::Pacman)
    } else {
        None
    }
}

impl PackageManager {
    /// The command name of this package manager.
    pub fn name(&self) -> (r: &'static str)
        ensures
            r@ == match self {
                PackageManager::Apt => "apt"@,
                PackageManager::Dnf => "dnf"@,
                PackageManager::Pacman => "pacman"@,
            },
    {
        match self {
            PackageManager::Apt => "apt",
            PackageManager::Dnf => "dnf",
            PackageManager::Pacman => "pacman",
        }
    }

    /// The shell command that installs the encoder with this package manager.
    pub fn install_command(&self) -> (r: &'static str)
        ensures
            r@ == match self {
                PackageManager::Apt => "sudo apt update && sudo apt install -y ffmpeg"@,
                PackageManager::Dnf => "sudo dnf install -y ffmpeg"@,
                PackageManager::Pacman => "sudo pacman -S --noconfirm ffmpeg"@,
            },
    {
        match self {
            PackageManager::Apt => "sudo apt update && sudo apt install -y ffmpeg",
            PackageManager::Dnf => "sudo dnf install -y ffmpeg",
            PackageManager::Pacman => "sudo pacman -S --noconfirm ffmpeg",
        }
    }
}

/// A local date and time as plain numbers.
#[derive(Clone, Copy, PartialEq, Eq, Structural, Debug)]
pub struct LocalTime {
    pub year: i32,
    pub month: u32,
    pub day: u32,
    pub hour: u32,
    pub minute: u32,
    pub second: u32,
}

impl LocalTime {
    /// Each field lies in its calendar range.
    pub open spec fn valid(&self) -> bool {
        &&& 1 <= self.month <= 12
        &&& 1 <= self.day <= 31
        &&& self.hour <= 23
        &&& self.minute <= 59
        &&& self.second <= 59
    }
}

/// Relies on chrono's `Local::now` and the `Datelike` / `Timelike` getters,
/// which chrono documents as month 1 to 12, day 1 to 31, hour 0 to 23,
/// minute 0 to 59 and second 0 to 59.
#[verifier::external_body]
fn local_now() -> (r: LocalTime)
    ensures
        r.valid(),
{
    let now = chrono::Local::now();
    LocalTime {
        year: chrono::Datelike::year(&now),
        month: chrono::Datelike::month(&now),
        day: chrono::Datelike::day(&now),
        hour: chrono::Timelike::hour(&now),
        minute: chrono::Timelike::minute(&now),
        second: chrono::Timelike::second(&now),
    }
}

/// `s` with zeros in front up to `width` characters.
pub open spec fn zero_padded(s: Seq<char>, width: nat) -> Seq<char> {
    if s.len() >= width {
        s
    } else {
        Seq::new((width - s.len()) as nat, |i: int| '0') + s
    }
}

/// A year as four digits; outside `0..=9999` with a sign and at least four digits.
pub open spec fn year_text(y: int) -> Seq<char> {
    if 0 <= y <= 9999 {
        zero_padded(decimal(y as nat), 4)
    } else if y < 0 {
        seq!['-'] + zero_padded(decimal((-y) as nat), 4)
    } else {
        seq!['+'] + zero_padded(decimal(y as nat), 4)
    }
}

/// Two digits of `n < 100`.
pub open spec fn two_digits(n: nat) -> Seq<char> {
    seq![digit_char(n / 10), digit_char(n % 10)]
}

/// The stamp `YYYYMMDD_HHMMSS` of `t`.
pub open spec fn stamp(t: LocalTime) -> Seq<char> {
    year_text(t.year as int) + two_digits(t.month as nat) + two_digits(t.day as nat) + seq!['_']
        + two_digits(t.hour as nat) + two_digits(t.minute as nat) + two_digits(t.second as nat)
}

/// The default name of a recording made at `t`.
pub open spec fn recording_name(t: LocalTime) -> Seq<char> {
    "recording_"@ + stamp(t) + ".mp4"@
}

fn append_padded(s: &mut String, n: u64, width: usize)
    ensures
        final(s)@ == old(s)@ + zero_padded(decimal(n as nat), width as nat),
{
    let d = decimal_text(n);
    let len = d.as_str().unicode_len();
    let mut k: usize = len;
    let ghost start = s@;
    while k < width
        invariant
            len == decimal(n as nat).len(),
            len <= k <= width || (len > width && k == len),
            s@ == start + Seq::new((k - len) as nat, |i: int| '0'),
        decreases width - k,
    {
        proof { reveal_strlit("0"); }
        assert("0"@ =~= seq!['0']);
        s.append("0");
        k += 1;
        assert(s@ =~= start + Seq::new((k - len) as nat, |i: int| '0'));
    }
    s.append(d.as_str());
    if len >= width {
        assert(s@ =~= start + decimal(n as nat));
    } else {
        assert(s@ =~= start + (Seq::new((width - len) as nat, |i: int| '0') + decimal(n as nat)));
    }
}

/// Elapsed seconds as `HH:MM:SS` (hours take more digits past 99).
pub open spec fn clock(secs: nat) -> Seq<char> {
    zero_padded(decimal(secs / 3600), 2) + seq![':'] + two_digits((secs % 3600) / 60) + seq![':']
        + two_digits(secs % 60)
}

/// Elapsed seconds as `HH:MM:SS`.
pub fn clock_text(secs: u64) -> (r: String)
    ensures
        r@ == clock(secs as nat),
{
    proof { reveal_strlit(":"); }
    let mut s = String::new();
    append_padded(&mut s, secs / 3600, 2);
    s.append(":");
    append_two_digits(&mut s, ((secs % 3600) / 60) as u32);
    s.append(":");
    append_two_digits(&mut s, (secs % 60) as u32);
    assert(s@ =~= clock(secs as nat));
    s
}

fn append_two_digits(s: &mut String, n: u32)
    requires
        n < 100,
    ensures
        final(s)@ == old(s)@ + two_digits(n as nat),
{
    s.append(digit_text((n / 10) as u64));
    s.append(digit_text((n % 10) as u64));
    assert(final(s)@ =~= old(s)@ + two_digits(n as nat));
}

/// The default name of a recording made at `t`.
pub fn recording_name_at(t: &LocalTime) -> (r: String)
    requires
        t.valid(),
    ensures
        r@ == recording_name(*t),
{
    proof {
        reveal_strlit("recording_");
        reveal_strlit(".mp4");
        reveal_strlit("-");
        reveal_strlit("+");
        reveal_strlit("_");
    }
    let mut s = String::from_str("recording_");
    if t.year < 0 {
        s.append("-");
        append_padded(&mut s, (-(t.year as i64)) as u64, 4);
    } else if t.year > 9999 {
        s.append("+");
        append_padded(&mut s, t.year as u64, 4);
    } else {
        append_padded(&mut s, t.year as u64, 4);
    }
    append_two_digits(&mut s, t.month);
    append_two_digits(&mut s, t.day);
    s.append("_");
    append_two_digits(&mut s, t.hour);
    append_two_digits(&mut s, t.minute);
    append_two_digits(&mut s, t.second);
    s.append(".mp4");
    assert(s@ =~= recording_name(*t));
    s
}

/// The default name of a recording started now, in local time.
pub fn default_recording_name() -> (r: String)
    ensures
        exists|t: LocalTime| t.valid() && r@ == recording_name(t),
{
    let t = local_now();
    recording_name_at(&t)
}

} // verus!
