use rcrdr::command::{
    decimal_text, device_list_args, duration_probe_args, encoder_program, gif_conversion_args, lookup_program,
    probe_program, CaptureParams, Platform, Preset,
};

fn strs(v: &[String]) -> Vec<&str> {
    v.iter().map(|s| s.as_str()).collect()
}

#[test]
fn decimal_text_values() {
    assert_eq!(decimal_text(0), "0");
    assert_eq!(decimal_text(7), "7");
    assert_eq!(decimal_text(30), "30");
    assert_eq!(decimal_text(1234567890), "1234567890");
    assert_eq!(decimal_text(u64::MAX), u64::MAX.to_string());
}

#[test]
fn bounded_linux_capture_args() {
    let p = CaptureParams { output: "out.mp4".to_string(), duration: 3, fps: 30, preset: Preset::Standard };
    let a = p.args(Platform::Linux);
    assert_eq!(
        strs(&a),
        vec![
            "-y", "-f", "x11grab", "-framerate", "30", "-i", ":0.0", "-c:v", "libx264", "-pix_fmt",
            "yuv420p", "-preset", "medium", "-crf", "23", "-t", "3", "out.mp4"
        ]
    );
}

#[test]
fn unbounded_capture_has_no_time_limit() {
    let p = CaptureParams { output: "o.mp4".to_string(), duration: 0, fps: 25, preset: Preset::Standard };
    let a = p.args(Platform::Windows);
    assert_eq!(
        strs(&a),
        vec![
            "-y", "-f", "gdigrab", "-framerate", "25", "-i", "desktop", "-c:v", "libx264",
            "-pix_fmt", "yuv420p", "-preset", "medium", "-crf", "23", "o.mp4"
        ]
    );
}

#[test]
fn quick_macos_capture_args() {
    let p = CaptureParams { output: "t.mp4".to_string(), duration: 3, fps: 30, preset: Preset::Quick };
    let a = p.args(Platform::MacOs);
    assert_eq!(
        strs(&a),
        vec![
            "-y", "-f", "avfoundation", "-framerate", "30", "-i", "1:none", "-pix_fmt", "uyvy422",
            "-c:v", "libx264", "-pix_fmt", "yuv420p", "-preset", "ultrafast", "-crf", "28", "-t",
            "3", "t.mp4"
        ]
    );
}

#[test]
fn gif_and_probe_args() {
    let g = gif_conversion_args("in.mp4", "out.gif");
    assert_eq!(
        strs(&g),
        vec![
            "-i", "in.mp4", "-vf",
            "fps=10,scale=640:-1:flags=lanczos,split[s0][s1];[s0]palettegen[p];[s1][p]paletteuse",
            "-loop", "0", "out.gif"
        ]
    );
    let p = duration_probe_args("a b.mp4");
    assert_eq!(
        strs(&p),
        vec![
            "-v", "error", "-show_entries", "format=duration", "-of",
            "default=noprint_wrappers=1:nokey=1", "a b.mp4"
        ]
    );
}

#[test]
fn program_names() {
    assert_eq!(encoder_program(), "ffmpeg");
    assert_eq!(probe_program(), "ffprobe");
    assert_eq!(lookup_program(Platform::Windows), "where");
    assert_eq!(lookup_program(Platform::Linux), "which");
    assert_eq!(lookup_program(Platform::MacOs), "which");
}

#[test]
fn device_listing_args() {
    let a = device_list_args();
    assert_eq!(strs(&a), vec!["-f", "avfoundation", "-list_devices", "true", "-i", ""]);
}
