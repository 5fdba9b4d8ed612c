use rcrdr::progress::{
    classify_test_line, completion_line, device_line, estimate, shows_error, ConversionProgress,
    TestVerdict, PROGRESS_CAP, PROGRESS_FULL,
};

#[test]
fn estimate_example_line() {
    let r = estimate("frame=10 time=00:00:05.20 bitrate=512kbits/s", 30);
    assert_eq!(r, Some(1733));
    let ratio = r.unwrap() as f64 / PROGRESS_FULL as f64;
    assert!((ratio - 0.173).abs() < 0.001);
}

#[test]
fn estimate_needs_both_markers() {
    assert_eq!(estimate("frame=10 time=00:00:05.20 speed=1x", 30), None);
    assert_eq!(estimate("frame=10 tim=00:00:05.20 bitrate=512kbits/s", 30), None);
    assert_eq!(estimate("", 30), None);
    assert_eq!(estimate("bitrate=512kbits/s", 30), None);
}

#[test]
fn estimate_rejects_malformed_timestamps() {
    assert_eq!(estimate("time=00:05.20 bitrate=1", 30), None);
    assert_eq!(estimate("time=00:00:00:05 bitrate=1", 30), None);
    assert_eq!(estimate("time=N/A bitrate=N/A", 30), None);
    assert_eq!(estimate("time=aa:00:05 bitrate=1", 30), None);
    assert_eq!(estimate("time=00::05 bitrate=1", 30), None);
    assert_eq!(estimate("time=00:00:05. bitrate=1", 30), None);
    assert_eq!(estimate("time=-00:00:05 bitrate=1", 30), None);
}

#[test]
fn estimate_needs_whitespace_after_token() {
    assert_eq!(estimate("bitrate=1 time=00:00:05.20", 30), None);
    assert_eq!(estimate("bitrate=1 time=00:00:05.20\r", 30), Some(1733));
}

#[test]
fn estimate_reads_the_first_time_marker() {
    assert_eq!(estimate("time=00:00:03 x time=00:00:27 bitrate=1", 30), Some(1000));
}

#[test]
fn estimate_fractions() {
    assert_eq!(estimate("time=00:00:05 bitrate=1", 10), Some(5000));
    assert_eq!(estimate("time=00:00:05.2 bitrate=1", 100), Some(520));
    assert_eq!(estimate("time=00:00:01.123456 bitrate=1", 100), Some(112));
    assert_eq!(estimate("time=01:01:01.5 bitrate=1", 100000), Some(366));
}

#[test]
fn estimate_is_capped() {
    assert_eq!(estimate("time=00:00:29.99 bitrate=1", 30), Some(PROGRESS_CAP));
    assert_eq!(estimate("time=00:01:00 bitrate=1", 30), Some(PROGRESS_CAP));
    assert_eq!(estimate("time=99999999999999999999:00:00 bitrate=1", u32::MAX), Some(PROGRESS_CAP));
    assert_eq!(estimate("time=00:00:05 bitrate=1", 0), Some(PROGRESS_CAP));
    assert_eq!(estimate("time=00:00:00 bitrate=1", 0), Some(PROGRESS_CAP));
    assert_eq!(estimate("time=00:00:00.00 bitrate=1", 30), Some(0));
}

#[test]
fn estimate_is_monotone_on_examples() {
    let times = ["00:00:00.00", "00:00:01.50", "00:00:05.20", "00:00:20", "00:00:28.5", "00:10:00"];
    let mut last = 0;
    for t in times.iter() {
        let line = format!("frame=1 time={} bitrate=1", t);
        let p = estimate(&line, 30).unwrap();
        assert!(p >= last);
        assert!(p <= PROGRESS_CAP);
        last = p;
    }
}

#[test]
fn completion_and_test_markers() {
    assert!(completion_line("GIF conversion completed successfully!"));
    assert!(!completion_line("GIF conversion failed!"));
}

#[test]
fn test_lines_sort_into_pass_fail_or_neither() {
    assert_eq!(classify_test_line("Test recording completed successfully!"), TestVerdict::Passed);
    assert_eq!(
        classify_test_line("Test recording completed but did not produce a valid video file."),
        TestVerdict::Failed
    );
    assert_eq!(classify_test_line("Test recording failed: no device"), TestVerdict::Failed);
    assert_eq!(
        classify_test_line("Test recording in progress (3 seconds)..."),
        TestVerdict::Undecided
    );
    assert_eq!(classify_test_line(""), TestVerdict::Undecided);
}

#[test]
fn device_listing_lines() {
    assert!(device_line("[AVFoundation indev @ 0x7f] [1] Capture screen 0"));
    assert!(device_line("[1] capture screen"));
    assert!(!device_line("ffmpeg version 6.0"));
}

#[test]
fn error_heuristic_needs_both_words() {
    assert!(shows_error("Error opening input: error 5"));
    assert!(!shows_error("Error opening input"));
    assert!(!shows_error("some error"));
    assert!(!shows_error("frame=10 fps=30"));
}

#[test]
fn conversion_progress_follows_lines() {
    let mut c = ConversionProgress::new();
    assert_eq!(c.progress, 0);
    c.observe("frame=10 time=00:00:05.20 bitrate=512kbits/s", 30);
    assert_eq!(c.progress, 1733);
    assert!(!c.finished);
    c.observe("Stream mapping:", 30);
    assert_eq!(c.progress, 1733);
    c.observe("GIF conversion completed successfully!", 30);
    assert_eq!(c.progress, PROGRESS_FULL);
    assert!(c.finished);
}
