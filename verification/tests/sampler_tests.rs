use std::time::SystemTime;

use reaper_core::sampler::{
    after_fallback, after_primary, effective_sample_ms, extract_sample_frame_info,
    parse_sample_output, parse_spindump_frame_line, parse_spindump_output,
    parse_stack_frame_line, CaptureStep, ToolOutcome,
};

#[test]
fn test_extract_frame_with_module() {
    let parts = extract_sample_frame_info("  1234  main (in my_app) [0x1000]");
    assert_eq!(
        parts,
        Some((0x1000, Some("1234  main".to_string()), Some("my_app".to_string())))
    );
}

#[test]
fn test_extract_frame_without_module() {
    let parts = extract_sample_frame_info("start_wqthread [0x7fff5fc01000]");
    assert_eq!(parts, Some((0x7fff5fc01000, Some("start_wqthread".to_string()), None)));
    let parts = extract_sample_frame_info("[0xAbC]");
    assert_eq!(parts, Some((0xabc, Some("".to_string()), None)));
}

#[test]
fn test_extract_frame_uses_last_address() {
    let parts = extract_sample_frame_info("f [0x1] g (in m) [0x2] tail");
    assert_eq!(parts, Some((2, Some("f [0x1] g".to_string()), Some("m".to_string()))));
}

#[test]
fn test_extract_frame_with_unclosed_module() {
    // " (in " without a closing parenthesis: neither symbol nor module.
    let parts = extract_sample_frame_info("f (in m [0x10]");
    assert_eq!(parts, Some((0x10, None, None)));
}

#[test]
fn test_extract_frame_rejects_bad_addresses() {
    assert_eq!(extract_sample_frame_info("no address here"), None);
    assert_eq!(extract_sample_frame_info("f [0x12"), None);
    assert_eq!(extract_sample_frame_info("f [0x]"), None);
    assert_eq!(extract_sample_frame_info("f [0xzz]"), None);
    assert_eq!(extract_sample_frame_info("f [0x1ffffffffffffffff]"), None);
    assert_eq!(
        extract_sample_frame_info("f [0xffffffffffffffff]"),
        Some((u64::MAX, Some("f".to_string()), None))
    );
    assert_eq!(extract_sample_frame_info("f [0x+1f]"), Some((0x1f, Some("f".to_string()), None)));
}

#[test]
fn test_stack_frame_line_skips_headers() {
    assert!(parse_stack_frame_line("").is_none());
    assert!(parse_stack_frame_line("Process: app [0x10]").is_none());
    assert!(parse_stack_frame_line("Date/Time: now [0x10]").is_none());
    let f = parse_stack_frame_line("work (in lib) [0x20]").expect("frame");
    assert_eq!(f.address, 0x20);
    assert_eq!(f.symbol, Some("work".to_string()));
    assert_eq!(f.module, Some("lib".to_string()));
    assert_eq!(f.file, None);
    assert_eq!(f.line, None);
    assert_eq!(f.offset, None);
}

#[test]
fn test_sample_output() {
    let output = "Process: app [123]\n\
                  ignored (in app) [0x1]\n\
                  Call graph:\n\
                  \x20   10 main (in app) [0x1000]\n\
                  \x20     8 run (in app) [0x2000]\r\n\
                  something unreadable\n\
                  \n\
                  after (in app) [0x3000]\n";
    let frames = parse_sample_output(output);
    let seen: Vec<(u64, Option<&str>, Option<&str>)> =
        frames.iter().map(|f| (f.address, f.symbol.as_deref(), f.module.as_deref())).collect();
    assert_eq!(
        seen,
        vec![(0x1000, Some("10 main"), Some("app")), (0x2000, Some("8 run"), Some("app"))]
    );
}

#[test]
fn test_sample_output_without_stack_part() {
    assert!(parse_sample_output("main (in app) [0x1000]\n").is_empty());
    assert!(parse_sample_output("").is_empty());
    // Empty lines before the first frame do not end the reading.
    let frames = parse_sample_output("Heavy hitters:\n\n\nf [0x1]\n");
    assert_eq!(frames.len(), 1);
    assert_eq!(frames[0].address, 1);
}

#[test]
fn test_spindump_frame_line() {
    let f = parse_spindump_frame_line("  0x1000 main + 12").expect("frame");
    assert_eq!(f.address, 0x1000);
    assert_eq!(f.symbol, Some("main + 12".to_string()));
    assert_eq!(f.module, None);
    assert!(parse_spindump_frame_line("").is_none());
    assert!(parse_spindump_frame_line("no address").is_none());
    // A frame takes no more than an address.
    let bare = parse_spindump_frame_line("0x1000").expect("frame");
    assert_eq!(bare.address, 0x1000);
    assert_eq!(bare.symbol, None);
    let bare = parse_spindump_frame_line("  12 0xdeadBEEF").expect("frame");
    assert_eq!(bare.address, 0xdead_beef);
    assert_eq!(bare.symbol, None);
    assert!(parse_spindump_frame_line("0x").is_none());
    assert!(parse_spindump_frame_line("0xzz main").is_none());
    let f = parse_spindump_frame_line("1 libfoo 0x20 ").expect("frame");
    assert_eq!(f.address, 0x20);
    assert_eq!(f.symbol, Some("".to_string()));
}

#[test]
fn test_spindump_output_reads_first_thread() {
    let output = "0x1 before\n\
                  Thread 0x1a  dispatch queue: main\n\
                  \x20 0x1000 main\n\
                  \x20 not a frame\n\
                  \x20 0x2000 run\n\
                  Thread 0x1b\n\
                  \x20 0x3000 other\n";
    let frames = parse_spindump_output(output);
    let seen: Vec<(u64, Option<&str>)> =
        frames.iter().map(|f| (f.address, f.symbol.as_deref())).collect();
    assert_eq!(seen, vec![(0x1000, Some("main")), (0x2000, Some("run"))]);
}

#[test]
fn test_capture_after_successful_primary() {
    let t = SystemTime::UNIX_EPOCH;
    let step =
        after_primary(5, 250, t, &ToolOutcome::Succeeded("Call graph:\nf [0x1]\n".to_string()));
    match step {
        CaptureStep::Finished(sample) => {
            assert_eq!(sample.pid, 5);
            assert_eq!(sample.thread_id, None);
            assert_eq!(sample.timestamp, t);
            assert_eq!(sample.sample_duration_ms, 250);
            assert!(sample.is_complete);
            assert_eq!(sample.frames.len(), 1);
        }
        CaptureStep::RunFallback => panic!("fallback"),
    }
    // Success without frames is still a complete sample.
    match after_primary(5, 250, t, &ToolOutcome::Succeeded(String::new())) {
        CaptureStep::Finished(sample) => {
            assert!(sample.is_complete);
            assert!(sample.frames.is_empty());
        }
        CaptureStep::RunFallback => panic!("fallback"),
    }
}

#[test]
fn test_capture_after_failed_primary() {
    let t = SystemTime::UNIX_EPOCH;
    match after_primary(5, 250, t, &ToolOutcome::Failed("Call graph:\nf [0x1]\n".to_string())) {
        CaptureStep::Finished(sample) => {
            assert!(!sample.is_complete);
            assert_eq!(sample.frames.len(), 1);
            assert_eq!(sample.frames[0].address, 1);
        }
        CaptureStep::RunFallback => panic!("fallback"),
    }
    assert!(matches!(
        after_primary(5, 250, t, &ToolOutcome::Failed("no such process".to_string())),
        CaptureStep::RunFallback
    ));
    assert!(matches!(after_primary(5, 250, t, &ToolOutcome::Unavailable), CaptureStep::RunFallback));
}

#[test]
fn test_capture_after_fallback() {
    let t = SystemTime::UNIX_EPOCH;
    let sample = after_fallback(
        5,
        250,
        t,
        &ToolOutcome::Succeeded("Thread 1 dispatch queue\n0x10 f\n".to_string()),
    );
    assert!(!sample.is_complete);
    assert_eq!(sample.frames.len(), 1);
    assert_eq!(sample.pid, 5);
    for outcome in [ToolOutcome::Failed("0x10 f".to_string()), ToolOutcome::Unavailable] {
        let sample = after_fallback(5, 250, t, &outcome);
        assert!(!sample.is_complete);
        assert!(sample.frames.is_empty());
        assert_eq!(sample.sample_duration_ms, 250);
    }
}

#[test]
fn test_effective_sample_time() {
    assert_eq!(effective_sample_ms(0), 100);
    assert_eq!(effective_sample_ms(99), 100);
    assert_eq!(effective_sample_ms(100), 100);
    assert_eq!(effective_sample_ms(2500), 2500);
}
