use reaper_core::listing::{
    analyze_io_wait, find_related_waiting_processes, find_uninterruptible_processes,
    get_process_state, parse_context_switches, parse_held_resources, parse_process_listing,
    plan_resource_scan,
    shares_resources_with, ProcessSysctlInfo, ScannedProcess,
};
use reaper_core::platform::PlatformError;

const LSOF: &str = "COMMAND PID USER FD TYPE DEVICE SIZE/OFF NODE NAME\n\
                    app 10 me cwd DIR 1,4 640 2 /Users/me\n\
                    app 10 me 3r REG 1,4 1024 77 /var/db/app data.db\n\
                    app 10 me 4u IPv4 0x1 0t0 TCP localhost:80\n\
                    app 10 me 5 PIPE 0x2 16384 -> 0x3\n\
                    app 10 me 6 CHR 3,2 0t0 303 /dev/null\n\
                    short line\n";

#[test]
fn test_process_listing() {
    let out = "  PID  PPID STAT WCHAN  NI     TIME\n  321     1 D+   biowait  5  0:01.25\n";
    let info = parse_process_listing(321, out).expect("listing");
    assert_eq!(info.pid, 321);
    assert_eq!(info.state_char, 'D');
    assert_eq!(info.wchan, Some("biowait".to_string()));
    assert_eq!(info.nice, 5);
    assert_eq!(info.cpu_time, "0:01.25");
}

#[test]
fn test_process_listing_defaults() {
    let out = "HEADER\n321 1 S - -x 0:00\n";
    let info = parse_process_listing(7, out).expect("listing");
    assert_eq!(info.pid, 7);
    assert_eq!(info.state_char, 'S');
    assert_eq!(info.wchan, None);
    assert_eq!(info.nice, 0);
    let info = parse_process_listing(7, "H\n1 1 R -- -20 0:00 more fields\n").expect("listing");
    assert_eq!(info.wchan, Some("--".to_string()));
    assert_eq!(info.nice, -20);
    let info = parse_process_listing(7, "H\n1 1 R w +19 t").expect("listing");
    assert_eq!(info.nice, 19);
}

#[test]
fn test_process_listing_errors() {
    match parse_process_listing(55, "PID PPID STAT WCHAN NI TIME\n") {
        Err(PlatformError::ProcessNotFound(55)) => {}
        other => panic!("unexpected: {:?}", other),
    }
    assert!(matches!(parse_process_listing(55, ""), Err(PlatformError::ProcessNotFound(55))));
    match parse_process_listing(55, "HEADER\n1 2 3 4 5\n") {
        Err(PlatformError::SystemCallFailed(m)) => assert_eq!(m, "Invalid ps output"),
        other => panic!("unexpected: {:?}", other),
    }
    match parse_process_listing(55, "HEADER\n\n1 2 3 4 5 6\n") {
        Err(PlatformError::SystemCallFailed(m)) => assert_eq!(m, "Invalid ps output"),
        other => panic!("unexpected: {:?}", other),
    }
}

#[test]
fn test_state_and_io_wait() {
    let info = ProcessSysctlInfo {
        pid: 9,
        state_char: 'S',
        wchan: Some("vnread".to_string()),
        nice: -3,
        cpu_time: "1".to_string(),
    };
    let state = get_process_state(&info);
    assert_eq!(state.state_char, 'S');
    assert_eq!(state.wchan, Some("vnread".to_string()));
    assert_eq!(state.nice, -3);
    assert_eq!(state.tgid, 9);
    assert_eq!(state.num_threads, 1);
    assert_eq!(state.flags, 0);
    let wait = analyze_io_wait(&info);
    assert_eq!(wait.total_wait_time_ms, 1000);
    assert_eq!(wait.io_operations_pending, 1);
    assert_eq!(wait.current_wait_operation, Some("vnread".to_string()));
    assert_eq!(wait.blocked_on_device, None);

    let idle = ProcessSysctlInfo {
        pid: 9,
        state_char: 'S',
        wchan: Some("select".to_string()),
        nice: 0,
        cpu_time: "1".to_string(),
    };
    let wait = analyze_io_wait(&idle);
    assert_eq!(wait.total_wait_time_ms, 0);
    assert_eq!(wait.io_operations_pending, 0);

    let blocked =
        ProcessSysctlInfo { pid: 9, state_char: 'D', wchan: None, nice: 0, cpu_time: "1".into() };
    assert_eq!(analyze_io_wait(&blocked).total_wait_time_ms, 1000);
}

#[test]
fn test_uninterruptible_processes() {
    let out = "  PID STAT\n    1 Ss\n   42 D\n   43 D+\n  x44 D\n   45 R\n   46\n 47 UD extra\n";
    assert_eq!(find_uninterruptible_processes(out), vec![42, 43, 47]);
    // The header is never read as a process.
    assert_eq!(find_uninterruptible_processes("7 D\n8 D\n"), vec![8]);
    assert!(find_uninterruptible_processes("").is_empty());
    assert!(find_uninterruptible_processes("PID STAT\n4294967296 D\n").is_empty());
    assert_eq!(find_uninterruptible_processes("PID STAT\n4294967295 D\n"), vec![u32::MAX]);
}

#[test]
fn test_held_resources() {
    assert_eq!(
        parse_held_resources(LSOF),
        vec!["/var/db/app data.db".to_string(), "0x3".to_string(), "/dev/null".to_string()]
    );
    assert!(parse_held_resources("COMMAND PID\n").is_empty());
}

#[test]
fn test_shared_resources() {
    let targets = parse_held_resources(LSOF);
    let other = "COMMAND PID USER FD TYPE DEVICE SIZE/OFF NODE NAME\n\
                 db 11 me 9w REG 1,4 1024 77 /var/db/app   data.db\n";
    assert!(shares_resources_with(other, &targets));
    let unrelated = "COMMAND PID USER FD TYPE DEVICE SIZE/OFF NODE NAME\n\
                     db 11 me 9w REG 1,4 1024 77 /var/db/other.db\n";
    assert!(!shares_resources_with(unrelated, &targets));
    // A match in the header line does not count.
    let header_only = "db 11 me 9w REG 1,4 1024 77 /dev/null\n";
    assert!(!shares_resources_with(header_only, &targets));
    // Any handle type counts on the other side.
    let dir = "H\ndb 11 me cwd DIR 1,4 640 2 /dev/null\n";
    assert!(shares_resources_with(dir, &targets));
    assert!(!shares_resources_with(dir, &vec![]));
}

#[test]
fn test_scan_plan() {
    assert!(plan_resource_scan(5, &vec![]).is_empty());
    assert!(plan_resource_scan(5, &vec![5]).is_empty());
    assert!(plan_resource_scan(5, &vec![6]).is_empty());
    assert_eq!(plan_resource_scan(5, &vec![5, 6]), vec![6]);
    assert_eq!(plan_resource_scan(5, &vec![7, 5, 6, 5]), vec![7, 6]);
}

#[test]
fn test_related_processes() {
    let sharing = "H\ndb 11 me 9w REG 1,4 1024 77 /dev/null\n".to_string();
    let other = "H\ndb 12 me 9w REG 1,4 1024 77 /tmp/x\n".to_string();
    let scanned = vec![
        ScannedProcess { pid: 11, listing: Some(sharing.clone()) },
        ScannedProcess { pid: 12, listing: Some(other) },
        ScannedProcess { pid: 13, listing: None },
        ScannedProcess { pid: 14, listing: Some(sharing) },
    ];
    assert_eq!(find_related_waiting_processes(LSOF, &scanned), vec![11, 14]);
    assert!(find_related_waiting_processes("", &scanned).is_empty());
}

#[test]
fn test_context_switch_counters() {
    let status = "Name:\tcat\nvoluntary_ctxt_switches:\t120\nnonvoluntary_ctxt_switches:\t7\n";
    assert_eq!(parse_context_switches(status), Some(127));
    // One counter alone is read too.
    assert_eq!(parse_context_switches("nonvoluntary_ctxt_switches: 9"), Some(9));
    assert_eq!(parse_context_switches("voluntary_ctxt_switches:0\r\n"), Some(0));
    // Lines that only mention a counter, or give no number, are passed over.
    assert_eq!(parse_context_switches(""), None);
    assert_eq!(parse_context_switches("Name:\tcat\nState:\tS\n"), None);
    assert_eq!(parse_context_switches(" voluntary_ctxt_switches: 5"), None);
    assert_eq!(parse_context_switches("voluntary_ctxt_switches: many"), None);
    assert_eq!(parse_context_switches("voluntary_ctxt_switches: 1: 2"), None);
    assert_eq!(
        parse_context_switches("voluntary_ctxt_switches: x\nnonvoluntary_ctxt_switches: 4"),
        Some(4)
    );
    // The sum stops at the largest counter.
    assert_eq!(
        parse_context_switches(
            "voluntary_ctxt_switches: 18446744073709551615\nnonvoluntary_ctxt_switches: 1"
        ),
        Some(u64::MAX)
    );
    assert_eq!(parse_context_switches("voluntary_ctxt_switches: 18446744073709551616"), None);
}
