use reaper_core::deadlock::{
    classify_deadlock_type, confidence_before_scan, detect_deadlock, exceeds_emit_threshold,
    needs_resource_scan, DeadlockEvidence,
};
use reaper_core::platform::DeadlockType;

fn evidence(
    state_char: char,
    marked: bool,
    secs: u64,
    rate: Option<u64>,
    sharing: Option<Vec<u32>>,
) -> DeadlockEvidence {
    DeadlockEvidence {
        pid: 42,
        state_char,
        wait_channel: Some("biowait".to_string()),
        marked_unkillable: marked,
        unresponsive_secs: secs,
        switch_rate_milli: rate,
        sharing_processes: sharing,
    }
}

#[test]
fn test_threshold_is_strict() {
    assert!(!exceeds_emit_threshold(60));
    assert!(exceeds_emit_threshold(61));
    assert!(!exceeds_emit_threshold(0));
    assert!(exceeds_emit_threshold(100));
}

#[test]
fn test_state_alone_is_no_hypothesis() {
    let e = evidence('D', false, 0, None, None);
    assert_eq!(confidence_before_scan(&e), 40);
    assert!(!needs_resource_scan(&e));
    assert!(detect_deadlock(&e).is_none());
}

#[test]
fn test_confidence_of_exactly_sixty_emits_nothing() {
    // 0.4 for the state and 0.2 for a sharing process would be 0.6, but the
    // search for sharing processes counts only above 0.4.
    let e = evidence('D', false, 0, None, Some(vec![7]));
    assert!(detect_deadlock(&e).is_none());
    // 0.3 + 0.2 + 0.1 = 0.6 without the state: nothing either.
    let e = evidence('S', true, 61, Some(0), None);
    assert_eq!(confidence_before_scan(&e), 60);
    assert!(detect_deadlock(&e).is_none());
}

#[test]
fn test_state_and_mark_emit_a_hypothesis() {
    let e = evidence('D', true, 0, None, None);
    assert_eq!(confidence_before_scan(&e), 70);
    assert!(needs_resource_scan(&e));
    let info = detect_deadlock(&e).expect("hypothesis");
    assert_eq!(info.detection_confidence, 70);
    assert_eq!(info.involved_processes, vec![42]);
    assert_eq!(info.deadlock_type, DeadlockType::IoDeadlock);
    assert_eq!(info.resource_info, "biowait");
}

#[test]
fn test_unresponsive_time_adds_confidence() {
    assert_eq!(confidence_before_scan(&evidence('D', true, 30, None, None)), 70);
    assert_eq!(confidence_before_scan(&evidence('D', true, 31, None, None)), 80);
    assert_eq!(confidence_before_scan(&evidence('D', true, 60, None, None)), 80);
    assert_eq!(confidence_before_scan(&evidence('D', true, 61, None, None)), 90);
    // Without the mark the time says nothing.
    assert_eq!(confidence_before_scan(&evidence('D', false, 500, None, None)), 40);
}

#[test]
fn test_idle_scheduling_counts_only_above_a_third() {
    assert_eq!(confidence_before_scan(&evidence('D', false, 0, Some(99), None)), 50);
    assert_eq!(confidence_before_scan(&evidence('D', false, 0, Some(100), None)), 40);
    // 0.3 does not exceed 0.3
    assert_eq!(confidence_before_scan(&evidence('S', true, 0, Some(0), None)), 30);
    assert_eq!(confidence_before_scan(&evidence('S', true, 31, Some(0), None)), 50);
    assert_eq!(confidence_before_scan(&evidence('S', false, 0, Some(0), None)), 0);
}

#[test]
fn test_sharing_processes_are_named() {
    let e = evidence('D', false, 0, Some(0), Some(vec![7, 9]));
    let info = detect_deadlock(&e).expect("hypothesis");
    assert_eq!(info.detection_confidence, 70);
    assert_eq!(info.involved_processes, vec![42, 7, 9]);
    // An empty result of the search adds nothing.
    let e = evidence('D', false, 0, Some(0), Some(vec![]));
    assert!(detect_deadlock(&e).is_none());
}

#[test]
fn test_involved_processes_are_named_once() {
    let e = evidence('D', false, 0, Some(0), Some(vec![7, 7, 42, 9, 7]));
    let info = detect_deadlock(&e).expect("hypothesis");
    assert_eq!(info.involved_processes, vec![42, 7, 9]);
    assert_eq!(info.detection_confidence, 70);
    // The process itself is no other process.
    let e = evidence('D', false, 0, Some(0), Some(vec![42, 42]));
    assert!(detect_deadlock(&e).is_none());
    let e = evidence('D', true, 0, Some(0), Some(vec![42]));
    let info = detect_deadlock(&e).expect("hypothesis");
    assert_eq!(info.involved_processes, vec![42]);
    assert_eq!(info.detection_confidence, 80);
}

#[test]
fn test_confidence_is_capped_at_one() {
    let e = evidence('D', true, 100, Some(0), Some(vec![1]));
    let info = detect_deadlock(&e).expect("hypothesis");
    assert_eq!(info.detection_confidence, 100);
}

#[test]
fn test_confidence_never_falls_with_more_evidence() {
    let marks = [false, true];
    let times = [0u64, 31, 61];
    let rates = [None, Some(0u64)];
    let shares = [None, Some(vec![5u32])];
    for state in ['D', 'S'] {
        let mut last = 0u32;
        for (step, (((m, t), r), s)) in [
            (((0, 0), 0), 0),
            (((1, 0), 0), 0),
            (((1, 1), 0), 0),
            (((1, 2), 0), 0),
            (((1, 2), 1), 0),
            (((1, 2), 1), 1),
        ]
        .iter()
        .enumerate()
        {
            let e = evidence(state, marks[*m], times[*t], rates[*r], shares[*s].clone());
            let before = confidence_before_scan(&e);
            let total = match detect_deadlock(&e) {
                Some(info) => info.detection_confidence,
                None => before,
            };
            assert!(total >= last, "step {} of state {}", step, state);
            assert!(total <= 100);
            last = total;
        }
    }
}

#[test]
fn test_classification() {
    assert_eq!(classify_deadlock_type("tcp_wait"), DeadlockType::NetworkDeadlock);
    assert_eq!(classify_deadlock_type("socket"), DeadlockType::NetworkDeadlock);
    assert_eq!(classify_deadlock_type("udp"), DeadlockType::NetworkDeadlock);
    assert_eq!(classify_deadlock_type("inet_lock"), DeadlockType::NetworkDeadlock);
    // Network names come first.
    assert_eq!(classify_deadlock_type("netdisk"), DeadlockType::NetworkDeadlock);
    assert_eq!(classify_deadlock_type("vfs_busy"), DeadlockType::IoDeadlock);
    assert_eq!(classify_deadlock_type("biowait"), DeadlockType::IoDeadlock);
    assert_eq!(classify_deadlock_type("read"), DeadlockType::IoDeadlock);
    assert_eq!(classify_deadlock_type("bufwrite"), DeadlockType::IoDeadlock);
    assert_eq!(classify_deadlock_type("diskio"), DeadlockType::IoDeadlock);
    assert_eq!(classify_deadlock_type("futex"), DeadlockType::ResourceDeadlock);
    assert_eq!(classify_deadlock_type(""), DeadlockType::ResourceDeadlock);
    assert_eq!(classify_deadlock_type("TCP"), DeadlockType::ResourceDeadlock);
}

#[test]
fn test_missing_wait_channel() {
    let mut e = evidence('D', true, 0, None, None);
    e.wait_channel = None;
    let info = detect_deadlock(&e).expect("hypothesis");
    assert_eq!(info.resource_info, "unknown");
    assert_eq!(info.deadlock_type, DeadlockType::ResourceDeadlock);
}
