use reaper_core::analyzer::{ContextSwitchHistory, MacOSProcessAnalyzer};
use reaper_core::kernel::{OsReply, EPERM, ESRCH};
use reaper_core::listing::ProcessSysctlInfo;
use reaper_core::platform::Signal;
use reaper_core::responsiveness::{
    diagnostic_signals, evaluate_probe, is_diagnostic_signal, observation_shows_absence,
    signal_succeeded, withheld_observation, ResponseHistory, SignalObservation,
};

const OK: OsReply = OsReply { rc: 0, errno: 0 };
const GONE: OsReply = OsReply { rc: -1, errno: ESRCH };
const DENIED: OsReply = OsReply { rc: -1, errno: EPERM };

fn seen(signal: i32, sent: OsReply, after: Option<OsReply>, elapsed_ms: u64) -> SignalObservation {
    SignalObservation { signal, sent, after, elapsed_ms }
}

#[test]
fn test_probe_sends_terminate_and_continue() {
    let found = seen(0, OK, None, 1);
    let signals = diagnostic_signals(&found);
    assert_eq!(signals, vec![Signal::Terminate, Signal::Continue]);
    assert!(!signals.contains(&Signal::Kill));
    assert!(!signals.contains(&Signal::Stop));
    // A process that may not be signalled is probed all the same.
    assert_eq!(
        diagnostic_signals(&seen(0, DENIED, None, 1)),
        vec![Signal::Terminate, Signal::Continue]
    );
    // Where the check has shown the process absent there is nothing to probe.
    assert!(diagnostic_signals(&seen(0, GONE, None, 1)).is_empty());
    assert!(is_diagnostic_signal(Signal::Terminate));
    assert!(is_diagnostic_signal(Signal::Continue));
    assert!(!is_diagnostic_signal(Signal::Kill));
    assert!(!is_diagnostic_signal(Signal::Stop));
    assert!(!is_diagnostic_signal(Signal::Interrupt));
}

#[test]
fn test_protected_process_is_sent_nothing() {
    let refusal = SignalObservation { signal: 15, sent: DENIED, after: None, elapsed_ms: 0 };
    assert_eq!(withheld_observation(1, None, 15), Some(refusal));
    assert_eq!(withheld_observation(0, Some("anything"), 15), Some(refusal));
    assert_eq!(
        withheld_observation(500, Some("launchd"), 19),
        Some(SignalObservation { signal: 19, sent: DENIED, after: None, elapsed_ms: 0 })
    );
    assert_eq!(withheld_observation(500, Some("vim"), 15), None);
    assert_eq!(withheld_observation(500, None, 15), None);

    // The two refusals count as failed signals.
    let report = evaluate_probe(
        &seen(0, OK, None, 2),
        &vec![
            withheld_observation(1, None, 15).unwrap(),
            withheld_observation(1, None, 19).unwrap(),
        ],
        200,
        2,
    );
    assert!(report.responds_to_signals);
    assert_eq!(report.signal_test_results.len(), 3);
    assert_eq!(report.signal_test_results.get(&0), Some(&true));
    assert_eq!(report.signal_test_results.get(&15), Some(&false));
    assert_eq!(report.signal_test_results.get(&19), Some(&false));
    assert!(report.is_likely_unkillable);
}

#[test]
fn test_process_that_may_not_be_signalled_fails_three_signals() {
    let report = evaluate_probe(
        &seen(0, DENIED, None, 1),
        &vec![seen(15, DENIED, None, 1), seen(19, DENIED, None, 1)],
        200,
        2,
    );
    assert!(!report.responds_to_signals);
    assert_eq!(report.last_response_time_ms, None);
    assert_eq!(report.signal_test_results.len(), 3);
    assert_eq!(report.signal_test_results.get(&0), Some(&false));
    assert_eq!(report.signal_test_results.get(&15), Some(&false));
    assert_eq!(report.signal_test_results.get(&19), Some(&false));
    assert!(report.is_likely_unkillable);
}

#[test]
fn test_signal_success() {
    // Accepted and seen again within the window.
    assert!(signal_succeeded(&seen(15, OK, Some(OK), 50), 200));
    // Accepted and seen to have exited within the window.
    assert!(signal_succeeded(&seen(15, OK, Some(GONE), 50), 200));
    // Beyond the window.
    assert!(!signal_succeeded(&seen(15, OK, Some(OK), 200), 200));
    assert!(signal_succeeded(&seen(15, OK, Some(OK), 199), 200));
    // Not accepted.
    assert!(!signal_succeeded(&seen(15, DENIED, Some(OK), 1), 200));
    // Not looked at again.
    assert!(!signal_succeeded(&seen(15, OK, None, 1), 200));
    // The second look did not tell.
    assert!(!signal_succeeded(&seen(15, OK, Some(OsReply { rc: -1, errno: 22 }), 1), 200));
    assert!(observation_shows_absence(&seen(0, GONE, None, 1)));
    assert!(observation_shows_absence(&seen(15, OK, Some(GONE), 1)));
    assert!(!observation_shows_absence(&seen(15, DENIED, Some(OK), 1)));
}

#[test]
fn test_responsive_process() {
    let report = evaluate_probe(
        &seen(0, OK, None, 3),
        &vec![seen(15, OK, Some(OK), 52), seen(19, OK, Some(OK), 51)],
        200,
        2,
    );
    assert!(report.responds_to_signals);
    assert_eq!(report.last_response_time_ms, Some(3));
    assert!(!report.is_likely_unkillable);
    assert_eq!(report.signal_test_results.len(), 3);
    assert_eq!(report.signal_test_results.get(&0), Some(&true));
    assert_eq!(report.signal_test_results.get(&15), Some(&true));
    assert_eq!(report.signal_test_results.get(&19), Some(&true));
}

#[test]
fn test_absent_process_is_not_unkillable() {
    let report = evaluate_probe(
        &seen(0, GONE, None, 1),
        &vec![seen(15, GONE, None, 1), seen(19, GONE, None, 1)],
        200,
        2,
    );
    assert!(!report.responds_to_signals);
    assert_eq!(report.last_response_time_ms, None);
    assert!(!report.is_likely_unkillable);
    assert_eq!(report.signal_test_results.get(&0), Some(&false));
    assert_eq!(report.signal_test_results.get(&15), Some(&false));

    // Absence that shows only at the last look counts too.
    let report = evaluate_probe(
        &seen(0, OK, None, 1),
        &vec![seen(15, OK, Some(OK), 900), seen(19, OK, Some(GONE), 900)],
        200,
        2,
    );
    assert!(!report.is_likely_unkillable);
}

#[test]
fn test_unresponsive_process_is_likely_unkillable() {
    let report = evaluate_probe(
        &seen(0, OK, None, 1),
        &vec![seen(15, OK, Some(OK), 900), seen(19, OK, Some(OK), 900)],
        200,
        2,
    );
    assert!(report.responds_to_signals);
    assert!(report.is_likely_unkillable);
    // One failure is not enough.
    let report = evaluate_probe(
        &seen(0, OK, None, 1),
        &vec![seen(15, OK, Some(OK), 900), seen(19, OK, Some(OK), 10)],
        200,
        2,
    );
    assert!(!report.is_likely_unkillable);
    // Unless the threshold says so.
    let report = evaluate_probe(
        &seen(0, OK, None, 1),
        &vec![seen(15, OK, Some(OK), 900), seen(19, OK, Some(OK), 10)],
        200,
        1,
    );
    assert!(report.is_likely_unkillable);
    // A denied existence check is a failure, not an absence.
    let report =
        evaluate_probe(&seen(0, DENIED, None, 1), &vec![seen(15, DENIED, None, 1)], 200, 2);
    assert!(!report.responds_to_signals);
    assert!(report.is_likely_unkillable);
}

#[test]
fn test_history_records() {
    let mut history = ResponseHistory::new(5);
    assert_eq!(history.last_test_time_ms, 5);
    assert!(!history.is_marked_unkillable);
    let slow = vec![seen(15, OK, Some(OK), 150), seen(19, OK, Some(OK), 50)];
    history.record(10, true, &seen(0, OK, None, 7), &slow);
    assert_eq!(history.last_test_time_ms, 10);
    assert!(history.is_marked_unkillable);
    assert_eq!(history.response_times_ms, vec![7]);
    // Only the signal that took a tenth of a second or more is noted.
    assert_eq!(history.failed_signals, vec![15]);
    history.record(20, true, &seen(0, DENIED, None, 7), &slow);
    assert_eq!(history.failed_signals, vec![15, 0]);
    assert_eq!(history.response_times_ms, vec![7]);
    history.record(30, false, &seen(0, OK, None, 9), &slow);
    assert!(!history.is_marked_unkillable);
    assert_eq!(history.failed_signals, vec![15, 0]);
    assert_eq!(history.response_times_ms, vec![7, 9]);
    for i in 0..20u64 {
        history.record(40 + i, false, &seen(0, OK, None, 100 + i), &vec![]);
    }
    assert_eq!(history.response_times_ms, (110..120).collect::<Vec<u64>>());
}

#[test]
fn test_analyzer_remembers_verdicts() {
    let mut analyzer = MacOSProcessAnalyzer::new();
    assert!(analyzer.should_probe(9, 0));
    let stuck = vec![seen(15, OK, Some(OK), 1500), seen(19, OK, Some(OK), 1500)];
    assert!(analyzer.analyze_unkillable(9, 1000, &seen(0, OK, None, 1), &stuck));
    assert!(!analyzer.should_probe(9, 1999));
    assert!(analyzer.should_probe(9, 2000));
    assert!(analyzer.should_probe(10, 1000));

    let info = ProcessSysctlInfo {
        pid: 9,
        state_char: 'D',
        wchan: Some("tcp_poll".to_string()),
        nice: 0,
        cpu_time: "0:00.01".to_string(),
    };
    let evidence = analyzer.gather_evidence(62_000, &info, None, None);
    assert!(evidence.marked_unkillable);
    assert_eq!(evidence.unresponsive_secs, 61);
    let found = analyzer.detect_deadlock(62_000, &info, None, None).expect("hypothesis");
    assert_eq!(found.detection_confidence, 90);
    assert_eq!(found.involved_processes, vec![9]);
    assert_eq!(found.resource_info, "tcp_poll");

    // The process is found gone: the verdict is "not unkillable", and it is forgotten.
    let gone = vec![seen(15, GONE, None, 1), seen(19, GONE, None, 1)];
    assert!(!analyzer.analyze_unkillable(9, 70_000, &seen(0, GONE, None, 1), &gone));
    assert!(analyzer.should_probe(9, 70_000));
    let evidence = analyzer.gather_evidence(70_000, &info, None, None);
    assert!(!evidence.marked_unkillable);
    assert_eq!(evidence.unresponsive_secs, 0);
    assert!(analyzer.detect_deadlock(70_000, &info, None, None).is_none());
}

#[test]
fn test_analyzer_report_and_forget() {
    let mut analyzer = MacOSProcessAnalyzer::new();
    let fine = vec![seen(15, OK, Some(OK), 60), seen(19, OK, Some(OK), 60)];
    let report = analyzer.test_process_responsiveness(&seen(0, OK, None, 2), &fine);
    assert!(report.responds_to_signals);
    assert!(!report.is_likely_unkillable);
    let sluggish = vec![seen(15, OK, Some(OK), 200), seen(19, OK, Some(OK), 250)];
    let report = analyzer.test_process_responsiveness(&seen(0, OK, None, 2), &sluggish);
    assert!(report.is_likely_unkillable);
    // Judged by the window of a second, the same probe is fine.
    assert!(!analyzer.analyze_unkillable(4, 0, &seen(0, OK, None, 2), &sluggish));
    assert!(!analyzer.should_probe(4, 10));
    analyzer.forget(4);
    assert!(analyzer.should_probe(4, 10));
}

#[test]
fn test_context_switch_rate() {
    let mut analyzer = MacOSProcessAnalyzer::new();
    let none = analyzer.get_context_switches(3, 0, None);
    assert_eq!(none.voluntary_switches, 0);
    assert_eq!(none.switches_per_second_milli, 0);
    assert!(!none.is_high_frequency);

    let first = analyzer.get_context_switches(3, 1000, Some(1000));
    assert_eq!(first.switches_per_second_milli, 0);
    assert_eq!(first.voluntary_switches, 700);
    assert_eq!(first.involuntary_switches, 300);

    // 50 switches in 2 seconds: 25 per second.
    let second = analyzer.get_context_switches(3, 3000, Some(1050));
    assert_eq!(second.switches_per_second_milli, 25_000);
    assert!(!second.is_high_frequency);
    assert_eq!(second.voluntary_switches, 735);
    assert_eq!(second.involuntary_switches, 315);

    // 101 switches in one second is high, 100 is not.
    let third = analyzer.get_context_switches(3, 4000, Some(1150));
    assert_eq!(third.switches_per_second_milli, 100_000);
    assert!(!third.is_high_frequency);
    let fourth = analyzer.get_context_switches(3, 5000, Some(1251));
    assert_eq!(fourth.switches_per_second_milli, 101_000);
    assert!(fourth.is_high_frequency);

    // A counter that went back counts as no switch; no time passed gives no rate.
    let back = analyzer.get_context_switches(3, 6000, Some(10));
    assert_eq!(back.switches_per_second_milli, 0);
    let same = analyzer.get_context_switches(3, 6000, Some(1000));
    assert_eq!(same.switches_per_second_milli, 0);
}

#[test]
fn test_context_switch_history_is_bounded() {
    let mut history =
        ContextSwitchHistory { last_measurement_ms: 0, last_context_switches: 0, samples: vec![] };
    for i in 1..=25u64 {
        history.measure(i * 10, i);
    }
    assert_eq!(history.samples.len(), 10);
    assert_eq!(history.samples[0], (160, 16));
    assert_eq!(history.samples[9], (250, 25));
    assert_eq!(history.last_measurement_ms, 250);
    assert_eq!(history.last_context_switches, 25);
    let info = history.measure(251, u64::MAX);
    assert_eq!(info.switches_per_second_milli, u64::MAX);
    assert_eq!(info.voluntary_switches, 12912720851596686130);
    assert_eq!(info.involuntary_switches, u64::MAX - 12912720851596686130);
}
