use reaper_core::kernel::{
    action_response, authorize, can_terminate_outcome, check_existence, clamp_priority,
    classify_signal_reply, describe, execute_action, get_priority_outcome, is_protected,
    pin_evidence, plan_action, send_signal_outcome, set_priority_outcome, ActionPlan,
    ActionResult,
    CActionResult, ControlRequest, Existence, MacOSKernelOps, OsReply, PinEvidence,
    ProcessAction, SignalFailure, EACCES, EINVAL, EPERM, ESRCH,
};
use reaper_core::platform::{PlatformError, Signal};

fn ok() -> OsReply {
    OsReply { rc: 0, errno: 0 }
}

fn failed(errno: i32) -> OsReply {
    OsReply { rc: -1, errno }
}

#[test]
fn test_protected_processes() {
    assert!(is_protected(0, None));
    assert!(is_protected(1, None));
    assert!(is_protected(0, Some("anything")));
    assert!(!is_protected(4_000_000_000, None));
    assert!(!is_protected(999_999, None));
    assert!(!is_protected(500, Some("bash")));
    for name in ["kernel_task", "launchd", "systemd", "WindowServer", "loginwindow"] {
        assert!(is_protected(500, Some(name)), "{}", name);
    }
    assert!(!is_protected(500, Some("Launchd")));
    assert!(!is_protected(500, Some("launchd ")));
    assert!(!is_protected(500, Some("")));
}

#[test]
fn test_protected_targets_are_refused_for_mutation_only() {
    for signal in [Signal::Terminate, Signal::Kill, Signal::Stop, Signal::Continue, Signal::Interrupt] {
        match authorize(1, None, ControlRequest::Deliver(signal)) {
            Err(PlatformError::PermissionDenied(m)) => {
                assert_eq!(m, "Process 1 is protected and cannot be modified")
            }
            other => panic!("unexpected: {:?}", other),
        }
        assert!(authorize(77, Some("systemd"), ControlRequest::Deliver(signal)).is_err());
        assert!(authorize(77, Some("vim"), ControlRequest::Deliver(signal)).is_ok());
        assert!(authorize(77, None, ControlRequest::Deliver(signal)).is_ok());
    }
    assert!(authorize(1, None, ControlRequest::CheckExistence).is_ok());
    assert!(authorize(77, Some("launchd"), ControlRequest::CheckExistence).is_ok());
    assert!(authorize(1, None, ControlRequest::GetPriority).is_ok());
    assert!(authorize(1, None, ControlRequest::SetPriority).is_err());
    assert!(authorize(77, Some("loginwindow"), ControlRequest::SetPriority).is_err());
    assert!(authorize(77, Some("vim"), ControlRequest::SetPriority).is_ok());
}

#[test]
fn test_existence_check() {
    assert_eq!(check_existence(ok()), Existence::Present);
    assert_eq!(check_existence(failed(ESRCH)), Existence::Absent);
    assert_eq!(check_existence(failed(EPERM)), Existence::PresentButDenied);
    assert_eq!(check_existence(failed(EINVAL)), Existence::Unknown);
    // A return code of zero counts whatever error code is left over.
    assert_eq!(check_existence(OsReply { rc: 0, errno: ESRCH }), Existence::Present);
}

#[test]
fn test_not_found_agrees_with_existence_check() {
    for rc in [0, -1] {
        for errno in [0, EPERM, ESRCH, EACCES, EINVAL, 99] {
            for evidence in [PinEvidence::NoEvidence, PinEvidence::KernelProcess, PinEvidence::PendingIo] {
                for signal in [Signal::Terminate, Signal::Kill, Signal::Stop, Signal::Continue] {
                    let reply = OsReply { rc, errno };
                    let not_found = classify_signal_reply(signal, reply, evidence)
                        == Some(SignalFailure::NotFound);
                    assert_eq!(not_found, check_existence(reply) == Existence::Absent);
                }
            }
        }
    }
}

#[test]
fn test_signal_outcomes() {
    let none = PinEvidence::NoEvidence;
    assert!(send_signal_outcome(9, Signal::Terminate, ok(), none).is_ok());
    match send_signal_outcome(9, Signal::Terminate, failed(ESRCH), PinEvidence::PendingIo) {
        Err(PlatformError::ProcessNotFound(9)) => {}
        other => panic!("unexpected: {:?}", other),
    }
    match send_signal_outcome(9, Signal::Kill, failed(EPERM), PinEvidence::KernelProcess) {
        Err(PlatformError::PermissionDenied(m)) => assert_eq!(m, "Cannot send signal to process 9"),
        other => panic!("unexpected: {:?}", other),
    }
    match send_signal_outcome(9, Signal::Kill, failed(EINVAL), PinEvidence::KernelProcess) {
        Err(PlatformError::ProcessUnkillable(m)) => assert_eq!(m, "Kernel process cannot be killed"),
        other => panic!("unexpected: {:?}", other),
    }
    match send_signal_outcome(9, Signal::Stop, failed(EINVAL), PinEvidence::PendingIo) {
        Err(PlatformError::ProcessUnkillable(m)) => {
            assert_eq!(m, "Process 9 has pending I/O operations")
        }
        other => panic!("unexpected: {:?}", other),
    }
    match send_signal_outcome(9, Signal::Kill, failed(EINVAL), none) {
        Err(PlatformError::SystemCallFailed(m)) => assert_eq!(m, "kill() failed with errno 22"),
        other => panic!("unexpected: {:?}", other),
    }
}

#[test]
fn test_accepted_signal_with_evidence_of_pinning() {
    // The host accepted the signal, but the process is held in the kernel.
    for signal in [
        Signal::Terminate,
        Signal::Kill,
        Signal::Stop,
        Signal::Continue,
        Signal::Interrupt,
    ] {
        match send_signal_outcome(9, signal, ok(), PinEvidence::PendingIo) {
            Err(PlatformError::ProcessUnkillable(m)) => {
                assert_eq!(m, "Process 9 has pending I/O operations")
            }
            other => panic!("unexpected: {:?}", other),
        }
        assert!(matches!(
            send_signal_outcome(1, signal, ok(), PinEvidence::KernelProcess),
            Err(PlatformError::ProcessUnkillable(_))
        ));
    }
    // Without evidence an accepted signal is a success.
    for signal in [Signal::Terminate, Signal::Kill, Signal::Stop, Signal::Continue] {
        assert!(send_signal_outcome(9, signal, ok(), PinEvidence::NoEvidence).is_ok());
    }
}

#[test]
fn test_priority_is_clamped() {
    assert_eq!(clamp_priority(-21), -20);
    assert_eq!(clamp_priority(-20), -20);
    assert_eq!(clamp_priority(0), 0);
    assert_eq!(clamp_priority(19), 19);
    assert_eq!(clamp_priority(20), 19);
    assert_eq!(clamp_priority(i32::MIN), -20);
    assert_eq!(clamp_priority(i32::MAX), 19);
}

#[test]
fn test_priority_outcomes() {
    assert_eq!(get_priority_outcome(3, OsReply { rc: 5, errno: 0 }).unwrap(), 5);
    // -1 is a priority unless an error code was left.
    assert_eq!(get_priority_outcome(3, OsReply { rc: -1, errno: 0 }).unwrap(), -1);
    assert_eq!(get_priority_outcome(3, OsReply { rc: -5, errno: ESRCH }).unwrap(), -5);
    assert!(matches!(
        get_priority_outcome(3, failed(ESRCH)),
        Err(PlatformError::ProcessNotFound(3))
    ));
    match get_priority_outcome(3, failed(EINVAL)) {
        Err(PlatformError::SystemCallFailed(m)) => assert_eq!(m, "Invalid priority class"),
        other => panic!("unexpected: {:?}", other),
    }
    match get_priority_outcome(3, failed(EPERM)) {
        Err(PlatformError::SystemCallFailed(m)) => {
            assert_eq!(m, "getpriority() failed with errno 1")
        }
        other => panic!("unexpected: {:?}", other),
    }

    assert!(set_priority_outcome(3, ok()).is_ok());
    assert!(matches!(
        set_priority_outcome(3, failed(ESRCH)),
        Err(PlatformError::ProcessNotFound(3))
    ));
    match set_priority_outcome(3, failed(EPERM)) {
        Err(PlatformError::PermissionDenied(m)) => {
            assert_eq!(m, "Cannot set priority for process 3")
        }
        other => panic!("unexpected: {:?}", other),
    }
    match set_priority_outcome(3, failed(EACCES)) {
        Err(PlatformError::PermissionDenied(m)) => {
            assert_eq!(m, "Insufficient privileges to set priority")
        }
        other => panic!("unexpected: {:?}", other),
    }
    match set_priority_outcome(3, failed(77)) {
        Err(PlatformError::SystemCallFailed(m)) => {
            assert_eq!(m, "setpriority() failed with errno 77")
        }
        other => panic!("unexpected: {:?}", other),
    }
}

#[test]
fn test_can_terminate() {
    assert_eq!(can_terminate_outcome(0, ok()).unwrap(), false);
    assert_eq!(can_terminate_outcome(1, failed(ESRCH)).unwrap(), false);
    assert_eq!(can_terminate_outcome(50, ok()).unwrap(), true);
    assert_eq!(can_terminate_outcome(50, failed(EPERM)).unwrap(), false);
    assert_eq!(can_terminate_outcome(50, failed(EINVAL)).unwrap(), false);
    assert!(matches!(
        can_terminate_outcome(50, failed(ESRCH)),
        Err(PlatformError::ProcessNotFound(50))
    ));
}

#[test]
fn test_macos_kernel_outcomes() {
    let ops = MacOSKernelOps::new();
    let none = PinEvidence::NoEvidence;
    assert!(ops.force_kill_outcome(8, ok(), none).is_ok());
    assert!(matches!(
        ops.force_kill_outcome(8, failed(ESRCH), none),
        Err(PlatformError::ProcessNotFound(8))
    ));
    match ops.force_kill_outcome(8, failed(EPERM), none) {
        Err(PlatformError::PermissionDenied(m)) => assert_eq!(m, "Cannot kill process 8"),
        other => panic!("unexpected: {:?}", other),
    }
    match ops.force_kill_outcome(1, failed(EINVAL), pin_evidence(1, false)) {
        Err(PlatformError::ProcessUnkillable(m)) => {
            assert_eq!(m, "Kernel process cannot be killed")
        }
        other => panic!("unexpected: {:?}", other),
    }
    match ops.force_kill_outcome(8, failed(EINVAL), none) {
        Err(PlatformError::SystemCallFailed(m)) => assert_eq!(m, "kill() failed with errno 22"),
        other => panic!("unexpected: {:?}", other),
    }
    match ops.suspend_outcome(8, failed(EPERM), none) {
        Err(PlatformError::PermissionDenied(m)) => assert_eq!(m, "Cannot suspend process 8"),
        other => panic!("unexpected: {:?}", other),
    }
    match ops.suspend_outcome(8, failed(5), none) {
        Err(PlatformError::SystemCallFailed(m)) => {
            assert_eq!(m, "kill(SIGSTOP) failed with errno 5")
        }
        other => panic!("unexpected: {:?}", other),
    }
    match ops.resume_outcome(8, failed(EPERM), none) {
        Err(PlatformError::PermissionDenied(m)) => assert_eq!(m, "Cannot resume process 8"),
        other => panic!("unexpected: {:?}", other),
    }
    match ops.resume_outcome(8, failed(-3), none) {
        Err(PlatformError::SystemCallFailed(m)) => {
            assert_eq!(m, "kill(SIGCONT) failed with errno -3")
        }
        other => panic!("unexpected: {:?}", other),
    }
    assert!(ops.suspend_outcome(8, ok(), none).is_ok());
    assert!(ops.resume_outcome(8, ok(), none).is_ok());
    assert!(matches!(
        ops.resume_outcome(8, failed(ESRCH), none),
        Err(PlatformError::ProcessNotFound(8))
    ));
}

#[test]
fn test_accepted_kill_of_a_pinned_process_is_unkillable() {
    let ops = MacOSKernelOps::new();
    let pinned = pin_evidence(8, true);
    assert_eq!(pinned, PinEvidence::PendingIo);
    match ops.force_kill_outcome(8, ok(), pinned) {
        Err(PlatformError::ProcessUnkillable(m)) => {
            assert_eq!(m, "Process 8 has pending I/O operations")
        }
        other => panic!("unexpected: {:?}", other),
    }
    match ops.suspend_outcome(8, ok(), pinned) {
        Err(PlatformError::ProcessUnkillable(m)) => {
            assert_eq!(m, "Process 8 has pending I/O operations")
        }
        other => panic!("unexpected: {:?}", other),
    }
    match ops.resume_outcome(8, failed(EINVAL), pinned) {
        Err(PlatformError::ProcessUnkillable(m)) => {
            assert_eq!(m, "Process 8 has pending I/O operations")
        }
        other => panic!("unexpected: {:?}", other),
    }
    // The error code decides before the evidence does.
    assert!(matches!(
        ops.force_kill_outcome(8, failed(ESRCH), pinned),
        Err(PlatformError::ProcessNotFound(8))
    ));
    assert!(matches!(
        ops.suspend_outcome(8, failed(EPERM), pinned),
        Err(PlatformError::PermissionDenied(_))
    ));
}

#[test]
fn test_pin_evidence() {
    assert_eq!(pin_evidence(0, false), PinEvidence::KernelProcess);
    assert_eq!(pin_evidence(1, true), PinEvidence::KernelProcess);
    assert_eq!(pin_evidence(2, true), PinEvidence::PendingIo);
    assert_eq!(pin_evidence(2, false), PinEvidence::NoEvidence);
    assert_eq!(pin_evidence(u32::MAX, true), PinEvidence::PendingIo);
}

#[test]
fn test_action_plan() {
    assert!(matches!(
        plan_action(10, false, None, ProcessAction::Kill),
        ActionPlan::Refuse(ActionResult::ProcessNotFound)
    ));
    match plan_action(1, true, Some("launchd"), ProcessAction::Terminate) {
        ActionPlan::Refuse(ActionResult::PermissionDenied(m)) => {
            assert_eq!(m, "Process 1 is protected and cannot be modified")
        }
        other => panic!("unexpected: {:?}", other),
    }
    assert!(matches!(
        plan_action(10, true, Some("WindowServer"), ProcessAction::Suspend),
        ActionPlan::Refuse(ActionResult::PermissionDenied(_))
    ));
    assert!(matches!(
        plan_action(10, true, Some("vim"), ProcessAction::Terminate),
        ActionPlan::Send(Signal::Terminate)
    ));
    assert!(matches!(
        plan_action(10, true, Some("vim"), ProcessAction::Kill),
        ActionPlan::Send(Signal::Kill)
    ));
    assert!(matches!(
        plan_action(10, true, None, ProcessAction::Suspend),
        ActionPlan::Send(Signal::Stop)
    ));
    assert!(matches!(
        plan_action(10, true, Some("vim"), ProcessAction::Resume),
        ActionPlan::Send(Signal::Continue)
    ));
}

#[test]
fn test_action_results() {
    match execute_action(12, ProcessAction::Terminate, ok(), false) {
        ActionResult::Success(m) => assert_eq!(m, "Process 12 terminated successfully"),
        other => panic!("unexpected: {:?}", other),
    }
    match execute_action(12, ProcessAction::Kill, ok(), false) {
        ActionResult::Success(m) => assert_eq!(m, "Process 12 killed successfully"),
        other => panic!("unexpected: {:?}", other),
    }
    match execute_action(12, ProcessAction::Suspend, ok(), false) {
        ActionResult::Success(m) => assert_eq!(m, "Process 12 suspended successfully"),
        other => panic!("unexpected: {:?}", other),
    }
    match execute_action(12, ProcessAction::Resume, ok(), false) {
        ActionResult::Success(m) => assert_eq!(m, "Process 12 resumed successfully"),
        other => panic!("unexpected: {:?}", other),
    }
    assert!(matches!(
        execute_action(12, ProcessAction::Kill, failed(ESRCH), true),
        ActionResult::ProcessNotFound
    ));
    match execute_action(12, ProcessAction::Suspend, failed(EPERM), false) {
        ActionResult::PermissionDenied(m) => assert_eq!(m, "Permission denied to suspend process 12"),
        other => panic!("unexpected: {:?}", other),
    }
    match execute_action(12, ProcessAction::Resume, failed(EINVAL), false) {
        ActionResult::UnknownError(m) => assert_eq!(m, "Invalid signal for resume operation"),
        other => panic!("unexpected: {:?}", other),
    }
    match execute_action(1, ProcessAction::Kill, failed(5), true) {
        ActionResult::ProcessUnkillable(m) => {
            assert_eq!(m, "Process 1 is a kernel process and cannot be modified")
        }
        other => panic!("unexpected: {:?}", other),
    }
    match execute_action(12, ProcessAction::Kill, failed(5), true) {
        ActionResult::ProcessUnkillable(m) => {
            assert_eq!(m, "Process 12 has pending I/O operations")
        }
        other => panic!("unexpected: {:?}", other),
    }
    match execute_action(12, ProcessAction::Terminate, failed(5), false) {
        ActionResult::UnknownError(m) => {
            assert_eq!(m, "Failed to terminate process 12: error code 5")
        }
        other => panic!("unexpected: {:?}", other),
    }
}

#[test]
fn test_action_response() {
    let (kind, text) = action_response(ActionResult::ProcessNotFound);
    assert_eq!(kind, CActionResult::ProcessNotFound);
    assert_eq!(text, "Process not found");
    let (kind, text) = action_response(ActionResult::Success("done".to_string()));
    assert_eq!(kind, CActionResult::Success);
    assert_eq!(text, "done");
    let (kind, text) = action_response(ActionResult::AlreadyInState("same".to_string()));
    assert_eq!(kind, CActionResult::AlreadyInState);
    assert_eq!(text, "same");
    assert_eq!(action_response(ActionResult::PermissionDenied("p".into())).0, CActionResult::PermissionDenied);
    assert_eq!(action_response(ActionResult::ProcessUnkillable("p".into())).0, CActionResult::ProcessUnkillable);
    assert_eq!(action_response(ActionResult::UnknownError("p".into())).0, CActionResult::UnknownError);
}

#[test]
fn test_describe() {
    assert_eq!(describe("a ", 0, " b"), "a 0 b");
    assert_eq!(describe("", -15, ""), "-15");
    assert_eq!(describe("n=", i64::MIN, "!"), "n=-9223372036854775808!");
    assert_eq!(describe("n=", i64::MAX, ""), "n=9223372036854775807");
}
