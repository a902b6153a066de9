//! Process control: which targets may be touched, and what the host's answer
//! to a signal or priority call means.
//!
//! The calls themselves are made by the caller. This module decides before a
//! call whether it may be made at all, and classifies afterwards what came
//! back: the call's return code and the error code that the host left.

use crate::numeric::{decimal, signed_decimal, write_signed_decimal};
use crate::platform::{str_of, KernelOperations, PlatformError, PlatformResult, Signal};
use crate::text::{append_chars, chars_of, same_chars, string_from_chars};
use vstd::prelude::*;

verus! {

/// Error code: operation not permitted.
pub const EPERM: i32 = 1;

/// Error code: no such process.
pub const ESRCH: i32 = 3;

/// Error code: permission denied.
pub const EACCES: i32 = 13;

/// Error code: invalid argument.
pub const EINVAL: i32 = 22;

/// The highest priority that can be set.
pub const PRIORITY_MIN: i32 = -20;

/// The lowest priority that can be set.
pub const PRIORITY_MAX: i32 = 19;

/// What the host answered to one call: the call's return value and the
/// error code it left behind.
#[derive(Debug, Clone, Copy, PartialEq, Eq, Structural)]
pub struct OsReply {
    pub rc: i32,
    pub errno: i32,
}

/// What is asked of the host about a process.
#[derive(Debug, Clone, Copy, PartialEq, Eq, Structural)]
pub enum ControlRequest {
    /// Nothing is delivered; the host only looks the process up.
    CheckExistence,
    /// The signal is delivered.
    Deliver(Signal),
    /// The priority is read.
    GetPriority,
    /// The priority is set.
    SetPriority,
}

/// What is known to hold a process in the kernel.
#[derive(Debug, Clone, Copy, PartialEq, Eq, Structural)]
pub enum PinEvidence {
    /// Nothing is known.
    NoEvidence,
    /// The process belongs to the kernel itself.
    KernelProcess,
    /// The process is in uninterruptible wait for I/O.
    PendingIo,
}

/// What an existence check found.
#[derive(Debug, Clone, Copy, PartialEq, Eq, Structural)]
pub enum Existence {
    /// The process exists and may be signalled.
    Present,
    /// The process exists, but the caller may not signal it.
    PresentButDenied,
    /// There is no such process.
    Absent,
    /// The host's answer does not tell.
    Unknown,
}

/// `prefix`, the number, `suffix`.
pub open spec fn numbered(prefix: Seq<char>, number: int, suffix: Seq<char>) -> Seq<char> {
    prefix + signed_decimal(number) + suffix
}

/// Builds a message around a number.
pub fn describe(prefix: &str, number: i64, suffix: &str) -> (text: String)
    ensures
        text@ == numbered(prefix@, number as int, suffix@),
{
    let mut out = chars_of(prefix);
    append_chars(&mut out, &write_signed_decimal(number));
    append_chars(&mut out, &chars_of(suffix));
    string_from_chars(&out)
}

/// The process name is one of the system processes that are never touched.
pub open spec fn is_critical_name(name: Seq<char>) -> bool {
    name == "kernel_task"@ || name == "launchd"@ || name == "systemd"@ || name == "WindowServer"@
        || name == "loginwindow"@
}

/// The process is protected: it is process 0 or 1, or it bears the name of a
/// critical system process.
pub open spec fn protected(pid: u32, name: Option<Seq<char>>) -> bool {
    pid == 0 || pid == 1 || (name matches Some(n) && is_critical_name(n))
}

/// The request changes the process.
pub open spec fn mutates(request: ControlRequest) -> bool {
    request is Deliver || request is SetPriority
}

/// Whether a process is protected. `name` is the name under which the host
/// lists the process, where it lists it at all.
///
/// Processes 0 and 1 are always protected; a process that the host does not
/// list is protected only if it is one of these two.
pub fn is_protected(pid: u32, name: Option<&str>) -> (r: bool)
    ensures
        r == protected(pid, str_of(name)),
        pid == 0 || pid == 1 ==> r,
        pid > 1 && name is None ==> !r,
{
    if pid == 0 || pid == 1 {
        return true;
    }
    match name {
        Some(n) => {
            let n = chars_of(n);
            same_chars(&n, &chars_of("kernel_task")) || same_chars(&n, &chars_of("launchd"))
                || same_chars(&n, &chars_of("systemd")) || same_chars(
                &n,
                &chars_of("WindowServer"),
            ) || same_chars(&n, &chars_of("loginwindow"))
        },
        None => false,
    }
}

/// Decides whether a request may be sent to a process: a request that
/// changes a protected process is refused, whatever rights the caller has.
pub fn authorize(pid: u32, name: Option<&str>, request: ControlRequest) -> (r: PlatformResult<()>)
    ensures
        r is Err <==> mutates(request) && protected(pid, str_of(name)),
        r matches Err(e) ==> e matches PlatformError::PermissionDenied(m) && m@ == numbered(
            "Process "@,
            pid as int,
            " is protected and cannot be modified"@,
        ),
{
    let changes = match request {
        ControlRequest::Deliver(_) => true,
        ControlRequest::SetPriority => true,
        ControlRequest::CheckExistence => false,
        ControlRequest::GetPriority => false,
    };
    if changes && is_protected(pid, name) {
        Err(
            PlatformError::PermissionDenied(
                describe("Process ", pid as i64, " is protected and cannot be modified"),
            ),
        )
    } else {
        Ok(())
    }
}

/// What the host's answer to an existence check means.
pub open spec fn existence_of(reply: OsReply) -> Existence {
    if reply.rc == 0 {
        Existence::Present
    } else if reply.errno == ESRCH {
        Existence::Absent
    } else if reply.errno == EPERM {
        Existence::PresentButDenied
    } else {
        Existence::Unknown
    }
}

/// Reads the host's answer to an existence check.
pub fn check_existence(reply: OsReply) -> (found: Existence)
    ensures
        found == existence_of(reply),
{
    if reply.rc == 0 {
        Existence::Present
    } else if reply.errno == ESRCH {
        Existence::Absent
    } else if reply.errno == EPERM {
        Existence::PresentButDenied
    } else {
        Existence::Unknown
    }
}

/// The kind of failure that an answer to a signal stands for.
#[derive(Debug, Clone, Copy, PartialEq, Eq, Structural)]
pub enum SignalFailure {
    /// The process is gone.
    NotFound,
    /// The caller lacks the rights.
    PermissionDenied,
    /// The host refused, and the process is pinned in the kernel.
    Unkillable,
    /// Anything else.
    SystemCallFailed,
}

/// What is known to hold process `pid` in the kernel: that it belongs to
/// the kernel itself (process 0 and process 1), or else that the host lists
/// it in uninterruptible wait.
pub open spec fn evidence_of(pid: u32, pending_io: bool) -> PinEvidence {
    if pid == 0 || pid == 1 {
        PinEvidence::KernelProcess
    } else if pending_io {
        PinEvidence::PendingIo
    } else {
        PinEvidence::NoEvidence
    }
}

/// Weighs what is known to hold process `pid` in the kernel. `pending_io`
/// says whether the host lists the process in uninterruptible wait.
pub fn pin_evidence(pid: u32, pending_io: bool) -> (evidence: PinEvidence)
    ensures
        evidence == evidence_of(pid, pending_io),
{
    if pid == 0 || pid == 1 {
        PinEvidence::KernelProcess
    } else if pending_io {
        PinEvidence::PendingIo
    } else {
        PinEvidence::NoEvidence
    }
}

/// What the host's answer to a signal means, given what is known to hold
/// the process in the kernel.
///
/// A refused signal is classified by the error code: no such process, not
/// permitted; anything else counts as "unkillable" where there is evidence,
/// and as a failed system call where there is none. An accepted signal is a
/// success, unless there is evidence that the process is held in the
/// kernel: then the signal cannot take effect, and the process is
/// unkillable.
pub open spec fn signal_failure(signal: Signal, reply: OsReply, evidence: PinEvidence) -> Option<
    SignalFailure,
> {
    if reply.rc == 0 {
        if evidence != PinEvidence::NoEvidence {
            Some(SignalFailure::Unkillable)
        } else {
            None
        }
    } else if reply.errno == ESRCH {
        Some(SignalFailure::NotFound)
    } else if reply.errno == EPERM {
        Some(SignalFailure::PermissionDenied)
    } else if evidence != PinEvidence::NoEvidence {
        Some(SignalFailure::Unkillable)
    } else {
        Some(SignalFailure::SystemCallFailed)
    }
}

/// Classifies the host's answer to a signal.
pub fn classify_signal_reply(signal: Signal, reply: OsReply, evidence: PinEvidence) -> (failure:
    Option<SignalFailure>)
    ensures
        failure == signal_failure(signal, reply, evidence),
{
    let pinned = match evidence {
        PinEvidence::NoEvidence => false,
        _ => true,
    };
    if reply.rc == 0 {
        if pinned {
            Some(SignalFailure::Unkillable)
        } else {
            None
        }
    } else if reply.errno == ESRCH {
        Some(SignalFailure::NotFound)
    } else if reply.errno == EPERM {
        Some(SignalFailure::PermissionDenied)
    } else if pinned {
        Some(SignalFailure::Unkillable)
    } else {
        Some(SignalFailure::SystemCallFailed)
    }
}

/// Why a process is reported as unkillable.
pub open spec fn pin_reason(pid: u32, evidence: PinEvidence) -> Seq<char> {
    match evidence {
        PinEvidence::PendingIo => numbered("Process "@, pid as int, " has pending I/O operations"@),
        _ => "Kernel process cannot be killed"@,
    }
}

/// The error that a failed signal is reported with. `denied` is the text
/// that goes before the process id where permission is lacking, `failed`
/// the text that goes before the error code where the code says nothing.
pub open spec fn signal_error_matches(
    e: PlatformError,
    failure: SignalFailure,
    pid: u32,
    errno: i32,
    evidence: PinEvidence,
    denied: Seq<char>,
    failed: Seq<char>,
) -> bool {
    match failure {
        SignalFailure::NotFound => e matches PlatformError::ProcessNotFound(p) && p == pid,
        SignalFailure::PermissionDenied => e matches PlatformError::PermissionDenied(m) && m@
            == numbered(denied, pid as int, ""@),
        SignalFailure::Unkillable => e matches PlatformError::ProcessUnkillable(m) && m@
            == pin_reason(pid, evidence),
        SignalFailure::SystemCallFailed => e matches PlatformError::SystemCallFailed(m) && m@
            == numbered(failed, errno as int, ""@),
    }
}

/// `r` reports what came of `signal`, sent to process `pid`: success where
/// `signal_failure` finds none, else the error of the failure it finds.
pub open spec fn reports_signal(
    r: PlatformResult<()>,
    pid: u32,
    signal: Signal,
    reply: OsReply,
    evidence: PinEvidence,
    denied: Seq<char>,
    failed: Seq<char>,
) -> bool {
    match signal_failure(signal, reply, evidence) {
        None => r is Ok,
        Some(failure) => r matches Err(e) && signal_error_matches(
            e,
            failure,
            pid,
            reply.errno,
            evidence,
            denied,
            failed,
        ),
    }
}

/// Reports what came of a signal, with the texts of the operation that sent
/// it.
fn report_signal(
    pid: u32,
    signal: Signal,
    reply: OsReply,
    evidence: PinEvidence,
    denied: &str,
    failed: &str,
) -> (r: PlatformResult<()>)
    ensures
        reports_signal(r, pid, signal, reply, evidence, denied@, failed@),
{
    match classify_signal_reply(signal, reply, evidence) {
        None => Ok(()),
        Some(SignalFailure::NotFound) => Err(PlatformError::ProcessNotFound(pid)),
        Some(SignalFailure::PermissionDenied) => Err(
            PlatformError::PermissionDenied(describe(denied, pid as i64, "")),
        ),
        Some(SignalFailure::Unkillable) => Err(
            PlatformError::ProcessUnkillable(
                match evidence {
                    PinEvidence::PendingIo => describe(
                        "Process ",
                        pid as i64,
                        " has pending I/O operations",
                    ),
                    _ => "Kernel process cannot be killed".to_owned(),
                },
            ),
        ),
        Some(SignalFailure::SystemCallFailed) => Err(
            PlatformError::SystemCallFailed(describe(failed, reply.errno as i64, "")),
        ),
    }
}

/// Reports what came of a signal that was sent to process `pid`. `evidence`
/// is what the caller knows to hold the process in the kernel.
pub fn send_signal_outcome(pid: u32, signal: Signal, reply: OsReply, evidence: PinEvidence) -> (r:
    PlatformResult<()>)
    ensures
        r is Ok <==> signal_failure(signal, reply, evidence) is None,
        reports_signal(
            r,
            pid,
            signal,
            reply,
            evidence,
            "Cannot send signal to process "@,
            "kill() failed with errno "@,
        ),
{
    report_signal(
        pid,
        signal,
        reply,
        evidence,
        "Cannot send signal to process ",
        "kill() failed with errno ",
    )
}

/// The priority that is handed to the host: the requested one, held within
/// -20 ..= 19.
pub open spec fn clamped_priority(priority: i32) -> i32 {
    if priority < -20 {
        -20i32
    } else if priority > 19 {
        19i32
    } else {
        priority
    }
}

/// Holds a requested priority within the range that the host accepts.
pub fn clamp_priority(priority: i32) -> (clamped: i32)
    ensures
        clamped == clamped_priority(priority),
        -20 <= clamped <= 19,
{
    if priority < PRIORITY_MIN {
        PRIORITY_MIN
    } else if priority > PRIORITY_MAX {
        PRIORITY_MAX
    } else {
        priority
    }
}

/// Reports what came of asking for the priority of process `pid`. The host
/// returns the priority itself, and -1 is a priority as well as the sign of
/// an error: it is an error only if an error code was left.
pub fn get_priority_outcome(pid: u32, reply: OsReply) -> (r: PlatformResult<i32>)
    ensures
        r is Ok <==> !(reply.errno != 0 && reply.rc == -1),
        r matches Ok(priority) ==> priority == reply.rc,
        r matches Err(e) ==> {
            if reply.errno == ESRCH {
                e matches PlatformError::ProcessNotFound(p) && p == pid
            } else if reply.errno == EINVAL {
                e matches PlatformError::SystemCallFailed(m) && m@ == "Invalid priority class"@
            } else {
                e matches PlatformError::SystemCallFailed(m) && m@ == numbered(
                    "getpriority() failed with errno "@,
                    reply.errno as int,
                    ""@,
                )
            }
        },
{
    if reply.errno != 0 && reply.rc == -1 {
        if reply.errno == ESRCH {
            Err(PlatformError::ProcessNotFound(pid))
        } else if reply.errno == EINVAL {
            Err(PlatformError::SystemCallFailed("Invalid priority class".to_owned()))
        } else {
            Err(
                PlatformError::SystemCallFailed(
                    describe("getpriority() failed with errno ", reply.errno as i64, ""),
                ),
            )
        }
    } else {
        Ok(reply.rc)
    }
}

/// Reports what came of setting the priority of process `pid`.
pub fn set_priority_outcome(pid: u32, reply: OsReply) -> (r: PlatformResult<()>)
    ensures
        r is Ok <==> reply.rc == 0,
        r matches Err(e) ==> {
            if reply.errno == ESRCH {
                e matches PlatformError::ProcessNotFound(p) && p == pid
            } else if reply.errno == EPERM {
                e matches PlatformError::PermissionDenied(m) && m@ == numbered(
                    "Cannot set priority for process "@,
                    pid as int,
                    ""@,
                )
            } else if reply.errno == EACCES {
                e matches PlatformError::PermissionDenied(m) && m@
                    == "Insufficient privileges to set priority"@
            } else {
                e matches PlatformError::SystemCallFailed(m) && m@ == numbered(
                    "setpriority() failed with errno "@,
                    reply.errno as int,
                    ""@,
                )
            }
        },
{
    if reply.rc == 0 {
        Ok(())
    } else if reply.errno == ESRCH {
        Err(PlatformError::ProcessNotFound(pid))
    } else if reply.errno == EPERM {
        Err(
            PlatformError::PermissionDenied(
                describe("Cannot set priority for process ", pid as i64, ""),
            ),
        )
    } else if reply.errno == EACCES {
        Err(PlatformError::PermissionDenied("Insufficient privileges to set priority".to_owned()))
    } else {
        Err(
            PlatformError::SystemCallFailed(
                describe("setpriority() failed with errno ", reply.errno as i64, ""),
            ),
        )
    }
}

/// Whether process `pid` can be terminated, given the host's answer to an
/// existence check. Processes 0 and 1 never can, whatever the host says.
pub fn can_terminate_outcome(pid: u32, reply: OsReply) -> (r: PlatformResult<bool>)
    ensures
        r is Err <==> pid > 1 && existence_of(reply) == Existence::Absent,
        r matches Err(e) ==> e matches PlatformError::ProcessNotFound(p) && p == pid,
        r matches Ok(can) ==> can == (pid > 1 && existence_of(reply) == Existence::Present),
{
    if pid == 0 || pid == 1 {
        return Ok(false);
    }
    match check_existence(reply) {
        Existence::Present => Ok(true),
        Existence::Absent => Err(PlatformError::ProcessNotFound(pid)),
        _ => Ok(false),
    }
}

/// A signal that found no process and an existence check that gets the same
/// answer from the host agree: the signal is reported as "not found" exactly
/// when the check reports the process absent.
pub proof fn lemma_not_found_means_absent(signal: Signal, reply: OsReply, evidence: PinEvidence)
    ensures
        signal_failure(signal, reply, evidence) == Some(SignalFailure::NotFound) <==> existence_of(
            reply,
        ) == Existence::Absent,
{
}

/// Kernel operations on macOS.
#[derive(Debug, Clone, Copy)]
pub struct MacOSKernelOps;

impl MacOSKernelOps {
    /// The kernel operations of a macOS host.
    pub fn new() -> (ops: Self)
        ensures
            ops == MacOSKernelOps,
    {
        MacOSKernelOps
    }

    /// Whether the process belongs to the kernel itself: process 0 is the
    /// kernel, process 1 the first process that it starts.
    pub fn is_kernel_process(&self, pid: u32) -> (r: bool)
        ensures
            r == (pid == 0 || pid == 1),
    {
        pid == 0 || pid == 1
    }

    /// Reports what came of a kill signal that was sent to process `pid`.
    /// `evidence` is what is known to hold the process in the kernel: with
    /// such evidence the process is reported as unkillable, also where the
    /// host accepted the signal.
    pub fn force_kill_outcome(&self, pid: u32, reply: OsReply, evidence: PinEvidence) -> (r:
        PlatformResult<()>)
        ensures
            r is Ok <==> reply.rc == 0 && evidence == PinEvidence::NoEvidence,
            reports_signal(
                r,
                pid,
                Signal::Kill,
                reply,
                evidence,
                "Cannot kill process "@,
                "kill() failed with errno "@,
            ),
    {
        report_signal(
            pid,
            Signal::Kill,
            reply,
            evidence,
            "Cannot kill process ",
            "kill() failed with errno ",
        )
    }

    /// Reports what came of a stop signal that was sent to process `pid`.
    /// `evidence` is what is known to hold the process in the kernel: with
    /// such evidence the process is reported as unkillable, also where the
    /// host accepted the signal.
    pub fn suspend_outcome(&self, pid: u32, reply: OsReply, evidence: PinEvidence) -> (r:
        PlatformResult<()>)
        ensures
            r is Ok <==> reply.rc == 0 && evidence == PinEvidence::NoEvidence,
            reports_signal(
                r,
                pid,
                Signal::Stop,
                reply,
                evidence,
                "Cannot suspend process "@,
                "kill(SIGSTOP) failed with errno "@,
            ),
    {
        report_signal(
            pid,
            Signal::Stop,
            reply,
            evidence,
            "Cannot suspend process ",
            "kill(SIGSTOP) failed with errno ",
        )
    }

    /// Reports what came of a continue signal that was sent to process
    /// `pid`. `evidence` is what is known to hold the process in the kernel:
    /// with such evidence the process is reported as unkillable, also where
    /// the host accepted the signal.
    pub fn resume_outcome(&self, pid: u32, reply: OsReply, evidence: PinEvidence) -> (r:
        PlatformResult<()>)
        ensures
            r is Ok <==> reply.rc == 0 && evidence == PinEvidence::NoEvidence,
            reports_signal(
                r,
                pid,
                Signal::Continue,
                reply,
                evidence,
                "Cannot resume process "@,
                "kill(SIGCONT) failed with errno "@,
            ),
    {
        report_signal(
            pid,
            Signal::Continue,
            reply,
            evidence,
            "Cannot resume process ",
            "kill(SIGCONT) failed with errno ",
        )
    }
}

/// Kernel operations on Windows. None is available yet: every operation
/// reports that it is not supported.
#[derive(Debug, Clone, Copy)]
pub struct WindowsKernelOps;

impl WindowsKernelOps {
    /// The kernel operations of a Windows host.
    pub fn new() -> (ops: Self)
        ensures
            ops == WindowsKernelOps,
    {
        WindowsKernelOps
    }
}

/// `r` is the error "not supported" with the text `feature`.
pub open spec fn is_unsupported<T>(r: PlatformResult<T>, feature: Seq<char>) -> bool {
    r matches Err(PlatformError::NotSupported(m)) && m@ == feature
}

impl KernelOperations for WindowsKernelOps {
    fn force_kill(&self, pid: u32) -> (r: PlatformResult<()>)
        ensures
            is_unsupported(r, "Windows force kill not yet implemented"@),
    {
        Err(PlatformError::NotSupported("Windows force kill not yet implemented".to_owned()))
    }

    fn suspend_process(&self, pid: u32) -> (r: PlatformResult<()>)
        ensures
            is_unsupported(r, "Windows process suspension not yet implemented"@),
    {
        Err(
            PlatformError::NotSupported(
                "Windows process suspension not yet implemented".to_owned(),
            ),
        )
    }

    fn resume_process(&self, pid: u32) -> (r: PlatformResult<()>)
        ensures
            is_unsupported(r, "Windows process resumption not yet implemented"@),
    {
        Err(
            PlatformError::NotSupported(
                "Windows process resumption not yet implemented".to_owned(),
            ),
        )
    }

    /// On Windows the idle process has id 0 and the system process id 4.
    fn is_kernel_process(&self, pid: u32) -> (r: bool)
        ensures
            r == (pid == 0 || pid == 4),
    {
        pid == 0 || pid == 4
    }

    fn get_process_priority(&self, pid: u32) -> (r: PlatformResult<i32>)
        ensures
            is_unsupported(r, "Windows priority query not yet implemented"@),
    {
        Err(PlatformError::NotSupported("Windows priority query not yet implemented".to_owned()))
    }

    fn set_process_priority(&self, pid: u32, priority: i32) -> (r: PlatformResult<()>)
        ensures
            is_unsupported(r, "Windows priority setting not yet implemented"@),
    {
        Err(PlatformError::NotSupported("Windows priority setting not yet implemented".to_owned()))
    }
}

/// What can be done to a process.
#[derive(Debug, Clone, Copy, PartialEq, Eq, Structural)]
pub enum ProcessAction {
    Terminate,
    Kill,
    Suspend,
    Resume,
}

/// What came of an action on a process.
#[derive(Debug, Clone)]
pub enum ActionResult {
    Success(String),
    ProcessNotFound,
    PermissionDenied(String),
    ProcessUnkillable(String),
    AlreadyInState(String),
    UnknownError(String),
}

/// The kind of an action result, without its text.
#[derive(Debug, Clone, Copy, PartialEq, Eq, Structural)]
pub enum CActionResult {
    Success,
    ProcessNotFound,
    PermissionDenied,
    ProcessUnkillable,
    AlreadyInState,
    UnknownError,
}

impl ProcessAction {
    /// The signal that carries out the action.
    pub open spec fn signal_spec(self) -> Signal {
        match self {
            ProcessAction::Terminate => Signal::Terminate,
            ProcessAction::Kill => Signal::Kill,
            ProcessAction::Suspend => Signal::Stop,
            ProcessAction::Resume => Signal::Continue,
        }
    }

    /// The signal that carries out the action.
    pub fn signal(self) -> (s: Signal)
        ensures
            s == self.signal_spec(),
    {
        match self {
            ProcessAction::Terminate => Signal::Terminate,
            ProcessAction::Kill => Signal::Kill,
            ProcessAction::Suspend => Signal::Stop,
            ProcessAction::Resume => Signal::Continue,
        }
    }

    /// The verb that names the action in messages.
    pub open spec fn verb(self) -> Seq<char> {
        match self {
            ProcessAction::Terminate => "terminate"@,
            ProcessAction::Kill => "kill"@,
            ProcessAction::Suspend => "suspend"@,
            ProcessAction::Resume => "resume"@,
        }
    }

    /// How a message says that the action has been carried out.
    pub open spec fn done(self) -> Seq<char> {
        match self {
            ProcessAction::Terminate => " terminated successfully"@,
            ProcessAction::Kill => " killed successfully"@,
            ProcessAction::Suspend => " suspended successfully"@,
            ProcessAction::Resume => " resumed successfully"@,
        }
    }
}

/// What is done about an action before anything is sent.
#[derive(Debug)]
pub enum ActionPlan {
    /// The action is refused, with this result.
    Refuse(ActionResult),
    /// This signal is to be sent.
    Send(Signal),
}

/// Decides what to do about an action on process `pid`. `listed` says
/// whether the host lists the process, `name` under which name.
///
/// A process that is not listed is not found. A protected process is not
/// touched. Else the action's signal is to be sent.
pub fn plan_action(pid: u32, listed: bool, name: Option<&str>, action: ProcessAction) -> (plan:
    ActionPlan)
    ensures
        !listed ==> plan matches ActionPlan::Refuse(ActionResult::ProcessNotFound),
        listed && protected(pid, str_of(name)) ==> (plan matches ActionPlan::Refuse(
            ActionResult::PermissionDenied(m),
        ) && m@ == numbered("Process "@, pid as int, " is protected and cannot be modified"@)),
        listed && !protected(pid, str_of(name)) ==> (plan matches ActionPlan::Send(s) && s
            == action.signal_spec()),
{
    if !listed {
        return ActionPlan::Refuse(ActionResult::ProcessNotFound);
    }
    if is_protected(pid, name) {
        return ActionPlan::Refuse(
            ActionResult::PermissionDenied(
                describe("Process ", pid as i64, " is protected and cannot be modified"),
            ),
        );
    }
    ActionPlan::Send(action.signal())
}

/// The text that reports a failure of `action` on process `pid` that is not
/// classified.
pub open spec fn failure_text(action: ProcessAction, pid: u32, errno: i32) -> Seq<char> {
    "Failed to "@ + action.verb() + " process "@ + decimal(pid as nat) + ": error code "@
        + signed_decimal(errno as int)
}

/// `result` reports what the host's answer `reply` to the signal of `action`
/// means.
pub open spec fn reports(
    result: ActionResult,
    pid: u32,
    action: ProcessAction,
    reply: OsReply,
    pending_io: bool,
) -> bool {
    if reply.rc == 0 {
        result matches ActionResult::Success(m) && m@ == "Process "@ + decimal(pid as nat)
            + action.done()
    } else if reply.errno == ESRCH {
        result is ProcessNotFound
    } else if reply.errno == EPERM {
        result matches ActionResult::PermissionDenied(m) && m@ == "Permission denied to "@
            + action.verb() + " process "@ + decimal(pid as nat)
    } else if reply.errno == EINVAL {
        result matches ActionResult::UnknownError(m) && m@ == "Invalid signal for "@
            + action.verb() + " operation"@
    } else if pid == 0 || pid == 1 {
        result matches ActionResult::ProcessUnkillable(m) && m@ == numbered(
            "Process "@,
            pid as int,
            " is a kernel process and cannot be modified"@,
        )
    } else if pending_io {
        result matches ActionResult::ProcessUnkillable(m) && m@ == numbered(
            "Process "@,
            pid as int,
            " has pending I/O operations"@,
        )
    } else {
        result matches ActionResult::UnknownError(m) && m@ == failure_text(
            action,
            pid,
            reply.errno,
        )
    }
}

/// Reports what came of the signal that was sent for `action`. `pending_io`
/// says whether the process is in uninterruptible wait.
///
/// Success is reported with a message. A failure is classified by the error
/// code; where the code says nothing, a kernel process and a process with
/// pending I/O are reported as unkillable.
pub fn execute_action(pid: u32, action: ProcessAction, reply: OsReply, pending_io: bool) -> (result:
    ActionResult)
    ensures
        reports(result, pid, action, reply, pending_io),
{
    let verb = match action {
        ProcessAction::Terminate => "terminate",
        ProcessAction::Kill => "kill",
        ProcessAction::Suspend => "suspend",
        ProcessAction::Resume => "resume",
    };
    if reply.rc == 0 {
        let done = match action {
            ProcessAction::Terminate => " terminated successfully",
            ProcessAction::Kill => " killed successfully",
            ProcessAction::Suspend => " suspended successfully",
            ProcessAction::Resume => " resumed successfully",
        };
        ActionResult::Success(describe("Process ", pid as i64, done))
    } else if reply.errno == ESRCH {
        ActionResult::ProcessNotFound
    } else if reply.errno == EPERM {
        let mut out = chars_of("Permission denied to ");
        append_chars(&mut out, &chars_of(verb));
        append_chars(&mut out, &chars_of(" process "));
        append_chars(&mut out, &write_signed_decimal(pid as i64));
        ActionResult::PermissionDenied(string_from_chars(&out))
    } else if reply.errno == EINVAL {
        let mut out = chars_of("Invalid signal for ");
        append_chars(&mut out, &chars_of(verb));
        append_chars(&mut out, &chars_of(" operation"));
        ActionResult::UnknownError(string_from_chars(&out))
    } else if pid == 0 || pid == 1 {
        ActionResult::ProcessUnkillable(
            describe("Process ", pid as i64, " is a kernel process and cannot be modified"),
        )
    } else if pending_io {
        ActionResult::ProcessUnkillable(
            describe("Process ", pid as i64, " has pending I/O operations"),
        )
    } else {
        let mut out = chars_of("Failed to ");
        append_chars(&mut out, &chars_of(verb));
        append_chars(&mut out, &chars_of(" process "));
        append_chars(&mut out, &write_signed_decimal(pid as i64));
        append_chars(&mut out, &chars_of(": error code "));
        append_chars(&mut out, &write_signed_decimal(reply.errno as i64));
        ActionResult::UnknownError(string_from_chars(&out))
    }
}

/// The kind and the text of an action result, as they are handed across the
/// language boundary.
pub fn action_response(result: ActionResult) -> (response: (CActionResult, String))
    ensures
        match result {
            ActionResult::Success(m) => response.0 == CActionResult::Success && response.1@ == m@,
            ActionResult::ProcessNotFound => response.0 == CActionResult::ProcessNotFound
                && response.1@ == "Process not found"@,
            ActionResult::PermissionDenied(m) => response.0 == CActionResult::PermissionDenied
                && response.1@ == m@,
            ActionResult::ProcessUnkillable(m) => response.0 == CActionResult::ProcessUnkillable
                && response.1@ == m@,
            ActionResult::AlreadyInState(m) => response.0 == CActionResult::AlreadyInState
                && response.1@ == m@,
            ActionResult::UnknownError(m) => response.0 == CActionResult::UnknownError
                && response.1@ == m@,
        },
{
    match result {
        ActionResult::Success(m) => (CActionResult::Success, m),
        ActionResult::ProcessNotFound => (
            CActionResult::ProcessNotFound,
            "Process not found".to_owned(),
        ),
        ActionResult::PermissionDenied(m) => (CActionResult::PermissionDenied, m),
        ActionResult::ProcessUnkillable(m) => (CActionResult::ProcessUnkillable, m),
        ActionResult::AlreadyInState(m) => (CActionResult::AlreadyInState, m),
        ActionResult::UnknownError(m) => (CActionResult::UnknownError, m),
    }
}

} // verus!
