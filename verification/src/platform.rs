//! Types shared by every part of the diagnostics engine: process identity and
//! state, signals, stack samples, and the errors that process control reports.

use crate::numeric::{decimal, signed_decimal, write_decimal, write_signed_decimal};
use crate::text::{append_chars, chars_of, string_from_chars};
use std::collections::HashMap;
use vstd::prelude::*;

verus! {

/// Result type for platform operations.
pub type PlatformResult<T> = Result<T, PlatformError>;

/// What a platform operation can fail with.
#[derive(Debug, Clone)]
pub enum PlatformError {
    /// The process does not exist (any more).
    ProcessNotFound(u32),
    /// The caller lacks the rights, or the target is protected.
    PermissionDenied(String),
    /// The call was accepted but the process is pinned in the kernel.
    ProcessUnkillable(String),
    /// A system call failed for a reason that is not classified.
    SystemCallFailed(String),
    /// The platform does not offer the feature.
    NotSupported(String),
    /// Any other error, with its code.
    Unknown(i32, String),
}

impl PlatformError {
    /// The text that describes the error.
    pub open spec fn message(&self) -> Seq<char> {
        match self {
            PlatformError::ProcessNotFound(pid) => "Process "@ + decimal(*pid as nat)
                + " not found"@,
            PlatformError::PermissionDenied(msg) => "Permission denied: "@ + msg@,
            PlatformError::ProcessUnkillable(reason) => "Process unkillable: "@ + reason@,
            PlatformError::SystemCallFailed(call) => "System call failed: "@ + call@,
            PlatformError::NotSupported(feature) => "Not supported: "@ + feature@,
            PlatformError::Unknown(code, msg) => "Unknown error "@ + signed_decimal(*code as int)
                + ": "@ + msg@,
        }
    }

    /// Renders the error as text.
    pub fn to_string(&self) -> (s: String)
        ensures
            s@ == self.message(),
    {
        let mut out: Vec<char> = Vec::new();
        match self {
            PlatformError::ProcessNotFound(pid) => {
                append_chars(&mut out, &chars_of("Process "));
                append_chars(&mut out, &write_decimal(*pid as u64));
                append_chars(&mut out, &chars_of(" not found"));
            },
            PlatformError::PermissionDenied(msg) => {
                append_chars(&mut out, &chars_of("Permission denied: "));
                append_chars(&mut out, &chars_of(msg.as_str()));
            },
            PlatformError::ProcessUnkillable(reason) => {
                append_chars(&mut out, &chars_of("Process unkillable: "));
                append_chars(&mut out, &chars_of(reason.as_str()));
            },
            PlatformError::SystemCallFailed(call) => {
                append_chars(&mut out, &chars_of("System call failed: "));
                append_chars(&mut out, &chars_of(call.as_str()));
            },
            PlatformError::NotSupported(feature) => {
                append_chars(&mut out, &chars_of("Not supported: "));
                append_chars(&mut out, &chars_of(feature.as_str()));
            },
            PlatformError::Unknown(code, msg) => {
                append_chars(&mut out, &chars_of("Unknown error "));
                append_chars(&mut out, &write_signed_decimal(*code as i64));
                append_chars(&mut out, &chars_of(": "));
                append_chars(&mut out, &chars_of(msg.as_str()));
            },
        }
        string_from_chars(&out)
    }
}

/// The scheduling state of a process.
#[derive(Debug, Clone, Copy, PartialEq, Eq, Structural)]
pub enum ProcessStatus {
    Running,
    Sleeping,
    Waiting,
    Zombie,
    Stopped,
    Idle,
    /// Uninterruptible sleep, usually waiting for I/O.
    UninterruptibleSleep,
    /// Found not to react to signals.
    Unkillable,
    Unknown,
}

impl ProcessStatus {
    /// The display name of the status.
    pub open spec fn name(&self) -> Seq<char> {
        match self {
            ProcessStatus::Running => "Running"@,
            ProcessStatus::Sleeping => "Sleeping"@,
            ProcessStatus::Waiting => "Waiting"@,
            ProcessStatus::Zombie => "Zombie"@,
            ProcessStatus::Stopped => "Stopped"@,
            ProcessStatus::Idle => "Idle"@,
            ProcessStatus::UninterruptibleSleep => "Uninterruptible"@,
            ProcessStatus::Unkillable => "Unkillable"@,
            ProcessStatus::Unknown => "Unknown"@,
        }
    }

    /// The display name of the status.
    pub fn as_str(&self) -> (s: &'static str)
        ensures
            s@ == self.name(),
    {
        match self {
            ProcessStatus::Running => "Running",
            ProcessStatus::Sleeping => "Sleeping",
            ProcessStatus::Waiting => "Waiting",
            ProcessStatus::Zombie => "Zombie",
            ProcessStatus::Stopped => "Stopped",
            ProcessStatus::Idle => "Idle",
            ProcessStatus::UninterruptibleSleep => "Uninterruptible",
            ProcessStatus::Unkillable => "Unkillable",
            ProcessStatus::Unknown => "Unknown",
        }
    }

    /// Whether the status points at a process that is stuck or dead.
    pub fn is_problematic(&self) -> (r: bool)
        ensures
            r == (*self == ProcessStatus::UninterruptibleSleep || *self == ProcessStatus::Unkillable
                || *self == ProcessStatus::Zombie),
    {
        match self {
            ProcessStatus::UninterruptibleSleep | ProcessStatus::Unkillable | ProcessStatus::Zombie => true,
            _ => false,
        }
    }

    /// Whether a process of this status is likely not to die when killed.
    pub fn is_unkillable(&self) -> (r: bool)
        ensures
            r == (*self == ProcessStatus::Unkillable || *self == ProcessStatus::UninterruptibleSleep),
    {
        match self {
            ProcessStatus::Unkillable | ProcessStatus::UninterruptibleSleep => true,
            _ => false,
        }
    }
}

/// Logical signal kinds for process control.
#[derive(Debug, Clone, Copy, PartialEq, Eq, Structural)]
pub enum Signal {
    /// Ask the process to end.
    Terminate,
    /// End the process without asking.
    Kill,
    /// Suspend the process.
    Stop,
    /// Resume a suspended process.
    Continue,
    /// Interrupt the process as from the keyboard.
    Interrupt,
}

/// Kernel-level operations on one process, as a host offers them.
pub trait KernelOperations {
    /// Ends a process without asking it.
    fn force_kill(&self, pid: u32) -> PlatformResult<()>;

    /// Suspends a process.
    fn suspend_process(&self, pid: u32) -> PlatformResult<()>;

    /// Resumes a suspended process.
    fn resume_process(&self, pid: u32) -> PlatformResult<()>;

    /// Whether the process belongs to the kernel itself.
    fn is_kernel_process(&self, pid: u32) -> bool;

    /// The scheduling priority of a process.
    fn get_process_priority(&self, pid: u32) -> PlatformResult<i32>;

    /// Sets the scheduling priority of a process.
    fn set_process_priority(&self, pid: u32, priority: i32) -> PlatformResult<()>;
}

/// Detailed state of one process.
#[derive(Debug, Clone)]
pub struct ProcessState {
    pub state_char: char,
    pub wchan: Option<String>,
    pub flags: u64,
    pub nice: i32,
    pub num_threads: usize,
    pub tgid: u32,
    pub blocked_signals: u64,
    pub pending_signals: u64,
}

/// What a process is waiting for in I/O.
#[derive(Debug, Clone)]
pub struct IoWaitInfo {
    pub total_wait_time_ms: u64,
    pub current_wait_operation: Option<String>,
    pub blocked_on_device: Option<String>,
    pub io_operations_pending: u32,
}

/// The outcome of a responsiveness probe.
#[derive(Debug, Clone)]
pub struct ProcessResponsiveness {
    pub responds_to_signals: bool,
    pub last_response_time_ms: Option<u64>,
    /// For each signal number that was tried, whether the probe succeeded.
    pub signal_test_results: HashMap<i32, bool>,
    pub is_likely_unkillable: bool,
}

/// Classes of deadlock that a hypothesis can name.
#[derive(Debug, Clone, Copy, PartialEq, Eq, Structural)]
pub enum DeadlockType {
    ResourceDeadlock,
    IoDeadlock,
    NetworkDeadlock,
    Unknown,
}

/// The characters of an optional text.
pub open spec fn text_of(o: Option<String>) -> Option<Seq<char>> {
    match o {
        Some(s) => Some(s@),
        None => None,
    }
}

/// The characters of an optional borrowed text.
pub open spec fn str_of(o: Option<&str>) -> Option<Seq<char>> {
    match o {
        Some(s) => Some(s@),
        None => None,
    }
}

/// An optional text, borrowed.
pub fn borrow_text(o: &Option<String>) -> (r: Option<&str>)
    ensures
        str_of(r) == text_of(*o),
{
    match o {
        Some(s) => Some(s.as_str()),
        None => None,
    }
}

/// A copy of an optional text.
pub fn clone_text(o: &Option<String>) -> (r: Option<String>)
    ensures
        text_of(r) == text_of(*o),
{
    match o {
        Some(s) => Some(s.clone()),
        None => None,
    }
}

/// One frame of a call stack.
#[derive(Debug)]
pub struct StackFrame {
    pub address: u64,
    pub symbol: Option<String>,
    pub module: Option<String>,
    pub file: Option<String>,
    pub line: Option<u32>,
    pub offset: Option<u64>,
}

/// What a stack frame holds, as plain values.
pub struct FrameView {
    pub address: u64,
    pub symbol: Option<Seq<char>>,
    pub module: Option<Seq<char>>,
    pub file: Option<Seq<char>>,
    pub line: Option<u32>,
    pub offset: Option<u64>,
}

impl View for StackFrame {
    type V = FrameView;

    open spec fn view(&self) -> FrameView {
        FrameView {
            address: self.address,
            symbol: text_of(self.symbol),
            module: text_of(self.module),
            file: text_of(self.file),
            line: self.line,
            offset: self.offset,
        }
    }
}

impl Clone for StackFrame {
    fn clone(&self) -> (r: Self)
        ensures
            r@ == self@,
    {
        StackFrame {
            address: self.address,
            symbol: clone_text(&self.symbol),
            module: clone_text(&self.module),
            file: clone_text(&self.file),
            line: self.line,
            offset: self.offset,
        }
    }
}

/// The views of a run of frames.
pub open spec fn frame_views(frames: Seq<StackFrame>) -> Seq<FrameView> {
    frames.map_values(|f: StackFrame| f@)
}

/// A copy of a run of frames.
pub fn clone_frames(frames: &Vec<StackFrame>) -> (r: Vec<StackFrame>)
    ensures
        frame_views(r@) == frame_views(frames@),
{
    let mut r: Vec<StackFrame> = Vec::new();
    let mut i: usize = 0;
    while i < frames.len()
        invariant
            i <= frames@.len(),
            r@.len() == i,
            forall|j: int| 0 <= j < i ==> r@[j]@ == frames@[j]@,
        decreases frames@.len() - i,
    {
        r.push(frames[i].clone());
        i = i + 1;
    }
    r
}

/// The call stack of a process as one sampling run saw it, innermost frame
/// first.
#[derive(Debug)]
pub struct StackTrace {
    pub pid: u32,
    pub thread_id: Option<u64>,
    pub timestamp: std::time::SystemTime,
    pub frames: Vec<StackFrame>,
    pub sample_duration_ms: u64,
    pub is_complete: bool,
}

impl Clone for StackTrace {
    fn clone(&self) -> (r: Self)
        ensures
            r.pid == self.pid,
            r.thread_id == self.thread_id,
            r.timestamp == self.timestamp,
            frame_views(r.frames@) == frame_views(self.frames@),
            r.sample_duration_ms == self.sample_duration_ms,
            r.is_complete == self.is_complete,
    {
        StackTrace {
            pid: self.pid,
            thread_id: self.thread_id,
            timestamp: self.timestamp.clone(),
            frames: clone_frames(&self.frames),
            sample_duration_ms: self.sample_duration_ms,
            is_complete: self.is_complete,
        }
    }
}

/// The hosts that the engine knows.
#[derive(Debug, Clone, Copy, PartialEq, Eq, Structural)]
pub enum HostOs {
    MacOs,
    Windows,
    Other,
}

/// What a host lets the engine do.
#[derive(Debug, Clone, Copy, PartialEq, Eq, Structural)]
pub struct PlatformCapabilities {
    pub can_kill_processes: bool,
    pub can_suspend_processes: bool,
    pub can_set_priority: bool,
    pub has_temperature_sensors: bool,
    pub supports_process_groups: bool,
    pub requires_elevation: bool,
}

impl PlatformCapabilities {
    /// The capabilities assumed of a host that is not known.
    pub open spec fn baseline() -> PlatformCapabilities {
        PlatformCapabilities {
            can_kill_processes: true,
            can_suspend_processes: true,
            can_set_priority: true,
            has_temperature_sensors: false,
            supports_process_groups: true,
            requires_elevation: false,
        }
    }

    /// The capabilities of each host.
    pub open spec fn of(os: HostOs) -> PlatformCapabilities {
        match os {
            HostOs::MacOs => PlatformCapabilities {
                has_temperature_sensors: true,
                ..PlatformCapabilities::baseline()
            },
            HostOs::Windows => PlatformCapabilities {
                has_temperature_sensors: true,
                supports_process_groups: false,
                requires_elevation: true,
                ..PlatformCapabilities::baseline()
            },
            HostOs::Other => PlatformCapabilities::baseline(),
        }
    }
}

impl Default for PlatformCapabilities {
    fn default() -> (caps: Self)
        ensures
            caps == PlatformCapabilities::baseline(),
    {
        PlatformCapabilities {
            can_kill_processes: true,
            can_suspend_processes: true,
            can_set_priority: true,
            has_temperature_sensors: false,
            supports_process_groups: true,
            requires_elevation: false,
        }
    }
}

/// The capabilities of the given host.
pub fn get_platform_capabilities(os: HostOs) -> (caps: PlatformCapabilities)
    ensures
        caps == PlatformCapabilities::of(os),
{
    match os {
        HostOs::MacOs => PlatformCapabilities {
            can_kill_processes: true,
            can_suspend_processes: true,
            can_set_priority: true,
            has_temperature_sensors: true,
            supports_process_groups: true,
            requires_elevation: false,
        },
        HostOs::Windows => PlatformCapabilities {
            can_kill_processes: true,
            can_suspend_processes: true,
            can_set_priority: true,
            has_temperature_sensors: true,
            supports_process_groups: false,
            requires_elevation: true,
        },
        HostOs::Other => PlatformCapabilities::default(),
    }
}

} // verus!
