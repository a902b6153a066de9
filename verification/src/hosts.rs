//! The hosts that the engine runs on, each with its own set of operations.

use crate::analyzer::{ContextSwitchHistory, MacOSProcessAnalyzer};
use crate::responsiveness::ResponseHistory;
use crate::kernel::{is_unsupported, MacOSKernelOps, WindowsKernelOps};
use crate::platform::{PlatformError, PlatformResult, Signal};
use vstd::prelude::*;

verus! {

/// Static facts about the machine.
#[derive(Debug, Clone)]
pub struct SystemInfo {
    pub hostname: String,
    pub os_version: String,
    pub kernel_version: String,
    pub cpu_count: usize,
    pub total_memory: u64,
}

/// The kinds of monitor.
#[derive(Debug, Clone, Copy, PartialEq, Eq, Structural)]
pub enum MonitorType {
    CPU,
    Memory,
    Disk,
    Network,
}

/// What every monitor offers to whoever drives the periodic refresh.
pub trait Monitor {
    /// The name of the monitor.
    fn name(&self) -> &str;

    /// The kind of the monitor.
    fn monitor_type(&self) -> MonitorType;

    /// Brings the monitor's data up to date.
    fn refresh(&mut self);
}

/// Process management on Windows. None is available yet: every operation
/// reports that it is not supported.
#[derive(Debug, Clone, Copy)]
pub struct WindowsProcessManager;

/// The text with which a signal is refused on Windows.
pub open spec fn windows_signal_refusal(signal: Signal) -> Seq<char> {
    match signal {
        Signal::Terminate | Signal::Kill => "Windows process termination not yet implemented"@,
        Signal::Stop | Signal::Continue => "Windows process suspend/resume not yet implemented"@,
        Signal::Interrupt => "Windows process interrupt not yet implemented"@,
    }
}

impl WindowsProcessManager {
    /// The process manager of a Windows host.
    pub fn new() -> (manager: Self)
        ensures
            manager == WindowsProcessManager,
    {
        WindowsProcessManager
    }

    /// Sending a signal is not supported; the refusal names what the signal
    /// would have done.
    pub fn send_signal(&self, pid: u32, signal: Signal) -> (r: PlatformResult<()>)
        ensures
            is_unsupported(r, windows_signal_refusal(signal)),
    {
        match signal {
            Signal::Terminate | Signal::Kill => Err(
                PlatformError::NotSupported(
                    "Windows process termination not yet implemented".to_owned(),
                ),
            ),
            Signal::Stop | Signal::Continue => Err(
                PlatformError::NotSupported(
                    "Windows process suspend/resume not yet implemented".to_owned(),
                ),
            ),
            Signal::Interrupt => Err(
                PlatformError::NotSupported(
                    "Windows process interrupt not yet implemented".to_owned(),
                ),
            ),
        }
    }

    /// Checking responsiveness is not supported.
    pub fn is_process_responsive(&self, pid: u32) -> (r: PlatformResult<bool>)
        ensures
            is_unsupported(r, "Windows process responsiveness check not yet implemented"@),
    {
        Err(
            PlatformError::NotSupported(
                "Windows process responsiveness check not yet implemented".to_owned(),
            ),
        )
    }

    /// Listing child processes is not supported.
    pub fn get_child_processes(&self, parent_pid: u32) -> (r: PlatformResult<Vec<u32>>)
        ensures
            is_unsupported(r, "Windows child process enumeration not yet implemented"@),
    {
        Err(
            PlatformError::NotSupported(
                "Windows child process enumeration not yet implemented".to_owned(),
            ),
        )
    }

    /// Checking whether a process can be terminated is not supported.
    pub fn can_terminate_process(&self, pid: u32) -> (r: PlatformResult<bool>)
        ensures
            is_unsupported(r, "Windows process termination check not yet implemented"@),
    {
        Err(
            PlatformError::NotSupported(
                "Windows process termination check not yet implemented".to_owned(),
            ),
        )
    }
}

/// System monitoring on Windows. None is available yet.
#[derive(Debug, Clone, Copy)]
pub struct WindowsSystemMonitor;

impl WindowsSystemMonitor {
    /// The system monitor of a Windows host.
    pub fn new() -> (monitor: Self)
        ensures
            monitor == WindowsSystemMonitor,
    {
        WindowsSystemMonitor
    }

    /// Disk statistics are not supported.
    pub fn get_disk_io_stats(&self) -> (r: PlatformResult<Vec<(String, u64, u64)>>)
        ensures
            is_unsupported(r, "Windows disk I/O stats not yet implemented"@),
    {
        Err(PlatformError::NotSupported("Windows disk I/O stats not yet implemented".to_owned()))
    }

    /// Network statistics are not supported.
    pub fn get_network_io_stats(&self) -> (r: PlatformResult<Vec<(String, u64, u64)>>)
        ensures
            is_unsupported(r, "Windows network I/O stats not yet implemented"@),
    {
        Err(
            PlatformError::NotSupported("Windows network I/O stats not yet implemented".to_owned()),
        )
    }
}

/// The operations of a Windows host.
#[derive(Debug)]
pub struct WindowsPlatform {
    process_manager: WindowsProcessManager,
    system_monitor: WindowsSystemMonitor,
    kernel_ops: WindowsKernelOps,
}

impl WindowsPlatform {
    /// The one value that there is of this type.
    pub closed spec fn standard() -> WindowsPlatform {
        WindowsPlatform {
            process_manager: WindowsProcessManager,
            system_monitor: WindowsSystemMonitor,
            kernel_ops: WindowsKernelOps,
        }
    }

    /// The operations of a Windows host.
    pub fn new() -> (platform: Self)
        ensures
            platform == WindowsPlatform::standard(),
    {
        WindowsPlatform {
            process_manager: WindowsProcessManager::new(),
            system_monitor: WindowsSystemMonitor::new(),
            kernel_ops: WindowsKernelOps::new(),
        }
    }

    /// The process manager of the host.
    pub fn process_manager(&self) -> (manager: &WindowsProcessManager)
        ensures
            *manager == WindowsProcessManager,
    {
        &self.process_manager
    }

    /// The system monitor of the host.
    pub fn system_monitor(&self) -> (monitor: &WindowsSystemMonitor)
        ensures
            *monitor == WindowsSystemMonitor,
    {
        &self.system_monitor
    }

    /// The kernel operations of the host.
    pub fn kernel_ops(&self) -> (ops: &WindowsKernelOps)
        ensures
            *ops == WindowsKernelOps,
    {
        &self.kernel_ops
    }
}

impl Default for WindowsPlatform {
    fn default() -> (platform: Self)
        ensures
            platform == WindowsPlatform::standard(),
    {
        WindowsPlatform::new()
    }
}

/// The operations of a macOS host, with the analyzer that remembers what
/// was seen of each process.
#[derive(Debug)]
pub struct MacOSPlatform {
    kernel_ops: MacOSKernelOps,
    process_analyzer: MacOSProcessAnalyzer,
}

impl MacOSPlatform {
    /// What the analyzer of the platform holds.
    pub closed spec fn analyzer(&self) -> MacOSProcessAnalyzer {
        self.process_analyzer
    }

    /// The operations of a macOS host, with an analyzer that remembers
    /// nothing yet.
    pub fn new() -> (platform: Self)
        ensures
            platform.analyzer().well_formed(),
            platform.analyzer().responses() == Seq::<(u32, ResponseHistory)>::empty(),
            platform.analyzer().switches() == Seq::<(u32, ContextSwitchHistory)>::empty(),
    {
        MacOSPlatform {
            kernel_ops: MacOSKernelOps::new(),
            process_analyzer: MacOSProcessAnalyzer::new(),
        }
    }

    /// The kernel operations of the host.
    pub fn kernel_ops(&self) -> (ops: &MacOSKernelOps)
        ensures
            *ops == MacOSKernelOps,
    {
        &self.kernel_ops
    }

    /// The analyzer of the host.
    pub fn process_analyzer(&self) -> (analyzer: &MacOSProcessAnalyzer)
        ensures
            *analyzer == self.analyzer(),
    {
        &self.process_analyzer
    }

    /// The analyzer of the host, to probe and to remember with.
    pub fn process_analyzer_mut(&mut self) -> (analyzer: &mut MacOSProcessAnalyzer)
        ensures
            *analyzer == old(self).analyzer(),
            final(self).analyzer() == *final(analyzer),
    {
        &mut self.process_analyzer
    }
}

} // verus!
