//! Names and classes that the gauges of the monitor show: disks, sensors,
//! thermal states, memory pressure and CPU limits.

use vstd::prelude::*;

verus! {

/// The kind of a disk.
#[derive(Debug, Clone, Copy, PartialEq, Eq, Structural)]
pub enum DiskType {
    HDD,
    SSD,
    Network,
    Removable,
    Unknown,
}

impl DiskType {
    /// The name of the kind.
    pub open spec fn name(&self) -> Seq<char> {
        match self {
            DiskType::HDD => "HDD"@,
            DiskType::SSD => "SSD"@,
            DiskType::Network => "Network"@,
            DiskType::Removable => "Removable"@,
            DiskType::Unknown => "Unknown"@,
        }
    }

    /// The name of the kind.
    pub fn as_str(&self) -> (s: &'static str)
        ensures
            s@ == self.name(),
    {
        match self {
            DiskType::HDD => "HDD",
            DiskType::SSD => "SSD",
            DiskType::Network => "Network",
            DiskType::Removable => "Removable",
            DiskType::Unknown => "Unknown",
        }
    }
}

/// What a temperature sensor measures.
#[derive(Debug, Clone, Copy, PartialEq, Eq, Structural)]
pub enum SensorType {
    CpuCore,
    CpuPackage,
    Gpu,
    Memory,
    Storage,
    Battery,
    Other,
}

impl SensorType {
    /// The name of the symbol that stands for the sensor.
    pub open spec fn icon_name(&self) -> Seq<char> {
        match self {
            SensorType::CpuCore | SensorType::CpuPackage => "cpu"@,
            SensorType::Gpu => "gpu.card"@,
            SensorType::Memory => "memorychip"@,
            SensorType::Storage => "internaldrive"@,
            SensorType::Battery => "battery.100"@,
            SensorType::Other => "thermometer"@,
        }
    }

    /// The name of the sensor.
    pub open spec fn name(&self) -> Seq<char> {
        match self {
            SensorType::CpuCore => "CPU Core"@,
            SensorType::CpuPackage => "CPU Package"@,
            SensorType::Gpu => "GPU"@,
            SensorType::Memory => "Memory"@,
            SensorType::Storage => "Storage"@,
            SensorType::Battery => "Battery"@,
            SensorType::Other => "Other"@,
        }
    }

    /// The name of the symbol that stands for the sensor.
    pub fn icon(&self) -> (s: &'static str)
        ensures
            s@ == self.icon_name(),
    {
        match self {
            SensorType::CpuCore | SensorType::CpuPackage => "cpu",
            SensorType::Gpu => "gpu.card",
            SensorType::Memory => "memorychip",
            SensorType::Storage => "internaldrive",
            SensorType::Battery => "battery.100",
            SensorType::Other => "thermometer",
        }
    }

    /// The name of the sensor.
    pub fn display_name(&self) -> (s: &'static str)
        ensures
            s@ == self.name(),
    {
        match self {
            SensorType::CpuCore => "CPU Core",
            SensorType::CpuPackage => "CPU Package",
            SensorType::Gpu => "GPU",
            SensorType::Memory => "Memory",
            SensorType::Storage => "Storage",
            SensorType::Battery => "Battery",
            SensorType::Other => "Other",
        }
    }
}

/// How hot the machine is.
#[derive(Debug, Clone, Copy, PartialEq, Eq, Structural)]
pub enum ThermalState {
    /// Below 60 °C.
    Normal,
    /// From 60 °C.
    Warm,
    /// From 75 °C.
    Hot,
    /// Above 85 °C.
    Throttling,
}

impl ThermalState {
    /// The colour in which the state is shown.
    pub open spec fn colour(&self) -> Seq<char> {
        match self {
            ThermalState::Normal => "green"@,
            ThermalState::Warm => "yellow"@,
            ThermalState::Hot => "orange"@,
            ThermalState::Throttling => "red"@,
        }
    }

    /// The name of the state.
    pub open spec fn name(&self) -> Seq<char> {
        match self {
            ThermalState::Normal => "Normal"@,
            ThermalState::Warm => "Warm"@,
            ThermalState::Hot => "Hot"@,
            ThermalState::Throttling => "Throttling"@,
        }
    }

    /// The colour in which the state is shown.
    pub fn color(&self) -> (s: &'static str)
        ensures
            s@ == self.colour(),
    {
        match self {
            ThermalState::Normal => "green",
            ThermalState::Warm => "yellow",
            ThermalState::Hot => "orange",
            ThermalState::Throttling => "red",
        }
    }

    /// The name of the state.
    pub fn description(&self) -> (s: &'static str)
        ensures
            s@ == self.name(),
    {
        match self {
            ThermalState::Normal => "Normal",
            ThermalState::Warm => "Warm",
            ThermalState::Hot => "Hot",
            ThermalState::Throttling => "Throttling",
        }
    }
}

/// How much of the memory is in use.
#[derive(Debug, Clone, Copy, PartialEq, Eq, Structural)]
pub enum MemoryPressureLevel {
    /// Less than half.
    Low,
    /// Less than three quarters.
    Normal,
    /// Less than nine tenths.
    High,
    Critical,
}

impl MemoryPressureLevel {
    /// The level for a usage in thousandths.
    pub open spec fn of(permille: u32) -> MemoryPressureLevel {
        if permille < 500 {
            MemoryPressureLevel::Low
        } else if permille < 750 {
            MemoryPressureLevel::Normal
        } else if permille < 900 {
            MemoryPressureLevel::High
        } else {
            MemoryPressureLevel::Critical
        }
    }

    /// The name of the level.
    pub open spec fn name(&self) -> Seq<char> {
        match self {
            MemoryPressureLevel::Low => "Low"@,
            MemoryPressureLevel::Normal => "Normal"@,
            MemoryPressureLevel::High => "High"@,
            MemoryPressureLevel::Critical => "Critical"@,
        }
    }

    /// The level for a usage given in thousandths of the whole memory.
    pub fn from_usage_permille(permille: u32) -> (level: Self)
        ensures
            level == MemoryPressureLevel::of(permille),
    {
        if permille < 500 {
            MemoryPressureLevel::Low
        } else if permille < 750 {
            MemoryPressureLevel::Normal
        } else if permille < 900 {
            MemoryPressureLevel::High
        } else {
            MemoryPressureLevel::Critical
        }
    }

    /// The name of the level.
    pub fn as_str(&self) -> (s: &'static str)
        ensures
            s@ == self.name(),
    {
        match self {
            MemoryPressureLevel::Low => "Low",
            MemoryPressureLevel::Normal => "Normal",
            MemoryPressureLevel::High => "High",
            MemoryPressureLevel::Critical => "Critical",
        }
    }
}

/// How strongly the machine throttles itself for heat.
#[derive(Debug, Clone, Copy, PartialEq, Eq, Structural)]
pub enum ThrottlingLevel {
    /// No throttling at all.
    Off,
    Light,
    Moderate,
    Heavy,
    Critical,
}

/// Where a temperature is taken.
#[derive(Debug, Clone)]
pub enum ThermalLocation {
    CpuCore(u32),
    CpuPackage,
    Gpu,
    Memory,
    PowerSupply,
    Ambient,
    Battery,
    Other(String),
}

/// What holds the CPU back.
#[derive(Debug, Clone, Copy, PartialEq, Eq, Structural)]
pub enum BottleneckType {
    HighCpuUsage,
    HighIoWait,
    ExcessiveContextSwitching,
    ThermalThrottling,
    MemoryPressure,
}

/// By which means the CPU usage of a process is limited.
#[derive(Debug, Clone, Copy, PartialEq, Eq, Structural)]
pub enum LimitType {
    /// Only the priority was changed.
    Nice,
    /// The process was bound to some of the cores.
    Affinity,
    /// A limiting tool holds the process back.
    CpuLimit,
    /// Several of these.
    Combined,
}

/// Why a CPU limit could not be set.
#[derive(Debug, Clone)]
pub enum LimitError {
    PermissionDenied,
    ProcessNotFound,
    InvalidLimit,
    SystemError(String),
}

/// CPU limits to choose from.
#[derive(Debug, Clone, Copy, PartialEq, Eq, Structural)]
pub enum LimitPreset {
    High,
    Medium,
    Low,
    Minimal,
}

impl LimitPreset {
    /// The share of the CPU that the preset allows, in percent.
    pub open spec fn allowed(self) -> u32 {
        match self {
            LimitPreset::High => 75,
            LimitPreset::Medium => 50,
            LimitPreset::Low => 25,
            LimitPreset::Minimal => 10,
        }
    }

    /// The share of the CPU that the preset allows, in percent.
    pub fn percent(self) -> (p: u32)
        ensures
            p == self.allowed(),
    {
        match self {
            LimitPreset::High => 75,
            LimitPreset::Medium => 50,
            LimitPreset::Low => 25,
            LimitPreset::Minimal => 10,
        }
    }
}

} // verus!
