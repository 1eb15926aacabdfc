//! Plain data types shared across the system toolkit.  Timestamps are held
//! as seconds since the Unix epoch.

use vstd::prelude::*;

verus! {

/// The host operating system family.
#[derive(Debug, Clone, PartialEq)]
pub enum OperatingSystem {
    Windows,
    Linux,
    MacOS,
    Unknown(String),
}

/// Whether the caller holds the rights an operation needs.
#[derive(Debug, Clone, PartialEq)]
pub enum PermissionStatus {
    /// Sufficient rights are held.
    HasPermission,
    /// The operation needs elevation.
    RequiresElevation,
    /// The platform cannot answer the question.
    NotSupported,
    /// The rights were refused.
    Denied,
}

/// The run state of a system service.
#[derive(Debug, Clone, PartialEq)]
pub enum ServiceStatus {
    Running,
    Stopped,
    Paused,
    Starting,
    Stopping,
    Unknown,
}

/// How a system service is started.
#[derive(Debug, Clone, PartialEq)]
pub enum ServiceStartType {
    Automatic,
    Manual,
    Disabled,
    AutomaticDelayed,
}

/// The scheduling state of a process.
#[derive(Debug, Clone, PartialEq)]
pub enum ProcessStatus {
    Running,
    Sleeping,
    Stopped,
    Zombie,
    Unknown,
}

/// A snapshot of one live process.  Host measurements are held as plain
/// values: memory in bytes, CPU load in hundredths of a percent, the start
/// time as seconds since the Unix epoch.
#[derive(Debug, Clone)]
pub struct ProcessInfo {
    pub pid: u32,
    pub name: String,
    pub executable_path: Option<String>,
    pub command_line: Option<String>,
    pub parent_pid: Option<u32>,
    /// Memory in use, in bytes.
    pub memory_usage: Option<u64>,
    /// CPU load, in hundredths of a percent.
    pub cpu_usage: Option<u32>,
    /// Seconds since the Unix epoch.
    pub start_time: Option<u64>,
    pub user: Option<String>,
    pub status: ProcessStatus,
}

/// Access rights on a file.
#[derive(Debug, Clone)]
pub struct FilePermissions {
    pub readable: bool,
    pub writable: bool,
    pub executable: bool,
    pub owner: String,
    pub group: Option<String>,
    pub mode: Option<u32>,
}

/// One live network connection.
#[derive(Debug, Clone)]
pub struct NetworkConnection {
    pub protocol: NetworkProtocol,
    pub local_address: String,
    pub local_port: u16,
    pub remote_address: Option<String>,
    pub remote_port: Option<u16>,
    pub state: ConnectionState,
    pub pid: Option<u32>,
    pub process_name: Option<String>,
}

/// The transport protocol of a connection.
#[derive(Debug, Clone, PartialEq)]
pub enum NetworkProtocol {
    TCP,
    UDP,
    ICMP,
    Unknown(String),
}

/// The state of a transport connection.
#[derive(Debug, Clone, PartialEq)]
pub enum ConnectionState {
    Listen,
    Established,
    SynSent,
    SynReceived,
    FinWait1,
    FinWait2,
    TimeWait,
    Closed,
    CloseWait,
    LastAck,
    Closing,
    Unknown,
}

/// Usage of one mounted disk.
#[derive(Debug, Clone)]
pub struct DiskUsage {
    pub device: String,
    pub mount_point: String,
    pub total_space: u64,
    pub used_space: u64,
    pub available_space: u64,
    pub filesystem: String,
}

/// One network interface of the host.
#[derive(Debug, Clone)]
pub struct NetworkInterface {
    pub name: String,
    pub display_name: Option<String>,
    pub mac_address: Option<String>,
    pub ip_addresses: Vec<String>,
    pub is_up: bool,
    pub is_loopback: bool,
    pub bytes_sent: Option<u64>,
    pub bytes_received: Option<u64>,
    pub speed: Option<u64>,
}

/// A task registered with a scheduler.  Times are seconds since the Unix
/// epoch.
#[derive(Debug, Clone)]
pub struct ScheduledTask {
    pub id: String,
    pub name: String,
    pub description: Option<String>,
    pub command: String,
    pub arguments: Vec<String>,
    pub schedule: TaskSchedule,
    pub enabled: bool,
    pub last_run: Option<u64>,
    pub next_run: Option<u64>,
    pub run_as_user: Option<String>,
}

/// When a scheduled task runs.  Fixed points in time are seconds since the
/// Unix epoch.
#[derive(Debug, Clone)]
pub enum TaskSchedule {
    /// Once, at the given time.
    Once(u64),
    /// Every day at the given hour and minute.
    Daily(u8, u8),
    /// Every week on the given weekday, hour and minute.
    Weekly(u8, u8, u8),
    /// Every month on the given day, hour and minute.
    Monthly(u8, u8, u8),
    /// Every given number of seconds.
    Interval(u64),
    /// By a cron expression.
    Cron(String),
    /// At boot.
    OnBoot,
    /// At login.
    OnLogin,
}

/// The access rights of a memory region.
#[derive(Debug, Clone, PartialEq)]
pub enum MemoryPermission {
    Read,
    Write,
    Execute,
    ReadWrite,
    ReadExecute,
    WriteExecute,
    ReadWriteExecute,
}

impl MemoryPermission {
    /// True when the region may be read.
    pub fn allows_read(&self) -> (r: bool)
        ensures
            r == spec_allows_read(*self),
    {
        match self {
            MemoryPermission::Read => true,
            MemoryPermission::ReadWrite => true,
            MemoryPermission::ReadExecute => true,
            MemoryPermission::ReadWriteExecute => true,
            _ => false,
        }
    }

    /// True when the region may be written.
    pub fn allows_write(&self) -> (r: bool)
        ensures
            r == spec_allows_write(*self),
    {
        match self {
            MemoryPermission::Write => true,
            MemoryPermission::ReadWrite => true,
            MemoryPermission::WriteExecute => true,
            MemoryPermission::ReadWriteExecute => true,
            _ => false,
        }
    }

    /// True when the region may be executed.
    pub fn allows_execute(&self) -> (r: bool)
        ensures
            r == spec_allows_execute(*self),
    {
        match self {
            MemoryPermission::Execute => true,
            MemoryPermission::ReadExecute => true,
            MemoryPermission::WriteExecute => true,
            MemoryPermission::ReadWriteExecute => true,
            _ => false,
        }
    }

    /// This permission widened so that reading and writing are allowed,
    /// keeping whether execution is.
    pub fn relaxed_to_read_write(&self) -> (r: MemoryPermission)
        ensures
            spec_allows_read(r),
            spec_allows_write(r),
            spec_allows_execute(r) == spec_allows_execute(*self),
    {
        match self {
            MemoryPermission::Read => MemoryPermission::ReadWrite,
            MemoryPermission::Write => MemoryPermission::ReadWrite,
            MemoryPermission::Execute => MemoryPermission::ReadWriteExecute,
            MemoryPermission::ReadWrite => MemoryPermission::ReadWrite,
            MemoryPermission::ReadExecute => MemoryPermission::ReadWriteExecute,
            MemoryPermission::WriteExecute => MemoryPermission::ReadWriteExecute,
            MemoryPermission::ReadWriteExecute => MemoryPermission::ReadWriteExecute,
        }
    }
}

/// Whether a [`MemoryPermission`] admits reading.
pub open spec fn spec_allows_read(p: MemoryPermission) -> bool {
    match p {
        MemoryPermission::Read => true,
        MemoryPermission::ReadWrite => true,
        MemoryPermission::ReadExecute => true,
        MemoryPermission::ReadWriteExecute => true,
        _ => false,
    }
}

/// Whether a [`MemoryPermission`] admits writing.
pub open spec fn spec_allows_write(p: MemoryPermission) -> bool {
    match p {
        MemoryPermission::Write => true,
        MemoryPermission::ReadWrite => true,
        MemoryPermission::WriteExecute => true,
        MemoryPermission::ReadWriteExecute => true,
        _ => false,
    }
}

/// Whether a [`MemoryPermission`] admits execution.
pub open spec fn spec_allows_execute(p: MemoryPermission) -> bool {
    match p {
        MemoryPermission::Execute => true,
        MemoryPermission::ReadExecute => true,
        MemoryPermission::WriteExecute => true,
        MemoryPermission::ReadWriteExecute => true,
        _ => false,
    }
}

/// The outcome of a memory write: how many bytes were moved and whether that
/// was all of them.  A partial transfer is reported, never silently ignored.
#[derive(Debug, Clone)]
pub struct MemoryOperationResult {
    pub success: bool,
    pub bytes_processed: usize,
    pub error_message: Option<String>,
}

/// Memory accounting of one process.
#[derive(Debug, Clone)]
pub struct ProcessMemoryInfo {
    pub pid: u32,
    pub process_name: Option<String>,
    pub base_address: usize,
    pub memory_usage: u64,
    pub virtual_size: u64,
    pub working_set: u64,
    pub peak_working_set: u64,
    pub private_bytes: u64,
}

/// A contiguous range of a process's address space with its protection and
/// sharing attributes.
#[derive(Debug, Clone)]
pub struct MemoryRegion {
    pub base_address: usize,
    pub size: usize,
    pub protection: MemoryPermission,
    pub is_committed: bool,
    pub is_private: bool,
    pub module_name: Option<String>,
}

} // verus!
