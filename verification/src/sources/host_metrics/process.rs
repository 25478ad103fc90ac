//! Metrics about the processes of the host.

use vstd::prelude::*;
use vstd::string::*;

use super::filter::FilterList;

verus! {

/// Options for the process metrics collector.
#[derive(Debug)]
pub struct ProcessConfig {
    /// Lists of process name patterns to include or exclude.
    pub processes: FilterList,
    /// Lists of metric name patterns to include or exclude.
    ///
    /// When not set, all process metrics are emitted. Supports glob patterns.
    /// Metric names: `process_cpu_usage`, `process_memory_usage`,
    /// `process_memory_virtual_usage`, `process_runtime`,
    /// `process_accumulated_cpu_time`, `process_disk_read_bytes`,
    /// `process_disk_written_bytes`, `process_total_disk_read_bytes`,
    /// `process_total_disk_written_bytes`, `process_open_files`,
    /// `process_task_count` (Linux), `process_minor_page_faults` (Linux),
    /// `process_major_page_faults` (Linux),
    /// `process_voluntary_context_switches` (Linux),
    /// `process_involuntary_context_switches` (Linux).
    pub metrics: FilterList,
    /// TTL (in seconds) for the UID-to-username cache.
    ///
    /// Usernames are resolved via NSS/SSSD which may hit LDAP in IDM/IPA
    /// environments. This cache avoids repeated lookups. Set to `0` to disable
    /// caching. Defaults to 300 seconds (5 minutes).
    pub uid_cache_ttl_secs: u64,
}

/// How long usernames are kept where the configuration does not say.
pub fn default_uid_cache_ttl_secs() -> (secs: u64)
    ensures
        secs == 300,
{
    300
}

impl Clone for ProcessConfig {
    fn clone(&self) -> (copy: ProcessConfig)
        ensures
            super::filter::pattern_texts(copy.processes.includes)
                == super::filter::pattern_texts(self.processes.includes),
            super::filter::pattern_texts(copy.processes.excludes)
                == super::filter::pattern_texts(self.processes.excludes),
            super::filter::pattern_texts(copy.metrics.includes)
                == super::filter::pattern_texts(self.metrics.includes),
            super::filter::pattern_texts(copy.metrics.excludes)
                == super::filter::pattern_texts(self.metrics.excludes),
            copy.uid_cache_ttl_secs == self.uid_cache_ttl_secs,
    {
        ProcessConfig {
            processes: self.processes.clone(),
            metrics: self.metrics.clone(),
            uid_cache_ttl_secs: self.uid_cache_ttl_secs,
        }
    }
}

impl Default for ProcessConfig {
    fn default() -> (config: ProcessConfig)
        ensures
            config.processes == (FilterList { includes: None, excludes: None }),
            config.metrics == (FilterList { includes: None, excludes: None }),
            config.uid_cache_ttl_secs == 300,
    {
        ProcessConfig {
            processes: FilterList::default(),
            metrics: FilterList::default(),
            uid_cache_ttl_secs: default_uid_cache_ttl_secs(),
        }
    }
}

/// Patterns to show how process metrics are chosen.
pub fn example_process_metrics() -> (patterns: Vec<String>)
    ensures
        patterns@.len() == 3,
        patterns@[0]@ == "process_cpu_*"@,
        patterns@[1]@ == "process_memory_*"@,
        patterns@[2]@ == "process_disk_*"@,
{
    let mut patterns: Vec<String> = Vec::new();
    patterns.push("process_cpu_*".to_owned());
    patterns.push("process_memory_*".to_owned());
    patterns.push("process_disk_*".to_owned());
    patterns
}

pub const RUNTIME: &'static str = "process_runtime";

pub const CPU_USAGE: &'static str = "process_cpu_usage";

pub const MEMORY_USAGE: &'static str = "process_memory_usage";

pub const MEMORY_VIRTUAL_USAGE: &'static str = "process_memory_virtual_usage";

pub const ACCUMULATED_CPU_TIME: &'static str = "process_accumulated_cpu_time";

pub const DISK_READ_BYTES: &'static str = "process_disk_read_bytes";

pub const DISK_WRITTEN_BYTES: &'static str = "process_disk_written_bytes";

pub const TOTAL_DISK_READ_BYTES: &'static str = "process_total_disk_read_bytes";

pub const TOTAL_DISK_WRITTEN_BYTES: &'static str = "process_total_disk_written_bytes";

pub const OPEN_FILES: &'static str = "process_open_files";

pub const TASK_COUNT: &'static str = "process_task_count";

pub const VOLUNTARY_CONTEXT_SWITCHES: &'static str = "process_voluntary_context_switches";

pub const INVOLUNTARY_CONTEXT_SWITCHES: &'static str = "process_involuntary_context_switches";

pub const MINOR_PAGE_FAULTS: &'static str = "process_minor_page_faults";

pub const MAJOR_PAGE_FAULTS: &'static str = "process_major_page_faults";

/// What a process is doing.
#[derive(Clone, Copy, Debug, PartialEq, Eq, Structural)]
pub enum ProcessStatus {
    Idle,
    Run,
    Sleep,
    Stop,
    Zombie,
    Tracing,
    Dead,
    Wakekill,
    Waking,
    Parked,
    LockBlocked,
    UninterruptibleDiskSleep,
    Unknown(u32),
}

/// The tag value for a status.
pub open spec fn status_text(status: ProcessStatus) -> Seq<char> {
    match status {
        ProcessStatus::Idle => "idle"@,
        ProcessStatus::Run => "run"@,
        ProcessStatus::Sleep => "sleep"@,
        ProcessStatus::Stop => "stop"@,
        ProcessStatus::Zombie => "zombie"@,
        ProcessStatus::Tracing => "tracing"@,
        ProcessStatus::Dead => "dead"@,
        ProcessStatus::Wakekill => "wakekill"@,
        ProcessStatus::Waking => "waking"@,
        ProcessStatus::Parked => "parked"@,
        _ => "unknown"@,
    }
}

/// Format a ProcessStatus as a lowercase tag value.
pub fn format_process_status(status: ProcessStatus) -> (text: &'static str)
    ensures
        text@ == status_text(status),
{
    match status {
        ProcessStatus::Idle => "idle",
        ProcessStatus::Run => "run",
        ProcessStatus::Sleep => "sleep",
        ProcessStatus::Stop => "stop",
        ProcessStatus::Zombie => "zombie",
        ProcessStatus::Tracing => "tracing",
        ProcessStatus::Dead => "dead",
        ProcessStatus::Wakekill => "wakekill",
        ProcessStatus::Waking => "waking",
        ProcessStatus::Parked => "parked",
        _ => "unknown",
    }
}

/// Whether a thread belongs to the kernel.
#[derive(Clone, Copy, Debug, PartialEq, Eq, Structural)]
pub enum ThreadKind {
    Kernel,
    Userland,
}

/// The tag value for a kind of thread.
pub open spec fn thread_kind_text(kind: ThreadKind) -> Seq<char> {
    match kind {
        ThreadKind::Kernel => "kernel"@,
        ThreadKind::Userland => "userland"@,
    }
}

/// Format a ThreadKind as a tag value.
pub fn format_thread_kind(kind: ThreadKind) -> (text: &'static str)
    ensures
        text@ == thread_kind_text(kind),
{
    match kind {
        ThreadKind::Kernel => "kernel",
        ThreadKind::Userland => "userland",
    }
}

/// The bytes that a process has read and written.
#[derive(Clone, Copy, Debug, PartialEq, Eq, Structural)]
pub struct DiskUsage {
    pub read_bytes: u64,
    pub written_bytes: u64,
    pub total_read_bytes: u64,
    pub total_written_bytes: u64,
}

/// What is read of `/proc/<pid>/stat`.
#[derive(Clone, Copy, Debug, PartialEq, Eq, Structural)]
pub struct ProcStat {
    pub nice: i64,
    pub minflt: u64,
    pub majflt: u64,
}

/// What is read of `/proc/<pid>/status`.
#[derive(Clone, Copy, Debug, PartialEq, Eq, Structural)]
pub struct ProcStatus {
    pub voluntary_ctxt_switches: Option<u64>,
    pub nonvoluntary_ctxt_switches: Option<u64>,
}

/// What `/proc/<pid>` tells of a process.
#[derive(Clone, Copy, Debug)]
pub struct ProcfsData {
    pub stat: Option<ProcStat>,
    pub status: Option<ProcStatus>,
    pub shm_owner_pid: Option<i32>,
}

/// A process as the host reports it. Names, arguments and paths are the bytes that the host has,
/// which need not be text.
#[derive(Debug)]
pub struct ProcessSnapshot {
    pub pid: u32,
    pub name: Vec<u8>,
    pub cmd: Vec<Vec<u8>>,
    pub parent: Option<u32>,
    pub user_id: Option<u32>,
    pub effective_user_id: Option<u32>,
    pub group_id: Option<u32>,
    pub effective_group_id: Option<u32>,
    pub session_id: Option<u32>,
    pub status: ProcessStatus,
    pub exe: Option<Vec<u8>>,
    pub thread_kind: Option<ThreadKind>,
    /// Seconds since the epoch, `0` where it is not known.
    pub start_time: u64,
    /// The CPU usage, in the bits of a single-precision number.
    pub cpu_usage: u32,
    pub memory: u64,
    pub virtual_memory: u64,
    pub run_time: u64,
    pub accumulated_cpu_time: u64,
    pub disk_usage: DiskUsage,
    pub cwd: Option<Vec<u8>>,
    pub root: Option<Vec<u8>>,
    pub open_files: Option<usize>,
    pub open_files_limit: Option<usize>,
    pub task_count: Option<usize>,
    pub procfs: Option<ProcfsData>,
}

/// A status that is known has its own text in lower case, and every other is unknown.
pub proof fn statuses_have_their_texts(status: ProcessStatus)
    ensures
        status == ProcessStatus::Idle ==> status_text(status) == "idle"@,
        status == ProcessStatus::Run ==> status_text(status) == "run"@,
        status == ProcessStatus::Sleep ==> status_text(status) == "sleep"@,
        status == ProcessStatus::Stop ==> status_text(status) == "stop"@,
        status == ProcessStatus::Zombie ==> status_text(status) == "zombie"@,
        status == ProcessStatus::Tracing ==> status_text(status) == "tracing"@,
        status == ProcessStatus::Dead ==> status_text(status) == "dead"@,
        status == ProcessStatus::Wakekill ==> status_text(status) == "wakekill"@,
        status == ProcessStatus::Waking ==> status_text(status) == "waking"@,
        status == ProcessStatus::Parked ==> status_text(status) == "parked"@,
        status is LockBlocked || status is UninterruptibleDiskSleep || status is Unknown
            ==> status_text(status) == "unknown"@,
{
}

/// Each kind of thread has its own text.
pub proof fn thread_kinds_have_their_texts(kind: ThreadKind)
    ensures
        kind == ThreadKind::Kernel ==> thread_kind_text(kind) == "kernel"@,
        kind == ThreadKind::Userland ==> thread_kind_text(kind) == "userland"@,
{
}

}
