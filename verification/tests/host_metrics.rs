use std::collections::HashSet;

use vector_agent::sources::host_metrics::collector::{HostMetrics, HostMetricsConfig};
use vector_agent::sources::host_metrics::filter::{FilterList, PatternWrapper};
use vector_agent::sources::host_metrics::metric::{Metric, MetricValue, MetricsBuffer, Reading};
use vector_agent::sources::host_metrics::process::{
    default_uid_cache_ttl_secs, example_process_metrics, format_process_status, DiskUsage,
    ProcStat, ProcStatus, ProcessConfig, ProcessSnapshot, ProcessStatus, ProcfsData, ThreadKind,
    ACCUMULATED_CPU_TIME, CPU_USAGE, DISK_READ_BYTES, DISK_WRITTEN_BYTES,
    INVOLUNTARY_CONTEXT_SWITCHES, MAJOR_PAGE_FAULTS, MEMORY_USAGE, MEMORY_VIRTUAL_USAGE,
    MINOR_PAGE_FAULTS, OPEN_FILES, RUNTIME, TASK_COUNT, TOTAL_DISK_READ_BYTES,
    TOTAL_DISK_WRITTEN_BYTES, VOLUNTARY_CONTEXT_SWITCHES,
};
use vector_agent::sources::host_metrics::process_tags::{command_line, path_tag, process_name};
use vector_agent::sources::host_metrics::tags::MetricTags;
use vector_agent::sources::host_metrics::uid_cache::UserAnswer;

fn user_database(uid: u32, _size: usize) -> UserAnswer {
    match nix::unistd::User::from_uid(nix::unistd::Uid::from_raw(uid)) {
        Ok(user) => UserAnswer { code: 0, name: user.map(|user| user.name.into_bytes()) },
        Err(_) => UserAnswer { code: 5, name: None },
    }
}

fn kernel_thread() -> ProcessSnapshot {
    ProcessSnapshot {
        pid: 2,
        name: b"kthreadd".to_vec(),
        cmd: Vec::new(),
        parent: None,
        user_id: None,
        effective_user_id: None,
        group_id: None,
        effective_group_id: None,
        session_id: None,
        status: ProcessStatus::Idle,
        exe: None,
        thread_kind: Some(ThreadKind::Kernel),
        start_time: 0,
        cpu_usage: 0.0f32.to_bits(),
        memory: 0,
        virtual_memory: 0,
        run_time: 0,
        accumulated_cpu_time: 0,
        disk_usage: DiskUsage {
            read_bytes: 0,
            written_bytes: 0,
            total_read_bytes: 0,
            total_written_bytes: 0,
        },
        cwd: None,
        root: None,
        open_files: None,
        open_files_limit: None,
        task_count: None,
        procfs: None,
    }
}

fn shell() -> ProcessSnapshot {
    ProcessSnapshot {
        pid: 4321,
        name: b"bash".to_vec(),
        cmd: vec![b"/bin/bash".to_vec(), b"-l".to_vec()],
        parent: Some(17),
        user_id: Some(0),
        effective_user_id: Some(4_294_967_294),
        group_id: Some(100),
        effective_group_id: Some(101),
        session_id: Some(4000),
        status: ProcessStatus::Sleep,
        exe: Some(b"/bin/bash".to_vec()),
        thread_kind: Some(ThreadKind::Userland),
        start_time: 1_700_000_000,
        cpu_usage: 12.5f32.to_bits(),
        memory: 4096,
        virtual_memory: 8192,
        run_time: 60,
        accumulated_cpu_time: 250,
        disk_usage: DiskUsage {
            read_bytes: 1,
            written_bytes: 2,
            total_read_bytes: 3,
            total_written_bytes: 4,
        },
        cwd: Some(b"/home/ada".to_vec()),
        root: Some(b"/".to_vec()),
        open_files: Some(9),
        open_files_limit: Some(1024),
        task_count: Some(3),
        procfs: Some(ProcfsData {
            stat: Some(ProcStat { nice: -5, minflt: 70, majflt: 8 }),
            status: Some(ProcStatus {
                voluntary_ctxt_switches: Some(11),
                nonvoluntary_ctxt_switches: Some(12),
            }),
            shm_owner_pid: Some(99),
        }),
    }
}

fn get_metrics(config: HostMetricsConfig) -> Vec<Metric> {
    let mut buffer = MetricsBuffer::new();
    let processes = vec![shell(), kernel_thread()];
    HostMetrics::new(config).process_metrics(&processes, &user_database, &mut buffer);
    assert_eq!(buffer.name, "process");
    buffer.metrics
}

fn get_default_metrics() -> Vec<Metric> {
    get_metrics(HostMetricsConfig::default())
}

fn count_name(metrics: &[Metric], name: &str) -> usize {
    metrics.iter().filter(|m| m.name == name).count()
}

fn count_tag(metrics: &[Metric], tag: &str) -> usize {
    metrics.iter().filter(|m| m.tags.contains_key(tag)).count()
}

fn pattern(text: &str) -> PatternWrapper {
    PatternWrapper::try_from(text.to_string()).unwrap()
}

// --- Basic metric generation ---

#[test]
fn generates_all_process_metrics() {
    let metrics = get_default_metrics();
    assert!(!metrics.is_empty());
    assert!(metrics.iter().all(|m| m.name.starts_with("process_")));

    let names: HashSet<&str> = metrics.iter().map(|m| m.name).collect();

    // Core metrics
    assert!(names.contains(CPU_USAGE));
    assert!(names.contains(MEMORY_USAGE));
    assert!(names.contains(MEMORY_VIRTUAL_USAGE));
    assert!(names.contains(RUNTIME));
    assert!(names.contains(ACCUMULATED_CPU_TIME));

    // Disk I/O
    assert!(names.contains(DISK_READ_BYTES));
    assert!(names.contains(DISK_WRITTEN_BYTES));
    assert!(names.contains(TOTAL_DISK_READ_BYTES));
    assert!(names.contains(TOTAL_DISK_WRITTEN_BYTES));
}

// --- Identity tags on all metrics ---

#[test]
fn all_metrics_have_base_identity_tags() {
    let metrics = get_default_metrics();
    assert!(!metrics.is_empty());

    assert_eq!(count_tag(&metrics, "pid"), metrics.len());
    assert_eq!(count_tag(&metrics, "name"), metrics.len());
    assert_eq!(count_tag(&metrics, "command"), metrics.len());
    assert!(count_tag(&metrics, "status") > 0);
}

#[test]
fn unix_identity_tags_present() {
    let metrics = get_default_metrics();
    assert!(!metrics.is_empty());

    // user tag should be on at least some metrics (UID 0 -> root always exists)
    assert!(count_tag(&metrics, "user") > 0);
    assert_eq!(metrics[0].tags.get("user"), Some("root"));
    assert_eq!(metrics[0].tags.get("effective_user"), Some("4294967294"));
}

// --- Tag placement per metric category ---

#[test]
fn start_time_only_on_runtime() {
    let metrics = get_default_metrics();

    let runtime_metrics: Vec<_> = metrics.iter().filter(|m| m.name == RUNTIME).collect();
    let non_runtime: Vec<_> = metrics.iter().filter(|m| m.name != RUNTIME).collect();

    // start_time should be on runtime metrics
    assert!(runtime_metrics.iter().any(|m| m.tags.contains_key("start_time")));

    // start_time should NOT be on any other metric
    assert!(non_runtime.iter().all(|m| !m.tags.contains_key("start_time")));
}

#[test]
fn nice_only_on_cpu_usage() {
    let metrics = get_default_metrics();

    let cpu_metrics: Vec<_> = metrics.iter().filter(|m| m.name == CPU_USAGE).collect();
    let non_cpu: Vec<_> = metrics.iter().filter(|m| m.name != CPU_USAGE).collect();

    assert!(!cpu_metrics.is_empty());
    assert!(cpu_metrics.iter().any(|m| m.tags.contains_key("nice")));

    // nice should NOT be on any other metric
    assert!(non_cpu.iter().all(|m| !m.tags.contains_key("nice")));
}

#[test]
fn filesystem_tags_on_io_metrics() {
    let metrics = get_default_metrics();

    let io_names = [
        DISK_READ_BYTES,
        DISK_WRITTEN_BYTES,
        TOTAL_DISK_READ_BYTES,
        TOTAL_DISK_WRITTEN_BYTES,
        OPEN_FILES,
    ];
    let io_metrics: Vec<_> = metrics.iter().filter(|m| io_names.contains(&m.name)).collect();
    assert!(!io_metrics.is_empty());
    assert!(io_metrics.iter().any(|m| m.tags.contains_key("cwd")));

    let cwd_on_non_io = metrics
        .iter()
        .filter(|m| !io_names.contains(&m.name))
        .any(|m| m.tags.contains_key("cwd"));
    // cwd should NOT appear outside I/O metrics
    assert!(!cwd_on_non_io, "cwd tag found on non-I/O metric");
}

#[test]
fn open_files_has_limit_tag() {
    let metrics = get_default_metrics();

    let open_files: Vec<_> = metrics.iter().filter(|m| m.name == OPEN_FILES).collect();

    // open_files_limit should be a tag on open_files, not a separate metric
    assert_eq!(count_name(&metrics, "process_open_files_limit"), 0);
    assert!(!open_files.is_empty());
    assert!(open_files.iter().any(|m| m.tags.contains_key("open_files_limit")));
}

// --- Metric value types ---

#[test]
fn runtime_is_counter_others_are_gauges() {
    let metrics = get_default_metrics();

    for m in &metrics {
        if m.name == RUNTIME {
            assert!(
                matches!(m.value, MetricValue::Counter { .. }),
                "process_runtime should be a counter"
            );
        } else {
            assert!(
                matches!(m.value, MetricValue::Gauge { .. }),
                "{} should be a gauge",
                m.name
            );
        }
    }
}

// --- Linux-specific metrics ---

#[test]
fn generates_linux_procfs_metrics() {
    let metrics = get_default_metrics();

    let names: HashSet<&str> = metrics.iter().map(|m| m.name).collect();

    assert!(names.contains(MINOR_PAGE_FAULTS));
    assert!(names.contains(MAJOR_PAGE_FAULTS));
    assert!(names.contains(VOLUNTARY_CONTEXT_SWITCHES));
    assert!(names.contains(INVOLUNTARY_CONTEXT_SWITCHES));
}

// --- Metric name filtering ---

#[test]
fn filters_metrics_by_include() {
    let mut config = HostMetricsConfig::default();
    config.process.metrics = FilterList {
        includes: Some(vec![pattern("process_cpu_*")]),
        excludes: None,
    };
    let metrics = get_metrics(config);

    assert!(!metrics.is_empty());
    // Only cpu metrics should be present
    assert!(metrics.iter().all(|m| m.name.starts_with("process_cpu")));
}

#[test]
fn filters_metrics_by_exclude() {
    let mut config = HostMetricsConfig::default();
    config.process.metrics = FilterList {
        includes: None,
        excludes: Some(vec![pattern("process_disk_*"), pattern("process_total_*")]),
    };
    let metrics = get_metrics(config);

    assert!(!metrics.is_empty());
    // No disk metrics should be present
    assert!(!metrics.iter().any(|m| m.name.starts_with("process_disk")));
    assert!(!metrics.iter().any(|m| m.name.starts_with("process_total")));
    // But other metrics should still be there
    assert!(metrics.iter().any(|m| m.name == CPU_USAGE));
}

#[test]
fn empty_filter_emits_all_metrics() {
    // An empty (default) FilterList should not filter anything out.
    // We verify by checking that every known metric name appears.
    let metrics = get_default_metrics();
    let names: HashSet<&str> = metrics.iter().map(|m| m.name).collect();

    assert!(names.contains(CPU_USAGE));
    assert!(names.contains(MEMORY_USAGE));
    assert!(names.contains(MEMORY_VIRTUAL_USAGE));
    assert!(names.contains(RUNTIME));
    assert!(names.contains(ACCUMULATED_CPU_TIME));
    assert_eq!(names.len(), 15);
}

// --- Process name filtering still works ---

#[test]
fn filters_processes_by_name() {
    // Filter to a process name that definitely won't match anything
    let mut config = HostMetricsConfig::default();
    config.process.processes = FilterList {
        includes: Some(vec![pattern("nonexistent_process_xyz_12345")]),
        excludes: None,
    };
    let metrics = get_metrics(config);
    assert!(metrics.is_empty());
}

// --- Exact values ---

#[test]
fn process_gives_its_metrics_in_order_with_exact_values() {
    let mut buffer = MetricsBuffer::new();
    HostMetrics::new(HostMetricsConfig::default())
        .process_metrics(&vec![shell()], &user_database, &mut buffer);
    let count = |n: u64| MetricValue::Gauge { value: Reading::Count(n) };
    let seen: Vec<(&str, MetricValue)> =
        buffer.metrics.iter().map(|m| (m.name, m.value)).collect();
    assert_eq!(
        seen,
        vec![
            (
                CPU_USAGE,
                MetricValue::Gauge { value: Reading::Float32(12.5f32.to_bits()) }
            ),
            (MEMORY_USAGE, count(4096)),
            (MEMORY_VIRTUAL_USAGE, count(8192)),
            (RUNTIME, MetricValue::Counter { value: Reading::Count(60) }),
            (ACCUMULATED_CPU_TIME, count(250)),
            (DISK_READ_BYTES, count(1)),
            (DISK_WRITTEN_BYTES, count(2)),
            (TOTAL_DISK_READ_BYTES, count(3)),
            (TOTAL_DISK_WRITTEN_BYTES, count(4)),
            (OPEN_FILES, count(9)),
            (TASK_COUNT, count(3)),
            (MINOR_PAGE_FAULTS, count(70)),
            (MAJOR_PAGE_FAULTS, count(8)),
            (VOLUNTARY_CONTEXT_SWITCHES, count(11)),
            (INVOLUNTARY_CONTEXT_SWITCHES, count(12)),
        ]
    );
}

fn sorted(tags: &MetricTags) -> Vec<(String, String)> {
    let mut pairs = tags.pairs().clone();
    pairs.sort();
    pairs
}

fn with(extra: &[(&str, &str)]) -> Vec<(String, String)> {
    let mut pairs: Vec<(String, String)> = [
        ("pid", "4321"),
        ("name", "bash"),
        ("command", "/bin/bash -l"),
        ("ppid", "17"),
        ("user", "root"),
        ("effective_user", "4294967294"),
        ("group_id", "100"),
        ("effective_group_id", "101"),
        ("session_id", "4000"),
        ("status", "sleep"),
        ("exe", "/bin/bash"),
        ("thread_kind", "userland"),
    ]
    .iter()
    .chain(extra.iter())
    .map(|(k, v)| (k.to_string(), v.to_string()))
    .collect();
    pairs.sort();
    pairs
}

#[test]
fn tags_of_each_category_are_exact() {
    let mut buffer = MetricsBuffer::new();
    HostMetrics::new(HostMetricsConfig::default())
        .process_metrics(&vec![shell()], &user_database, &mut buffer);
    let io = [("cwd", "/home/ada"), ("root", "/")];
    let open = [("cwd", "/home/ada"), ("root", "/"), ("open_files_limit", "1024")];
    let memory = [("shm_owner_pid", "99")];
    for m in &buffer.metrics {
        let expected = match m.name {
            "process_cpu_usage" => with(&[("nice", "-5")]),
            "process_runtime" => with(&[("start_time", "1700000000")]),
            "process_memory_usage" | "process_memory_virtual_usage"
            | "process_minor_page_faults" | "process_major_page_faults" => with(&memory),
            "process_disk_read_bytes" | "process_disk_written_bytes"
            | "process_total_disk_read_bytes" | "process_total_disk_written_bytes" => with(&io),
            "process_open_files" => with(&open),
            _ => with(&[]),
        };
        assert_eq!(sorted(&m.tags), expected, "{}", m.name);
    }
}

#[test]
fn process_that_tells_little_gives_the_core_metrics() {
    let mut buffer = MetricsBuffer::new();
    HostMetrics::new(HostMetricsConfig::default())
        .process_metrics(&vec![kernel_thread()], &user_database, &mut buffer);
    assert_eq!(buffer.metrics.len(), 9);
    let expected: Vec<(String, String)> = [
        ("command", ""),
        ("name", "kthreadd"),
        ("pid", "2"),
        ("status", "idle"),
        ("thread_kind", "kernel"),
    ]
    .iter()
    .map(|(k, v)| (k.to_string(), v.to_string()))
    .collect();
    for m in &buffer.metrics {
        assert_eq!(sorted(&m.tags), expected);
    }
}

#[test]
fn run_adds_to_what_the_buffer_holds() {
    let mut host = HostMetrics::new(HostMetricsConfig::default());
    let mut buffer = MetricsBuffer::new();
    host.process_metrics(&vec![kernel_thread()], &user_database, &mut buffer);
    host.process_metrics(&vec![kernel_thread(), kernel_thread()], &user_database, &mut buffer);
    assert_eq!(buffer.metrics.len(), 27);
}

#[test]
fn names_that_are_no_text_are_unknown() {
    let mut odd = kernel_thread();
    odd.name = vec![0x66, 0xff, 0x6f];
    odd.cmd = vec![b"a".to_vec(), vec![0xff]];
    odd.exe = Some(vec![0x2f, 0xff]);
    assert_eq!(process_name(&odd.name), None);

    let mut buffer = MetricsBuffer::new();
    HostMetrics::new(HostMetricsConfig::default())
        .process_metrics(&vec![odd], &user_database, &mut buffer);
    assert_eq!(buffer.metrics[0].tags.get("name"), Some("unknown"));
    assert_eq!(buffer.metrics[0].tags.get("command"), Some(""));
    assert_eq!(buffer.metrics[0].tags.get("exe"), Some("/\u{FFFD}"));
}

#[test]
fn names_that_are_no_text_match_no_pattern() {
    let mut odd = kernel_thread();
    odd.name = vec![0xff];
    let mut config = HostMetricsConfig::default();
    config.process.processes = FilterList { includes: Some(vec![pattern("*")]), excludes: None };
    let host = HostMetrics::new(config);
    assert!(!host.selects(&odd.name));
    assert!(host.selects(&b"bash".to_vec()));
    assert!(HostMetrics::new(HostMetricsConfig::default()).selects(&odd.name));
}

#[test]
fn command_lines_are_joined_with_spaces() {
    assert_eq!(command_line(&vec![]), "");
    assert_eq!(command_line(&vec![b"ls".to_vec()]), "ls");
    assert_eq!(
        command_line(&vec![b"ls".to_vec(), b"".to_vec(), b"/tmp".to_vec()]),
        "ls  /tmp"
    );
    assert_eq!(command_line(&vec![b"ls".to_vec(), vec![0xc3, 0xa9]]), "ls \u{e9}");
}

#[test]
fn paths_are_shown_as_far_as_they_are_text() {
    assert_eq!(path_tag(&None), "");
    assert_eq!(path_tag(&Some(b"/usr/bin".to_vec())), "/usr/bin");
    assert_eq!(path_tag(&Some(vec![0x2f, 0x80, 0x61])), "/\u{FFFD}a");
    assert_eq!(path_tag(&Some(vec![0x80])), "\u{FFFD}");
    assert_eq!(path_tag(&Some(Vec::new())), "");
}

#[test]
fn every_status_has_its_text() {
    let texts = [
        (ProcessStatus::Idle, "idle"),
        (ProcessStatus::Run, "run"),
        (ProcessStatus::Sleep, "sleep"),
        (ProcessStatus::Stop, "stop"),
        (ProcessStatus::Zombie, "zombie"),
        (ProcessStatus::Tracing, "tracing"),
        (ProcessStatus::Dead, "dead"),
        (ProcessStatus::Wakekill, "wakekill"),
        (ProcessStatus::Waking, "waking"),
        (ProcessStatus::Parked, "parked"),
        (ProcessStatus::LockBlocked, "unknown"),
        (ProcessStatus::UninterruptibleDiskSleep, "unknown"),
        (ProcessStatus::Unknown(7), "unknown"),
    ];
    for (status, text) in texts {
        assert_eq!(format_process_status(status), text);
    }
}

#[test]
fn configuration_defaults() {
    let config = ProcessConfig::default();
    assert!(config.processes.includes.is_none());
    assert!(config.metrics.excludes.is_none());
    assert_eq!(config.uid_cache_ttl_secs, 300);
    assert_eq!(default_uid_cache_ttl_secs(), 300);
    assert_eq!(
        example_process_metrics(),
        vec!["process_cpu_*", "process_memory_*", "process_disk_*"]
    );
}

#[test]
fn configured_ttl_reaches_the_cache() {
    let mut config = HostMetricsConfig::default();
    config.process.uid_cache_ttl_secs = 0;
    let mut host = HostMetrics::new(config);
    host.uid_cache.remember(1, 0, Some("ada".to_string()));
    assert_eq!(host.uid_cache.cached(1, 0), None);

    let mut host = HostMetrics::new(HostMetricsConfig::default());
    host.uid_cache.remember(0, 0, Some("somebody".to_string()));
    let mut buffer = MetricsBuffer::new();
    host.process_metrics(&vec![shell()], &user_database, &mut buffer);
    assert_eq!(buffer.metrics[0].tags.get("user"), Some("somebody"));
}

// --- Patterns ---

#[test]
fn patterns_match_as_globs() {
    assert!(pattern("process_cpu_*").matches_str("process_cpu_usage"));
    assert!(pattern("process_cpu_*").matches_str("process_cpu_"));
    assert!(!pattern("process_cpu_*").matches_str("process_memory_usage"));
    assert!(!pattern("process_cpu_*").matches_str("my_process_cpu_usage"));
    assert!(pattern("bash").matches_str("bash"));
    assert!(!pattern("bash").matches_str("Bash"));
    assert!(pattern("b?sh").matches_str("bush"));
    assert!(pattern("[bd]ash").matches_str("dash"));
    assert!(pattern("*").matches_str(""));
    assert!(pattern("*").matches_str("a/b"));
}

#[test]
fn patterns_that_do_not_compile_are_refused() {
    let error = PatternWrapper::try_from("a**b".to_string()).unwrap_err();
    assert_eq!(error.pos, 0);
    assert_eq!(error.msg, "recursive wildcards must form a single path component");
    let error = PatternWrapper::try_from("ab[c".to_string()).unwrap_err();
    assert_eq!(error.pos, 2);
    assert_eq!(error.msg, "invalid range pattern");
}

#[test]
fn excludes_win_over_includes() {
    let filter = FilterList {
        includes: Some(vec![pattern("a*"), pattern("b")]),
        excludes: Some(vec![pattern("ab*")]),
    };
    assert!(filter.contains_str(Some("ac")));
    assert!(filter.contains_str(Some("b")));
    assert!(!filter.contains_str(Some("abc")));
    assert!(!filter.contains_str(Some("c")));
    assert!(!filter.contains_str(None));
    let filter = FilterList { includes: None, excludes: Some(vec![pattern("*")]) };
    assert!(filter.contains_str(None));
    assert!(!filter.contains_str(Some("x")));
    assert!(FilterList::default().contains_str(None));
}

#[test]
fn copied_filters_let_the_same_through() {
    let mut config = ProcessConfig::default();
    config.metrics =
        FilterList { includes: Some(vec![pattern("a*")]), excludes: Some(vec![pattern("ab")]) };
    config.uid_cache_ttl_secs = 7;
    let copy = config.clone();
    assert!(copy.metrics.contains_str(Some("ac")));
    assert!(!copy.metrics.contains_str(Some("ab")));
    assert!(!copy.metrics.contains_str(Some("b")));
    assert!(copy.processes.contains_str(None));
    assert_eq!(copy.uid_cache_ttl_secs, 7);
}

// --- Tags ---

#[test]
fn tags_hold_one_value_each() {
    let mut tags = MetricTags::new();
    assert_eq!(tags.get("a"), None);
    tags.replace("a", "1".to_string());
    tags.replace("b", "2".to_string());
    tags.replace("a", "3".to_string());
    let copy = tags.clone();
    tags.replace("c", "4".to_string());
    assert_eq!(copy.pairs().len(), 2);
    assert_eq!(copy.get("a"), Some("3"));
    assert_eq!(copy.get("b"), Some("2"));
    assert!(!copy.contains_key("c"));
    assert!(tags.contains_key("c"));
}
