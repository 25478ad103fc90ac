//! Which metrics a process gives.

use vstd::prelude::*;

use super::filter::FilterList;
use super::metric::{MetricValue, MetricView, MetricsBuffer, Reading};
use super::process::{
    DiskUsage, ProcStat, ProcStatus, ProcessSnapshot, ProcfsData, ACCUMULATED_CPU_TIME,
    CPU_USAGE, DISK_READ_BYTES, DISK_WRITTEN_BYTES, INVOLUNTARY_CONTEXT_SWITCHES,
    MAJOR_PAGE_FAULTS, MEMORY_USAGE, MEMORY_VIRTUAL_USAGE, MINOR_PAGE_FAULTS, OPEN_FILES, RUNTIME,
    TASK_COUNT, TOTAL_DISK_READ_BYTES, TOTAL_DISK_WRITTEN_BYTES, VOLUNTARY_CONTEXT_SWITCHES,
};
use super::process_tags::{
    add_directories, add_limit, add_nice, add_shm_owner, add_start_time, make_identity,
    UserNames, UserNamesView,
};
use super::tags::MetricTags;

verus! {

/// A gauge over a whole number, where there is one.
pub open spec fn gauge_if(
    name: Seq<char>,
    value: Option<u64>,
    tags: Map<Seq<char>, Seq<char>>,
) -> Option<MetricView> {
    match value {
        Some(n) => Some(
            MetricView {
                name,
                value: MetricValue::Gauge { value: Reading::Count(n) },
                tags,
            },
        ),
        None => None,
    }
}

/// `/proc/<pid>/stat`, where it could be read.
pub open spec fn stat_if(process: ProcessSnapshot) -> Option<ProcStat> {
    match process.procfs {
        Some(data) => data.stat,
        None => None,
    }
}

/// `/proc/<pid>/status`, where it could be read.
pub open spec fn status_if(process: ProcessSnapshot) -> Option<ProcStatus> {
    match process.procfs {
        Some(data) => data.status,
        None => None,
    }
}

/// The minor page faults, where they are known.
pub open spec fn minor_faults_if(process: ProcessSnapshot) -> Option<u64> {
    match stat_if(process) {
        Some(stat) => Some(stat.minflt),
        None => None,
    }
}

/// The major page faults, where they are known.
pub open spec fn major_faults_if(process: ProcessSnapshot) -> Option<u64> {
    match stat_if(process) {
        Some(stat) => Some(stat.majflt),
        None => None,
    }
}

/// The voluntary context switches, where they are known.
pub open spec fn voluntary_if(process: ProcessSnapshot) -> Option<u64> {
    match status_if(process) {
        Some(status) => status.voluntary_ctxt_switches,
        None => None,
    }
}

/// The involuntary context switches, where they are known.
pub open spec fn involuntary_if(process: ProcessSnapshot) -> Option<u64> {
    match status_if(process) {
        Some(status) => status.nonvoluntary_ctxt_switches,
        None => None,
    }
}

/// An optional count.
pub open spec fn count_if(n: Option<usize>) -> Option<u64> {
    match n {
        Some(n) => Some(n as u64),
        None => None,
    }
}

/// The metrics of what a process computes and holds.
#[verifier::opaque]
pub open spec fn usage_candidates(process: ProcessSnapshot, users: UserNamesView) -> Seq<
    Option<MetricView>,
> {
    let memory = super::process_tags::memory_tags(process, users);
    seq![
        Some(
            MetricView {
                name: CPU_USAGE@,
                value: MetricValue::Gauge { value: Reading::Float32(process.cpu_usage) },
                tags: super::process_tags::cpu_tags(process, users),
            },
        ),
        gauge_if(MEMORY_USAGE@, Some(process.memory), memory),
        gauge_if(MEMORY_VIRTUAL_USAGE@, Some(process.virtual_memory), memory),
        Some(
            MetricView {
                name: RUNTIME@,
                value: MetricValue::Counter { value: Reading::Count(process.run_time) },
                tags: super::process_tags::runtime_tags(process, users),
            },
        ),
        gauge_if(
            ACCUMULATED_CPU_TIME@,
            Some(process.accumulated_cpu_time),
            super::process_tags::identity(process, users),
        ),
    ]
}

/// The metrics of what a process reads and writes.
#[verifier::opaque]
pub open spec fn io_candidates(process: ProcessSnapshot, users: UserNamesView) -> Seq<
    Option<MetricView>,
> {
    let io = super::process_tags::io_tags(process, users);
    let open = super::process_tags::open_files_tags(process, users);
    seq![
        gauge_if(DISK_READ_BYTES@, Some(process.disk_usage.read_bytes), io),
        gauge_if(DISK_WRITTEN_BYTES@, Some(process.disk_usage.written_bytes), io),
        gauge_if(TOTAL_DISK_READ_BYTES@, Some(process.disk_usage.total_read_bytes), io),
        gauge_if(TOTAL_DISK_WRITTEN_BYTES@, Some(process.disk_usage.total_written_bytes), io),
        gauge_if(OPEN_FILES@, count_if(process.open_files), open),
    ]
}

/// The metrics of how the kernel runs a process.
#[verifier::opaque]
pub open spec fn kernel_candidates(process: ProcessSnapshot, users: UserNamesView) -> Seq<
    Option<MetricView>,
> {
    let identity = super::process_tags::identity(process, users);
    let memory = super::process_tags::memory_tags(process, users);
    seq![
        gauge_if(TASK_COUNT@, count_if(process.task_count), identity),
        gauge_if(MINOR_PAGE_FAULTS@, minor_faults_if(process), memory),
        gauge_if(MAJOR_PAGE_FAULTS@, major_faults_if(process), memory),
        gauge_if(VOLUNTARY_CONTEXT_SWITCHES@, voluntary_if(process), identity),
        gauge_if(INVOLUNTARY_CONTEXT_SWITCHES@, involuntary_if(process), identity),
    ]
}

/// All metrics that a process can give, in the order in which they are emitted. Those that the
/// host does not report are none.
pub open spec fn candidates(process: ProcessSnapshot, users: UserNamesView) -> Seq<
    Option<MetricView>,
> {
    usage_candidates(process, users) + io_candidates(process, users) + kernel_candidates(
        process,
        users,
    )
}

/// Whether a candidate is there and the filter wants it.
pub open spec fn wanted(filter: FilterList, candidate: Option<MetricView>) -> bool {
    candidate matches Some(metric) && filter.admits(Some(metric.name))
}

/// What one candidate gives.
#[verifier::opaque]
pub open spec fn one(filter: FilterList, candidate: Option<MetricView>) -> Seq<MetricView> {
    if wanted(filter, candidate) {
        seq![candidate.unwrap()]
    } else {
        Seq::empty()
    }
}

/// The candidates that are wanted, in their order.
pub open spec fn emitted(filter: FilterList, candidates: Seq<Option<MetricView>>) -> Seq<MetricView>
    decreases candidates.len(),
{
    if candidates.len() == 0 {
        Seq::empty()
    } else if wanted(filter, candidates.last()) {
        emitted(filter, candidates.drop_last()).push(candidates.last().unwrap())
    } else {
        emitted(filter, candidates.drop_last())
    }
}

/// The metrics that a process gives.
pub open spec fn metrics_of(
    filter: FilterList,
    process: ProcessSnapshot,
    users: UserNamesView,
) -> Seq<MetricView> {
    emitted(filter, candidates(process, users))
}

/// Which metrics the configured filter wants.
#[derive(Clone, Copy, Debug)]
pub struct EnabledMetrics {
    pub cpu_usage: bool,
    pub memory_usage: bool,
    pub memory_virtual_usage: bool,
    pub runtime: bool,
    pub accumulated_cpu_time: bool,
    pub disk_read_bytes: bool,
    pub disk_written_bytes: bool,
    pub total_disk_read_bytes: bool,
    pub total_disk_written_bytes: bool,
    pub open_files: bool,
    pub task_count: bool,
    pub minor_page_faults: bool,
    pub major_page_faults: bool,
    pub voluntary_context_switches: bool,
    pub involuntary_context_switches: bool,
}

/// The names of all process metrics.
pub open spec fn metric_names() -> Seq<Seq<char>> {
    seq![
        CPU_USAGE@,
        MEMORY_USAGE@,
        MEMORY_VIRTUAL_USAGE@,
        RUNTIME@,
        ACCUMULATED_CPU_TIME@,
        DISK_READ_BYTES@,
        DISK_WRITTEN_BYTES@,
        TOTAL_DISK_READ_BYTES@,
        TOTAL_DISK_WRITTEN_BYTES@,
        OPEN_FILES@,
        TASK_COUNT@,
        MINOR_PAGE_FAULTS@,
        MAJOR_PAGE_FAULTS@,
        VOLUNTARY_CONTEXT_SWITCHES@,
        INVOLUNTARY_CONTEXT_SWITCHES@,
    ]
}

/// Whether the filter says of each metric's name what its patterns, read as literal but for a
/// closing `*`, say.
pub open spec fn reads_simply(filter: FilterList) -> bool {
    forall|i: int|
        0 <= i < metric_names().len() ==> filter.admits(Some(#[trigger] metric_names()[i]))
            == filter.simply_admits(Some(metric_names()[i]))
}

impl EnabledMetrics {
    /// Whether it says of each metric what the filter says of its name.
    pub open spec fn reflects(self, filter: FilterList) -> bool {
        &&& self.cpu_usage == filter.admits(Some(CPU_USAGE@))
        &&& self.memory_usage == filter.admits(Some(MEMORY_USAGE@))
        &&& self.memory_virtual_usage == filter.admits(Some(MEMORY_VIRTUAL_USAGE@))
        &&& self.runtime == filter.admits(Some(RUNTIME@))
        &&& self.accumulated_cpu_time == filter.admits(Some(ACCUMULATED_CPU_TIME@))
        &&& self.disk_read_bytes == filter.admits(Some(DISK_READ_BYTES@))
        &&& self.disk_written_bytes == filter.admits(Some(DISK_WRITTEN_BYTES@))
        &&& self.total_disk_read_bytes == filter.admits(Some(TOTAL_DISK_READ_BYTES@))
        &&& self.total_disk_written_bytes == filter.admits(Some(TOTAL_DISK_WRITTEN_BYTES@))
        &&& self.open_files == filter.admits(Some(OPEN_FILES@))
        &&& self.task_count == filter.admits(Some(TASK_COUNT@))
        &&& self.minor_page_faults == filter.admits(Some(MINOR_PAGE_FAULTS@))
        &&& self.major_page_faults == filter.admits(Some(MAJOR_PAGE_FAULTS@))
        &&& self.voluntary_context_switches == filter.admits(Some(VOLUNTARY_CONTEXT_SWITCHES@))
        &&& self.involuntary_context_switches == filter.admits(Some(INVOLUNTARY_CONTEXT_SWITCHES@))
    }

    /// `reflects`, for a filter whose patterns are literal but for a closing `*`.
    pub open spec fn simply_reflects(self, filter: FilterList) -> bool {
        &&& self.cpu_usage == filter.simply_admits(Some(CPU_USAGE@))
        &&& self.memory_usage == filter.simply_admits(Some(MEMORY_USAGE@))
        &&& self.memory_virtual_usage == filter.simply_admits(Some(MEMORY_VIRTUAL_USAGE@))
        &&& self.runtime == filter.simply_admits(Some(RUNTIME@))
        &&& self.accumulated_cpu_time == filter.simply_admits(Some(ACCUMULATED_CPU_TIME@))
        &&& self.disk_read_bytes == filter.simply_admits(Some(DISK_READ_BYTES@))
        &&& self.disk_written_bytes == filter.simply_admits(Some(DISK_WRITTEN_BYTES@))
        &&& self.total_disk_read_bytes == filter.simply_admits(Some(TOTAL_DISK_READ_BYTES@))
        &&& self.total_disk_written_bytes == filter.simply_admits(Some(TOTAL_DISK_WRITTEN_BYTES@))
        &&& self.open_files == filter.simply_admits(Some(OPEN_FILES@))
        &&& self.task_count == filter.simply_admits(Some(TASK_COUNT@))
        &&& self.minor_page_faults == filter.simply_admits(Some(MINOR_PAGE_FAULTS@))
        &&& self.major_page_faults == filter.simply_admits(Some(MAJOR_PAGE_FAULTS@))
        &&& self.voluntary_context_switches == filter.simply_admits(
            Some(VOLUNTARY_CONTEXT_SWITCHES@),
        )
        &&& self.involuntary_context_switches == filter.simply_admits(
            Some(INVOLUNTARY_CONTEXT_SWITCHES@),
        )
    }

    /// Asks the filter for each metric.
    pub fn from_filter(filter: &FilterList) -> (enabled: EnabledMetrics)
        ensures
            enabled.reflects(*filter),
            filter.simple() ==> enabled.simply_reflects(*filter),
    {
        EnabledMetrics {
            cpu_usage: filter.contains_str(Some(CPU_USAGE)),
            memory_usage: filter.contains_str(Some(MEMORY_USAGE)),
            memory_virtual_usage: filter.contains_str(Some(MEMORY_VIRTUAL_USAGE)),
            runtime: filter.contains_str(Some(RUNTIME)),
            accumulated_cpu_time: filter.contains_str(Some(ACCUMULATED_CPU_TIME)),
            disk_read_bytes: filter.contains_str(Some(DISK_READ_BYTES)),
            disk_written_bytes: filter.contains_str(Some(DISK_WRITTEN_BYTES)),
            total_disk_read_bytes: filter.contains_str(Some(TOTAL_DISK_READ_BYTES)),
            total_disk_written_bytes: filter.contains_str(Some(TOTAL_DISK_WRITTEN_BYTES)),
            open_files: filter.contains_str(Some(OPEN_FILES)),
            task_count: filter.contains_str(Some(TASK_COUNT)),
            minor_page_faults: filter.contains_str(Some(MINOR_PAGE_FAULTS)),
            major_page_faults: filter.contains_str(Some(MAJOR_PAGE_FAULTS)),
            voluntary_context_switches: filter.contains_str(Some(VOLUNTARY_CONTEXT_SWITCHES)),
            involuntary_context_switches: filter.contains_str(Some(INVOLUNTARY_CONTEXT_SWITCHES)),
        }
    }
}

/// Where both readings of the filter agree with the answers, they agree with each other.
pub(crate) proof fn lemma_reads_simply(enabled: EnabledMetrics, filter: FilterList)
    requires
        enabled.reflects(filter),
        enabled.simply_reflects(filter),
    ensures
        reads_simply(filter),
{
    assert forall|i: int| 0 <= i < metric_names().len() implies filter.admits(
        Some(#[trigger] metric_names()[i]),
    ) == filter.simply_admits(Some(metric_names()[i])) by {
        assert(metric_names().len() == 15);
    }
}

/// What more candidates add.
proof fn lemma_emitted_add(
    filter: FilterList,
    first: Seq<Option<MetricView>>,
    second: Seq<Option<MetricView>>,
)
    ensures
        emitted(filter, first + second) == emitted(filter, first) + emitted(filter, second),
    decreases second.len(),
{
    if second.len() == 0 {
        assert(first + second =~= first);
        assert(emitted(filter, first) + emitted(filter, second) =~= emitted(filter, first));
    } else {
        assert((first + second).drop_last() =~= first + second.drop_last());
        lemma_emitted_add(filter, first, second.drop_last());
        assert(emitted(filter, first + second) =~= emitted(filter, first) + emitted(
            filter,
            second,
        ));
    }
}

/// What five candidates add, one after the other.
proof fn lemma_emitted_five(filter: FilterList, five: Seq<Option<MetricView>>)
    requires
        five.len() == 5,
    ensures
        emitted(filter, five) == one(filter, five[0]) + one(filter, five[1]) + one(filter, five[2])
            + one(filter, five[3]) + one(filter, five[4]),
{
    reveal_with_fuel(emitted, 6);
    reveal(one);
    let none = Seq::<Option<MetricView>>::empty();
    let four = five.drop_last();
    let three = four.drop_last();
    let two = three.drop_last();
    let single = two.drop_last();
    assert(single.drop_last() =~= none);
    assert(emitted(filter, single) =~= one(filter, five[0]));
    assert(emitted(filter, two) =~= emitted(filter, single) + one(filter, five[1]));
    assert(emitted(filter, three) =~= emitted(filter, two) + one(filter, five[2]));
    assert(emitted(filter, four) =~= emitted(filter, three) + one(filter, five[3]));
    assert(emitted(filter, five) =~= emitted(filter, four) + one(filter, five[4]));
}

proof fn lemma_add_five(
    base: Seq<MetricView>,
    a: Seq<MetricView>,
    b: Seq<MetricView>,
    c: Seq<MetricView>,
    d: Seq<MetricView>,
    e: Seq<MetricView>,
)
    ensures
        base + a + b + c + d + e == base + (a + b + c + d + e),
{
    assert(base + a + b + c + d + e =~= base + (a + b + c + d + e));
}

/// Adds a gauge, if it is wanted and there is a value.
fn offer(
    output: &mut MetricsBuffer,
    filter: &FilterList,
    enabled: bool,
    name: &'static str,
    value: Option<u64>,
    tags: &MetricTags,
)
    requires
        enabled == filter.admits(Some(name@)),
    ensures
        final(output)@ == old(output)@ + one(*filter, gauge_if(name@, value, tags@)),
        final(output).name == old(output).name,
{
    if enabled {
        if let Some(n) = value {
            output.gauge(name, Reading::Count(n), tags.clone());
        }
    }
    proof {
        reveal(one);
        assert(output@ =~= old(output)@ + one(*filter, gauge_if(name@, value, tags@)));
    }
}

fn count(n: Option<usize>) -> (m: Option<u64>)
    ensures
        m == count_if(n),
{
    match n {
        Some(n) => Some(n as u64),
        None => None,
    }
}

fn minor_faults(process: &ProcessSnapshot) -> (n: Option<u64>)
    ensures
        n == minor_faults_if(*process),
{
    match process.procfs {
        Some(ProcfsData { stat: Some(stat), .. }) => Some(stat.minflt),
        _ => None,
    }
}

fn major_faults(process: &ProcessSnapshot) -> (n: Option<u64>)
    ensures
        n == major_faults_if(*process),
{
    match process.procfs {
        Some(ProcfsData { stat: Some(stat), .. }) => Some(stat.majflt),
        _ => None,
    }
}

fn voluntary_switches(process: &ProcessSnapshot) -> (n: Option<u64>)
    ensures
        n == voluntary_if(*process),
{
    match process.procfs {
        Some(ProcfsData { status: Some(status), .. }) => status.voluntary_ctxt_switches,
        _ => None,
    }
}

fn involuntary_switches(process: &ProcessSnapshot) -> (n: Option<u64>)
    ensures
        n == involuntary_if(*process),
{
    match process.procfs {
        Some(ProcfsData { status: Some(status), .. }) => status.nonvoluntary_ctxt_switches,
        _ => None,
    }
}

/// Adds the metrics of what a process computes and holds.
fn emit_usage(
    output: &mut MetricsBuffer,
    filter: &FilterList,
    enabled: &EnabledMetrics,
    process: &ProcessSnapshot,
    Ghost(users): Ghost<UserNamesView>,
    identity: &MetricTags,
    memory: &MetricTags,
)
    requires
        enabled.reflects(*filter),
        identity@ == super::process_tags::identity(*process, users),
        memory@ == super::process_tags::memory_tags(*process, users),
    ensures
        final(output)@ == old(output)@ + emitted(*filter, usage_candidates(*process, users)),
        final(output).name == old(output).name,
{
    let ghost all = usage_candidates(*process, users);
    proof {
        reveal(usage_candidates);
        lemma_emitted_five(*filter, all);
    }
    if enabled.cpu_usage {
        let cpu: MetricTags = add_nice(process, identity);
        output.gauge(CPU_USAGE, Reading::Float32(process.cpu_usage), cpu);
    }
    assert(output@ =~= old(output)@ + one(*filter, all[0])) by {
        reveal(one);
    }
    offer(output, filter, enabled.memory_usage, MEMORY_USAGE, Some(process.memory), memory);
    offer(
        output,
        filter,
        enabled.memory_virtual_usage,
        MEMORY_VIRTUAL_USAGE,
        Some(process.virtual_memory),
        memory,
    );
    let ghost before = output@;
    if enabled.runtime {
        let runtime: MetricTags = add_start_time(process, identity);
        output.counter(RUNTIME, Reading::Count(process.run_time), runtime);
    }
    assert(output@ =~= before + one(*filter, all[3])) by {
        reveal(one);
    }
    offer(
        output,
        filter,
        enabled.accumulated_cpu_time,
        ACCUMULATED_CPU_TIME,
        Some(process.accumulated_cpu_time),
        identity,
    );
    proof {
        lemma_add_five(
            old(output)@,
            one(*filter, all[0]),
            one(*filter, all[1]),
            one(*filter, all[2]),
            one(*filter, all[3]),
            one(*filter, all[4]),
        );
    }
}

/// Adds the metrics of what a process reads and writes.
fn emit_io(
    output: &mut MetricsBuffer,
    filter: &FilterList,
    enabled: &EnabledMetrics,
    process: &ProcessSnapshot,
    Ghost(users): Ghost<UserNamesView>,
    identity: &MetricTags,
)
    requires
        enabled.reflects(*filter),
        identity@ == super::process_tags::identity(*process, users),
    ensures
        final(output)@ == old(output)@ + emitted(*filter, io_candidates(*process, users)),
        final(output).name == old(output).name,
{
    let ghost all = io_candidates(*process, users);
    proof {
        reveal(io_candidates);
        lemma_emitted_five(*filter, all);
    }
    let io: MetricTags = add_directories(process, identity);
    let open: MetricTags = add_limit(process, &io);
    let du: DiskUsage = process.disk_usage;
    offer(output, filter, enabled.disk_read_bytes, DISK_READ_BYTES, Some(du.read_bytes), &io);
    offer(
        output,
        filter,
        enabled.disk_written_bytes,
        DISK_WRITTEN_BYTES,
        Some(du.written_bytes),
        &io,
    );
    offer(
        output,
        filter,
        enabled.total_disk_read_bytes,
        TOTAL_DISK_READ_BYTES,
        Some(du.total_read_bytes),
        &io,
    );
    offer(
        output,
        filter,
        enabled.total_disk_written_bytes,
        TOTAL_DISK_WRITTEN_BYTES,
        Some(du.total_written_bytes),
        &io,
    );
    offer(output, filter, enabled.open_files, OPEN_FILES, count(process.open_files), &open);
    proof {
        lemma_add_five(
            old(output)@,
            one(*filter, all[0]),
            one(*filter, all[1]),
            one(*filter, all[2]),
            one(*filter, all[3]),
            one(*filter, all[4]),
        );
    }
}

/// Adds the metrics of how the kernel runs a process.
fn emit_kernel(
    output: &mut MetricsBuffer,
    filter: &FilterList,
    enabled: &EnabledMetrics,
    process: &ProcessSnapshot,
    Ghost(users): Ghost<UserNamesView>,
    identity: &MetricTags,
    memory: &MetricTags,
)
    requires
        enabled.reflects(*filter),
        identity@ == super::process_tags::identity(*process, users),
        memory@ == super::process_tags::memory_tags(*process, users),
    ensures
        final(output)@ == old(output)@ + emitted(*filter, kernel_candidates(*process, users)),
        final(output).name == old(output).name,
{
    let ghost all = kernel_candidates(*process, users);
    proof {
        reveal(kernel_candidates);
        lemma_emitted_five(*filter, all);
    }
    let minor: Option<u64> = minor_faults(process);
    let major: Option<u64> = major_faults(process);
    let voluntary: Option<u64> = voluntary_switches(process);
    let involuntary: Option<u64> = involuntary_switches(process);
    offer(output, filter, enabled.task_count, TASK_COUNT, count(process.task_count), identity);
    offer(output, filter, enabled.minor_page_faults, MINOR_PAGE_FAULTS, minor, memory);
    offer(output, filter, enabled.major_page_faults, MAJOR_PAGE_FAULTS, major, memory);
    offer(
        output,
        filter,
        enabled.voluntary_context_switches,
        VOLUNTARY_CONTEXT_SWITCHES,
        voluntary,
        identity,
    );
    offer(
        output,
        filter,
        enabled.involuntary_context_switches,
        INVOLUNTARY_CONTEXT_SWITCHES,
        involuntary,
        identity,
    );
    proof {
        lemma_add_five(
            old(output)@,
            one(*filter, all[0]),
            one(*filter, all[1]),
            one(*filter, all[2]),
            one(*filter, all[3]),
            one(*filter, all[4]),
        );
    }
}

/// Adds the metrics of one process.
pub fn emit_process(
    output: &mut MetricsBuffer,
    filter: &FilterList,
    enabled: &EnabledMetrics,
    process: &ProcessSnapshot,
    users: &UserNames,
)
    requires
        enabled.reflects(*filter),
    ensures
        final(output)@ == old(output)@ + metrics_of(*filter, *process, users@),
        final(output).name == old(output).name,
{
    let identity: MetricTags = make_identity(process, users);
    let memory: MetricTags = add_shm_owner(process, &identity);
    let ghost users = users@;
    emit_usage(output, filter, enabled, process, Ghost(users), &identity, &memory);
    emit_io(output, filter, enabled, process, Ghost(users), &identity);
    emit_kernel(output, filter, enabled, process, Ghost(users), &identity, &memory);
    proof {
        let usage = usage_candidates(*process, users);
        let io = io_candidates(*process, users);
        let kernel = kernel_candidates(*process, users);
        lemma_emitted_add(*filter, usage, io);
        lemma_emitted_add(*filter, usage + io, kernel);
        assert(output@ =~= old(output)@ + metrics_of(*filter, *process, users));
    }
}

}
