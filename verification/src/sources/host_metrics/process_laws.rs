//! What holds of all process metrics.

use vstd::prelude::*;
use vstd::utf8::*;

use crate::text;

use super::filter::FilterList;
use super::metric::{MetricValue, MetricView, Reading};
use super::process::{
    ProcessConfig, ProcessSnapshot, ProcfsData, ACCUMULATED_CPU_TIME, CPU_USAGE, DISK_READ_BYTES,
    DISK_WRITTEN_BYTES, INVOLUNTARY_CONTEXT_SWITCHES, MAJOR_PAGE_FAULTS, MEMORY_USAGE,
    MEMORY_VIRTUAL_USAGE, MINOR_PAGE_FAULTS, OPEN_FILES, RUNTIME, TASK_COUNT,
    TOTAL_DISK_READ_BYTES, TOTAL_DISK_WRITTEN_BYTES, VOLUNTARY_CONTEXT_SWITCHES,
};
use super::process_tags::UserNamesView;
use super::tags::MetricTags;
use super::uid_cache::{KnownNames, UserAnswer};

verus! {

/// What is emitted is a candidate, and the filter wants it.
proof fn lemma_emitted_is_candidate(
    filter: FilterList,
    candidates: Seq<Option<MetricView>>,
    metric: MetricView,
) -> (i: int)
    requires
        super::process_metrics::emitted(filter, candidates).contains(metric),
    ensures
        0 <= i < candidates.len(),
        candidates[i] == Some(metric),
        filter.admits(Some(metric.name)),
    decreases candidates.len(),
{
    let all = super::process_metrics::emitted(filter, candidates);
    let rest = super::process_metrics::emitted(filter, candidates.drop_last());
    let k = choose|k: int| 0 <= k < all.len() && all[k] == metric;
    if k < rest.len() {
        assert(rest[k] == metric);
        let i = lemma_emitted_is_candidate(filter, candidates.drop_last(), metric);
        i
    } else {
        candidates.len() - 1
    }
}

/// A candidate that the filter wants is emitted.
proof fn lemma_wanted_is_emitted(
    filter: FilterList,
    candidates: Seq<Option<MetricView>>,
    i: int,
)
    requires
        0 <= i < candidates.len(),
        super::process_metrics::wanted(filter, candidates[i]),
    ensures
        super::process_metrics::emitted(filter, candidates).contains(candidates[i].unwrap()),
    decreases candidates.len(),
{
    let all = super::process_metrics::emitted(filter, candidates);
    let rest = super::process_metrics::emitted(filter, candidates.drop_last());
    let metric = candidates[i].unwrap();
    if i == candidates.len() - 1 {
        assert(all[all.len() - 1] == metric);
    } else {
        lemma_wanted_is_emitted(filter, candidates.drop_last(), i);
        let k = choose|k: int| 0 <= k < rest.len() && rest[k] == metric;
        assert(all[k] == metric);
    }
}

/// The candidates have the names of the metrics, in order.
proof fn lemma_candidate_names(process: ProcessSnapshot, users: UserNamesView)
    ensures
        super::process_metrics::candidates(process, users).len() == 15,
        super::process_metrics::metric_names().len() == 15,
        forall|i: int|
            0 <= i < 15 ==> ((#[trigger] super::process_metrics::candidates(
                process,
                users,
            )[i]) matches Some(metric) ==> metric.name
                == super::process_metrics::metric_names()[i]),
{
    reveal(super::process_metrics::usage_candidates);
    reveal(super::process_metrics::io_candidates);
    reveal(super::process_metrics::kernel_candidates);
}

/// The tags that each candidate has.
spec fn candidate_tags(process: ProcessSnapshot, users: UserNamesView, i: int) -> Map<
    Seq<char>,
    Seq<char>,
> {
    if i == 0 {
        super::process_tags::cpu_tags(process, users)
    } else if i == 1 || i == 2 || i == 11 || i == 12 {
        super::process_tags::memory_tags(process, users)
    } else if i == 3 {
        super::process_tags::runtime_tags(process, users)
    } else if 5 <= i < 9 {
        super::process_tags::io_tags(process, users)
    } else if i == 9 {
        super::process_tags::open_files_tags(process, users)
    } else {
        super::process_tags::identity(process, users)
    }
}

proof fn lemma_candidate_tags(process: ProcessSnapshot, users: UserNamesView)
    ensures
        forall|i: int|
            0 <= i < 15 ==> ((#[trigger] super::process_metrics::candidates(
                process,
                users,
            )[i]) matches Some(metric) ==> {
                &&& metric.tags == candidate_tags(process, users, i)
                &&& i == 3 <==> metric.value is Counter
            }),
{
    reveal(super::process_metrics::usage_candidates);
    reveal(super::process_metrics::io_candidates);
    reveal(super::process_metrics::kernel_candidates);
}

/// The tags that say who a process is.
pub open spec fn identity_names() -> Seq<Seq<char>> {
    seq![
        "pid"@,
        "name"@,
        "command"@,
        "ppid"@,
        "user"@,
        "effective_user"@,
        "group_id"@,
        "effective_group_id"@,
        "session_id"@,
        "status"@,
        "exe"@,
        "thread_kind"@,
    ]
}

/// The tags that only some metrics have.
pub open spec fn special_names() -> Seq<Seq<char>> {
    seq![
        "start_time"@,
        "nice"@,
        "shm_owner_pid"@,
        "cwd"@,
        "root"@,
        "open_files_limit"@,
    ]
}

/// No tag of the one kind is a tag of the other, and the special ones differ.
proof fn lemma_names_differ()
    ensures
        forall|i: int, j: int|
            0 <= i < 6 && 0 <= j < 12 ==> #[trigger] special_names()[i]
                != #[trigger] identity_names()[j],
        forall|i: int, j: int|
            0 <= i < j < 6 ==> #[trigger] special_names()[i] != #[trigger] special_names()[j],
        special_names()[0] == "start_time"@,
        special_names()[1] == "nice"@,
        special_names()[2] == "shm_owner_pid"@,
        special_names()[3] == "cwd"@,
        special_names()[4] == "root"@,
        special_names()[5] == "open_files_limit"@,
{
    reveal_strlit("pid");
    reveal_strlit("name");
    reveal_strlit("command");
    reveal_strlit("ppid");
    reveal_strlit("user");
    reveal_strlit("effective_user");
    reveal_strlit("group_id");
    reveal_strlit("effective_group_id");
    reveal_strlit("session_id");
    reveal_strlit("status");
    reveal_strlit("exe");
    reveal_strlit("thread_kind");
    reveal_strlit("start_time");
    reveal_strlit("nice");
    reveal_strlit("shm_owner_pid");
    reveal_strlit("cwd");
    reveal_strlit("root");
    reveal_strlit("open_files_limit");
    assert forall|i: int, j: int| 0 <= i < 6 && 0 <= j < 12 implies #[trigger] special_names()[i]
        != #[trigger] identity_names()[j] by {
        let special = special_names()[i];
        let identity = identity_names()[j];
        assert(special.len() != identity.len() || special[0] != identity[0] || special[1]
            != identity[1]);
    }
    assert forall|i: int, j: int| 0 <= i < j < 6 implies #[trigger] special_names()[i]
        != #[trigger] special_names()[j] by {
        let first = special_names()[i];
        let second = special_names()[j];
        assert(first.len() != second.len() || first[0] != second[0]);
    }
}

/// The identity tags one by one.
proof fn lemma_identity_list()
    ensures
        identity_names().len() == 12,
        identity_names()[0] == "pid"@,
        identity_names()[1] == "name"@,
        identity_names()[2] == "command"@,
        identity_names()[3] == "ppid"@,
        identity_names()[4] == "user"@,
        identity_names()[5] == "effective_user"@,
        identity_names()[6] == "group_id"@,
        identity_names()[7] == "effective_group_id"@,
        identity_names()[8] == "session_id"@,
        identity_names()[9] == "status"@,
        identity_names()[10] == "exe"@,
        identity_names()[11] == "thread_kind"@,
{
}

/// The identity of a process is made of identity tags.
proof fn lemma_identity_names(process: ProcessSnapshot, users: UserNamesView)
    ensures
        forall|name: Seq<char>| #[trigger]
            super::process_tags::identity(process, users).contains_key(name)
                ==> identity_names().contains(name),
{
    reveal(super::process_tags::identity);
    lemma_identity_list();
}

/// The metrics' names differ, all start with `process_`, and the limit on open files is none.
proof fn lemma_metric_names()
    ensures
        super::process_metrics::metric_names().len() == 15,
        forall|i: int, j: int|
            0 <= i < j < 15 ==> #[trigger] super::process_metrics::metric_names()[i]
                != #[trigger] super::process_metrics::metric_names()[j],
        forall|i: int|
            0 <= i < 15 ==> "process_"@.is_prefix_of(
                #[trigger] super::process_metrics::metric_names()[i],
            ),
        forall|i: int|
            0 <= i < 15 ==> #[trigger] super::process_metrics::metric_names()[i]
                != "process_open_files_limit"@,
{
    reveal_strlit("process_");
    reveal_strlit("process_open_files_limit");
    reveal_strlit("process_cpu_usage");
    reveal_strlit("process_memory_usage");
    reveal_strlit("process_memory_virtual_usage");
    reveal_strlit("process_runtime");
    reveal_strlit("process_accumulated_cpu_time");
    reveal_strlit("process_disk_read_bytes");
    reveal_strlit("process_disk_written_bytes");
    reveal_strlit("process_total_disk_read_bytes");
    reveal_strlit("process_total_disk_written_bytes");
    reveal_strlit("process_open_files");
    reveal_strlit("process_task_count");
    reveal_strlit("process_minor_page_faults");
    reveal_strlit("process_major_page_faults");
    reveal_strlit("process_voluntary_context_switches");
    reveal_strlit("process_involuntary_context_switches");
    let names = super::process_metrics::metric_names();
    assert forall|i: int, j: int| 0 <= i < j < 15 implies #[trigger] names[i]
        != #[trigger] names[j] by {
        assert(names[i].len() != names[j].len() || names[i][8] != names[j][8] || names[i][9]
            != names[j][9]);
    }
    assert forall|i: int| 0 <= i < 15 implies #[trigger] names[i] != "process_open_files_limit"@ by {
        assert(names[i].len() != "process_open_files_limit"@.len());
    }
    assert forall|i: int| 0 <= i < 15 implies "process_"@.is_prefix_of(#[trigger] names[i]) by {
        assert(names[i].len() >= 8);
        assert("process_"@ =~= names[i].subrange(0, 8));
    }
}

/// Which candidate a metric of a process is.
proof fn lemma_which(
    filter: FilterList,
    process: ProcessSnapshot,
    users: UserNamesView,
    metric: MetricView,
) -> (i: int)
    requires
        super::process_metrics::metrics_of(filter, process, users).contains(metric),
    ensures
        0 <= i < 15,
        super::process_metrics::candidates(process, users)[i] == Some(metric),
        filter.admits(Some(metric.name)),
        super::process_metrics::metric_names().len() == 15,
        metric.name == super::process_metrics::metric_names()[i],
        metric.tags == candidate_tags(process, users, i),
        i == 3 <==> metric.value is Counter,
        forall|j: int|
            0 <= j < 15 && j != i ==> metric.name
                != #[trigger] super::process_metrics::metric_names()[j],
{
    lemma_metric_names();
    lemma_candidate_names(process, users);
    lemma_candidate_tags(process, users);
    lemma_emitted_is_candidate(filter, super::process_metrics::candidates(process, users), metric)
}

/// Every metric of a process has one of the known names, starts with `process_`, and is one that
/// the filter lets through.
pub proof fn metrics_have_wanted_names(
    filter: FilterList,
    process: ProcessSnapshot,
    users: UserNamesView,
    metric: MetricView,
)
    requires
        super::process_metrics::metrics_of(filter, process, users).contains(metric),
    ensures
        super::process_metrics::metric_names().contains(metric.name),
        "process_"@.is_prefix_of(metric.name),
        filter.admits(Some(metric.name)),
{
    let i = lemma_which(filter, process, users, metric);
    lemma_metric_names();
}

/// A process gives a metric of each name at most once.
pub proof fn names_occur_once(
    filter: FilterList,
    process: ProcessSnapshot,
    users: UserNamesView,
    first: int,
    second: int,
)
    requires
        0 <= first < second < super::process_metrics::metrics_of(filter, process, users).len(),
    ensures
        super::process_metrics::metrics_of(filter, process, users)[first].name
            != super::process_metrics::metrics_of(filter, process, users)[second].name,
{
    let all = super::process_metrics::candidates(process, users);
    lemma_candidate_names(process, users);
    lemma_metric_names();
    lemma_emitted_in_order(filter, all, first, second);
}

/// What is emitted earlier stands earlier among the candidates.
proof fn lemma_emitted_in_order(
    filter: FilterList,
    candidates: Seq<Option<MetricView>>,
    first: int,
    second: int,
)
    requires
        0 <= first < second < super::process_metrics::emitted(filter, candidates).len(),
    ensures
        exists|i: int, j: int|
            0 <= i < j < candidates.len() && (#[trigger] candidates[i]) == Some(
                super::process_metrics::emitted(filter, candidates)[first],
            ) && (#[trigger] candidates[j]) == Some(
                super::process_metrics::emitted(filter, candidates)[second],
            ),
    decreases candidates.len(),
{
    let all = super::process_metrics::emitted(filter, candidates);
    let shorter = candidates.drop_last();
    let rest = super::process_metrics::emitted(filter, shorter);
    if second < rest.len() {
        lemma_emitted_in_order(filter, shorter, first, second);
        let (i, j) = choose|i: int, j: int|
            0 <= i < j < shorter.len() && (#[trigger] shorter[i]) == Some(rest[first]) && (
            #[trigger] shorter[j]) == Some(rest[second]);
        assert(candidates[i] == Some(all[first]) && candidates[j] == Some(all[second]));
    } else {
        assert(rest.contains(rest[first]));
        let i = lemma_emitted_is_candidate(filter, shorter, rest[first]);
        assert(candidates[i] == Some(all[first]));
        assert(candidates[candidates.len() - 1] == Some(all[second]));
    }
}

/// A metric that the host reports and the filter lets through is emitted.
pub proof fn wanted_metrics_are_emitted(
    filter: FilterList,
    process: ProcessSnapshot,
    users: UserNamesView,
    i: int,
)
    requires
        0 <= i < 15,
        super::process_metrics::candidates(process, users)[i] is Some,
        filter.admits(Some(super::process_metrics::metric_names()[i])),
    ensures
        super::process_metrics::metrics_of(filter, process, users).contains(
            super::process_metrics::candidates(process, users)[i].unwrap(),
        ),
{
    lemma_candidate_names(process, users);
    lemma_wanted_is_emitted(filter, super::process_metrics::candidates(process, users), i);
}

/// Which metrics the host always reports: all up to the disk usage, the open files where they
/// are counted, the tasks where they are listed, the page faults where the process's statistics
/// could be read, and the context switches where its status tells them.
pub proof fn reported_metrics(process: ProcessSnapshot, users: UserNamesView)
    ensures
        super::process_metrics::candidates(process, users).len() == 15,
        forall|i: int|
            0 <= i < 9 ==> (#[trigger] super::process_metrics::candidates(process, users)[i]) is Some,
        super::process_metrics::candidates(process, users)[9] is Some <==> process.open_files is Some,
        super::process_metrics::candidates(process, users)[10] is Some
            <==> process.task_count is Some,
        super::process_metrics::candidates(process, users)[11] is Some
            <==> super::process_metrics::stat_if(process) is Some,
        super::process_metrics::candidates(process, users)[12] is Some
            <==> super::process_metrics::stat_if(process) is Some,
        super::process_metrics::candidates(process, users)[13] is Some
            <==> super::process_metrics::voluntary_if(process) is Some,
        super::process_metrics::candidates(process, users)[14] is Some
            <==> super::process_metrics::involuntary_if(process) is Some,
{
    reveal(super::process_metrics::usage_candidates);
    reveal(super::process_metrics::io_candidates);
    reveal(super::process_metrics::kernel_candidates);
}

/// The runtime is a counter, and every other metric a gauge.
pub proof fn runtime_is_the_counter(
    filter: FilterList,
    process: ProcessSnapshot,
    users: UserNamesView,
    metric: MetricView,
)
    requires
        super::process_metrics::metrics_of(filter, process, users).contains(metric),
    ensures
        metric.value is Counter <==> metric.name == RUNTIME@,
        metric.value is Gauge <==> metric.name != RUNTIME@,
{
    let i = lemma_which(filter, process, users, metric);
    assert(super::process_metrics::metric_names()[3] == RUNTIME@);
}

/// Which special tags candidate `i` has.
spec fn special_tag_if(process: ProcessSnapshot, i: int, name: Seq<char>) -> Option<Seq<char>> {
    if name == "start_time"@ && i == 3 {
        super::process_tags::start_if(process)
    } else if name == "nice"@ && i == 0 {
        super::process_tags::nice_if(process)
    } else if name == "shm_owner_pid"@ && (i == 1 || i == 2 || i == 11 || i == 12) {
        super::process_tags::shm_owner_if(process)
    } else if name == "cwd"@ && 5 <= i < 10 {
        super::process_tags::path_if(process.cwd)
    } else if name == "root"@ && 5 <= i < 10 {
        super::process_tags::path_if(process.root)
    } else if name == "open_files_limit"@ && i == 9 {
        super::process_tags::limit_if(process)
    } else {
        None
    }
}

proof fn lemma_special_tags(process: ProcessSnapshot, users: UserNamesView, i: int, k: int)
    requires
        0 <= i < 15,
        0 <= k < 6,
    ensures
        match special_tag_if(process, i, special_names()[k]) {
            Some(value) => candidate_tags(process, users, i).contains_pair(
                special_names()[k],
                value,
            ),
            None => !candidate_tags(process, users, i).contains_key(special_names()[k]),
        },
        super::process_tags::identity(process, users).submap_of(candidate_tags(process, users, i)),
{
    let identity = super::process_tags::identity(process, users);
    let names = special_names();
    lemma_names_differ();
    lemma_identity_names(process, users);
    assert forall|n: int| 0 <= n < 6 implies !identity.contains_key(#[trigger] names[n]) by {
        if identity.contains_key(names[n]) {
            let j = choose|j: int| 0 <= j < 12 && identity_names()[j] == names[n];
            assert(names[n] != identity_names()[j]);
        }
    }
}

/// Every metric of a process has all tags that say who the process is: the PID, the name, the
/// command and the status, and the others as far as they are known.
pub proof fn identity_on_every_metric(
    filter: FilterList,
    process: ProcessSnapshot,
    users: UserNamesView,
    metric: MetricView,
)
    requires
        super::process_metrics::metrics_of(filter, process, users).contains(metric),
    ensures
        super::process_tags::identity(process, users).submap_of(metric.tags),
        metric.tags.contains_pair("pid"@, text::decimal(process.pid as nat)),
        metric.tags.contains_pair("name"@, super::process_tags::shown_name(process)),
        metric.tags.contains_pair("command"@, super::process_tags::shown_command(process)),
        metric.tags.contains_pair("status"@, super::process::status_text(process.status)),
        users.user matches Some(user) ==> metric.tags.contains_pair("user"@, user),
        users.effective_user matches Some(user) ==> metric.tags.contains_pair(
            "effective_user"@,
            user,
        ),
{
    let i = lemma_which(filter, process, users, metric);
    lemma_special_tags(process, users, i, 0);
    lemma_identity_holds(process, users);
}

/// The identity tags differ.
proof fn lemma_identity_names_differ()
    ensures
        forall|i: int, j: int|
            0 <= i < j < 12 ==> #[trigger] identity_names()[i] != #[trigger] identity_names()[j],
{
    reveal_strlit("pid");
    reveal_strlit("name");
    reveal_strlit("command");
    reveal_strlit("ppid");
    reveal_strlit("user");
    reveal_strlit("effective_user");
    reveal_strlit("group_id");
    reveal_strlit("effective_group_id");
    reveal_strlit("session_id");
    reveal_strlit("status");
    reveal_strlit("exe");
    reveal_strlit("thread_kind");
    assert forall|i: int, j: int| 0 <= i < j < 12 implies #[trigger] identity_names()[i]
        != #[trigger] identity_names()[j] by {
        let first = identity_names()[i];
        let second = identity_names()[j];
        assert(first.len() != second.len() || first[0] != second[0]);
    }
}

/// Whether a tag is set to the value, where there is one, and is not set where there is none.
pub open spec fn tag_is(
    tags: Map<Seq<char>, Seq<char>>,
    name: Seq<char>,
    value: Option<Seq<char>>,
) -> bool {
    match value {
        Some(value) => tags.contains_pair(name, value),
        None => !tags.contains_key(name),
    }
}

/// The tags that say who a process is are exactly these: its PID, name, command and status always,
/// and its parent, users, groups, session, program and kind as far as they are known.
pub proof fn identity_is_exact(process: ProcessSnapshot, users: UserNamesView)
    ensures
        ({
            let identity = super::process_tags::identity(process, users);
            &&& identity.contains_pair("pid"@, text::decimal(process.pid as nat))
            &&& identity.contains_pair("name"@, super::process_tags::shown_name(process))
            &&& identity.contains_pair("command"@, super::process_tags::shown_command(process))
            &&& identity.contains_pair("status"@, super::process::status_text(process.status))
            &&& process.parent matches Some(n) ==> identity.contains_pair(
                "ppid"@,
                text::decimal(n as nat),
            )
            &&& process.parent is None ==> !identity.contains_key("ppid"@)
            &&& tag_is(identity, "user"@, users.user)
            &&& tag_is(identity, "effective_user"@, users.effective_user)
            &&& process.group_id matches Some(n) ==> identity.contains_pair(
                "group_id"@,
                text::decimal(n as nat),
            )
            &&& process.group_id is None ==> !identity.contains_key("group_id"@)
            &&& process.effective_group_id matches Some(n) ==> identity.contains_pair(
                "effective_group_id"@,
                text::decimal(n as nat),
            )
            &&& process.effective_group_id is None ==> !identity.contains_key(
                "effective_group_id"@,
            )
            &&& process.session_id matches Some(n) ==> identity.contains_pair(
                "session_id"@,
                text::decimal(n as nat),
            )
            &&& process.session_id is None ==> !identity.contains_key("session_id"@)
            &&& tag_is(identity, "exe"@, super::process_tags::path_if(process.exe))
            &&& process.thread_kind matches Some(kind) ==> identity.contains_pair(
                "thread_kind"@,
                super::process::thread_kind_text(kind),
            )
            &&& process.thread_kind is None ==> !identity.contains_key("thread_kind"@)
        }),
        forall|name: Seq<char>| #[trigger]
            super::process_tags::identity(process, users).contains_key(name) ==> name == "pid"@
                || name == "name"@ || name == "command"@ || name == "ppid"@ || name == "user"@
                || name == "effective_user"@ || name == "group_id"@ || name
                == "effective_group_id"@ || name == "session_id"@ || name == "status"@ || name
                == "exe"@ || name == "thread_kind"@,
{
    reveal(super::process_tags::identity);
    lemma_identity_names_differ();
    lemma_identity_list();
}

proof fn lemma_identity_holds(process: ProcessSnapshot, users: UserNamesView)
    ensures
        ({
            let identity = super::process_tags::identity(process, users);
            &&& identity.contains_pair("pid"@, text::decimal(process.pid as nat))
            &&& identity.contains_pair("name"@, super::process_tags::shown_name(process))
            &&& identity.contains_pair("command"@, super::process_tags::shown_command(process))
            &&& identity.contains_pair("status"@, super::process::status_text(process.status))
            &&& users.user matches Some(user) ==> identity.contains_pair("user"@, user)
            &&& users.effective_user matches Some(user) ==> identity.contains_pair(
                "effective_user"@,
                user,
            )
        }),
{
    identity_is_exact(process, users);
}

/// The start time is on the runtime metric, where it is known, and on no other.
pub proof fn start_time_only_on_runtime(
    filter: FilterList,
    process: ProcessSnapshot,
    users: UserNamesView,
    metric: MetricView,
)
    requires
        super::process_metrics::metrics_of(filter, process, users).contains(metric),
    ensures
        metric.tags.contains_key("start_time"@) <==> metric.name == RUNTIME@ && process.start_time
            > 0,
{
    let i = lemma_which(filter, process, users, metric);
    lemma_names_differ();
    lemma_special_tags(process, users, i, 0);
    assert(super::process_metrics::metric_names()[3] == RUNTIME@);
}

/// The niceness is on the CPU usage metric, where it is known, and on no other.
pub proof fn nice_only_on_cpu_usage(
    filter: FilterList,
    process: ProcessSnapshot,
    users: UserNamesView,
    metric: MetricView,
)
    requires
        super::process_metrics::metrics_of(filter, process, users).contains(metric),
    ensures
        metric.tags.contains_key("nice"@) <==> metric.name == CPU_USAGE@
            && super::process_metrics::stat_if(process) is Some,
{
    let i = lemma_which(filter, process, users, metric);
    lemma_names_differ();
    lemma_special_tags(process, users, i, 1);
    assert(super::process_metrics::metric_names()[0] == CPU_USAGE@);
}

/// The metrics of memory.
pub open spec fn is_memory_metric(name: Seq<char>) -> bool {
    name == MEMORY_USAGE@ || name == MEMORY_VIRTUAL_USAGE@ || name == MINOR_PAGE_FAULTS@ || name
        == MAJOR_PAGE_FAULTS@
}

/// The owner of shared memory is on memory metrics, where it is known, and on no other.
pub proof fn shm_owner_only_on_memory(
    filter: FilterList,
    process: ProcessSnapshot,
    users: UserNamesView,
    metric: MetricView,
)
    requires
        super::process_metrics::metrics_of(filter, process, users).contains(metric),
    ensures
        metric.tags.contains_key("shm_owner_pid"@) <==> is_memory_metric(metric.name)
            && super::process_tags::shm_owner_if(process) is Some,
{
    let i = lemma_which(filter, process, users, metric);
    lemma_names_differ();
    lemma_special_tags(process, users, i, 2);
    let names = super::process_metrics::metric_names();
    assert(names[1] == MEMORY_USAGE@);
    assert(names[2] == MEMORY_VIRTUAL_USAGE@);
    assert(names[11] == MINOR_PAGE_FAULTS@);
    assert(names[12] == MAJOR_PAGE_FAULTS@);
}

/// The metrics of input and output.
pub open spec fn is_io_metric(name: Seq<char>) -> bool {
    name == DISK_READ_BYTES@ || name == DISK_WRITTEN_BYTES@ || name == TOTAL_DISK_READ_BYTES@
        || name == TOTAL_DISK_WRITTEN_BYTES@ || name == OPEN_FILES@
}

/// The directories of a process are on I/O metrics, where they are known, and on no other.
pub proof fn directories_only_on_io(
    filter: FilterList,
    process: ProcessSnapshot,
    users: UserNamesView,
    metric: MetricView,
)
    requires
        super::process_metrics::metrics_of(filter, process, users).contains(metric),
    ensures
        metric.tags.contains_key("cwd"@) <==> is_io_metric(metric.name)
            && super::process_tags::path_if(process.cwd) is Some,
        metric.tags.contains_key("root"@) <==> is_io_metric(metric.name)
            && super::process_tags::path_if(process.root) is Some,
{
    let i = lemma_which(filter, process, users, metric);
    lemma_names_differ();
    lemma_special_tags(process, users, i, 3);
    lemma_special_tags(process, users, i, 4);
    names_in_order();
}

/// The limit on open files is a tag of the open files metric, where it is known, and on no other.
/// It is no metric.
pub proof fn limit_only_on_open_files(
    filter: FilterList,
    process: ProcessSnapshot,
    users: UserNamesView,
    metric: MetricView,
)
    requires
        super::process_metrics::metrics_of(filter, process, users).contains(metric),
    ensures
        metric.tags.contains_key("open_files_limit"@) <==> metric.name == OPEN_FILES@
            && process.open_files_limit is Some,
        metric.name != "process_open_files_limit"@,
{
    let i = lemma_which(filter, process, users, metric);
    lemma_names_differ();
    lemma_special_tags(process, users, i, 5);
    assert(super::process_metrics::metric_names()[9] == OPEN_FILES@);
    lemma_metric_names();
}

/// Every metric that a run collects is one of a process that is wanted.
pub proof fn collected_is_of_selected(
    config: ProcessConfig,
    processes: Seq<ProcessSnapshot>,
    users: Seq<UserNamesView>,
    metric: MetricView,
) -> (i: int)
    requires
        users.len() == processes.len(),
        super::collector::collected(config, processes, users).contains(metric),
    ensures
        0 <= i < processes.len(),
        super::collector::selected(config, processes[i]),
        super::process_metrics::metrics_of(config.metrics, processes[i], users[i]).contains(metric),
    decreases processes.len(),
{
    let all = super::collector::collected(config, processes, users);
    let before = super::collector::collected(config, processes.drop_last(), users.drop_last());
    let last = super::process_metrics::metrics_of(config.metrics, processes.last(), users.last());
    let k = choose|k: int| 0 <= k < all.len() && all[k] == metric;
    if k < before.len() {
        assert(before[k] == metric);
        let i = collected_is_of_selected(
            config,
            processes.drop_last(),
            users.drop_last(),
            metric,
        );
        i
    } else {
        assert(last[k - before.len()] == metric);
        processes.len() - 1
    }
}

/// Every metric of a process that is wanted is collected.
pub proof fn selected_is_collected(
    config: ProcessConfig,
    processes: Seq<ProcessSnapshot>,
    users: Seq<UserNamesView>,
    i: int,
    metric: MetricView,
)
    requires
        users.len() == processes.len(),
        0 <= i < processes.len(),
        super::collector::selected(config, processes[i]),
        super::process_metrics::metrics_of(config.metrics, processes[i], users[i]).contains(metric),
    ensures
        super::collector::collected(config, processes, users).contains(metric),
    decreases processes.len(),
{
    let all = super::collector::collected(config, processes, users);
    let before = super::collector::collected(config, processes.drop_last(), users.drop_last());
    let last = super::process_metrics::metrics_of(config.metrics, processes.last(), users.last());
    if i == processes.len() - 1 {
        let k = choose|k: int| 0 <= k < last.len() && last[k] == metric;
        assert(all[before.len() + k] == metric);
    } else {
        selected_is_collected(config, processes.drop_last(), users.drop_last(), i, metric);
        let k = choose|k: int| 0 <= k < before.len() && before[k] == metric;
        assert(all[k] == metric);
    }
}

/// Where no process is wanted, nothing is collected.
pub proof fn nothing_selected_nothing_collected(
    config: ProcessConfig,
    processes: Seq<ProcessSnapshot>,
    users: Seq<UserNamesView>,
)
    requires
        users.len() == processes.len(),
        forall|i: int|
            0 <= i < processes.len() ==> !super::collector::selected(
                config,
                #[trigger] processes[i],
            ),
    ensures
        super::collector::collected(config, processes, users) == Seq::<MetricView>::empty(),
    decreases processes.len(),
{
    if processes.len() > 0 {
        assert(!super::collector::selected(config, processes[processes.len() - 1]));
        assert forall|i: int| 0 <= i < processes.drop_last().len() implies !super::collector::selected(
            config,
            #[trigger] processes.drop_last()[i],
        ) by {
            assert(processes.drop_last()[i] == processes[i]);
        }
        nothing_selected_nothing_collected(config, processes.drop_last(), users.drop_last());
    }
}

/// An empty filter lets all metrics through: each that the host reports of a process is emitted.
pub proof fn empty_filter_emits_all(
    process: ProcessSnapshot,
    users: UserNamesView,
    i: int,
)
    requires
        0 <= i < 15,
        super::process_metrics::candidates(process, users)[i] is Some,
    ensures
        super::process_metrics::metrics_of(
            FilterList { includes: None, excludes: None },
            process,
            users,
        ).contains(super::process_metrics::candidates(process, users)[i].unwrap()),
{
    super::filter::empty_filter_admits_all(Some(super::process_metrics::metric_names()[i]));
    wanted_metrics_are_emitted(
        FilterList { includes: None, excludes: None },
        process,
        users,
        i,
    );
}

/// Where the patterns are literal but for a closing `*`, every metric's name is one that an
/// include pattern gives or starts, if there are any, and none that an exclude pattern does.
pub proof fn simple_filter_keeps_its_word(
    filter: FilterList,
    process: ProcessSnapshot,
    users: UserNamesView,
    metric: MetricView,
)
    requires
        super::process_metrics::reads_simply(filter),
        super::process_metrics::metrics_of(filter, process, users).contains(metric),
    ensures
        filter.includes matches Some(patterns) ==> super::filter::some_simple_match(
            patterns@,
            metric.name,
        ),
        filter.excludes matches Some(patterns) ==> !super::filter::some_simple_match(
            patterns@,
            metric.name,
        ),
{
    let i = lemma_which(filter, process, users, metric);
    assert(filter.admits(Some(super::process_metrics::metric_names()[i])));
    reveal(FilterList::simply_admits);
}

/// The arguments of a command are all in its line, in their order and each at its place, with a
/// space between each and the next and nothing else.
pub proof fn command_lines_hold_all_arguments(args: Seq<Vec<u8>>)
    ensures
        text::is_joined(
            super::process_tags::joined_args(args),
            args.map_values(|arg: Vec<u8>| arg@),
            seq![32u8],
        ),
    decreases args.len(),
{
    let parts = args.map_values(|arg: Vec<u8>| arg@);
    let space = seq![32u8];
    if args.len() == 1 {
        text::lemma_join_single(args[0]@, parts, space);
    } else if args.len() > 1 {
        let before = super::process_tags::joined_args(args.drop_last());
        command_lines_hold_all_arguments(args.drop_last());
        assert(parts.drop_last() =~= args.drop_last().map_values(|arg: Vec<u8>| arg@));
        text::lemma_join_one_more(before, parts, space);
        assert(super::process_tags::joined_args(args) =~= before + space + parts.last());
    }
}

/// A process is shown with the name and the command line that it has, however long they are, where
/// these are valid UTF-8. Else its name is shown as unknown, and its command line as empty.
pub proof fn names_and_commands_are_shown(process: ProcessSnapshot) -> (line: Seq<u8>)
    ensures
        valid_utf8(process.name@) ==> super::process_tags::shown_name(process) == decode_utf8(
            process.name@,
        ),
        !valid_utf8(process.name@) ==> super::process_tags::shown_name(process) == "unknown"@,
        text::is_joined(line, process.cmd@.map_values(|arg: Vec<u8>| arg@), seq![32u8]),
        valid_utf8(line) ==> super::process_tags::shown_command(process) == decode_utf8(line),
        !valid_utf8(line) ==> super::process_tags::shown_command(process).len() == 0,
{
    command_lines_hold_all_arguments(process.cmd@);
    super::process_tags::joined_args(process.cmd@)
}

/// A path that is not empty is shown as the text that it is, or with replacements where it is not
/// valid UTF-8, and an empty one is no tag.
pub proof fn paths_are_shown(path: Option<Vec<u8>>)
    ensures
        match path {
            Some(bytes) => {
                &&& bytes@.len() > 0 && valid_utf8(bytes@) ==> super::process_tags::path_if(path)
                    == Some(decode_utf8(bytes@))
                &&& bytes@.len() > 0 && !valid_utf8(bytes@) ==> super::process_tags::path_if(path)
                    == Some(text::lossy_text(bytes@))
                &&& bytes@.len() == 0 ==> super::process_tags::path_if(path) is None
                &&& valid_utf8(bytes@) ==> super::process_tags::path_text(path) == decode_utf8(
                    bytes@,
                )
                &&& !valid_utf8(bytes@) ==> super::process_tags::path_text(path)
                    == text::lossy_text(bytes@)
            },
            None => {
                &&& super::process_tags::path_if(path) is None
                &&& super::process_tags::path_text(path).len() == 0
            },
        },
{
}

/// Setting a tag where there is a value sets just that tag, and else none.
pub proof fn optional_tags_are_set(
    tags: Map<Seq<char>, Seq<char>>,
    name: Seq<char>,
    value: Option<Seq<char>>,
    n: Option<u32>,
)
    ensures
        value matches Some(v) ==> super::process_tags::set_if(tags, name, value) == tags.insert(
            name,
            v,
        ),
        value is None ==> super::process_tags::set_if(tags, name, value) == tags,
        n is None ==> super::process_tags::decimal_if(n) is None,
        n matches Some(number) ==> super::process_tags::decimal_if(n) == Some(
            text::decimal(number as nat),
        ),
{
}

/// The tags with the path of a directory set, where it is not empty.
pub open spec fn with_directory(
    tags: Map<Seq<char>, Seq<char>>,
    name: Seq<char>,
    path: Option<Vec<u8>>,
) -> Map<Seq<char>, Seq<char>> {
    match path {
        Some(bytes) if bytes@.len() > 0 => tags.insert(name, text::shown_text(bytes@)),
        _ => tags,
    }
}

/// Every metric of what a process computes and holds says what the host reported, with the tags of
/// its kind beside those of the process.
pub proof fn usage_metrics_are_exact(
    filter: FilterList,
    process: ProcessSnapshot,
    users: UserNamesView,
    metric: MetricView,
)
    requires
        super::process_metrics::metrics_of(filter, process, users).contains(metric),
    ensures
        ({
            let identity = super::process_tags::identity(process, users);
            let memory = match process.procfs {
                Some(ProcfsData { shm_owner_pid: Some(pid), .. }) => identity.insert(
                    "shm_owner_pid"@,
                    text::signed_decimal(pid as int),
                ),
                _ => identity,
            };
            &&& metric.name == CPU_USAGE@ ==> {
                &&& metric.value == (MetricValue::Gauge {
                    value: Reading::Float32(process.cpu_usage),
                })
                &&& metric.tags == match process.procfs {
                    Some(ProcfsData { stat: Some(stat), .. }) => identity.insert(
                        "nice"@,
                        text::signed_decimal(stat.nice as int),
                    ),
                    _ => identity,
                }
            }
            &&& metric.name == MEMORY_USAGE@ ==> {
                &&& metric.value == (MetricValue::Gauge { value: Reading::Count(process.memory) })
                &&& metric.tags == memory
            }
            &&& metric.name == MEMORY_VIRTUAL_USAGE@ ==> {
                &&& metric.value == (MetricValue::Gauge {
                    value: Reading::Count(process.virtual_memory),
                })
                &&& metric.tags == memory
            }
            &&& metric.name == RUNTIME@ ==> {
                &&& metric.value == (MetricValue::Counter {
                    value: Reading::Count(process.run_time),
                })
                &&& process.start_time > 0 ==> metric.tags == identity.insert(
                    "start_time"@,
                    text::decimal(process.start_time as nat),
                )
                &&& process.start_time == 0 ==> metric.tags == identity
            }
            &&& metric.name == ACCUMULATED_CPU_TIME@ ==> {
                &&& metric.value == (MetricValue::Gauge {
                    value: Reading::Count(process.accumulated_cpu_time),
                })
                &&& metric.tags == identity
            }
        }),
{
    reveal(super::process_metrics::usage_candidates);
    let i = lemma_which(filter, process, users, metric);
    names_in_order();
}

/// Every metric of what a process reads and writes says what the host reported, with the
/// directories of the process beside the tags of the process.
pub proof fn io_metrics_are_exact(
    filter: FilterList,
    process: ProcessSnapshot,
    users: UserNamesView,
    metric: MetricView,
)
    requires
        super::process_metrics::metrics_of(filter, process, users).contains(metric),
    ensures
        ({
            let identity = super::process_tags::identity(process, users);
            let io = with_directory(
                with_directory(identity, "cwd"@, process.cwd),
                "root"@,
                process.root,
            );
            let du = process.disk_usage;
            &&& metric.name == DISK_READ_BYTES@ ==> metric.value == (MetricValue::Gauge {
                value: Reading::Count(du.read_bytes),
            }) && metric.tags == io
            &&& metric.name == DISK_WRITTEN_BYTES@ ==> metric.value == (MetricValue::Gauge {
                value: Reading::Count(du.written_bytes),
            }) && metric.tags == io
            &&& metric.name == TOTAL_DISK_READ_BYTES@ ==> metric.value == (MetricValue::Gauge {
                value: Reading::Count(du.total_read_bytes),
            }) && metric.tags == io
            &&& metric.name == TOTAL_DISK_WRITTEN_BYTES@ ==> metric.value == (MetricValue::Gauge {
                value: Reading::Count(du.total_written_bytes),
            }) && metric.tags == io
            &&& metric.name == OPEN_FILES@ ==> {
                &&& process.open_files matches Some(n) && metric.value == (MetricValue::Gauge {
                    value: Reading::Count(n as u64),
                })
                &&& metric.tags == match process.open_files_limit {
                    Some(limit) => io.insert("open_files_limit"@, text::decimal(limit as nat)),
                    None => io,
                }
            }
        }),
{
    reveal(super::process_metrics::io_candidates);
    let i = lemma_which(filter, process, users, metric);
    names_in_order();
    assert(super::process_metrics::candidates(process, users)[i]
        == super::process_metrics::io_candidates(process, users)[i - 5] || !(5 <= i < 10)) by {
        reveal(super::process_metrics::usage_candidates);
    }
}

/// Every metric of how the kernel runs a process says what the host reported.
pub proof fn kernel_metrics_are_exact(
    filter: FilterList,
    process: ProcessSnapshot,
    users: UserNamesView,
    metric: MetricView,
)
    requires
        super::process_metrics::metrics_of(filter, process, users).contains(metric),
    ensures
        ({
            let identity = super::process_tags::identity(process, users);
            let memory = match process.procfs {
                Some(ProcfsData { shm_owner_pid: Some(pid), .. }) => identity.insert(
                    "shm_owner_pid"@,
                    text::signed_decimal(pid as int),
                ),
                _ => identity,
            };
            &&& metric.name == TASK_COUNT@ ==> {
                &&& process.task_count matches Some(n) && metric.value == (MetricValue::Gauge {
                    value: Reading::Count(n as u64),
                })
                &&& metric.tags == identity
            }
            &&& metric.name == MINOR_PAGE_FAULTS@ ==> {
                &&& process.procfs matches Some(ProcfsData { stat: Some(stat), .. })
                    && metric.value == (MetricValue::Gauge { value: Reading::Count(stat.minflt) })
                &&& metric.tags == memory
            }
            &&& metric.name == MAJOR_PAGE_FAULTS@ ==> {
                &&& process.procfs matches Some(ProcfsData { stat: Some(stat), .. })
                    && metric.value == (MetricValue::Gauge { value: Reading::Count(stat.majflt) })
                &&& metric.tags == memory
            }
            &&& metric.name == VOLUNTARY_CONTEXT_SWITCHES@ ==> {
                &&& process.procfs matches Some(ProcfsData { status: Some(status), .. })
                    && status.voluntary_ctxt_switches matches Some(n) && metric.value == (
                MetricValue::Gauge { value: Reading::Count(n) })
                &&& metric.tags == identity
            }
            &&& metric.name == INVOLUNTARY_CONTEXT_SWITCHES@ ==> {
                &&& process.procfs matches Some(ProcfsData { status: Some(status), .. })
                    && status.nonvoluntary_ctxt_switches matches Some(n) && metric.value == (
                MetricValue::Gauge { value: Reading::Count(n) })
                &&& metric.tags == identity
            }
        }),
{
    reveal(super::process_metrics::kernel_candidates);
    let i = lemma_which(filter, process, users, metric);
    names_in_order();
    assert(super::process_metrics::candidates(process, users)[i]
        == super::process_metrics::kernel_candidates(process, users)[i - 10] || i < 10) by {
        reveal(super::process_metrics::usage_candidates);
        reveal(super::process_metrics::io_candidates);
    }
}

/// Whether the host reports the metric of this name for a process: those of CPU, memory, run time
/// and disks always, and the others where their number is known.
pub open spec fn is_reported(process: ProcessSnapshot, name: Seq<char>) -> bool {
    ||| name == CPU_USAGE@
    ||| name == MEMORY_USAGE@
    ||| name == MEMORY_VIRTUAL_USAGE@
    ||| name == RUNTIME@
    ||| name == ACCUMULATED_CPU_TIME@
    ||| name == DISK_READ_BYTES@
    ||| name == DISK_WRITTEN_BYTES@
    ||| name == TOTAL_DISK_READ_BYTES@
    ||| name == TOTAL_DISK_WRITTEN_BYTES@
    ||| name == OPEN_FILES@ && process.open_files is Some
    ||| name == TASK_COUNT@ && process.task_count is Some
    ||| (name == MINOR_PAGE_FAULTS@ || name == MAJOR_PAGE_FAULTS@) && process.procfs matches Some(
        ProcfsData { stat: Some(_), .. },
    )
    ||| name == VOLUNTARY_CONTEXT_SWITCHES@ && (process.procfs matches Some(
        ProcfsData { status: Some(status), .. },
    ) && status.voluntary_ctxt_switches is Some)
    ||| name == INVOLUNTARY_CONTEXT_SWITCHES@ && (process.procfs matches Some(
        ProcfsData { status: Some(status), .. },
    ) && status.nonvoluntary_ctxt_switches is Some)
}

/// A process gives a metric of a name exactly where the host reports it and the filter lets the
/// name through.
pub proof fn reported_and_wanted_metrics_are_emitted(
    filter: FilterList,
    process: ProcessSnapshot,
    users: UserNamesView,
    name: Seq<char>,
)
    ensures
        (exists|k: int|
            0 <= k < super::process_metrics::metrics_of(filter, process, users).len()
                && #[trigger] super::process_metrics::metrics_of(filter, process, users)[k].name
                == name) <==> is_reported(process, name) && filter.admits(Some(name)),
{
    let all = super::process_metrics::metrics_of(filter, process, users);
    let names = super::process_metrics::metric_names();
    lemma_metric_names();
    lemma_candidate_names(process, users);
    reported_metrics(process, users);
    names_in_order();
    if exists|k: int| 0 <= k < all.len() && #[trigger] all[k].name == name {
        let k = choose|k: int| 0 <= k < all.len() && #[trigger] all[k].name == name;
        assert(all.contains(all[k]));
        let i = lemma_which(filter, process, users, all[k]);
        assert(super::process_metrics::candidates(process, users)[i] is Some);
    }
    if is_reported(process, name) && filter.admits(Some(name)) {
        lemma_reported_place(process, users, name);
        let i = choose|i: int|
            0 <= i < 15 && names[i] == name && super::process_metrics::candidates(
                process,
                users,
            )[i] is Some;
        wanted_metrics_are_emitted(filter, process, users, i);
        let metric = super::process_metrics::candidates(process, users)[i].unwrap();
        let k = choose|k: int| 0 <= k < all.len() && all[k] == metric;
        assert(all[k].name == name);
    }
}

/// The names of the metrics, in the order in which a process gives them.
pub proof fn names_in_order()
    ensures
        super::process_metrics::metric_names()[0] == CPU_USAGE@,
        super::process_metrics::metric_names()[1] == MEMORY_USAGE@,
        super::process_metrics::metric_names()[2] == MEMORY_VIRTUAL_USAGE@,
        super::process_metrics::metric_names()[3] == RUNTIME@,
        super::process_metrics::metric_names()[4] == ACCUMULATED_CPU_TIME@,
        super::process_metrics::metric_names()[5] == DISK_READ_BYTES@,
        super::process_metrics::metric_names()[6] == DISK_WRITTEN_BYTES@,
        super::process_metrics::metric_names()[7] == TOTAL_DISK_READ_BYTES@,
        super::process_metrics::metric_names()[8] == TOTAL_DISK_WRITTEN_BYTES@,
        super::process_metrics::metric_names()[9] == OPEN_FILES@,
        super::process_metrics::metric_names()[10] == TASK_COUNT@,
        super::process_metrics::metric_names()[11] == MINOR_PAGE_FAULTS@,
        super::process_metrics::metric_names()[12] == MAJOR_PAGE_FAULTS@,
        super::process_metrics::metric_names()[13] == VOLUNTARY_CONTEXT_SWITCHES@,
        super::process_metrics::metric_names()[14] == INVOLUNTARY_CONTEXT_SWITCHES@,
{
}

proof fn lemma_reported_place(process: ProcessSnapshot, users: UserNamesView, name: Seq<char>)
    requires
        is_reported(process, name),
    ensures
        exists|i: int|
            0 <= i < 15 && super::process_metrics::metric_names()[i] == name
                && super::process_metrics::candidates(process, users)[i] is Some,
{
    let names = super::process_metrics::metric_names();
    reported_metrics(process, users);
    lemma_metric_names();
    names_in_order();
    let i: int = if name == names[0] {
        0
    } else if name == names[1] {
        1
    } else if name == names[2] {
        2
    } else if name == names[3] {
        3
    } else if name == names[4] {
        4
    } else if name == names[5] {
        5
    } else if name == names[6] {
        6
    } else if name == names[7] {
        7
    } else if name == names[8] {
        8
    } else if name == names[9] {
        9
    } else if name == names[10] {
        10
    } else if name == names[11] {
        11
    } else if name == names[12] {
        12
    } else if name == names[13] {
        13
    } else {
        14
    };
    assert(names[i] == name && super::process_metrics::candidates(process, users)[i] is Some);
}

/// A process gives its metrics in the order of their names' list.
pub proof fn metrics_come_in_order(
    filter: FilterList,
    process: ProcessSnapshot,
    users: UserNamesView,
    first: int,
    second: int,
)
    requires
        0 <= first < second < super::process_metrics::metrics_of(filter, process, users).len(),
    ensures
        exists|i: int, j: int|
            {
                &&& 0 <= i < j < 15
                &&& #[trigger] super::process_metrics::metric_names()[i]
                    == super::process_metrics::metrics_of(filter, process, users)[first].name
                &&& #[trigger] super::process_metrics::metric_names()[j]
                    == super::process_metrics::metrics_of(filter, process, users)[second].name
            },
{
    let all = super::process_metrics::candidates(process, users);
    let given = super::process_metrics::metrics_of(filter, process, users);
    let names = super::process_metrics::metric_names();
    lemma_candidate_names(process, users);
    lemma_emitted_in_order(filter, all, first, second);
    let (i, j) = choose|i: int, j: int|
        0 <= i < j < all.len() && (#[trigger] all[i]) == Some(given[first]) && (#[trigger] all[j])
            == Some(given[second]);
    assert(names[i] == given[first].name && names[j] == given[second].name);
}

/// A process is wanted exactly where the filter lets its name through, of any length, which is not
/// known where it is not valid UTF-8.
pub proof fn processes_are_selected_by_name(config: ProcessConfig, process: ProcessSnapshot)
    ensures
        valid_utf8(process.name@) ==> (super::collector::selected(config, process)
            <==> config.processes.admits(Some(decode_utf8(process.name@)))),
        !valid_utf8(process.name@) ==> (super::collector::selected(config, process)
            <==> config.processes.admits(None)),
{
}

/// A run over one process collects all its metrics, where it is wanted, and else none. A run over
/// none collects none.
pub proof fn one_process_is_collected(
    config: ProcessConfig,
    process: ProcessSnapshot,
    users: UserNamesView,
)
    ensures
        super::collector::selected(config, process) ==> super::collector::collected(
            config,
            seq![process],
            seq![users],
        ) == super::process_metrics::metrics_of(config.metrics, process, users),
        !super::collector::selected(config, process) ==> super::collector::collected(
            config,
            seq![process],
            seq![users],
        ).len() == 0,
        super::collector::collected(config, Seq::empty(), Seq::empty()).len() == 0,
{
    let processes = seq![process];
    assert(processes.drop_last() =~= Seq::<ProcessSnapshot>::empty());
    assert(seq![users].drop_last() =~= Seq::<UserNamesView>::empty());
    reveal_with_fuel(super::collector::collected, 2);
    assert(super::collector::collected(config, processes, seq![users])
        =~= if super::collector::selected(config, process) {
        super::process_metrics::metrics_of(config.metrics, process, users)
    } else {
        Seq::empty()
    });
}

/// A run over the processes of two lists collects what runs over each of them collect, one after
/// the other.
pub proof fn runs_add_up(
    config: ProcessConfig,
    first: Seq<ProcessSnapshot>,
    first_users: Seq<UserNamesView>,
    second: Seq<ProcessSnapshot>,
    second_users: Seq<UserNamesView>,
)
    requires
        first_users.len() == first.len(),
        second_users.len() == second.len(),
    ensures
        super::collector::collected(config, first + second, first_users + second_users)
            == super::collector::collected(config, first, first_users)
            + super::collector::collected(config, second, second_users),
    decreases second.len(),
{
    let head = super::collector::collected(config, first, first_users);
    if second.len() == 0 {
        assert(first + second =~= first);
        assert(first_users + second_users =~= first_users);
        assert(head + super::collector::collected(config, second, second_users) =~= head);
    } else {
        let both = first + second;
        let users = first_users + second_users;
        assert(both.drop_last() =~= first + second.drop_last());
        assert(users.drop_last() =~= first_users + second_users.drop_last());
        assert(both.last() == second.last() && users.last() == second_users.last());
        runs_add_up(
            config,
            first,
            first_users,
            second.drop_last(),
            second_users.drop_last(),
        );
        assert(super::collector::collected(config, both, users) =~= head
            + super::collector::collected(config, second, second_users));
    }
}

/// Whether the name of an optional user is resolved from what is known before to what is known
/// after. Where there is no user, there is no name, and nothing is learned.
pub open spec fn resolved<F: Fn(u32, usize) -> UserAnswer>(
    ask: &F,
    before: KnownNames,
    uid: Option<u32>,
    name: Option<Seq<char>>,
    after: KnownNames,
) -> bool {
    &&& uid is None ==> name is None && after == before
    &&& uid matches Some(uid) ==> name is Some && exists|now: u128|
        {
            &&& super::uid_cache::clock_read(before.epoch, now)
            &&& #[trigger] before.resolves_at(ask, uid, now, name->0, after)
        }
}

/// In a run the users of each wanted process are resolved, first the user and then the effective
/// user, one process after the other, each with what was known after the one before. The users of
/// other processes are not asked for.
pub proof fn users_are_resolved_in_turn<F: Fn(u32, usize) -> UserAnswer>(
    ask: &F,
    config: ProcessConfig,
    known: KnownNames,
    processes: Seq<ProcessSnapshot>,
    users: Seq<UserNamesView>,
    next: KnownNames,
) -> (states: Seq<KnownNames>)
    requires
        super::collector::can_resolve_all(ask, config, known, processes, users, next),
    ensures
        users.len() == processes.len(),
        states.len() == processes.len() + 1,
        states[0] == known,
        states.last() == next,
        forall|i: int|
            0 <= i < processes.len() ==> {
                let process = #[trigger] processes[i];
                if super::collector::selected(config, process) {
                    exists|between: KnownNames|
                        {
                            &&& #[trigger] resolved(
                                ask,
                                states[i],
                                process.user_id,
                                users[i].user,
                                between,
                            )
                            &&& resolved(
                                ask,
                                between,
                                process.effective_user_id,
                                users[i].effective_user,
                                states[i + 1],
                            )
                        }
                } else {
                    states[i + 1] == states[i]
                }
            },
    decreases processes.len(),
{
    if processes.len() == 0 {
        seq![known]
    } else {
        let earlier = processes.drop_last();
        let n = earlier.len() as int;
        let last = choose|between: KnownNames|
            {
                &&& super::collector::can_resolve_all(
                    ask,
                    config,
                    known,
                    earlier,
                    users.drop_last(),
                    between,
                )
                &&& #[trigger] super::collector::can_resolve_process(
                    ask,
                    config,
                    between,
                    processes.last(),
                    users.last(),
                    next,
                )
            };
        let states = users_are_resolved_in_turn(
            ask,
            config,
            known,
            earlier,
            users.drop_last(),
            last,
        );
        let all = states.push(next);
        assert forall|i: int| 0 <= i < processes.len() implies {
            let process = #[trigger] processes[i];
            if super::collector::selected(config, process) {
                exists|between: KnownNames|
                    {
                        &&& #[trigger] resolved(
                            ask,
                            all[i],
                            process.user_id,
                            users[i].user,
                            between,
                        )
                        &&& resolved(
                            ask,
                            between,
                            process.effective_user_id,
                            users[i].effective_user,
                            all[i + 1],
                        )
                    }
            } else {
                all[i + 1] == all[i]
            }
        } by {
            let process = processes[i];
            if i < n {
                assert(earlier[i] == process);
                assert(users.drop_last()[i] == users[i]);
                assert(all[i] == states[i] && all[i + 1] == states[i + 1]);
            } else {
                assert(all[i] == last && all[i + 1] == next);
                if super::collector::selected(config, process) {
                    let between = choose|between: KnownNames|
                        {
                            &&& #[trigger] super::collector::can_resolve_if(
                                ask,
                                last,
                                process.user_id,
                                users[i].user,
                                between,
                            )
                            &&& super::collector::can_resolve_if(
                                ask,
                                between,
                                process.effective_user_id,
                                users[i].effective_user,
                                next,
                            )
                        };
                    assert(resolved(ask, last, process.user_id, users[i].user, between));
                }
            }
        }
        all
    }
}

/// The metrics have these names.
pub proof fn metrics_are_named()
    ensures
        RUNTIME@ == "process_runtime"@,
        CPU_USAGE@ == "process_cpu_usage"@,
        MEMORY_USAGE@ == "process_memory_usage"@,
        MEMORY_VIRTUAL_USAGE@ == "process_memory_virtual_usage"@,
        ACCUMULATED_CPU_TIME@ == "process_accumulated_cpu_time"@,
        DISK_READ_BYTES@ == "process_disk_read_bytes"@,
        DISK_WRITTEN_BYTES@ == "process_disk_written_bytes"@,
        TOTAL_DISK_READ_BYTES@ == "process_total_disk_read_bytes"@,
        TOTAL_DISK_WRITTEN_BYTES@ == "process_total_disk_written_bytes"@,
        OPEN_FILES@ == "process_open_files"@,
        TASK_COUNT@ == "process_task_count"@,
        VOLUNTARY_CONTEXT_SWITCHES@ == "process_voluntary_context_switches"@,
        INVOLUNTARY_CONTEXT_SWITCHES@ == "process_involuntary_context_switches"@,
        MINOR_PAGE_FAULTS@ == "process_minor_page_faults"@,
        MAJOR_PAGE_FAULTS@ == "process_major_page_faults"@,
{
}

/// A command line is given with all its arguments where they make valid UTF-8, and else empty.
pub proof fn given_command_lines_are_whole(cmd: Vec<Vec<u8>>, command: String) -> (line: Seq<u8>)
    requires
        call_ensures(super::process_tags::command_line, (&cmd,), command),
    ensures
        text::is_joined(line, cmd@.map_values(|arg: Vec<u8>| arg@), seq![32u8]),
        valid_utf8(line) ==> command@ == decode_utf8(line),
        !valid_utf8(line) ==> command@.len() == 0,
{
    command_lines_hold_all_arguments(cmd@);
    super::process_tags::joined_args(cmd@)
}

/// The tags for the start, the niceness and the owner of shared memory are added to those that are
/// there where the host reported a value, and nothing else changes.
pub proof fn reported_values_are_added(
    process: ProcessSnapshot,
    tags: MetricTags,
    started: MetricTags,
    niced: MetricTags,
    owned: MetricTags,
)
    requires
        call_ensures(super::process_tags::add_start_time, (&process, &tags), started),
        call_ensures(super::process_tags::add_nice, (&process, &tags), niced),
        call_ensures(super::process_tags::add_shm_owner, (&process, &tags), owned),
    ensures
        started@ == if process.start_time == 0 {
            tags@
        } else {
            tags@.insert("start_time"@, text::decimal(process.start_time as nat))
        },
        niced@ == match process.procfs {
            Some(ProcfsData { stat: Some(stat), .. }) => tags@.insert(
                "nice"@,
                text::signed_decimal(stat.nice as int),
            ),
            _ => tags@,
        },
        owned@ == match process.procfs {
            Some(ProcfsData { shm_owner_pid: Some(pid), .. }) => tags@.insert(
                "shm_owner_pid"@,
                text::signed_decimal(pid as int),
            ),
            _ => tags@,
        },
{
}

/// The tags for the directories and the limit on open files are added to those that are there
/// where the host reported them, and nothing else changes.
pub proof fn reported_places_are_added(
    process: ProcessSnapshot,
    tags: MetricTags,
    placed: MetricTags,
    limited: MetricTags,
)
    requires
        call_ensures(super::process_tags::add_directories, (&process, &tags), placed),
        call_ensures(super::process_tags::add_limit, (&process, &tags), limited),
    ensures
        placed@ == with_directory(
            with_directory(tags@, "cwd"@, process.cwd),
            "root"@,
            process.root,
        ),
        limited@ == match process.open_files_limit {
            Some(limit) => tags@.insert("open_files_limit"@, text::decimal(limit as nat)),
            None => tags@,
        },
{
}

}
