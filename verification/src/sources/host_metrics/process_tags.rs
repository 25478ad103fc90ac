//! The tags of process metrics: who a process is, and what each kind of metric adds to that.

use vstd::prelude::*;
use vstd::string::*;

use crate::text;

use super::process::{
    format_process_status, format_thread_kind, ProcessSnapshot, ProcfsData, ThreadKind,
};
use super::tags::MetricTags;

verus! {

/// The usernames of a process, where it has users.
#[derive(Debug)]
pub struct UserNames {
    pub user: Option<String>,
    pub effective_user: Option<String>,
}

/// The usernames, as contracts speak of them.
pub struct UserNamesView {
    pub user: Option<Seq<char>>,
    pub effective_user: Option<Seq<char>>,
}

impl View for UserNames {
    type V = UserNamesView;

    open spec fn view(&self) -> UserNamesView {
        UserNamesView {
            user: text::view_of(self.user),
            effective_user: text::view_of(self.effective_user),
        }
    }
}

/// The arguments of a command, a space between each and the next.
pub open spec fn joined_args(args: Seq<Vec<u8>>) -> Seq<u8>
    decreases args.len(),
{
    if args.len() == 0 {
        Seq::empty()
    } else if args.len() == 1 {
        args[0]@
    } else {
        joined_args(args.drop_last()).push(32u8) + args.last()@
    }
}

/// The tags with `name` set, where there is a value for it.
pub open spec fn set_if(
    tags: Map<Seq<char>, Seq<char>>,
    name: Seq<char>,
    value: Option<Seq<char>>,
) -> Map<Seq<char>, Seq<char>> {
    match value {
        Some(v) => tags.insert(name, v),
        None => tags,
    }
}

/// An optional number in decimal.
pub open spec fn decimal_if(n: Option<u32>) -> Option<Seq<char>> {
    match n {
        Some(n) => Some(text::decimal(n as nat)),
        None => None,
    }
}

/// The tag value for a path: its text, with replacements where it is none.
pub open spec fn path_text(path: Option<Vec<u8>>) -> Seq<char> {
    match path {
        Some(bytes) => text::shown_text(bytes@),
        None => Seq::empty(),
    }
}

/// The tag value for a path that is not empty.
pub open spec fn path_if(path: Option<Vec<u8>>) -> Option<Seq<char>> {
    match path {
        Some(bytes) if bytes@.len() > 0 => Some(text::shown_text(bytes@)),
        _ => None,
    }
}

/// The name to show for a process.
pub open spec fn shown_name(process: ProcessSnapshot) -> Seq<char> {
    match text::bytes_text(process.name@) {
        Some(name) => name,
        None => "unknown"@,
    }
}

/// The command line to show for a process.
pub open spec fn shown_command(process: ProcessSnapshot) -> Seq<char> {
    match text::bytes_text(joined_args(process.cmd@)) {
        Some(command) => command,
        None => Seq::empty(),
    }
}

/// The tags that every metric of the process has.
#[verifier::opaque]
pub open spec fn identity(process: ProcessSnapshot, users: UserNamesView) -> Map<
    Seq<char>,
    Seq<char>,
> {
    let tags = Map::<Seq<char>, Seq<char>>::empty();
    let tags = tags.insert("pid"@, text::decimal(process.pid as nat));
    let tags = tags.insert("name"@, shown_name(process));
    let tags = tags.insert("command"@, shown_command(process));
    let tags = set_if(tags, "ppid"@, decimal_if(process.parent));
    let tags = set_if(tags, "user"@, users.user);
    let tags = set_if(tags, "effective_user"@, users.effective_user);
    let tags = set_if(tags, "group_id"@, decimal_if(process.group_id));
    let tags = set_if(tags, "effective_group_id"@, decimal_if(process.effective_group_id));
    let tags = set_if(tags, "session_id"@, decimal_if(process.session_id));
    let tags = tags.insert("status"@, super::process::status_text(process.status));
    let tags = set_if(tags, "exe"@, path_if(process.exe));
    set_if(
        tags,
        "thread_kind"@,
        match process.thread_kind {
            Some(kind) => Some(super::process::thread_kind_text(kind)),
            None => None,
        },
    )
}

/// The start of the process, where it is known.
pub open spec fn start_if(process: ProcessSnapshot) -> Option<Seq<char>> {
    if process.start_time > 0 {
        Some(text::decimal(process.start_time as nat))
    } else {
        None
    }
}

/// The tags of the runtime metric.
pub open spec fn runtime_tags(process: ProcessSnapshot, users: UserNamesView) -> Map<
    Seq<char>,
    Seq<char>,
> {
    set_if(identity(process, users), "start_time"@, start_if(process))
}

/// The niceness of the process, where it is known.
pub open spec fn nice_if(process: ProcessSnapshot) -> Option<Seq<char>> {
    match process.procfs {
        Some(ProcfsData { stat: Some(stat), .. }) => Some(text::signed_decimal(stat.nice as int)),
        _ => None,
    }
}

/// The tags of the CPU usage metric.
pub open spec fn cpu_tags(process: ProcessSnapshot, users: UserNamesView) -> Map<
    Seq<char>,
    Seq<char>,
> {
    set_if(identity(process, users), "nice"@, nice_if(process))
}

/// The owner of the shared memory of the process, where there is one.
pub open spec fn shm_owner_if(process: ProcessSnapshot) -> Option<Seq<char>> {
    match process.procfs {
        Some(ProcfsData { shm_owner_pid: Some(pid), .. }) => Some(text::signed_decimal(pid as int)),
        _ => None,
    }
}

/// The tags of memory metrics.
pub open spec fn memory_tags(process: ProcessSnapshot, users: UserNamesView) -> Map<
    Seq<char>,
    Seq<char>,
> {
    set_if(identity(process, users), "shm_owner_pid"@, shm_owner_if(process))
}

/// The tags of I/O metrics.
pub open spec fn io_tags(process: ProcessSnapshot, users: UserNamesView) -> Map<
    Seq<char>,
    Seq<char>,
> {
    let tags = set_if(identity(process, users), "cwd"@, path_if(process.cwd));
    set_if(tags, "root"@, path_if(process.root))
}

/// The limit on open files, where there is one.
pub open spec fn limit_if(process: ProcessSnapshot) -> Option<Seq<char>> {
    match process.open_files_limit {
        Some(limit) => Some(text::decimal(limit as nat)),
        None => None,
    }
}

/// The tags of the open files metric.
pub open spec fn open_files_tags(process: ProcessSnapshot, users: UserNamesView) -> Map<
    Seq<char>,
    Seq<char>,
> {
    set_if(io_tags(process, users), "open_files_limit"@, limit_if(process))
}

/// The tag value for a path, empty where there is no path.
pub fn path_tag(path: &Option<Vec<u8>>) -> (tag: String)
    ensures
        tag@ == path_text(*path),
        tag@.len() > 0 <==> (path matches Some(bytes) && bytes@.len() > 0),
{
    match path {
        Some(bytes) => text::utf8_lossy_text(bytes),
        None => String::new(),
    }
}

/// Joins arguments with a space between each and the next.
fn join_args(args: &Vec<Vec<u8>>) -> (line: Vec<u8>)
    ensures
        line@ == joined_args(args@),
{
    let mut line: Vec<u8> = Vec::new();
    let mut i: usize = 0;
    while i < args.len()
        invariant
            i <= args@.len(),
            line@ == joined_args(args@.take(i as int)),
        decreases args@.len() - i,
    {
        if i > 0 {
            line.push(32u8);
        }
        line.extend_from_slice(args[i].as_slice());
        assert(args@.take(i + 1).drop_last() =~= args@.take(i as int));
        assert(line@ =~= joined_args(args@.take(i + 1)));
        i = i + 1;
    }
    assert(args@.take(i as int) =~= args@);
    line
}

/// The command line of a process, empty where it is not text.
pub fn command_line(cmd: &Vec<Vec<u8>>) -> (command: String)
    ensures
        command@ == match text::bytes_text(joined_args(cmd@)) {
            Some(command) => command,
            None => Seq::empty(),
        },
{
    match text::utf8_text(&join_args(cmd)) {
        Some(command) => command,
        None => String::new(),
    }
}

/// The name of a process, where it is text.
pub fn process_name(name: &Vec<u8>) -> (shown: Option<String>)
    ensures
        text::view_of(shown) == text::bytes_text(name@),
{
    text::utf8_text(name)
}

fn replace_number(tags: &mut MetricTags, name: &str, n: Option<u32>)
    ensures
        final(tags)@ == set_if(old(tags)@, name@, decimal_if(n)),
{
    if let Some(n) = n {
        tags.replace(name, text::decimal_text(n as u64));
    }
}

fn replace_text(tags: &mut MetricTags, name: &str, value: &Option<String>)
    ensures
        final(tags)@ == set_if(old(tags)@, name@, text::view_of(*value)),
{
    if let Some(value) = value {
        tags.replace(name, value.clone());
    }
}

fn replace_path(tags: &mut MetricTags, name: &str, path: &Option<Vec<u8>>)
    ensures
        final(tags)@ == set_if(old(tags)@, name@, path_if(*path)),
{
    let value: String = path_tag(path);
    if !value.as_str().is_empty() {
        tags.replace(name, value);
    }
}

/// Makes the tags that every metric of the process has.
pub fn make_identity(process: &ProcessSnapshot, users: &UserNames) -> (tags: MetricTags)
    ensures
        tags@ == identity(*process, users@),
{
    proof {
        reveal(identity);
    }
    let mut tags: MetricTags = MetricTags::new();
    tags.replace("pid", text::decimal_text(process.pid as u64));
    let name: String = match process_name(&process.name) {
        Some(name) => name,
        None => "unknown".to_owned(),
    };
    tags.replace("name", name);
    tags.replace("command", command_line(&process.cmd));
    replace_number(&mut tags, "ppid", process.parent);
    replace_text(&mut tags, "user", &users.user);
    replace_text(&mut tags, "effective_user", &users.effective_user);
    replace_number(&mut tags, "group_id", process.group_id);
    replace_number(&mut tags, "effective_group_id", process.effective_group_id);
    replace_number(&mut tags, "session_id", process.session_id);
    tags.replace("status", format_process_status(process.status).to_owned());
    replace_path(&mut tags, "exe", &process.exe);
    if let Some(kind) = process.thread_kind {
        tags.replace("thread_kind", format_thread_kind(kind).to_owned());
    }
    tags
}

/// Adds the start time, which the runtime metric has.
pub fn add_start_time(process: &ProcessSnapshot, identity: &MetricTags) -> (tags: MetricTags)
    ensures
        tags@ == set_if(identity@, "start_time"@, start_if(*process)),
{
    let mut tags: MetricTags = identity.clone();
    if process.start_time > 0 {
        tags.replace("start_time", text::decimal_text(process.start_time));
    }
    tags
}

/// Adds the niceness, which the CPU usage metric has.
pub fn add_nice(process: &ProcessSnapshot, identity: &MetricTags) -> (tags: MetricTags)
    ensures
        tags@ == set_if(identity@, "nice"@, nice_if(*process)),
{
    let mut tags: MetricTags = identity.clone();
    if let Some(ProcfsData { stat: Some(stat), .. }) = process.procfs {
        tags.replace("nice", text::signed_decimal_text(stat.nice));
    }
    tags
}

/// Adds the owner of shared memory, which memory metrics have.
pub fn add_shm_owner(process: &ProcessSnapshot, identity: &MetricTags) -> (tags: MetricTags)
    ensures
        tags@ == set_if(identity@, "shm_owner_pid"@, shm_owner_if(*process)),
{
    let mut tags: MetricTags = identity.clone();
    if let Some(ProcfsData { shm_owner_pid: Some(pid), .. }) = process.procfs {
        tags.replace("shm_owner_pid", text::signed_decimal_text(pid as i64));
    }
    tags
}

/// Adds the directories of the process, which I/O metrics have.
pub fn add_directories(process: &ProcessSnapshot, identity: &MetricTags) -> (tags: MetricTags)
    ensures
        tags@ == set_if(
            set_if(identity@, "cwd"@, path_if(process.cwd)),
            "root"@,
            path_if(process.root),
        ),
{
    let mut tags: MetricTags = identity.clone();
    replace_path(&mut tags, "cwd", &process.cwd);
    replace_path(&mut tags, "root", &process.root);
    tags
}

/// Adds the limit on open files, which the open files metric has.
pub fn add_limit(process: &ProcessSnapshot, io_tags: &MetricTags) -> (tags: MetricTags)
    ensures
        tags@ == set_if(io_tags@, "open_files_limit"@, limit_if(*process)),
{
    let mut tags: MetricTags = io_tags.clone();
    if let Some(limit) = process.open_files_limit {
        tags.replace("open_files_limit", text::decimal_text(limit as u64));
    }
    tags
}

}
