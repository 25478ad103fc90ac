//! The collection run over all processes.

use vstd::prelude::*;

use super::filter::FilterList;
use super::metric::{MetricView, MetricsBuffer};
use super::process::{ProcessConfig, ProcessSnapshot};
use super::process_metrics::{emit_process, EnabledMetrics};
use super::process_tags::{process_name, UserNames, UserNamesView};
use super::uid_cache::{KnownName, KnownNames, UidCache, UserAnswer};

verus! {

/// Options for the host metrics collectors.
#[derive(Debug)]
pub struct HostMetricsConfig {
    /// Options for the process metrics collector.
    pub process: ProcessConfig,
}

impl Default for HostMetricsConfig {
    fn default() -> (config: HostMetricsConfig)
        ensures
            config.process.processes == (FilterList { includes: None, excludes: None }),
            config.process.metrics == (FilterList { includes: None, excludes: None }),
            config.process.uid_cache_ttl_secs == 300,
    {
        HostMetricsConfig { process: ProcessConfig::default() }
    }
}

/// The collectors of host metrics, and what they remember between runs.
#[derive(Debug)]
pub struct HostMetrics {
    pub config: HostMetricsConfig,
    pub uid_cache: UidCache,
}

/// Whether the configuration wants metrics of a process.
pub open spec fn selected(config: ProcessConfig, process: ProcessSnapshot) -> bool {
    config.processes.admits(crate::text::bytes_text(process.name@))
}

/// The metrics of those processes that are wanted, one after the other.
pub open spec fn collected(
    config: ProcessConfig,
    processes: Seq<ProcessSnapshot>,
    users: Seq<UserNamesView>,
) -> Seq<MetricView>
    decreases processes.len(),
{
    if processes.len() == 0 {
        Seq::empty()
    } else {
        let before = collected(config, processes.drop_last(), users.drop_last());
        if selected(config, processes.last()) {
            before + super::process_metrics::metrics_of(
                config.metrics,
                processes.last(),
                users.last(),
            )
        } else {
            before
        }
    }
}

/// Whether asking for the name of an optional user can give `name` and leave `next` known.
pub open spec fn can_resolve_if<F: Fn(u32, usize) -> UserAnswer>(
    ask: &F,
    known: KnownNames,
    uid: Option<u32>,
    name: Option<Seq<char>>,
    next: KnownNames,
) -> bool {
    match (uid, name) {
        (Some(uid), Some(name)) => known.can_resolve(ask, uid, name, next),
        (None, None) => next == known,
        _ => false,
    }
}

/// Whether the names of one process can be resolved to `users`. Those of a process that is not
/// wanted are not asked for.
pub open spec fn can_resolve_process<F: Fn(u32, usize) -> UserAnswer>(
    ask: &F,
    config: ProcessConfig,
    known: KnownNames,
    process: ProcessSnapshot,
    users: UserNamesView,
    next: KnownNames,
) -> bool {
    if selected(config, process) {
        exists|between: KnownNames|
            {
                &&& #[trigger] can_resolve_if(ask, known, process.user_id, users.user, between)
                &&& can_resolve_if(
                    ask,
                    between,
                    process.effective_user_id,
                    users.effective_user,
                    next,
                )
            }
    } else {
        users.user is None && users.effective_user is None && next == known
    }
}

/// Whether the names of all processes can be resolved to `users`, one after the other.
pub open spec fn can_resolve_all<F: Fn(u32, usize) -> UserAnswer>(
    ask: &F,
    config: ProcessConfig,
    known: KnownNames,
    processes: Seq<ProcessSnapshot>,
    users: Seq<UserNamesView>,
    next: KnownNames,
) -> bool
    decreases processes.len(),
{
    &&& users.len() == processes.len()
    &&& if processes.len() == 0 {
        next == known
    } else {
        exists|between: KnownNames|
            {
                &&& can_resolve_all(
                    ask,
                    config,
                    known,
                    processes.drop_last(),
                    users.drop_last(),
                    between,
                )
                &&& #[trigger] can_resolve_process(
                    ask,
                    config,
                    between,
                    processes.last(),
                    users.last(),
                    next,
                )
            }
    }
}

proof fn lemma_can_resolve_next<F: Fn(u32, usize) -> UserAnswer>(
    ask: &F,
    config: ProcessConfig,
    known: KnownNames,
    processes: Seq<ProcessSnapshot>,
    users: Seq<UserNamesView>,
    between: KnownNames,
    next: KnownNames,
)
    requires
        processes.len() > 0,
        users.len() > 0,
        can_resolve_all(ask, config, known, processes.drop_last(), users.drop_last(), between),
        can_resolve_process(ask, config, between, processes.last(), users.last(), next),
    ensures
        can_resolve_all(ask, config, known, processes, users, next),
{
    assert(users.drop_last().len() == processes.drop_last().len());
}

impl HostMetrics {
    /// Collectors that remember nothing yet. Usernames will be kept as long as the configuration
    /// says.
    pub fn new(config: HostMetricsConfig) -> (host: HostMetrics)
        ensures
            host.config == config,
            host.uid_cache@.names == Map::<u32, KnownName>::empty(),
            host.uid_cache@.ttl_secs == config.process.uid_cache_ttl_secs,
            super::uid_cache::clock_started(host.uid_cache@.epoch),
    {
        let uid_cache: UidCache = UidCache::with_ttl(config.process.uid_cache_ttl_secs);
        HostMetrics { config, uid_cache }
    }

    /// Whether metrics of a process of this name are wanted.
    pub fn selects(&self, name: &Vec<u8>) -> (wanted: bool)
        ensures
            wanted == self.config.process.processes.admits(crate::text::bytes_text(name@)),
            self.config.process.processes.simple() ==> wanted
                == self.config.process.processes.simply_admits(
                crate::text::bytes_text(name@),
            ),
    {
        match process_name(name) {
            Some(name) => self.config.process.processes.contains_str(Some(name.as_str())),
            None => self.config.process.processes.contains_str(None),
        }
    }

    fn resolve_if<F: Fn(u32, usize) -> UserAnswer>(&mut self, uid: Option<u32>, ask: &F) -> (name: Option<
        String,
    >)
        requires
            super::uid_cache::can_be_asked(ask),
        ensures
            final(self).config == old(self).config,
            can_resolve_if(
                ask,
                old(self).uid_cache@,
                uid,
                crate::text::view_of(name),
                final(self).uid_cache@,
            ),
    {
        match uid {
            Some(uid) => Some(self.uid_cache.resolve(uid, ask)),
            None => None,
        }
    }

    /// Adds the metrics of all wanted processes to `output`, as the collector `process`. `ask` puts
    /// a question to the user database, as [`super::uid_cache::lookup_username`] has it.
    pub fn process_metrics<F: Fn(u32, usize) -> UserAnswer>(
        &mut self,
        processes: &Vec<ProcessSnapshot>,
        ask: &F,
        output: &mut MetricsBuffer,
    )
        requires
            super::uid_cache::can_be_asked(ask),
        ensures
            final(self).config == old(self).config,
            final(output).name@ == "process"@,
            exists|users: Seq<UserNamesView>|
                {
                    &&& #[trigger] can_resolve_all(
                        ask,
                        old(self).config.process,
                        old(self).uid_cache@,
                        processes@,
                        users,
                        final(self).uid_cache@,
                    )
                    &&& final(output)@ == old(output)@ + collected(
                        old(self).config.process,
                        processes@,
                        users,
                    )
                },
            old(self).config.process.metrics.simple()
                ==> super::process_metrics::reads_simply(old(self).config.process.metrics),
            old(self).config.process.processes.simple() ==> forall|i: int|
                0 <= i < processes@.len() ==> selected(
                    old(self).config.process,
                    #[trigger] processes@[i],
                ) == old(self).config.process.processes.simply_admits(
                    crate::text::bytes_text(processes@[i].name@),
                ),
    {
        output.name = "process";
        let enabled: EnabledMetrics = EnabledMetrics::from_filter(&self.config.process.metrics);
        let ghost config = self.config.process;
        proof {
            if config.metrics.simple() {
                super::process_metrics::lemma_reads_simply(enabled, config.metrics);
            }
        }
        let ghost mut users: Seq<UserNamesView> = Seq::empty();
        let mut i: usize = 0;
        assert(output@ =~= old(output)@ + collected(config, processes@.take(0), users));
        while i < processes.len()
            invariant
                i <= processes@.len(),
                super::uid_cache::can_be_asked(ask),
                self.config == old(self).config,
                config == old(self).config.process,
                enabled.reflects(config.metrics),
                output.name@ == "process"@,
                config.processes.simple() ==> forall|j: int|
                    0 <= j < i ==> selected(config, #[trigger] processes@[j])
                        == config.processes.simply_admits(
                        crate::text::bytes_text(processes@[j].name@),
                    ),
                can_resolve_all(
                    ask,
                    config,
                    old(self).uid_cache@,
                    processes@.take(i as int),
                    users,
                    self.uid_cache@,
                ),
                output@ == old(output)@ + collected(config, processes@.take(i as int), users),
            decreases processes@.len() - i,
        {
            let process: &ProcessSnapshot = &processes[i];
            let ghost known = self.uid_cache@;
            let ghost shown = output@;
            let ghost seen = users;
            proof {
                assert(processes@.take(i + 1).drop_last() =~= processes@.take(i as int));
                assert(processes@.take(i + 1).last() == *process);
            }
            if self.selects(&process.name) {
                let user: Option<String> = self.resolve_if(process.user_id, ask);
                let ghost between = self.uid_cache@;
                let effective_user: Option<String> = self.resolve_if(
                    process.effective_user_id,
                    ask,
                );
                let names: UserNames = UserNames { user, effective_user };
                emit_process(output, &self.config.process.metrics, &enabled, process, &names);
                proof {
                    users = seen.push(names@);
                    assert(can_resolve_if(ask, known, process.user_id, names@.user, between));
                }
            } else {
                proof {
                    users = seen.push(UserNamesView { user: None, effective_user: None });
                }
            }
            proof {
                assert(users.drop_last() =~= seen);
                lemma_can_resolve_next(
                    ask,
                    config,
                    old(self).uid_cache@,
                    processes@.take(i + 1),
                    users,
                    known,
                    self.uid_cache@,
                );
                assert(output@ =~= old(output)@ + collected(
                    config,
                    processes@.take(i + 1),
                    users,
                ));
            }
            i = i + 1;
        }
        assert(processes@.take(i as int) =~= processes@);
    }
}

}
