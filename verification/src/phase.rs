//! The phases of a run, and the barrier between them.
//!
//! A run goes through its phases in one fixed order. Each phase runs one
//! batch. The next phase starts only when every task of the batch has come
//! to an end: a batch without tasks is over at once, which is how a service
//! that was not found is passed by.

use crate::archive::Archiver;
use crate::archive::beginning;
use crate::config::ConfigFile;
use crate::config::ConfigView;
use crate::executor::PhaseRun;
use crate::executor::ProgressView;
use crate::executor::ReportView;
use crate::executor::RunView;
use crate::executor::lemma_tasks_are_isolated;
use crate::executor::reports_about;
use crate::executor::written_view;
use crate::layout::StagingTree;
use crate::layout::TreeView;
use crate::outcome::CollectionResult;
use crate::outcome::FailureView;
use crate::outcome::LogRecord;
use crate::outcome::RecordView;
use crate::output::Append;
use crate::output::Invocation;
use crate::output::concluded;
use crate::plan::pod_batch;
use crate::plan::pod_tasks;
use crate::schedule::Found;
use crate::schedule::FoundView;
use crate::schedule::batch_of;
use crate::schedule::planned;
use crate::services::batch_or_report;
use crate::services::batch_or_report_of;
use crate::task::CollectionTask;
use crate::task::TaskView;
use vstd::prelude::*;

verus! {

/// The phases of a run, in their order.
#[derive(Clone, Copy, Debug, PartialEq, Eq, Structural)]
pub enum Phase {
    /// Listings and descriptions of the workload instances.
    PodDiagnostics,
    /// Logs of the running incarnations.
    CurrentLogs,
    /// Logs of the last terminated incarnations.
    PreviousLogs,
    /// Nodes and cluster.
    Infrastructure,
    /// Releases of the package manager.
    PackageReleases,
    Elasticsearch,
    StreamingCore,
    Hadoop,
    HBase,
    MessageBus,
    Monitoring,
    /// Everything is collected; the archive is made.
    Archiving,
}

/// The place of a phase in the order of the phases.
pub open spec fn position(phase: Phase) -> nat {
    match phase {
        Phase::PodDiagnostics => 0,
        Phase::CurrentLogs => 1,
        Phase::PreviousLogs => 2,
        Phase::Infrastructure => 3,
        Phase::PackageReleases => 4,
        Phase::Elasticsearch => 5,
        Phase::StreamingCore => 6,
        Phase::Hadoop => 7,
        Phase::HBase => 8,
        Phase::MessageBus => 9,
        Phase::Monitoring => 10,
        Phase::Archiving => 11,
    }
}

/// The phase that follows `phase`; the last phase has none.
pub open spec fn following(phase: Phase) -> Option<Phase> {
    match phase {
        Phase::PodDiagnostics => Some(Phase::CurrentLogs),
        Phase::CurrentLogs => Some(Phase::PreviousLogs),
        Phase::PreviousLogs => Some(Phase::Infrastructure),
        Phase::Infrastructure => Some(Phase::PackageReleases),
        Phase::PackageReleases => Some(Phase::Elasticsearch),
        Phase::Elasticsearch => Some(Phase::StreamingCore),
        Phase::StreamingCore => Some(Phase::Hadoop),
        Phase::Hadoop => Some(Phase::HBase),
        Phase::HBase => Some(Phase::MessageBus),
        Phase::MessageBus => Some(Phase::Monitoring),
        Phase::Monitoring => Some(Phase::Archiving),
        Phase::Archiving => None,
    }
}

impl Phase {
    /// The phase that follows this one; the last phase has none.
    pub fn next(self) -> (r: Option<Phase>)
        ensures
            r == following(self),
    {
        match self {
            Phase::PodDiagnostics => Some(Phase::CurrentLogs),
            Phase::CurrentLogs => Some(Phase::PreviousLogs),
            Phase::PreviousLogs => Some(Phase::Infrastructure),
            Phase::Infrastructure => Some(Phase::PackageReleases),
            Phase::PackageReleases => Some(Phase::Elasticsearch),
            Phase::Elasticsearch => Some(Phase::StreamingCore),
            Phase::StreamingCore => Some(Phase::Hadoop),
            Phase::Hadoop => Some(Phase::HBase),
            Phase::HBase => Some(Phase::MessageBus),
            Phase::MessageBus => Some(Phase::Monitoring),
            Phase::Monitoring => Some(Phase::Archiving),
            Phase::Archiving => None,
        }
    }
}

/// A run at one moment: the phase it is in, and the batch of that phase.
pub struct Executor {
    phase: Phase,
    run: PhaseRun,
}

/// A run at one moment, as plain mathematical values.
pub struct ExecutorView {
    pub phase: Phase,
    pub run: RunView,
}

/// The batch of `tasks` before any of them has come to an end.
pub open spec fn fresh(tasks: Seq<TaskView>) -> RunView {
    RunView { tasks, slots: Seq::new(tasks.len(), |i: int| ProgressView::Pending) }
}

impl ExecutorView {
    /// Whether the run can go on to its next phase: the batch is over, and
    /// there is a next phase.
    pub open spec fn may_advance(self) -> bool {
        self.run.complete() && following(self.phase) is Some
    }

    /// The run once it has been asked to go on with the batch `tasks`: in
    /// the next phase where it can go on, and unchanged where it cannot.
    pub open spec fn advanced(self, tasks: Seq<TaskView>) -> ExecutorView {
        if self.may_advance() {
            ExecutorView { phase: following(self.phase)->0, run: fresh(tasks) }
        } else {
            self
        }
    }

    /// What the next phase runs, and the record of the failure that leaves
    /// it with nothing to run: the batch that is planned for that phase.
    pub open spec fn next_batch(
        self,
        config: ConfigView,
        kube_config_path: Seq<char>,
        found: FoundView,
    ) -> (Seq<TaskView>, Option<RecordView>) {
        batch_or_report_of(planned(following(self.phase)->0, config, kube_config_path, found))
    }

    /// The run once it has been asked to go on: in the next phase, with the
    /// batch that is planned for that phase, where it can go on, and
    /// unchanged where it cannot.
    pub open spec fn gone_on(
        self,
        config: ConfigView,
        kube_config_path: Seq<char>,
        found: FoundView,
    ) -> ExecutorView {
        self.advanced(self.next_batch(config, kube_config_path, found).0)
    }
}

/// What a run hands back when it goes on to its next phase.
#[derive(Clone, Debug, PartialEq, Eq)]
pub struct Handover {
    /// The results of the batch that is over, in the order of its tasks.
    pub results: Vec<CollectionResult>,
    /// Why the next phase has nothing to run, where its batch has failed.
    pub report: Option<LogRecord>,
}

impl Executor {
    /// The run as plain mathematical values.
    pub closed spec fn view(&self) -> ExecutorView {
        ExecutorView { phase: self.phase, run: self.run@ }
    }

    /// A run in its first phase, with the batch that is planned for it.
    pub fn begin(config: &ConfigFile, found: &Found) -> (r: Executor)
        ensures
            r@.phase == Phase::PodDiagnostics,
            r@.run == fresh(pod_batch(config@, found.deep_view().pods)),
    {
        Executor { phase: Phase::PodDiagnostics, run: PhaseRun::start(pod_tasks(config, &found.pods)) }
    }

    /// The phase the run is in.
    pub fn phase(&self) -> (r: Phase)
        ensures
            r == self@.phase,
    {
        self.phase
    }

    /// How many tasks the batch of the phase has.
    pub fn len(&self) -> (n: usize)
        ensures
            n == self@.run.tasks.len(),
    {
        self.run.len()
    }

    /// The task at `index` of the batch.
    pub fn task(&self, index: usize) -> (r: Option<&CollectionTask>)
        ensures
            index < self@.run.tasks.len() <==> r is Some,
            r matches Some(task) ==> task@ == self@.run.tasks[index as int],
    {
        self.run.task(index)
    }

    /// The write that the task at `index` waits for.
    pub fn pending_write(&self, index: usize) -> (r: Option<&Append>)
        ensures
            self@.run.awaits_write(index as int) <==> r is Some,
            r matches Some(append) ==> ProgressView::Writing(append@)
                == self@.run.slots[index as int],
    {
        self.run.pending_write(index)
    }

    /// Whether every task of the batch has come to an end.
    pub fn is_complete(&self) -> (r: bool)
        ensures
            r == self@.run.complete(),
    {
        self.run.is_complete()
    }

    /// Reports that the retrieval of the task at `index` is over.
    pub fn retrieved(&mut self, index: usize, tree: &StagingTree, invocation: Invocation) -> (records:
        Vec<LogRecord>)
        ensures
            final(self)@.phase == old(self)@.phase,
            final(self)@.run == old(self)@.run.after_retrieval(index as int, tree@, invocation@),
            records.deep_view() == old(self)@.run.retrieval_records(
                index as int,
                tree@,
                invocation@,
            ),
    {
        self.run.retrieved(index, tree, invocation)
    }

    /// Reports that the write of the task at `index` is over.
    pub fn written(&mut self, index: usize, written: Result<(), String>) -> (record: Option<
        LogRecord,
    >)
        ensures
            final(self)@.phase == old(self)@.phase,
            final(self)@.run == old(self)@.run.after_write(index as int, written_view(written)),
            old(self)@.run.awaits_write(index as int) <==> record is Some,
            record matches Some(r) ==> r@ == concluded(
                old(self)@.run.slots[index as int]->Writing_0,
                written_view(written),
            ).1,
    {
        self.run.written(index, written)
    }

    /// The making of the archive of `tree`, to which the log file `run_log`
    /// is added: to be had only by a run that has reached its last phase
    /// with nothing left to do, that is, when every batch is over.
    pub fn archiver(&self, tree: &StagingTree, run_log: &str) -> (r: Option<Archiver>)
        ensures
            r is Some <==> self@.phase == Phase::Archiving && self@.run.complete(),
            r matches Some(archiver) ==> archiver@ == beginning(tree@, run_log@),
    {
        match self.phase {
            Phase::Archiving => {
                if self.run.is_complete() {
                    Some(Archiver::start(tree, run_log))
                } else {
                    None
                }
            },
            _ => None,
        }
    }

    /// Asks the run to go on to its next phase.
    ///
    /// It does so only where every task of the present batch has come to an
    /// end and there is a next phase. The batch of the next phase is the one
    /// that is planned for it from the configuration and from what has been
    /// found; where that batch has failed the phase runs nothing, and the
    /// failure is reported. The results of the batch that is over come
    /// back, in the order of its tasks. Otherwise nothing changes.
    pub fn advance(&mut self, config: &ConfigFile, kube_config_path: &str, found: &Found) -> (r:
        Option<Handover>)
        ensures
            final(self)@ == old(self)@.gone_on(config@, kube_config_path@, found.deep_view()),
            old(self)@.may_advance() <==> r is Some,
            r matches Some(handover) ==> handover.results.deep_view() == old(self)@.run.results()
                && handover.report.deep_view() == old(self)@.next_batch(
                config@,
                kube_config_path@,
                found.deep_view(),
            ).1,
    {
        if !self.run.is_complete() {
            return None;
        }
        match self.phase.next() {
            None => None,
            Some(phase) => {
                let (tasks, report) = batch_or_report(
                    batch_of(phase, config, kube_config_path, found),
                );
                let mut over = PhaseRun::start(tasks);
                std::mem::swap(&mut self.run, &mut over);
                self.phase = phase;
                Some(Handover { results: over.into_results(), report })
            },
        }
    }
}

/// The barrier: as long as one task of the batch has not come to an end,
/// the run stays in its phase, with its batch as it is.
pub proof fn lemma_barrier(state: ExecutorView, tasks: Seq<TaskView>, index: int)
    requires
        0 <= index < state.run.slots.len(),
        !(state.run.slots[index] is Resolved),
    ensures
        state.advanced(tasks) == state,
{
}

/// A slow task holds the barrier: whatever is reported about the other
/// tasks of the batch, as long as nothing is reported about a task that
/// waits for its retrieval, the run stays in its phase.
pub proof fn lemma_slow_task_holds_the_barrier(
    state: ExecutorView,
    tree: TreeView,
    reports: Seq<ReportView>,
    tasks: Seq<TaskView>,
    slow: int,
)
    requires
        0 <= slow < state.run.slots.len(),
        state.run.slots[slow] is Pending,
        reports_about(reports, slow).len() == 0,
    ensures
        ({
            let later = ExecutorView { phase: state.phase, run: state.run.after_all(tree, reports) };
            later.advanced(tasks) == later
        }),
{
    lemma_tasks_are_isolated(state.run, tree, reports, slow);
    assert(reports_about(reports, slow) =~= Seq::<ReportView>::empty());
}

/// A run only ever moves from a phase to the one that follows it, and only
/// when the batch of the phase is over.
pub proof fn lemma_phases_follow_in_order(state: ExecutorView, tasks: Seq<TaskView>)
    ensures
        state.advanced(tasks).phase != state.phase ==> state.run.complete() && position(
            state.advanced(tasks).phase,
        ) == position(state.phase) + 1,
        position(state.advanced(tasks).phase) >= position(state.phase),
{
}

/// The archive comes last: every other phase has a next phase, one place
/// further on, and no phase stands behind the one in which the archive is
/// made.
pub proof fn lemma_archiving_is_last(phase: Phase)
    ensures
        position(phase) <= position(Phase::Archiving),
        following(phase) is None <==> phase == Phase::Archiving,
        following(phase) matches Some(next) ==> position(next) == position(phase) + 1,
{
}

/// Whatever a run is asked, it runs the batch that is planned for its
/// phase and no other: it starts with the batch of the first phase, and
/// going on leaves it in a phase with the batch planned for that phase, or,
/// where that batch has failed, with none.
pub proof fn lemma_phase_runs_its_planned_batch(
    state: ExecutorView,
    config: ConfigView,
    kube_config_path: Seq<char>,
    found: FoundView,
)
    requires
        state.may_advance(),
    ensures
        ({
            let later = state.gone_on(config, kube_config_path, found);
            match planned(later.phase, config, kube_config_path, found) {
                Ok(tasks) => later.run == fresh(tasks),
                Err(_) => later.run == fresh(Seq::empty()),
            }
        }),
        planned(Phase::PodDiagnostics, config, kube_config_path, found) == Ok::<
            Seq<TaskView>,
            FailureView,
        >(pod_batch(config, found.pods)),
{
}

/// The last phase runs nothing: once a run has reached it, every batch is
/// over and the archive can be made.
pub proof fn lemma_last_phase_is_over(
    state: ExecutorView,
    config: ConfigView,
    kube_config_path: Seq<char>,
    found: FoundView,
)
    requires
        state.may_advance(),
        state.gone_on(config, kube_config_path, found).phase == Phase::Archiving,
    ensures
        state.gone_on(config, kube_config_path, found).run.complete(),
{
}

/// A batch without tasks is over: the run passes it by.
pub proof fn lemma_empty_batch_is_over(phase: Phase, tasks: Seq<TaskView>)
    requires
        following(phase) is Some,
    ensures
        fresh(Seq::<TaskView>::empty()).complete(),
        (ExecutorView { phase, run: fresh(Seq::<TaskView>::empty()) }).advanced(tasks).phase
            == following(phase)->0,
{
}

} // verus!
