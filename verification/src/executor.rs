//! The bookkeeping of one batch: which of its tasks have come to an end,
//! and with what.
//!
//! The tasks of a batch are started together and end in any order. The
//! caller reports each end here. The batch is over when every task has
//! ended, well or badly; its results then stand in the order of the tasks,
//! whatever the order in which the tasks ended.

use crate::layout::StagingTree;
use crate::layout::TreeView;
use crate::outcome::CollectionResult;
use crate::outcome::LogRecord;
use crate::outcome::RecordView;
use crate::outcome::ResultView;
use crate::output::Append;
use crate::output::AppendView;
use crate::output::Invocation;
use crate::output::InvocationView;
use crate::output::Step;
use crate::output::conclude;
use crate::output::concluded;
use crate::output::settle;
use crate::output::settlement_of;
use crate::task::CollectionTask;
use crate::task::TaskView;
use vstd::prelude::*;
use vstd::slice::slice_to_vec;

verus! {

/// How far one task of a batch has come.
#[derive(Clone, Debug, PartialEq, Eq)]
pub enum Progress {
    /// Its retrieval is not over.
    Pending,
    /// Its retrieval is over and its output is being written.
    Writing(Append),
    /// It has come to an end.
    Resolved(CollectionResult),
}

/// The progress of a task as plain mathematical values.
pub enum ProgressView {
    Pending,
    Writing(AppendView),
    Resolved(ResultView),
}

impl DeepView for Progress {
    type V = ProgressView;

    open spec fn deep_view(&self) -> ProgressView {
        match self {
            Progress::Pending => ProgressView::Pending,
            Progress::Writing(append) => ProgressView::Writing(append@),
            Progress::Resolved(result) => ProgressView::Resolved(result@),
        }
    }
}

/// A batch that is being run.
pub struct PhaseRun {
    tasks: Vec<CollectionTask>,
    slots: Vec<Progress>,
}

/// A batch that is being run, as plain mathematical values: its tasks, and
/// for each task, at the same position, how far it has come.
pub struct RunView {
    pub tasks: Seq<TaskView>,
    pub slots: Seq<ProgressView>,
}

impl RunView {
    /// Every task has a slot, and what is written or kept is never empty.
    pub open spec fn well_formed(self) -> bool {
        &&& self.tasks.len() == self.slots.len()
        &&& forall|i: int|
            0 <= i < self.slots.len() ==> match #[trigger] self.slots[i] {
                ProgressView::Pending => true,
                ProgressView::Writing(append) => append.bytes.len() > 0,
                ProgressView::Resolved(result) => result.well_formed(),
            }
    }

    /// The folder that receives the output of the task at `index`.
    pub open spec fn folder(self, tree: TreeView, index: int) -> Seq<char> {
        tree.folder(self.tasks[index].category)
    }

    /// Whether the task at `index` waits for its retrieval.
    pub open spec fn awaits_retrieval(self, index: int) -> bool {
        0 <= index < self.slots.len() && index < self.tasks.len() && self.slots[index] is Pending
    }

    /// Whether the task at `index` waits for its write.
    pub open spec fn awaits_write(self, index: int) -> bool {
        0 <= index < self.slots.len() && self.slots[index] is Writing
    }

    /// The batch once the retrieval of the task at `index` is over. A
    /// report about a task that does not wait for its retrieval changes
    /// nothing.
    pub open spec fn after_retrieval(
        self,
        index: int,
        tree: TreeView,
        invocation: InvocationView,
    ) -> RunView {
        if self.awaits_retrieval(index) {
            let step = settlement_of(self.tasks[index], self.folder(tree, index), invocation).step;
            let slot = match step {
                Ok(append) => ProgressView::Writing(append),
                Err(failure) => ProgressView::Resolved(ResultView::Failed(failure)),
            };
            RunView { tasks: self.tasks, slots: self.slots.update(index, slot) }
        } else {
            self
        }
    }

    /// What the activity log is told when the retrieval of the task at
    /// `index` is over.
    pub open spec fn retrieval_records(
        self,
        index: int,
        tree: TreeView,
        invocation: InvocationView,
    ) -> Seq<RecordView> {
        if self.awaits_retrieval(index) {
            settlement_of(self.tasks[index], self.folder(tree, index), invocation).records
        } else {
            Seq::empty()
        }
    }

    /// The batch once the write of the task at `index` is over. A report
    /// about a task that does not wait for its write changes nothing.
    pub open spec fn after_write(self, index: int, written: Result<(), Seq<char>>) -> RunView {
        if self.awaits_write(index) {
            let result = concluded(self.slots[index]->Writing_0, written).0;
            RunView {
                tasks: self.tasks,
                slots: self.slots.update(index, ProgressView::Resolved(result)),
            }
        } else {
            self
        }
    }

    /// Every task has come to an end.
    pub open spec fn complete(self) -> bool {
        forall|i: int| 0 <= i < self.slots.len() ==> self.slots[i] is Resolved
    }

    /// The results of the tasks, each at the position of its task.
    pub open spec fn results(self) -> Seq<ResultView> {
        Seq::new(self.slots.len(), |i: int| self.slots[i]->Resolved_0)
    }
}

/// A report about one task of a batch.
pub enum ReportView {
    /// The retrieval of the task at `index` is over.
    Retrieved { index: int, invocation: InvocationView },
    /// The write of the task at `index` is over.
    Written { index: int, written: Result<(), Seq<char>> },
}

impl ReportView {
    /// The task the report is about.
    pub open spec fn index(self) -> int {
        match self {
            ReportView::Retrieved { index, .. } => index,
            ReportView::Written { index, .. } => index,
        }
    }
}

impl RunView {
    /// The batch once `report` has been made.
    pub open spec fn after(self, tree: TreeView, report: ReportView) -> RunView {
        match report {
            ReportView::Retrieved { index, invocation } => self.after_retrieval(
                index,
                tree,
                invocation,
            ),
            ReportView::Written { index, written } => self.after_write(index, written),
        }
    }

    /// The batch once the reports `reports` have been made, one after the
    /// other.
    pub open spec fn after_all(self, tree: TreeView, reports: Seq<ReportView>) -> RunView
        decreases reports.len(),
    {
        if reports.len() == 0 {
            self
        } else {
            self.after_all(tree, reports.drop_last()).after(tree, reports.last())
        }
    }
}

/// Those of `reports` that are about the task at `index`, in their order.
pub open spec fn reports_about(reports: Seq<ReportView>, index: int) -> Seq<ReportView>
    decreases reports.len(),
{
    if reports.len() == 0 {
        Seq::empty()
    } else if reports.last().index() == index {
        reports_about(reports.drop_last(), index).push(reports.last())
    } else {
        reports_about(reports.drop_last(), index)
    }
}

/// A report about one task leaves the tasks and every other slot as they
/// are: no result is lost to a report about another task.
pub proof fn lemma_report_touches_one_slot(
    run: RunView,
    tree: TreeView,
    report: ReportView,
    other: int,
)
    requires
        0 <= other < run.slots.len(),
        other != report.index(),
    ensures
        run.after(tree, report).tasks == run.tasks,
        run.after(tree, report).slots.len() == run.slots.len(),
        run.after(tree, report).slots[other] == run.slots[other],
{
}

/// What a report makes of a task depends on that task alone: on the task
/// itself and on how far it has come.
pub proof fn lemma_report_depends_on_its_task(
    one: RunView,
    other: RunView,
    tree: TreeView,
    report: ReportView,
)
    requires
        one.tasks == other.tasks,
        one.slots.len() == other.slots.len(),
        0 <= report.index() < one.slots.len(),
        one.slots[report.index()] == other.slots[report.index()],
    ensures
        one.after(tree, report).slots[report.index()] == other.after(tree, report).slots[report.index()],
{
}

/// Reports about two tasks lead to the same batch in either order: a slow
/// task and a fast one end up with their own results, at their own places.
pub proof fn lemma_reports_commute(
    run: RunView,
    tree: TreeView,
    first: ReportView,
    second: ReportView,
)
    requires
        first.index() != second.index(),
    ensures
        run.after(tree, first).after(tree, second) == run.after(tree, second).after(tree, first),
{
    let one = run.after(tree, first).after(tree, second);
    let other = run.after(tree, second).after(tree, first);
    assert(one.slots =~= other.slots);
}

/// The tasks of a batch are isolated from one another: how far a task has
/// come after any reports, in any order, is what the reports about that
/// task alone would have made of it. What goes wrong in one task, and when
/// another task ends, makes no difference to it.
pub proof fn lemma_tasks_are_isolated(
    run: RunView,
    tree: TreeView,
    reports: Seq<ReportView>,
    index: int,
)
    requires
        0 <= index < run.slots.len(),
    ensures
        run.after_all(tree, reports).tasks == run.tasks,
        run.after_all(tree, reports).slots.len() == run.slots.len(),
        run.after_all(tree, reports).slots[index] == run.after_all(
            tree,
            reports_about(reports, index),
        ).slots[index],
    decreases reports.len(),
{
    if reports.len() > 0 {
        let earlier = reports.drop_last();
        let last = reports.last();
        let about = reports_about(earlier, index);
        lemma_tasks_are_isolated(run, tree, earlier, index);
        lemma_reports_keep_tasks(run, tree, about);
        let all_earlier = run.after_all(tree, earlier);
        let own_earlier = run.after_all(tree, about);
        if last.index() == index {
            assert(about.push(last).drop_last() =~= about);
            lemma_report_depends_on_its_task(all_earlier, own_earlier, tree, last);
        } else {
            lemma_report_touches_one_slot(all_earlier, tree, last, index);
        }
    }
}

/// Reports keep the tasks of a batch and the number of its slots.
pub proof fn lemma_reports_keep_tasks(run: RunView, tree: TreeView, reports: Seq<ReportView>)
    ensures
        run.after_all(tree, reports).tasks == run.tasks,
        run.after_all(tree, reports).slots.len() == run.slots.len(),
    decreases reports.len(),
{
    if reports.len() > 0 {
        lemma_reports_keep_tasks(run, tree, reports.drop_last());
    }
}

/// A task that has come to an end keeps its result, whatever is reported
/// afterwards.
pub proof fn lemma_result_is_final(
    run: RunView,
    tree: TreeView,
    reports: Seq<ReportView>,
    index: int,
)
    requires
        0 <= index < run.slots.len(),
        run.slots[index] is Resolved,
    ensures
        run.after_all(tree, reports).slots[index] == run.slots[index],
    decreases reports.len(),
{
    if reports.len() > 0 {
        lemma_result_is_final(run, tree, reports.drop_last(), index);
        lemma_reports_keep_tasks(run, tree, reports.drop_last());
    }
}

/// Reports keep a batch well formed.
pub proof fn lemma_reports_keep_well_formed(
    run: RunView,
    tree: TreeView,
    reports: Seq<ReportView>,
)
    requires
        run.well_formed(),
    ensures
        run.after_all(tree, reports).well_formed(),
    decreases reports.len(),
{
    if reports.len() > 0 {
        lemma_reports_keep_well_formed(run, tree, reports.drop_last());
    }
}

/// What a write came to, as plain mathematical values.
pub open spec fn written_view(written: Result<(), String>) -> Result<(), Seq<char>> {
    match written {
        Ok(_) => Ok(()),
        Err(reason) => Err(reason@),
    }
}

impl PhaseRun {
    /// The batch as plain mathematical values.
    pub closed spec fn view(&self) -> RunView {
        RunView { tasks: self.tasks.deep_view(), slots: self.slots.deep_view() }
    }

    /// The batch of `tasks`, none of which has come to an end.
    pub fn start(tasks: Vec<CollectionTask>) -> (run: PhaseRun)
        ensures
            run@.tasks == tasks.deep_view(),
            run@.slots == Seq::new(tasks.len() as nat, |i: int| ProgressView::Pending),
            run@.well_formed(),
    {
        let mut slots: Vec<Progress> = Vec::new();
        let mut i: usize = 0;
        while i < tasks.len()
            invariant
                i <= tasks.len(),
                slots.len() == i,
                forall|j: int| 0 <= j < i ==> slots[j] is Pending,
            decreases tasks.len() - i,
        {
            slots.push(Progress::Pending);
            i += 1;
        }
        assert(slots.deep_view() =~= Seq::new(
            tasks.len() as nat,
            |i: int| ProgressView::Pending,
        ));
        PhaseRun { tasks, slots }
    }

    /// How many tasks the batch has.
    pub fn len(&self) -> (n: usize)
        ensures
            n == self@.tasks.len(),
    {
        self.tasks.len()
    }

    /// The task at `index`.
    pub fn task(&self, index: usize) -> (r: Option<&CollectionTask>)
        ensures
            index < self@.tasks.len() <==> r is Some,
            r matches Some(task) ==> task@ == self@.tasks[index as int],
    {
        if index < self.tasks.len() {
            assert(self.tasks.deep_view()[index as int] == self.tasks[index as int]@);
            Some(&self.tasks[index])
        } else {
            None
        }
    }

    /// The write that the task at `index` waits for.
    pub fn pending_write(&self, index: usize) -> (r: Option<&Append>)
        ensures
            self@.awaits_write(index as int) <==> r is Some,
            r matches Some(append) ==> ProgressView::Writing(append@) == self@.slots[index as int],
    {
        if index < self.slots.len() {
            assert(self.slots.deep_view()[index as int] == self.slots[index as int].deep_view());
            match &self.slots[index] {
                Progress::Writing(append) => Some(append),
                _ => None,
            }
        } else {
            None
        }
    }

    /// Whether every task has come to an end.
    pub fn is_complete(&self) -> (r: bool)
        ensures
            r == self@.complete(),
    {
        let mut i: usize = 0;
        while i < self.slots.len()
            invariant
                i <= self.slots.len(),
                forall|j: int| 0 <= j < i ==> self.slots.deep_view()[j] is Resolved,
            decreases self.slots.len() - i,
        {
            assert(self.slots.deep_view()[i as int] == self.slots[i as int].deep_view());
            match &self.slots[i] {
                Progress::Resolved(_) => {},
                _ => {
                    return false;
                },
            }
            i += 1;
        }
        true
    }

    /// Reports that the retrieval of the task at `index` is over. The task
    /// then waits for its write, or has failed. A report about a task that
    /// does not wait for its retrieval changes nothing.
    pub fn retrieved(&mut self, index: usize, tree: &StagingTree, invocation: Invocation) -> (records:
        Vec<LogRecord>)
        ensures
            final(self)@ == old(self)@.after_retrieval(index as int, tree@, invocation@),
            records.deep_view() == old(self)@.retrieval_records(index as int, tree@, invocation@),
    {
        if index >= self.slots.len() || index >= self.tasks.len() {
            let none: Vec<LogRecord> = Vec::new();
            assert(none.deep_view() =~= Seq::<RecordView>::empty());
            return none;
        }
        assert(self.slots.deep_view()[index as int] == self.slots[index as int].deep_view());
        assert(self.tasks.deep_view()[index as int] == self.tasks[index as int]@);
        match &self.slots[index] {
            Progress::Pending => {},
            _ => {
                let none: Vec<LogRecord> = Vec::new();
                assert(none.deep_view() =~= Seq::<RecordView>::empty());
                return none;
            },
        }
        let folder = tree.folder(self.tasks[index].category);
        let settlement = settle(&self.tasks[index], folder.as_str(), invocation);
        let ghost before = self.slots.deep_view();
        let slot = match settlement.step {
            Step::Write(append) => Progress::Writing(append),
            Step::Stop(failure) => Progress::Resolved(CollectionResult::Failed(failure)),
        };
        self.slots.set(index, slot);
        proof {
            assert(self.slots.deep_view() =~= before.update(index as int, slot.deep_view()));
        }
        settlement.records
    }

    /// Reports that the write of the task at `index` is over: the task has
    /// come to an end. A report about a task that does not wait for its
    /// write changes nothing.
    pub fn written(&mut self, index: usize, written: Result<(), String>) -> (record: Option<
        LogRecord,
    >)
        ensures
            final(self)@ == old(self)@.after_write(index as int, written_view(written)),
            old(self)@.awaits_write(index as int) <==> record is Some,
            record matches Some(r) ==> r@ == concluded(
                old(self)@.slots[index as int]->Writing_0,
                written_view(written),
            ).1,
    {
        if index >= self.slots.len() {
            return None;
        }
        assert(self.slots.deep_view()[index as int] == self.slots[index as int].deep_view());
        let append = match &self.slots[index] {
            Progress::Writing(append) => Append {
                path: append.path.clone(),
                bytes: slice_to_vec(append.bytes.as_slice()),
            },
            _ => {
                return None;
            },
        };
        let ghost before = self.slots.deep_view();
        let (result, record) = conclude(append, written);
        let slot = Progress::Resolved(result);
        self.slots.set(index, slot);
        proof {
            assert(self.slots.deep_view() =~= before.update(index as int, slot.deep_view()));
        }
        Some(record)
    }

    /// The results of the batch, each at the position of its task; the
    /// batch itself where a task has not come to an end.
    pub fn finish(self) -> (r: Result<Vec<CollectionResult>, PhaseRun>)
        ensures
            self@.complete() <==> r is Ok,
            r matches Ok(results) ==> results.deep_view() == self@.results(),
            r matches Err(run) ==> run@ == self@,
    {
        if self.is_complete() {
            Ok(self.into_results())
        } else {
            Err(self)
        }
    }

    /// The results of a batch that is over.
    pub(crate) fn into_results(self) -> (results: Vec<CollectionResult>)
        requires
            self@.complete(),
        ensures
            results.deep_view() == self@.results(),
    {
        let ghost goal = self@.results();
        let slots = self.slots;
        proof {
            assert forall|i: int| 0 <= i < slots@.len() implies (#[trigger] slots@[i]) is Resolved
                && goal[i] == slots@[i].deep_view()->Resolved_0 by {
                assert(slots.deep_view()[i] == slots@[i].deep_view());
            }
        }
        let mut results: Vec<CollectionResult> = Vec::new();
        for slot in it: slots
            invariant
                it.seq() == slots@,
                goal.len() == slots@.len(),
                forall|i: int|
                    0 <= i < slots@.len() ==> (#[trigger] slots@[i]) is Resolved && goal[i]
                        == slots@[i].deep_view()->Resolved_0,
                results.len() == it.index(),
                forall|i: int| 0 <= i < it.index() ==> (#[trigger] results[i])@ == goal[i],
        {
            match slot {
                Progress::Resolved(result) => {
                    results.push(result);
                },
                _ => {},
            }
        }
        assert(results.deep_view() =~= goal);
        results
    }
}

} // verus!
