//! The batches of the service blocks: diagnostics that a service only gives
//! to a command run inside one of its containers.
//!
//! A block is planned from the instances that the service's selector
//! found. Where it found none the block is empty, which is normal. Where it
//! found some, the commands are aimed at the first container of the first
//! instance; an instance that declares no container fails the block.

use crate::layout::Category;
use crate::outcome::Failure;
use crate::outcome::FailureView;
use crate::outcome::LogRecord;
use crate::outcome::RecordView;
use crate::outcome::warning;
use crate::resolve::EntryView;
use crate::resolve::HandleView;
use crate::resolve::ListingView;
use crate::resolve::WorkloadInstanceHandle;
use crate::resolve::all_found;
use crate::resolve::handles_in;
use crate::resolve::handles_of;
use crate::task::CollectionTask;
use crate::task::Retrieval;
use crate::task::RetrievalView;
use crate::task::TaskView;
use crate::task::push_task;
use crate::task::shell_words;
use crate::text::cat2;
use crate::text::lemma_take_step;
use crate::text::texts;
use vstd::prelude::*;

verus! {

/// One command of a block, and the file that keeps what it prints.
#[derive(Clone, Debug, PartialEq, Eq)]
pub struct Probe {
    pub script: String,
    pub filename: String,
}

/// A probe as plain mathematical values.
pub struct ProbeView {
    pub script: Seq<char>,
    pub filename: Seq<char>,
}

impl DeepView for Probe {
    type V = ProbeView;

    open spec fn deep_view(&self) -> ProbeView {
        ProbeView { script: self.script@, filename: self.filename@ }
    }
}

/// A batch, or the reason there is none, as plain mathematical values.
pub open spec fn batch_view(r: Result<Vec<CollectionTask>, Failure>) -> Result<
    Seq<TaskView>,
    FailureView,
> {
    match r {
        Ok(tasks) => Ok(tasks.deep_view()),
        Err(failure) => Err(failure@),
    }
}

/// The retrieval that runs `script` in a shell inside `container` of `pod`.
pub open spec fn shell_in(pod: HandleView, container: Seq<char>, script: Seq<char>) -> RetrievalView {
    RetrievalView::Exec {
        pod: pod.name,
        capability: pod.capability,
        container,
        command: shell_words(script),
    }
}

/// The task that runs a probe inside `container` of `pod`.
pub open spec fn probe_task(
    pod: HandleView,
    container: Seq<char>,
    probe: ProbeView,
    pretty: bool,
) -> TaskView {
    TaskView {
        retrieval: shell_in(pod, container, probe.script),
        category: Category::Apps,
        filename: probe.filename,
        pretty,
    }
}

/// The failure of a block whose instance declares no container.
pub open spec fn no_container(pod: HandleView) -> FailureView {
    FailureView::Resolution("No container found on "@ + pod.name)
}

/// The block that runs `probes` for the instances `pods`.
pub open spec fn block_of(pods: Seq<HandleView>, probes: Seq<ProbeView>, pretty: bool) -> Result<
    Seq<TaskView>,
    FailureView,
> {
    if pods.len() == 0 {
        Ok(Seq::empty())
    } else if pods[0].containers.len() == 0 {
        Err(no_container(pods[0]))
    } else {
        Ok(
            Seq::new(
                probes.len(),
                |k: int| probe_task(pods[0], pods[0].containers[0], probes[k], pretty),
            ),
        )
    }
}

/// Appends one probe to a list of probes.
pub fn push_probe(out: &mut Vec<Probe>, script: String, filename: String)
    ensures
        final(out).deep_view() == old(out).deep_view().push(
            ProbeView { script: script@, filename: filename@ },
        ),
{
    let ghost before = out.deep_view();
    let probe = Probe { script, filename };
    out.push(probe);
    assert(out.deep_view() =~= before.push(probe.deep_view()));
}

/// The retrieval that runs `script` in a shell inside the first container
/// of `pod`; a failure where `pod` declares no container.
pub fn shell_in_first_container(pod: &WorkloadInstanceHandle, script: &str) -> (r: Result<
    Retrieval,
    Failure,
>)
    ensures
        pod@.containers.len() == 0 ==> (r matches Err(e) && e@ == no_container(pod@)),
        pod@.containers.len() > 0 ==> (r matches Ok(retrieval) && retrieval.deep_view()
            == shell_in(pod@, pod@.containers[0], script@)),
{
    match pod.first_container() {
        None => Err(Failure::Resolution(cat2("No container found on ", pod.name.as_str()))),
        Some(container) => {
            let command = texts(&["/bin/sh", "-c", script]);
            assert(command.deep_view() =~= shell_words(script@));
            Ok(
                Retrieval::Exec {
                    pod: pod.name.clone(),
                    capability: pod.capability,
                    container: container.clone(),
                    command,
                },
            )
        },
    }
}

/// The block that runs `probes` for the instances that a selector found.
pub fn block(pods: &Vec<WorkloadInstanceHandle>, probes: &Vec<Probe>, pretty: bool) -> (r: Result<
    Vec<CollectionTask>,
    Failure,
>)
    ensures
        batch_view(r) == block_of(pods.deep_view(), probes.deep_view(), pretty),
{
    let mut out: Vec<CollectionTask> = Vec::new();
    if pods.len() == 0 {
        assert(out.deep_view() =~= Seq::<TaskView>::empty());
        return Ok(out);
    }
    let pod = &pods[0];
    assert(pods.deep_view()[0] == pod@);
    if pod.containers.len() == 0 {
        return Err(Failure::Resolution(cat2("No container found on ", pod.name.as_str())));
    }
    let ghost goal = block_of(pods.deep_view(), probes.deep_view(), pretty)->Ok_0;
    let mut k: usize = 0;
    assert(out.deep_view() =~= goal.take(0));
    while k < probes.len()
        invariant
            k <= probes.len(),
            pods.len() > 0,
            pod == &pods[0],
            pods.deep_view()[0] == pod@,
            pod@.containers.len() > 0,
            goal == block_of(pods.deep_view(), probes.deep_view(), pretty)->Ok_0,
            out.deep_view() == goal.take(k as int),
        decreases probes.len() - k,
    {
        match shell_in_first_container(pod, probes[k].script.as_str()) {
            Err(failure) => {
                return Err(failure);
            },
            Ok(retrieval) => {
                let task = CollectionTask {
                    retrieval,
                    category: Category::Apps,
                    filename: probes[k].filename.clone(),
                    pretty,
                };
                proof {
                    assert(probes.deep_view()[k as int] == probes[k as int].deep_view());
                    assert(task@ == goal[k as int]);
                    lemma_take_step(goal, k as int);
                }
                push_task(&mut out, task);
            },
        }
        k += 1;
    }
    proof {
        assert(goal.take(probes.len() as int) =~= goal);
    }
    Ok(out)
}

/// What a run does about a block: it runs the batch, or, where the block
/// has failed, runs nothing and tells the activity log why.
pub open spec fn batch_or_report_of(block: Result<Seq<TaskView>, FailureView>) -> (
    Seq<TaskView>,
    Option<RecordView>,
) {
    match block {
        Ok(tasks) => (tasks, None),
        Err(failure) => (Seq::empty(), Some(warning(failure.message()))),
    }
}

/// The batch that is run for a block, and the record of its failure where
/// it has failed.
pub fn batch_or_report(block: Result<Vec<CollectionTask>, Failure>) -> (r: (
    Vec<CollectionTask>,
    Option<LogRecord>,
))
    ensures
        (r.0.deep_view(), r.1.deep_view()) == batch_or_report_of(batch_view(block)),
{
    match block {
        Ok(tasks) => (tasks, None),
        Err(failure) => {
            let none: Vec<CollectionTask> = Vec::new();
            assert(none.deep_view() =~= Seq::<TaskView>::empty());
            (none, Some(failure.record()))
        },
    }
}

/// A selector that finds no instance in any namespace leads to a block
/// without tasks and without a failure. (A namespace that cannot be listed
/// is another matter: then there are no handles at all, but an error.)
pub proof fn lemma_no_match_is_no_task(
    listings: Seq<ListingView>,
    probes: Seq<ProbeView>,
    pretty: bool,
)
    requires
        forall|i: int|
            0 <= i < listings.len() ==> listings[i] == ListingView::Found(Seq::<EntryView>::empty()),
    ensures
        all_found(listings),
        handles_of(listings) == Seq::<HandleView>::empty(),
        block_of(handles_of(listings), probes, pretty) == Ok::<Seq<TaskView>, FailureView>(
            Seq::empty(),
        ),
        batch_or_report_of(block_of(handles_of(listings), probes, pretty)) == (
            Seq::<TaskView>::empty(),
            None::<RecordView>,
        ),
    decreases listings.len(),
{
    if listings.len() > 0 {
        lemma_no_match_is_no_task(listings.drop_last(), probes, pretty);
        assert(handles_in(listings.last(), listings.len() - 1) =~= Seq::<HandleView>::empty());
        assert(handles_of(listings) =~= Seq::<HandleView>::empty());
    }
}

} // verus!
