//! One unit of collection work: how its output is retrieved, and where the
//! output goes.

use crate::layout::Category;
use crate::resolve::HandleView;
use crate::resolve::WorkloadInstanceHandle;
use crate::text::cat2;
use crate::text::cat3;
use crate::text::join_spaced;
use crate::text::push_text;
use crate::text::spaced;
use vstd::prelude::*;
use vstd::string::StringExecFns;

verus! {

/// How the output of a task is retrieved.
#[derive(Clone, Debug, PartialEq, Eq)]
pub enum Retrieval {
    /// A process outside the cluster is run and its output captured.
    Command { program: String, args: Vec<String> },
    /// The log text of one container is fetched.
    Logs { pod: String, capability: usize, container: String, previous: bool },
    /// A command is run inside one container and its output captured.
    Exec { pod: String, capability: usize, container: String, command: Vec<String> },
}

/// One unit of work. The tasks of a batch do not depend on one another.
#[derive(Clone, Debug, PartialEq, Eq)]
pub struct CollectionTask {
    pub retrieval: Retrieval,
    /// The category whose folder receives the output.
    pub category: Category,
    /// The name of the file that receives the output.
    pub filename: String,
    /// Whether the output is JSON that is laid out anew before it is kept.
    pub pretty: bool,
}

/// A retrieval as plain mathematical values.
pub enum RetrievalView {
    Command { program: Seq<char>, args: Seq<Seq<char>> },
    Logs { pod: Seq<char>, capability: int, container: Seq<char>, previous: bool },
    Exec { pod: Seq<char>, capability: int, container: Seq<char>, command: Seq<Seq<char>> },
}

/// A task as plain mathematical values.
pub struct TaskView {
    pub retrieval: RetrievalView,
    pub category: Category,
    pub filename: Seq<char>,
    pub pretty: bool,
}

impl DeepView for Retrieval {
    type V = RetrievalView;

    open spec fn deep_view(&self) -> RetrievalView {
        match self {
            Retrieval::Command { program, args } => RetrievalView::Command {
                program: program@,
                args: args.deep_view(),
            },
            Retrieval::Logs { pod, capability, container, previous } => RetrievalView::Logs {
                pod: pod@,
                capability: *capability as int,
                container: container@,
                previous: *previous,
            },
            Retrieval::Exec { pod, capability, container, command } => RetrievalView::Exec {
                pod: pod@,
                capability: *capability as int,
                container: container@,
                command: command.deep_view(),
            },
        }
    }
}

impl DeepView for CollectionTask {
    type V = TaskView;

    open spec fn deep_view(&self) -> TaskView {
        TaskView {
            retrieval: self.retrieval.deep_view(),
            category: self.category,
            filename: self.filename@,
            pretty: self.pretty,
        }
    }
}

impl View for CollectionTask {
    type V = TaskView;

    open spec fn view(&self) -> TaskView {
        self.deep_view()
    }
}

/// The task that runs `program` with `args` outside the cluster.
pub open spec fn command_task(
    program: Seq<char>,
    args: Seq<Seq<char>>,
    category: Category,
    filename: Seq<char>,
) -> TaskView {
    TaskView {
        retrieval: RetrievalView::Command { program, args },
        category,
        filename,
        pretty: false,
    }
}

/// The task that fetches the log text of one container of `pod`.
pub open spec fn logs_task(
    pod: HandleView,
    container: Seq<char>,
    previous: bool,
    filename: Seq<char>,
) -> TaskView {
    TaskView {
        retrieval: RetrievalView::Logs {
            pod: pod.name,
            capability: pod.capability,
            container,
            previous,
        },
        category: Category::Pods,
        filename,
        pretty: false,
    }
}

/// The words that run `script` in a shell.
pub open spec fn shell_words(script: Seq<char>) -> Seq<Seq<char>> {
    seq!["/bin/sh"@, "-c"@, script]
}

/// What a task is called in a report: its command line for a command,
/// inside or outside the cluster; the instance and the container for a log.
pub open spec fn task_label(retrieval: RetrievalView) -> Seq<char> {
    match retrieval {
        RetrievalView::Command { program, args } => spaced(seq![program] + args),
        RetrievalView::Logs { pod, container, .. } => pod + " on container "@ + container,
        RetrievalView::Exec { command, .. } => spaced(command),
    }
}

/// The report of a task that produced nothing.
pub open spec fn empty_output_message(retrieval: RetrievalView) -> Seq<char> {
    match retrieval {
        RetrievalView::Logs { .. } => "No Log found "@ + task_label(retrieval) + "."@,
        _ => "kubectl command empty response "@ + task_label(retrieval),
    }
}

/// The report of a task that failed for the reason `reason`.
pub open spec fn failure_message(retrieval: RetrievalView, reason: Seq<char>) -> Seq<char> {
    task_label(retrieval) + ": "@ + reason
}

/// Appends one task to a batch.
pub fn push_task(out: &mut Vec<CollectionTask>, task: CollectionTask)
    ensures
        final(out).deep_view() == old(out).deep_view().push(task.deep_view()),
{
    let ghost before = out.deep_view();
    out.push(task);
    assert(out.deep_view() =~= before.push(task.deep_view()));
}

/// Appends a batch to a batch.
pub fn extend_tasks(out: &mut Vec<CollectionTask>, more: Vec<CollectionTask>)
    ensures
        final(out).deep_view() == old(out).deep_view() + more.deep_view(),
{
    let ghost before = out.deep_view();
    let ghost added = more.deep_view();
    let mut more = more;
    out.append(&mut more);
    assert(out.deep_view() =~= before + added);
}

impl CollectionTask {
    /// What the task is called in a report.
    pub fn label(&self) -> (r: String)
        ensures
            r@ == task_label(self@.retrieval),
    {
        match &self.retrieval {
            Retrieval::Command { program, args } => {
                let mut words: Vec<String> = Vec::new();
                push_text(&mut words, program.as_str());
                let mut i: usize = 0;
                while i < args.len()
                    invariant
                        i <= args.len(),
                        words.deep_view() == seq![program@] + args.deep_view().take(i as int),
                    decreases args.len() - i,
                {
                    push_text(&mut words, args[i].as_str());
                    proof {
                        let all = args.deep_view();
                        assert(all.take(i + 1) =~= all.take(i as int).push(args[i as int]@));
                    }
                    i += 1;
                }
                proof {
                    assert(args.deep_view().take(args.len() as int) =~= args.deep_view());
                }
                join_spaced(&words)
            },
            Retrieval::Logs { pod, container, .. } => cat3(
                pod.as_str(),
                " on container ",
                container.as_str(),
            ),
            Retrieval::Exec { command, .. } => join_spaced(command),
        }
    }

    /// The report of the task where it produced nothing.
    pub fn describe_empty_output(&self) -> (r: String)
        ensures
            r@ == empty_output_message(self@.retrieval),
    {
        let label = self.label();
        match &self.retrieval {
            Retrieval::Logs { .. } => cat3("No Log found ", label.as_str(), "."),
            _ => cat2("kubectl command empty response ", label.as_str()),
        }
    }

    /// The report of the task where it failed for the reason `reason`.
    pub fn describe_failure(&self, reason: &str) -> (r: String)
        ensures
            r@ == failure_message(self@.retrieval, reason@),
    {
        cat3(self.label().as_str(), ": ", reason)
    }
}

/// The task that runs `program` with `args` outside the cluster.
pub fn new_command_task(program: &str, args: Vec<String>, category: Category, filename: String) -> (t:
    CollectionTask)
    ensures
        t@ == command_task(program@, args.deep_view(), category, filename@),
{
    CollectionTask {
        retrieval: Retrieval::Command { program: String::from_str(program), args },
        category,
        filename,
        pretty: false,
    }
}

/// The task that fetches the log text of one container of `pod`.
pub fn new_logs_task(
    pod: &WorkloadInstanceHandle,
    container: &str,
    previous: bool,
    filename: String,
) -> (t: CollectionTask)
    ensures
        t@ == logs_task(pod@, container@, previous, filename@),
{
    CollectionTask {
        retrieval: Retrieval::Logs {
            pod: pod.name.clone(),
            capability: pod.capability,
            container: String::from_str(container),
            previous,
        },
        category: Category::Pods,
        filename,
        pretty: false,
    }
}

} // verus!
