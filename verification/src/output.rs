//! From what a retrieval produced to what is kept of it.
//!
//! Output is kept by appending it to a file of the task's category folder.
//! Nothing in this module touches a file: it decides what is appended where,
//! and the caller appends. A retrieval that produced nothing is a failure,
//! and no file is made for it.

use crate::outcome::CollectionResult;
use crate::outcome::Failure;
use crate::outcome::FailureView;
use crate::outcome::Level;
use crate::outcome::LogRecord;
use crate::outcome::RecordView;
use crate::outcome::ResultView;
use crate::outcome::note;
use crate::outcome::warning;
use crate::task::CollectionTask;
use crate::task::TaskView;
use crate::task::empty_output_message;
use crate::task::failure_message;
use crate::task::task_label;
use crate::text::cat2;
use crate::text::cat3;
use crate::text::lemma_occurs_between;
use crate::text::occurs_in;
use vstd::prelude::*;
use vstd::slice::slice_to_vec;
use vstd::string::StrSliceExecFns;
use vstd::utf8::decode_utf8;
use vstd::utf8::encode_utf8;
use vstd::utf8::encode_utf8_decode_utf8;
use vstd::utf8::valid_utf8;

verus! {

/// Bytes to be appended to a file. The file is made where it is missing;
/// what it holds already stays.
#[derive(Clone, Debug, PartialEq, Eq)]
pub struct Append {
    pub path: String,
    pub bytes: Vec<u8>,
}

/// An append as plain mathematical values.
pub struct AppendView {
    pub path: Seq<char>,
    pub bytes: Seq<u8>,
}

impl View for Append {
    type V = AppendView;

    open spec fn view(&self) -> AppendView {
        AppendView { path: self.path@, bytes: self.bytes@ }
    }
}

/// What a retrieval came to.
#[derive(Clone, Debug, PartialEq, Eq)]
pub enum Invocation {
    /// It ran to its end. How it ended does not matter, nor whether it
    /// complained: only what it printed does.
    Finished { stdout: Vec<u8>, stderr: Vec<u8> },
    /// It could not be run, or broke off, for the reason given.
    Failed(String),
}

/// What is to be done about a task once its retrieval is over.
#[derive(Clone, Debug, PartialEq, Eq)]
pub enum Step {
    /// Its output is to be appended to its file.
    Write(Append),
    /// Nothing is written: the task has failed.
    Stop(Failure),
}

/// What is to be done about a task, and what the activity log is told.
#[derive(Clone, Debug, PartialEq, Eq)]
pub struct Settlement {
    pub step: Step,
    pub records: Vec<LogRecord>,
}

/// A settlement as plain mathematical values.
pub struct SettlementView {
    pub step: Result<AppendView, FailureView>,
    pub records: Seq<RecordView>,
}

impl View for Step {
    type V = Result<AppendView, FailureView>;

    open spec fn view(&self) -> Result<AppendView, FailureView> {
        match self {
            Step::Write(append) => Ok(append@),
            Step::Stop(failure) => Err(failure@),
        }
    }
}

impl View for Settlement {
    type V = SettlementView;

    open spec fn view(&self) -> SettlementView {
        SettlementView { step: self.step@, records: self.records.deep_view() }
    }
}

/// The path of the file `filename` in `folder`.
pub open spec fn file_path(folder: Seq<char>, filename: Seq<char>) -> Seq<char> {
    folder + "/"@ + filename
}

/// What is done with `data`: it is appended to its file, unless there is
/// none of it, which is the failure `error`.
pub open spec fn write_decision(
    folder: Seq<char>,
    data: Seq<u8>,
    filename: Seq<char>,
    error: FailureView,
) -> Result<AppendView, FailureView> {
    if data.len() > 0 {
        Ok(AppendView { path: file_path(folder, filename), bytes: data })
    } else {
        Err(error)
    }
}

/// A decision as plain mathematical values.
pub open spec fn decision_view(r: Result<Append, Failure>) -> Result<AppendView, FailureView> {
    match r {
        Ok(append) => Ok(append@),
        Err(failure) => Err(failure@),
    }
}

/// Decides what is done with the output `data` of a task whose file is
/// `filename` in `folder`: it is appended to that file, unless there is none
/// of it, which is the failure `error` that the caller has made up for the
/// task.
pub fn write_file(folder: &str, data: &[u8], filename: &str, error: Failure) -> (r: Result<
    Append,
    Failure,
>)
    ensures
        decision_view(r) == write_decision(folder@, data@, filename@, error@),
{
    if data.len() > 0 {
        Ok(Append { path: cat3(folder, "/", filename), bytes: slice_to_vec(data) })
    } else {
        Err(error)
    }
}

/// The files of a run: what each path holds.
pub type Files = Map<Seq<char>, Seq<u8>>;

/// What the file at `path` holds; nothing where there is no such file.
pub open spec fn content(files: Files, path: Seq<char>) -> Seq<u8> {
    if files.contains_key(path) {
        files[path]
    } else {
        Seq::empty()
    }
}

/// The files once `append` has been carried out.
pub open spec fn appended(files: Files, append: AppendView) -> Files {
    files.insert(append.path, content(files, append.path) + append.bytes)
}

/// The files once a decision has been carried out.
pub open spec fn carried_out(files: Files, decision: Result<AppendView, FailureView>) -> Files {
    match decision {
        Ok(append) => appended(files, append),
        Err(_) => files,
    }
}

/// Output that is not empty ends up in the file of its task, behind what
/// the file held before; where there was no such file it holds exactly the
/// output. No other file changes.
pub proof fn lemma_output_is_kept(
    files: Files,
    folder: Seq<char>,
    data: Seq<u8>,
    filename: Seq<char>,
    error: FailureView,
)
    requires
        data.len() > 0,
    ensures
        ({
            let path = file_path(folder, filename);
            let after = carried_out(files, write_decision(folder, data, filename, error));
            &&& after.contains_key(path)
            &&& after[path] == content(files, path) + data
            &&& !files.contains_key(path) ==> after[path] == data
            &&& forall|other: Seq<char>|
                other != path ==> after.contains_key(other) == files.contains_key(other)
                    && content(after, other) == content(files, other)
        }),
{
    assert(Seq::<u8>::empty() + data =~= data);
}

/// The same output written twice stands in its file twice: a write never
/// shortens a file.
pub proof fn lemma_repeated_write_accumulates(
    files: Files,
    folder: Seq<char>,
    data: Seq<u8>,
    filename: Seq<char>,
    error: FailureView,
)
    requires
        data.len() > 0,
    ensures
        ({
            let path = file_path(folder, filename);
            let decision = write_decision(folder, data, filename, error);
            let after = carried_out(carried_out(files, decision), decision);
            after[path] == content(files, path) + data + data
        }),
{
}

/// Empty output makes no file and changes none; what comes of it is the
/// failure that was made up for the task.
pub proof fn lemma_empty_output_keeps_nothing(
    files: Files,
    folder: Seq<char>,
    data: Seq<u8>,
    filename: Seq<char>,
    error: FailureView,
)
    requires
        data.len() == 0,
    ensures
        write_decision(folder, data, filename, error) == Err::<AppendView, FailureView>(error),
        carried_out(files, write_decision(folder, data, filename, error)) == files,
{
}

/// What `jsonxf::pretty_print` makes of a text: the text laid out anew, or
/// the reason it gives for having none.
pub uninterp spec fn pretty_printed(json: Seq<char>) -> Result<Seq<char>, Seq<char>>;

/// What `String::from_utf8_lossy` makes of bytes: their text, with a
/// replacement character where they are not UTF-8. Of bytes that are UTF-8
/// it is the text itself.
pub uninterp spec fn lossy_text(bytes: Seq<u8>) -> Seq<char>;

/// A result of texts as plain mathematical values.
pub open spec fn text_result_view(r: Result<String, String>) -> Result<Seq<char>, Seq<char>> {
    match r {
        Ok(text) => Ok(text@),
        Err(reason) => Err(reason@),
    }
}

/// Calls `jsonxf::pretty_print`. Nothing is proved of what it returns: the
/// contract only gives it the name `pretty_printed`, as a function of the
/// text alone.
#[verifier::external_body]
fn pretty_print(json: &str) -> (r: Result<String, String>)
    ensures
        text_result_view(r) == pretty_printed(json@),
{
    jsonxf::pretty_print(json)
}

/// Calls `String::from_utf8_lossy`. The contract gives what it returns the
/// name `lossy_text`, as a function of the bytes alone, and claims one
/// thing of it: bytes that are UTF-8 come back as their text, unchanged.
#[verifier::external_body]
fn lossy(bytes: &[u8]) -> (r: String)
    ensures
        r@ == lossy_text(bytes@),
        valid_utf8(bytes@) ==> r@ == decode_utf8(bytes@),
{
    String::from_utf8_lossy(bytes).into_owned()
}

/// Calls `std::str::from_utf8`: the text whose UTF-8 encoding `bytes` is,
/// and `None` exactly where `bytes` is not UTF-8.
#[verifier::external_body]
pub(crate) fn text_of(bytes: &[u8]) -> (r: Option<String>)
    ensures
        r is Some <==> valid_utf8(bytes@),
        r matches Some(text) ==> encode_utf8(text@) == bytes@,
{
    match std::str::from_utf8(bytes) {
        Ok(text) => Some(text.to_owned()),
        Err(_) => None,
    }
}

/// Output after it has been processed, or the reason it could not be, as
/// plain mathematical values.
pub open spec fn payload_view(r: Result<Vec<u8>, Failure>) -> Result<Seq<u8>, FailureView> {
    match r {
        Ok(bytes) => Ok(bytes@),
        Err(failure) => Err(failure@),
    }
}

/// The failure of `task` to retrieve or process its output, for the reason
/// `reason`. Its text names the task.
pub open spec fn invocation_failure(task: TaskView, reason: Seq<char>) -> FailureView {
    FailureView::Invocation(failure_message(task.retrieval, reason))
}

/// What is kept of a text that was to be laid out anew: the bytes of the
/// new layout, or the failure to make one.
pub open spec fn laid_out(task: TaskView, layout: Result<Seq<char>, Seq<char>>) -> Result<
    Seq<u8>,
    FailureView,
> {
    match layout {
        Ok(text) => Ok(encode_utf8(text)),
        Err(reason) => Err(invocation_failure(task, reason)),
    }
}

/// What is kept of the output `stdout`: the output itself, or, for a task
/// whose output is laid out anew, the bytes of the new layout. Such output
/// has to be text.
pub open spec fn processed(task: TaskView, stdout: Seq<u8>) -> Result<Seq<u8>, FailureView> {
    if !task.pretty {
        Ok(stdout)
    } else if !valid_utf8(stdout) {
        Err(invocation_failure(task, "output is not text"@))
    } else {
        laid_out(task, pretty_printed(decode_utf8(stdout)))
    }
}

/// What a task comes to once its output has been processed: the decision
/// about the write, and the records for the activity log. A failure is
/// reported by one warning with its text; what the retrieval complained
/// about is a second warning, and never a failure.
pub open spec fn settled(
    task: TaskView,
    folder: Seq<char>,
    payload: Result<Seq<u8>, FailureView>,
    complaint: Option<Seq<char>>,
) -> SettlementView {
    let step = match payload {
        Ok(bytes) => write_decision(
            folder,
            bytes,
            task.filename,
            FailureView::EmptyOutput(empty_output_message(task.retrieval)),
        ),
        Err(failure) => Err(failure),
    };
    let reported = match step {
        Ok(_) => Seq::<RecordView>::empty(),
        Err(failure) => seq![warning(failure.message())],
    };
    SettlementView { step, records: reported + complaint_records(complaint) }
}

/// The records about what a retrieval complained about: one warning with
/// the complaint, where there is one.
pub open spec fn complaint_records(complaint: Option<Seq<char>>) -> Seq<RecordView> {
    match complaint {
        Some(text) => seq![warning(text)],
        None => Seq::empty(),
    }
}

/// What was written to the error stream, as it is reported: nothing where
/// nothing was written; the text itself where it is UTF-8; and otherwise
/// the text with a replacement character for what is not.
pub open spec fn complaint_of(stderr: Seq<u8>) -> Option<Seq<char>> {
    if stderr.len() == 0 {
        None
    } else if valid_utf8(stderr) {
        Some(decode_utf8(stderr))
    } else {
        Some(lossy_text(stderr))
    }
}

/// What a task comes to once its retrieval is over.
pub open spec fn settlement_of(task: TaskView, folder: Seq<char>, invocation: InvocationView) -> SettlementView {
    match invocation {
        InvocationView::Finished { stdout, stderr } => settled(
            task,
            folder,
            processed(task, stdout),
            complaint_of(stderr),
        ),
        InvocationView::Failed(reason) => settled(
            task,
            folder,
            Err(invocation_failure(task, reason)),
            None,
        ),
    }
}

/// What came of a write, and what the activity log is told about it. A
/// write of no bytes keeps nothing, however it went: it is a failure, never
/// a success without output.
pub open spec fn concluded(append: AppendView, written: Result<(), Seq<char>>) -> (
    ResultView,
    RecordView,
) {
    if append.bytes.len() == 0 {
        (
            ResultView::Failed(FailureView::EmptyOutput(append.path + ": nothing to write"@)),
            warning(append.path + ": nothing to write"@),
        )
    } else {
        match written {
            Ok(_) => (
                ResultView::Success(append.bytes),
                note("File has been created "@ + append.path),
            ),
            Err(reason) => (
                ResultView::Failed(FailureView::Write(append.path + ": "@ + reason)),
                warning(append.path + ": "@ + reason),
            ),
        }
    }
}

/// An invocation as plain mathematical values.
pub enum InvocationView {
    Finished { stdout: Seq<u8>, stderr: Seq<u8> },
    Failed(Seq<char>),
}

impl View for Invocation {
    type V = InvocationView;

    open spec fn view(&self) -> InvocationView {
        match self {
            Invocation::Finished { stdout, stderr } => InvocationView::Finished {
                stdout: stdout@,
                stderr: stderr@,
            },
            Invocation::Failed(reason) => InvocationView::Failed(reason@),
        }
    }
}

/// What is kept of the output of `task` once an attempt has been made to
/// lay it out anew.
pub fn payload_of_layout(task: &CollectionTask, layout: Result<String, String>) -> (r: Result<
    Vec<u8>,
    Failure,
>)
    ensures
        payload_view(r) == laid_out(task@, text_result_view(layout)),
{
    match layout {
        Ok(text) => Ok(text.as_str().as_bytes_vec()),
        Err(reason) => Err(Failure::Invocation(task.describe_failure(reason.as_str()))),
    }
}

/// What is kept of the output `stdout` of `task`.
pub fn process(task: &CollectionTask, stdout: Vec<u8>) -> (r: Result<Vec<u8>, Failure>)
    ensures
        payload_view(r) == processed(task@, stdout@),
{
    if !task.pretty {
        return Ok(stdout);
    }
    match text_of(stdout.as_slice()) {
        None => Err(Failure::Invocation(task.describe_failure("output is not text"))),
        Some(text) => {
            proof {
                encode_utf8_decode_utf8(text@);
            }
            payload_of_layout(task, pretty_print(text.as_str()))
        },
    }
}

/// Settles a task whose output has been processed: decides about the
/// write and makes the records for the activity log.
pub fn settle_output(
    task: &CollectionTask,
    folder: &str,
    payload: Result<Vec<u8>, Failure>,
    complaint: Option<String>,
) -> (r: Settlement)
    ensures
        r@ == settled(task@, folder@, payload_view(payload), complaint.deep_view()),
{
    let decision = match payload {
        Ok(bytes) => write_file(
            folder,
            bytes.as_slice(),
            task.filename.as_str(),
            Failure::EmptyOutput(task.describe_empty_output()),
        ),
        Err(failure) => Err(failure),
    };
    let mut records: Vec<LogRecord> = Vec::new();
    let step = match decision {
        Ok(append) => Step::Write(append),
        Err(failure) => {
            records.push(failure.record());
            Step::Stop(failure)
        },
    };
    match complaint {
        Some(text) => {
            records.push(LogRecord { level: Level::Warn, message: text });
        },
        None => {},
    }
    let r = Settlement { step, records };
    assert(r@.records =~= settled(
        task@,
        folder@,
        payload_view(payload),
        complaint.deep_view(),
    ).records);
    r
}

/// Settles a task once its retrieval is over.
pub fn settle(task: &CollectionTask, folder: &str, invocation: Invocation) -> (r: Settlement)
    ensures
        r@ == settlement_of(task@, folder@, invocation@),
{
    match invocation {
        Invocation::Finished { stdout, stderr } => {
            let complaint = if stderr.len() > 0 {
                Some(lossy(stderr.as_slice()))
            } else {
                None
            };
            settle_output(task, folder, process(task, stdout), complaint)
        },
        Invocation::Failed(reason) => settle_output(
            task,
            folder,
            Err(Failure::Invocation(task.describe_failure(reason.as_str()))),
            None,
        ),
    }
}

/// Concludes a task whose output was to be written: with the output where
/// the write went well, with the reason where it did not. What is kept is
/// never empty.
pub fn conclude(append: Append, written: Result<(), String>) -> (r: (CollectionResult, LogRecord))
    ensures
        (r.0@, r.1@) == concluded(
            append@,
            match written {
                Ok(_) => Ok(()),
                Err(reason) => Err(reason@),
            },
        ),
        r.0@.well_formed(),
{
    if append.bytes.len() == 0 {
        let failure = Failure::EmptyOutput(cat2(append.path.as_str(), ": nothing to write"));
        let record = failure.record();
        return (CollectionResult::Failed(failure), record);
    }
    match written {
        Ok(_) => {
            let message = cat2("File has been created ", append.path.as_str());
            (CollectionResult::Success(append.bytes), LogRecord { level: Level::Info, message })
        },
        Err(reason) => {
            let failure = Failure::Write(cat3(append.path.as_str(), ": ", reason.as_str()));
            let record = failure.record();
            (CollectionResult::Failed(failure), record)
        },
    }
}

/// A task whose output is empty is not written: no file is made or
/// changed. The log is told once about the failure, by a warning that names
/// the task; what the retrieval complained about, if anything, follows.
pub proof fn lemma_empty_output_is_one_failure(
    files: Files,
    task: TaskView,
    folder: Seq<char>,
    complaint: Option<Seq<char>>,
)
    ensures
        ({
            let outcome = settled(task, folder, Ok(Seq::<u8>::empty()), complaint);
            let message = empty_output_message(task.retrieval);
            &&& outcome.step == Err::<AppendView, FailureView>(FailureView::EmptyOutput(message))
            &&& carried_out(files, outcome.step) == files
            &&& outcome.records == seq![warning(message)] + complaint_records(complaint)
            &&& complaint is None ==> outcome.records == seq![warning(message)]
        }),
{
    let outcome = settled(task, folder, Ok(Seq::<u8>::empty()), complaint);
    let message = empty_output_message(task.retrieval);
    if complaint is None {
        assert(outcome.records =~= seq![warning(message)]);
    }
}

/// A task whose output is not empty is written to the file of its name in
/// its folder, with exactly that output, and the log is told of no failure.
pub proof fn lemma_output_is_written(
    task: TaskView,
    folder: Seq<char>,
    bytes: Seq<u8>,
    complaint: Option<Seq<char>>,
)
    requires
        bytes.len() > 0,
    ensures
        ({
            let outcome = settled(task, folder, Ok(bytes), complaint);
            &&& outcome.step == Ok::<AppendView, FailureView>(
                AppendView { path: file_path(folder, task.filename), bytes },
            )
            &&& outcome.records == complaint_records(complaint)
        }),
{
    let outcome = settled(task, folder, Ok(bytes), complaint);
    assert(outcome.records =~= complaint_records(complaint));
}

/// Whatever a retrieval comes to, a task that fails because of it fails
/// with a text that names the task, and the log is told that text first.
pub proof fn lemma_failures_name_their_task(
    task: TaskView,
    folder: Seq<char>,
    invocation: InvocationView,
)
    ensures
        settlement_of(task, folder, invocation).step matches Err(failure) ==> occurs_in(
            task_label(task.retrieval),
            failure.message(),
        ) && settlement_of(task, folder, invocation).records.len() > 0 && settlement_of(
            task,
            folder,
            invocation,
        ).records[0] == warning(failure.message()),
{
    let label = task_label(task.retrieval);
    let outcome = settlement_of(task, folder, invocation);
    match outcome.step {
        Ok(_) => {},
        Err(failure) => {
            match failure {
                FailureView::EmptyOutput(text) => {
                    assert(text == empty_output_message(task.retrieval));
                    lemma_occurs_between("No Log found "@, label, "."@);
                    lemma_occurs_between("kubectl command empty response "@, label, Seq::empty());
                },
                FailureView::Invocation(text) => {
                    let reason = match invocation {
                        InvocationView::Failed(reason) => reason,
                        InvocationView::Finished { stdout, .. } => if valid_utf8(stdout) {
                            pretty_printed(decode_utf8(stdout))->Err_0
                        } else {
                            "output is not text"@
                        },
                    };
                    assert(text == failure_message(task.retrieval, reason));
                    lemma_occurs_between(Seq::empty(), label, ": "@ + reason);
                    assert(Seq::<char>::empty() + label + (": "@ + reason) =~= text);
                },
                FailureView::Resolution(_) => {},
                FailureView::Write(_) => {},
            }
        },
    }
}

} // verus!
