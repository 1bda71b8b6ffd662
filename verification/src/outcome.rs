//! What becomes of a task: its result, and what the activity log is told.

use crate::output::Invocation;
use vstd::prelude::*;

verus! {

/// Why a task has no output to show.
#[derive(Clone, Debug, PartialEq, Eq)]
pub enum Failure {
    /// The retrieval ran and produced nothing. The text names the task.
    EmptyOutput(String),
    /// The retrieval itself failed, or its output could not be processed.
    Invocation(String),
    /// The instance or the container the task is aimed at does not exist.
    Resolution(String),
    /// The output could not be written to its file.
    Write(String),
}

/// The outcome of one task.
#[derive(Clone, Debug, PartialEq, Eq)]
pub enum CollectionResult {
    /// The bytes that were kept. There is at least one.
    Success(Vec<u8>),
    Failed(Failure),
}

/// How much weight a record of the activity log has.
#[derive(Clone, Copy, Debug, PartialEq, Eq, Structural)]
pub enum Level {
    Info,
    Warn,
}

/// One record for the activity log.
#[derive(Clone, Debug, PartialEq, Eq)]
pub struct LogRecord {
    pub level: Level,
    pub message: String,
}

/// A failure as plain mathematical values.
pub enum FailureView {
    EmptyOutput(Seq<char>),
    Invocation(Seq<char>),
    Resolution(Seq<char>),
    Write(Seq<char>),
}

/// An outcome as plain mathematical values.
pub enum ResultView {
    Success(Seq<u8>),
    Failed(FailureView),
}

/// A record as plain mathematical values.
pub struct RecordView {
    pub level: Level,
    pub message: Seq<char>,
}

impl DeepView for Failure {
    type V = FailureView;

    open spec fn deep_view(&self) -> FailureView {
        match self {
            Failure::EmptyOutput(text) => FailureView::EmptyOutput(text@),
            Failure::Invocation(text) => FailureView::Invocation(text@),
            Failure::Resolution(text) => FailureView::Resolution(text@),
            Failure::Write(text) => FailureView::Write(text@),
        }
    }
}

impl View for Failure {
    type V = FailureView;

    open spec fn view(&self) -> FailureView {
        self.deep_view()
    }
}

impl DeepView for CollectionResult {
    type V = ResultView;

    open spec fn deep_view(&self) -> ResultView {
        match self {
            CollectionResult::Success(bytes) => ResultView::Success(bytes@),
            CollectionResult::Failed(failure) => ResultView::Failed(failure@),
        }
    }
}

impl View for CollectionResult {
    type V = ResultView;

    open spec fn view(&self) -> ResultView {
        self.deep_view()
    }
}

impl DeepView for LogRecord {
    type V = RecordView;

    open spec fn deep_view(&self) -> RecordView {
        RecordView { level: self.level, message: self.message@ }
    }
}

impl View for LogRecord {
    type V = RecordView;

    open spec fn view(&self) -> RecordView {
        self.deep_view()
    }
}

impl FailureView {
    /// The text of the failure.
    pub open spec fn message(self) -> Seq<char> {
        match self {
            FailureView::EmptyOutput(text) => text,
            FailureView::Invocation(text) => text,
            FailureView::Resolution(text) => text,
            FailureView::Write(text) => text,
        }
    }
}

impl ResultView {
    /// A success holds at least one byte.
    pub open spec fn well_formed(self) -> bool {
        self matches ResultView::Success(bytes) ==> bytes.len() > 0
    }
}

impl Failure {
    /// The text of the failure.
    pub fn message(&self) -> (r: &String)
        ensures
            r@ == self@.message(),
    {
        match self {
            Failure::EmptyOutput(text) => text,
            Failure::Invocation(text) => text,
            Failure::Resolution(text) => text,
            Failure::Write(text) => text,
        }
    }

    /// The record that reports the failure: a warning with its text.
    pub fn record(&self) -> (r: LogRecord)
        ensures
            r@ == warning(self@.message()),
    {
        LogRecord { level: Level::Warn, message: self.message().clone() }
    }
}

/// The warning with the text `message`.
pub open spec fn warning(message: Seq<char>) -> RecordView {
    RecordView { level: Level::Warn, message }
}

/// The note with the text `message`.
pub open spec fn note(message: Seq<char>) -> RecordView {
    RecordView { level: Level::Info, message }
}

} // verus!
