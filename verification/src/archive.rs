//! The order in which the archive is made and the staging tree removed.
//!
//! The archive is the only copy of what was collected once the staging
//! tree is gone. So the staging tree is removed only after the archive has
//! been finished well, and never otherwise. Every step is carried out by
//! the caller, who reports how the step went and is told the next one.

use crate::layout::StagingTree;
use crate::layout::TreeView;
use crate::layout::bundle_name;
use crate::layout::tree_of;
use crate::outcome::Level;
use crate::outcome::LogRecord;
use crate::outcome::RecordView;
use crate::outcome::note;
use crate::outcome::warning;
use crate::text::cat2;
use crate::text::cat3;
use vstd::prelude::*;
use vstd::string::StringExecFns;

verus! {

/// How far the making of the archive has come. A stage is named after the
/// step that is under way in it.
#[derive(Clone, Copy, Debug, PartialEq, Eq, Structural)]
pub enum Stage {
    /// The archive file is being created.
    Creating,
    /// The staging tree is being added to the archive.
    AddingTree,
    /// The run's own log is being added to the archive.
    AddingLog,
    /// The archive is being finished.
    Finishing,
    /// The staging tree is being removed.
    Removing,
    /// The archive is made. Nothing is left to do.
    Done,
    /// The archive could not be made. The staging tree is kept.
    Failed,
}

/// One step in the making of the archive.
#[derive(Clone, Debug, PartialEq, Eq)]
pub enum ArchiveAction {
    /// Create the archive file at `path`.
    Create { path: String },
    /// Add every file under the directory `source`, each under `name`
    /// followed by its path below `source`.
    AddTree { name: String, source: String },
    /// Add the file `source` as the entry `name` at the top of the archive.
    AddLog { name: String, source: String },
    /// Finish the archive.
    Finish,
    /// Remove the directory `path` with everything under it.
    RemoveStaging { path: String },
    /// Nothing is left to do.
    Stop,
}

/// A step as plain mathematical values.
pub enum ActionView {
    Create { path: Seq<char> },
    AddTree { name: Seq<char>, source: Seq<char> },
    AddLog { name: Seq<char>, source: Seq<char> },
    Finish,
    RemoveStaging { path: Seq<char> },
    Stop,
}

impl View for ArchiveAction {
    type V = ActionView;

    open spec fn view(&self) -> ActionView {
        match self {
            ArchiveAction::Create { path } => ActionView::Create { path: path@ },
            ArchiveAction::AddTree { name, source } => ActionView::AddTree {
                name: name@,
                source: source@,
            },
            ArchiveAction::AddLog { name, source } => ActionView::AddLog {
                name: name@,
                source: source@,
            },
            ArchiveAction::Finish => ActionView::Finish,
            ArchiveAction::RemoveStaging { path } => ActionView::RemoveStaging { path: path@ },
            ArchiveAction::Stop => ActionView::Stop,
        }
    }
}

/// The making of one archive.
pub struct Archiver {
    stage: Stage,
    name: String,
    archive_path: String,
    staging_root: String,
    run_log: String,
}

/// The making of one archive, as plain mathematical values.
pub struct ArchiverView {
    pub stage: Stage,
    pub name: Seq<char>,
    pub archive_path: Seq<char>,
    pub staging_root: Seq<char>,
    pub run_log: Seq<char>,
}

/// The stage that follows `stage` when its step went well (`ok`) or did
/// not. A log that cannot be added does not stop the archive; every other
/// step that fails does, except the very last.
pub open spec fn next_stage(stage: Stage, ok: bool) -> Stage {
    match stage {
        Stage::Creating => if ok {
            Stage::AddingTree
        } else {
            Stage::Failed
        },
        Stage::AddingTree => if ok {
            Stage::AddingLog
        } else {
            Stage::Failed
        },
        Stage::AddingLog => Stage::Finishing,
        Stage::Finishing => if ok {
            Stage::Removing
        } else {
            Stage::Failed
        },
        Stage::Removing => Stage::Done,
        Stage::Done => Stage::Done,
        Stage::Failed => Stage::Failed,
    }
}

impl ArchiverView {
    /// The step that is under way.
    pub open spec fn action(self) -> ActionView {
        match self.stage {
            Stage::Creating => ActionView::Create { path: self.archive_path },
            Stage::AddingTree => ActionView::AddTree {
                name: self.name,
                source: self.staging_root,
            },
            Stage::AddingLog => ActionView::AddLog { name: self.run_log, source: self.run_log },
            Stage::Finishing => ActionView::Finish,
            Stage::Removing => ActionView::RemoveStaging { path: self.staging_root },
            Stage::Done => ActionView::Stop,
            Stage::Failed => ActionView::Stop,
        }
    }

    /// The making of the archive once the step under way is over.
    pub open spec fn after(self, ok: bool) -> ArchiverView {
        ArchiverView { stage: next_stage(self.stage, ok), ..self }
    }

    /// What the activity log is told when the step under way went well.
    pub open spec fn success_record(self) -> Option<RecordView> {
        match self.stage {
            Stage::Creating => None,
            Stage::AddingTree => Some(
                note("tar file has been created on ... "@ + self.archive_path),
            ),
            Stage::AddingLog => Some(note(self.run_log + " has been add it to the tar file."@)),
            Stage::Finishing => Some(
                note("tar file "@ + self.archive_path + " integrity its OK"@),
            ),
            Stage::Removing => Some(note("Folder has been remove "@ + self.staging_root)),
            Stage::Done => None,
            Stage::Failed => None,
        }
    }

    /// What the activity log is told when the step under way is over.
    pub open spec fn record(self, outcome: Result<(), Seq<char>>) -> Option<RecordView> {
        match outcome {
            Ok(_) => self.success_record(),
            Err(reason) => if self.stage == Stage::Done || self.stage == Stage::Failed {
                None
            } else {
                Some(warning(reason))
            },
        }
    }
}

/// The making of the archive of `tree` before anything has been done.
pub open spec fn beginning(tree: TreeView, run_log: Seq<char>) -> ArchiverView {
    ArchiverView {
        stage: Stage::Creating,
        name: tree.name,
        archive_path: tree.archive_path(),
        staging_root: tree.staging_root,
        run_log,
    }
}

/// The stage that is reached from the start when the steps went as
/// `outcomes` says, one after the other.
pub open spec fn stage_after(outcomes: Seq<bool>) -> Stage
    decreases outcomes.len(),
{
    if outcomes.len() == 0 {
        Stage::Creating
    } else {
        next_stage(stage_after(outcomes.drop_last()), outcomes.last())
    }
}

/// Whether the removal of the staging tree is ever begun when the steps go
/// as `outcomes` says.
pub open spec fn removal_begun(outcomes: Seq<bool>) -> bool {
    exists|k: int| 0 <= k <= outcomes.len() && stage_after(#[trigger] outcomes.take(k)) == Stage::Removing
}

impl Archiver {
    /// The making of the archive as plain mathematical values.
    pub closed spec fn view(&self) -> ArchiverView {
        ArchiverView {
            stage: self.stage,
            name: self.name@,
            archive_path: self.archive_path@,
            staging_root: self.staging_root@,
            run_log: self.run_log@,
        }
    }

    /// The making of the archive of `tree`, to which the log file
    /// `run_log` is added. Its first step is under way.
    pub(crate) fn start(tree: &StagingTree, run_log: &str) -> (r: Archiver)
        ensures
            r@ == beginning(tree@, run_log@),
    {
        Archiver {
            stage: Stage::Creating,
            name: tree.name.clone(),
            archive_path: tree.archive_path(),
            staging_root: tree.staging_root.clone(),
            run_log: String::from_str(run_log),
        }
    }

    /// The stage that has been reached.
    pub fn stage(&self) -> (r: Stage)
        ensures
            r == self@.stage,
    {
        self.stage
    }

    /// The step that is under way.
    pub fn action(&self) -> (r: ArchiveAction)
        ensures
            r@ == self@.action(),
    {
        match self.stage {
            Stage::Creating => ArchiveAction::Create { path: self.archive_path.clone() },
            Stage::AddingTree => ArchiveAction::AddTree {
                name: self.name.clone(),
                source: self.staging_root.clone(),
            },
            Stage::AddingLog => ArchiveAction::AddLog {
                name: self.run_log.clone(),
                source: self.run_log.clone(),
            },
            Stage::Finishing => ArchiveAction::Finish,
            Stage::Removing => ArchiveAction::RemoveStaging { path: self.staging_root.clone() },
            Stage::Done => ArchiveAction::Stop,
            Stage::Failed => ArchiveAction::Stop,
        }
    }

    /// Reports how the step under way went. The next step is then under
    /// way; the record is for the activity log.
    pub fn step(&mut self, outcome: Result<(), String>) -> (record: Option<LogRecord>)
        ensures
            final(self)@ == old(self)@.after(outcome is Ok),
            record.deep_view() == old(self)@.record(
                match outcome {
                    Ok(_) => Ok(()),
                    Err(reason) => Err(reason@),
                },
            ),
    {
        let ok = outcome.is_ok();
        let record = match outcome {
            Err(reason) => match self.stage {
                Stage::Done => None,
                Stage::Failed => None,
                _ => Some(LogRecord { level: Level::Warn, message: reason }),
            },
            Ok(_) => match self.stage {
                Stage::Creating => None,
                Stage::AddingTree => Some(
                    LogRecord {
                        level: Level::Info,
                        message: cat2(
                            "tar file has been created on ... ",
                            self.archive_path.as_str(),
                        ),
                    },
                ),
                Stage::AddingLog => Some(
                    LogRecord {
                        level: Level::Info,
                        message: cat2(self.run_log.as_str(), " has been add it to the tar file."),
                    },
                ),
                Stage::Finishing => Some(
                    LogRecord {
                        level: Level::Info,
                        message: cat3("tar file ", self.archive_path.as_str(), " integrity its OK"),
                    },
                ),
                Stage::Removing => Some(
                    LogRecord {
                        level: Level::Info,
                        message: cat2("Folder has been remove ", self.staging_root.as_str()),
                    },
                ),
                Stage::Done => None,
                Stage::Failed => None,
            },
        };
        self.stage = match self.stage {
            Stage::Creating => if ok {
                Stage::AddingTree
            } else {
                Stage::Failed
            },
            Stage::AddingTree => if ok {
                Stage::AddingLog
            } else {
                Stage::Failed
            },
            Stage::AddingLog => Stage::Finishing,
            Stage::Finishing => if ok {
                Stage::Removing
            } else {
                Stage::Failed
            },
            Stage::Removing => Stage::Done,
            Stage::Done => Stage::Done,
            Stage::Failed => Stage::Failed,
        };
        record
    }
}

/// The first stages of the making of an archive, step by step.
proof fn lemma_first_stages(outcomes: Seq<bool>)
    ensures
        outcomes.len() == 0 ==> stage_after(outcomes) == Stage::Creating,
        outcomes.len() == 1 ==> stage_after(outcomes) == next_stage(Stage::Creating, outcomes[0]),
        outcomes.len() == 2 ==> stage_after(outcomes) == next_stage(
            next_stage(Stage::Creating, outcomes[0]),
            outcomes[1],
        ),
        outcomes.len() == 3 ==> stage_after(outcomes) == next_stage(
            next_stage(next_stage(Stage::Creating, outcomes[0]), outcomes[1]),
            outcomes[2],
        ),
        outcomes.len() == 4 ==> stage_after(outcomes) == next_stage(
            next_stage(
                next_stage(next_stage(Stage::Creating, outcomes[0]), outcomes[1]),
                outcomes[2],
            ),
            outcomes[3],
        ),
{
    reveal_with_fuel(stage_after, 5);
    if outcomes.len() >= 1 {
        let a = outcomes.drop_last();
        if a.len() >= 1 {
            let b = a.drop_last();
            assert(a.last() == outcomes[outcomes.len() - 2]);
            if b.len() >= 1 {
                let c = b.drop_last();
                assert(b.last() == outcomes[outcomes.len() - 3]);
                if c.len() >= 1 {
                    assert(c.last() == outcomes[outcomes.len() - 4]);
                }
            }
        }
    }
}

/// Once five steps are over nothing is under way any more.
proof fn lemma_later_stages(outcomes: Seq<bool>)
    requires
        outcomes.len() >= 5,
    ensures
        stage_after(outcomes) == Stage::Done || stage_after(outcomes) == Stage::Failed,
    decreases outcomes.len(),
{
    if outcomes.len() == 5 {
        lemma_first_stages(outcomes.drop_last());
    } else {
        lemma_later_stages(outcomes.drop_last());
    }
}

/// The staging tree outlives an archive that could not be made: its removal
/// is begun exactly when the archive file was created, the tree was added
/// and the archive was finished, each of them well. In particular it is
/// never begun when finishing the archive fails, and always when finishing
/// it succeeds.
pub proof fn lemma_removal_follows_finished_archive(outcomes: Seq<bool>)
    ensures
        removal_begun(outcomes) <==> outcomes.len() >= 4 && outcomes[0] && outcomes[1]
            && outcomes[3],
{
    if outcomes.len() >= 4 && outcomes[0] && outcomes[1] && outcomes[3] {
        let four = outcomes.take(4);
        lemma_first_stages(four);
        assert(stage_after(four) == Stage::Removing);
    }
    if removal_begun(outcomes) {
        let k = choose|k: int|
            0 <= k <= outcomes.len() && stage_after(#[trigger] outcomes.take(k)) == Stage::Removing;
        let prefix = outcomes.take(k);
        if k >= 5 {
            lemma_later_stages(prefix);
        } else {
            lemma_first_stages(prefix);
        }
    }
}

/// The archive unpacks to `info_<context>_<date>`, whatever the context and
/// the date: that is the name under which the staging tree is added,
/// wherever the tree stands. It is also the name of the archive without its
/// ending, and that of the staging directory below the output directory.
pub proof fn lemma_tree_is_added_under_bundle_name(
    context: Seq<char>,
    configured: Seq<char>,
    date: Seq<char>,
    current_dir: Seq<char>,
    run_log: Seq<char>,
)
    ensures
        ({
            let tree = tree_of(context, configured, date, current_dir);
            let adding = beginning(tree, run_log).after(true);
            &&& adding.action() == ActionView::AddTree {
                name: bundle_name(context, date),
                source: tree.staging_root,
            }
            &&& tree.archive_name == bundle_name(context, date) + ".tar.gz"@
            &&& tree.staging_root == tree.output_root + "/"@ + bundle_name(context, date)
        }),
{
}

} // verus!
