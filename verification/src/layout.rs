//! Where a run keeps what it collects: the staging tree, its four category
//! folders, the archive that is made of them, and the run's own log file.

use crate::config::ConfigFile;
use crate::releases::Helm;
use crate::text::strip_trailing_separator;
use crate::text::trimmed;
use vstd::prelude::*;
use vstd::string::StringExecFns;

verus! {

/// The four destinations a task's output can have.
#[derive(Clone, Copy, Debug, PartialEq, Eq, Structural)]
pub enum Category {
    /// Diagnostics of workload instances.
    Pods,
    /// Diagnostics of nodes and of the cluster.
    Infra,
    /// Diagnostics of package releases.
    Helm,
    /// Diagnostics of the applications that run as services.
    Apps,
}

/// The folder name of a category inside the staging tree.
pub open spec fn category_name(category: Category) -> Seq<char> {
    match category {
        Category::Pods => "pods"@,
        Category::Infra => "infra"@,
        Category::Helm => "helm"@,
        Category::Apps => "apps"@,
    }
}

impl Category {
    /// The folder name of this category inside the staging tree.
    pub fn folder_name(self) -> (r: &'static str)
        ensures
            r@ == category_name(self),
    {
        match self {
            Category::Pods => "pods",
            Category::Infra => "infra",
            Category::Helm => "helm",
            Category::Apps => "apps",
        }
    }
}

/// The paths of one run.
#[derive(Clone, Debug, PartialEq, Eq)]
pub struct StagingTree {
    /// The name of the run: that of its staging directory below the
    /// directory under which everything is written, and of its archive
    /// without the ending.
    pub name: String,
    /// The directory under which everything is written.
    pub output_root: String,
    /// The directory that holds the four category folders.
    pub staging_root: String,
    /// The folder for diagnostics of workload instances.
    pub pods: String,
    /// The folder for diagnostics of nodes and of the cluster.
    pub infra: String,
    /// The folder for diagnostics of package releases.
    pub helm: String,
    /// The folder for diagnostics of applications.
    pub apps: String,
    /// The file name of the archive, without a directory.
    pub archive_name: String,
}

/// The paths of one run as plain mathematical values.
pub struct TreeView {
    pub name: Seq<char>,
    pub output_root: Seq<char>,
    pub staging_root: Seq<char>,
    pub pods: Seq<char>,
    pub infra: Seq<char>,
    pub helm: Seq<char>,
    pub apps: Seq<char>,
    pub archive_name: Seq<char>,
}

impl View for StagingTree {
    type V = TreeView;

    open spec fn view(&self) -> TreeView {
        TreeView {
            name: self.name@,
            output_root: self.output_root@,
            staging_root: self.staging_root@,
            pods: self.pods@,
            infra: self.infra@,
            helm: self.helm@,
            apps: self.apps@,
            archive_name: self.archive_name@,
        }
    }
}

impl TreeView {
    /// The folder of a category.
    pub open spec fn folder(self, category: Category) -> Seq<char> {
        match category {
            Category::Pods => self.pods,
            Category::Infra => self.infra,
            Category::Helm => self.helm,
            Category::Apps => self.apps,
        }
    }

    /// The full path of the archive.
    pub open spec fn archive_path(self) -> Seq<char> {
        self.output_root + "/"@ + self.archive_name
    }
}

/// The name of a run: `info_<context>_<date>`.
pub open spec fn bundle_name(context: Seq<char>, date: Seq<char>) -> Seq<char> {
    "info_"@ + context + "_"@ + date
}

/// The directory under which a run writes: the configured one without a
/// trailing separator, or the current directory where none is configured.
pub open spec fn output_root(configured: Seq<char>, current_dir: Seq<char>) -> Seq<char> {
    if configured.len() > 0 {
        trimmed(configured)
    } else {
        current_dir
    }
}

/// The paths of the run that is started at `date` for `context`.
pub open spec fn tree_of(
    context: Seq<char>,
    configured: Seq<char>,
    date: Seq<char>,
    current_dir: Seq<char>,
) -> TreeView {
    let root = output_root(configured, current_dir);
    let staging = root + "/"@ + bundle_name(context, date);
    TreeView {
        name: bundle_name(context, date),
        output_root: root,
        staging_root: staging,
        pods: staging + "/"@ + category_name(Category::Pods),
        infra: staging + "/"@ + category_name(Category::Infra),
        helm: staging + "/"@ + category_name(Category::Helm),
        apps: staging + "/"@ + category_name(Category::Apps),
        archive_name: bundle_name(context, date) + ".tar.gz"@,
    }
}

/// The name of the file that a run started at `date` logs its own activity to.
pub open spec fn run_log_name_of(date: Seq<char>) -> Seq<char> {
    "output_antlog_gather_tool_"@ + date + ".log"@
}

/// The form in which a run writes the moment of its start into the names
/// of its files: year, month, day, hour, minute and second, without
/// separators.
pub open spec fn stamp_format() -> Seq<char> {
    "%Y%m%d%H%M%S"@
}

/// The text that `chrono` writes for the moment `secs` seconds after the
/// Unix epoch, in UTC, in the form `format`; `None` for a moment outside the
/// range of its calendar, and for a form that it cannot write.
pub uninterp spec fn utc_stamp(secs: int, format: Seq<char>) -> Option<Seq<char>>;

/// Has `chrono::DateTime::from_timestamp` make the moment and
/// `chrono::DateTime::format` write it in the form `format`. Nothing is
/// proved of the text: the contract only gives it the name `utc_stamp`, as
/// a function of the moment and the form alone.
#[verifier::external_body]
fn stamp(secs: i64, format: &str) -> (r: Option<String>)
    ensures
        r.deep_view() == utc_stamp(secs as int, format@),
{
    let mut text = String::new();
    match chrono::DateTime::from_timestamp(secs, 0) {
        Some(moment) => match moment.format(format).write_to(&mut text) {
            Ok(_) => Some(text),
            Err(_) => None,
        },
        None => None,
    }
}

fn category_folder(staging: &String, category: Category) -> (r: String)
    ensures
        r@ == staging@ + "/"@ + category_name(category),
{
    let mut folder = staging.clone();
    folder.append("/");
    folder.append(category.folder_name());
    folder
}

/// The paths of the run that is started at `date`.
pub fn staging_tree(config: &ConfigFile, date: &str, current_dir: &str) -> (tree: StagingTree)
    ensures
        tree@ == tree_of(
            config@.context_name,
            config@.output_directory_path,
            date@,
            current_dir@,
        ),
{
    let root = if !config.output_directory_path.as_str().is_empty() {
        strip_trailing_separator(config.output_directory_path.as_str())
    } else {
        String::from_str(current_dir)
    };
    let mut bundle = String::from_str("info_");
    bundle.append(config.context_name.as_str());
    bundle.append("_");
    bundle.append(date);
    let mut staging = root.clone();
    staging.append("/");
    staging.append(bundle.as_str());
    let mut archive_name = bundle.clone();
    archive_name.append(".tar.gz");
    let tree = StagingTree {
        pods: category_folder(&staging, Category::Pods),
        infra: category_folder(&staging, Category::Infra),
        helm: category_folder(&staging, Category::Helm),
        apps: category_folder(&staging, Category::Apps),
        name: bundle,
        output_root: root,
        staging_root: staging,
        archive_name,
    };
    assert(tree@ =~= tree_of(
        config@.context_name,
        config@.output_directory_path,
        date@,
        current_dir@,
    ));
    tree
}

/// The paths of the run that is started `now` seconds after the Unix epoch;
/// `None` where that moment is outside the calendar's range.
pub fn folder_creation(config: &ConfigFile, now: i64, current_dir: &str) -> (r: Option<
    StagingTree,
>)
    ensures
        match utc_stamp(now as int, stamp_format()) {
            Some(date) => r matches Some(tree) && tree@ == tree_of(
                config@.context_name,
                config@.output_directory_path,
                date,
                current_dir@,
            ),
            None => r is None,
        },
{
    match stamp(now, "%Y%m%d%H%M%S") {
        Some(date) => Some(staging_tree(config, date.as_str(), current_dir)),
        None => None,
    }
}

/// The name of the log file of the run that is started at `date`.
pub fn run_log_name_at(date: &str) -> (name: String)
    ensures
        name@ == run_log_name_of(date@),
{
    let mut name = String::from_str("output_antlog_gather_tool_");
    name.append(date);
    name.append(".log");
    name
}

/// The name of the log file of the run that is started `now` seconds after
/// the Unix epoch; `None` where that moment is outside the calendar's range.
pub fn run_log_name(now: i64) -> (r: Option<String>)
    ensures
        match utc_stamp(now as int, stamp_format()) {
            Some(date) => r matches Some(name) && name@ == run_log_name_of(date),
            None => r is None,
        },
{
    match stamp(now, "%Y%m%d%H%M%S") {
        Some(date) => Some(run_log_name_at(date.as_str())),
        None => None,
    }
}

impl StagingTree {
    /// The folder of a category.
    pub fn folder(&self, category: Category) -> (r: &String)
        ensures
            r@ == self@.folder(category),
    {
        match category {
            Category::Pods => &self.pods,
            Category::Infra => &self.infra,
            Category::Helm => &self.helm,
            Category::Apps => &self.apps,
        }
    }

    /// The full path of the archive.
    pub fn archive_path(&self) -> (r: String)
        ensures
            r@ == self@.archive_path(),
    {
        let mut path = self.output_root.clone();
        path.append("/");
        path.append(self.archive_name.as_str());
        path
    }

    /// The folders that have to exist before the first task runs, in the
    /// order in which they are made.
    pub fn folders(&self) -> (r: Vec<String>)
        ensures
            r.deep_view() == seq![self@.pods, self@.infra, self@.helm, self@.apps],
    {
        let mut all: Vec<String> = Vec::new();
        all.push(self.pods.clone());
        all.push(self.infra.clone());
        all.push(self.helm.clone());
        all.push(self.apps.clone());
        assert(all.deep_view() =~= seq![self@.pods, self@.infra, self@.helm, self@.apps]);
        all
    }
}

} // verus!
