//! The batch of the package-release phase.
//!
//! The releases of a namespace are only known once the package manager has
//! been asked. So the caller first runs the discovery command of each
//! namespace and reads its answer, and the batch is planned from what was
//! found.

use crate::config::ConfigFile;
use crate::layout::Category;
use crate::task::CollectionTask;
use crate::task::Retrieval;
use crate::task::RetrievalView;
use crate::task::TaskView;
use crate::task::command_task;
use crate::task::extend_tasks;
use crate::task::new_command_task;
use crate::task::push_task;
use crate::text::cat2;
use crate::text::cat3;
use crate::text::cat5;
use crate::text::lemma_take_step;
use crate::text::texts;
use vstd::prelude::*;
use vstd::string::StringExecFns;

verus! {

/// One release as the package manager lists it.
#[derive(Clone, Debug, PartialEq, Eq)]
pub struct Helm {
    pub name: String,
    pub namespace: String,
    pub revision: String,
    pub updated: String,
    pub status: String,
    pub chart: String,
    pub app_version: String,
}

/// What the discovery of one namespace found.
#[derive(Clone, Debug, PartialEq, Eq)]
pub struct NamespaceReleases {
    pub namespace: String,
    pub releases: Vec<Helm>,
}

/// A release as plain mathematical values.
pub struct HelmView {
    pub name: Seq<char>,
    pub namespace: Seq<char>,
    pub revision: Seq<char>,
    pub updated: Seq<char>,
    pub status: Seq<char>,
    pub chart: Seq<char>,
    pub app_version: Seq<char>,
}

/// The releases of a namespace as plain mathematical values.
pub struct NamespaceReleasesView {
    pub namespace: Seq<char>,
    pub releases: Seq<HelmView>,
}

impl DeepView for Helm {
    type V = HelmView;

    open spec fn deep_view(&self) -> HelmView {
        HelmView {
            name: self.name@,
            namespace: self.namespace@,
            revision: self.revision@,
            updated: self.updated@,
            status: self.status@,
            chart: self.chart@,
            app_version: self.app_version@,
        }
    }
}

impl View for Helm {
    type V = HelmView;

    open spec fn view(&self) -> HelmView {
        self.deep_view()
    }
}

impl DeepView for NamespaceReleases {
    type V = NamespaceReleasesView;

    open spec fn deep_view(&self) -> NamespaceReleasesView {
        NamespaceReleasesView {
            namespace: self.namespace@,
            releases: self.releases.deep_view(),
        }
    }
}

impl Default for Helm {
    fn default() -> (r: Helm)
        ensures
            r@.name.len() == 0,
            r@.namespace.len() == 0,
            r@.revision.len() == 0,
            r@.updated.len() == 0,
            r@.status.len() == 0,
            r@.chart.len() == 0,
            r@.app_version.len() == 0,
    {
        Helm {
            name: String::new(),
            namespace: String::new(),
            revision: String::new(),
            updated: String::new(),
            status: String::new(),
            chart: String::new(),
            app_version: String::new(),
        }
    }
}

/// The two flags that address every call of the package manager.
pub open spec fn helm_flags(kube_config_path: Seq<char>, context: Seq<char>) -> Seq<Seq<char>> {
    seq!["--kubeconfig="@ + kube_config_path, "--kube-context="@ + context]
}

/// The command that asks the package manager for the releases of
/// `namespace`, as JSON.
pub open spec fn helm_discovery(
    kube_config_path: Seq<char>,
    context: Seq<char>,
    namespace: Seq<char>,
) -> RetrievalView {
    RetrievalView::Command {
        program: "helm"@,
        args: helm_flags(kube_config_path, context) + seq![
            "ls"@,
            "-n"@,
            namespace,
            "-o"@,
            "json"@,
        ],
    }
}

/// The task that keeps the version of the package manager.
pub open spec fn helm_version(kube_config_path: Seq<char>, context: Seq<char>) -> TaskView {
    command_task(
        "helm"@,
        helm_flags(kube_config_path, context) + seq!["version"@],
        Category::Helm,
        "helm_version.log"@,
    )
}

/// The task that keeps the list of the releases of `namespace`.
pub open spec fn helm_listing(
    kube_config_path: Seq<char>,
    context: Seq<char>,
    namespace: Seq<char>,
) -> TaskView {
    command_task(
        "helm"@,
        helm_flags(kube_config_path, context) + seq!["ls"@, "-n"@, namespace],
        Category::Helm,
        "helm_list_"@ + namespace + ".log"@,
    )
}

/// The task that keeps the values of one release of `namespace`.
pub open spec fn helm_values(
    kube_config_path: Seq<char>,
    context: Seq<char>,
    namespace: Seq<char>,
    release: Seq<char>,
) -> TaskView {
    command_task(
        "helm"@,
        helm_flags(kube_config_path, context) + seq![
            "get"@,
            "values"@,
            "--all"@,
            release,
            "-n"@,
            namespace,
            "-o"@,
            "yaml"@,
        ],
        Category::Helm,
        "helm_values_"@ + release + "_"@ + namespace + ".yaml"@,
    )
}

/// The tasks of one namespace: its listing, then the values of each
/// release found in it, in the order they were found.
pub open spec fn namespace_tasks(
    kube_config_path: Seq<char>,
    context: Seq<char>,
    found: NamespaceReleasesView,
) -> Seq<TaskView> {
    seq![helm_listing(kube_config_path, context, found.namespace)] + Seq::new(
        found.releases.len(),
        |k: int| helm_values(kube_config_path, context, found.namespace, found.releases[k].name),
    )
}

/// The tasks of all namespaces, namespace by namespace.
pub open spec fn all_namespace_tasks(
    kube_config_path: Seq<char>,
    context: Seq<char>,
    found: Seq<NamespaceReleasesView>,
) -> Seq<TaskView>
    decreases found.len(),
{
    if found.len() == 0 {
        Seq::empty()
    } else {
        all_namespace_tasks(kube_config_path, context, found.drop_last()) + namespace_tasks(
            kube_config_path,
            context,
            found.last(),
        )
    }
}

/// The package-release batch: the version, then the tasks of each
/// namespace.
pub open spec fn helm_batch(
    kube_config_path: Seq<char>,
    context: Seq<char>,
    found: Seq<NamespaceReleasesView>,
) -> Seq<TaskView> {
    seq![helm_version(kube_config_path, context)] + all_namespace_tasks(
        kube_config_path,
        context,
        found,
    )
}

/// The discovery command of one namespace.
pub fn helm_discovery_command(config: &ConfigFile, kube_config_path: &str, namespace: &str) -> (r:
    Retrieval)
    ensures
        r.deep_view() == helm_discovery(kube_config_path@, config@.context_name, namespace@),
{
    let config_flag = cat2("--kubeconfig=", kube_config_path);
    let context_flag = cat2("--kube-context=", config.context_name.as_str());
    let args = texts(
        &[config_flag.as_str(), context_flag.as_str(), "ls", "-n", namespace, "-o", "json"],
    );
    proof {
        assert(args.deep_view() =~= helm_discovery(
            kube_config_path@,
            config@.context_name,
            namespace@,
        )->Command_args);
    }
    Retrieval::Command { program: String::from_str("helm"), args }
}

fn tasks_of_namespace(kube_config_path: &str, context: &str, found: &NamespaceReleases) -> (r:
    Vec<CollectionTask>)
    ensures
        r.deep_view() == namespace_tasks(kube_config_path@, context@, found.deep_view()),
{
    let config_flag = cat2("--kubeconfig=", kube_config_path);
    let context_flag = cat2("--kube-context=", context);
    let namespace = found.namespace.as_str();
    let ghost flags = helm_flags(kube_config_path@, context@);
    let ghost goal = namespace_tasks(kube_config_path@, context@, found.deep_view());
    let mut out: Vec<CollectionTask> = Vec::new();
    let listing = new_command_task(
        "helm",
        texts(&[config_flag.as_str(), context_flag.as_str(), "ls", "-n", namespace]),
        Category::Helm,
        cat3("helm_list_", namespace, ".log"),
    );
    proof {
        assert(listing@.retrieval->Command_args =~= flags + seq!["ls"@, "-n"@, namespace@]);
        assert(listing@ == goal[0]);
    }
    push_task(&mut out, listing);
    let mut k: usize = 0;
    assert(out.deep_view() =~= goal.take(1));
    while k < found.releases.len()
        invariant
            k <= found.releases.len(),
            namespace@ == found.namespace@,
            config_flag@ == "--kubeconfig="@ + kube_config_path@,
            context_flag@ == "--kube-context="@ + context@,
            flags == helm_flags(kube_config_path@, context@),
            goal == namespace_tasks(kube_config_path@, context@, found.deep_view()),
            out.deep_view() == goal.take(k + 1),
        decreases found.releases.len() - k,
    {
        let release = found.releases[k].name.as_str();
        let task = new_command_task(
            "helm",
            texts(
                &[
                    config_flag.as_str(),
                    context_flag.as_str(),
                    "get",
                    "values",
                    "--all",
                    release,
                    "-n",
                    namespace,
                    "-o",
                    "yaml",
                ],
            ),
            Category::Helm,
            cat5("helm_values_", release, "_", namespace, ".yaml"),
        );
        proof {
            assert(found.deep_view().releases[k as int].name == release@);
            assert(task@.retrieval->Command_args =~= flags + seq![
                "get"@,
                "values"@,
                "--all"@,
                release@,
                "-n"@,
                namespace@,
                "-o"@,
                "yaml"@,
            ]);
            assert(task@ == goal[k + 1]);
            lemma_take_step(goal, k + 1);
        }
        push_task(&mut out, task);
        k += 1;
    }
    proof {
        assert(goal.take(found.releases.len() + 1) =~= goal);
    }
    out
}

/// The package-release batch, from what the discovery of each namespace
/// found.
pub fn helm_tasks(config: &ConfigFile, kube_config_path: &str, found: &Vec<NamespaceReleases>) -> (r:
    Vec<CollectionTask>)
    ensures
        r.deep_view() == helm_batch(kube_config_path@, config@.context_name, found.deep_view()),
{
    let context = config.context_name.as_str();
    let config_flag = cat2("--kubeconfig=", kube_config_path);
    let context_flag = cat2("--kube-context=", context);
    let ghost first = helm_version(kube_config_path@, context@);
    let mut out: Vec<CollectionTask> = Vec::new();
    let version = new_command_task(
        "helm",
        texts(&[config_flag.as_str(), context_flag.as_str(), "version"]),
        Category::Helm,
        String::from_str("helm_version.log"),
    );
    proof {
        assert(version@.retrieval->Command_args =~= first.retrieval->Command_args);
    }
    push_task(&mut out, version);
    let mut i: usize = 0;
    assert(out.deep_view() =~= seq![first] + all_namespace_tasks(
        kube_config_path@,
        context@,
        found.deep_view().take(0),
    ));
    while i < found.len()
        invariant
            i <= found.len(),
            context@ == config@.context_name,
            first == helm_version(kube_config_path@, context@),
            out.deep_view() == seq![first] + all_namespace_tasks(
                kube_config_path@,
                context@,
                found.deep_view().take(i as int),
            ),
        decreases found.len() - i,
    {
        let more = tasks_of_namespace(kube_config_path, context, &found[i]);
        proof {
            lemma_take_step(found.deep_view(), i as int);
            assert(found.deep_view()[i as int] == found[i as int].deep_view());
        }
        extend_tasks(&mut out, more);
        proof {
            assert(out.deep_view() =~= seq![first] + all_namespace_tasks(
                kube_config_path@,
                context@,
                found.deep_view().take(i + 1),
            ));
        }
        i += 1;
    }
    proof {
        assert(found.deep_view().take(found.len() as int) =~= found.deep_view());
    }
    out
}

} // verus!
