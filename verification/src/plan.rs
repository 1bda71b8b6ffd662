//! The batches of the phases that run processes outside the cluster and
//! fetch logs: workload instances, infrastructure, package releases.

use crate::config::ConfigFile;
use crate::config::ConfigView;
use crate::layout::Category;
use crate::resolve::HandleView;
use crate::resolve::WorkloadInstanceHandle;
use crate::task::CollectionTask;
use crate::task::TaskView;
use crate::task::command_task;
use crate::task::extend_tasks;
use crate::task::logs_task;
use crate::task::new_command_task;
use crate::task::new_logs_task;
use crate::task::push_task;
use crate::text::cat2;
use crate::text::cat4;
use crate::text::lemma_take_step;
use crate::text::texts;
use vstd::prelude::*;
use vstd::string::StringExecFns;

verus! {

/// The command that lists the instances of `namespace` in the layout
/// `format`.
pub open spec fn pod_listing_args(
    context: Seq<char>,
    namespace: Seq<char>,
    format: Seq<char>,
) -> Seq<Seq<char>> {
    seq!["get"@, "pod"@, "-n"@, namespace, "--context"@, context, "-o"@, format]
}

/// The two listings of one namespace: a table and JSON.
pub open spec fn pod_listings(context: Seq<char>, namespace: Seq<char>) -> Seq<TaskView> {
    seq![
        command_task(
            "kubectl"@,
            pod_listing_args(context, namespace, "wide"@),
            Category::Pods,
            "kubernetes_pods_"@ + namespace + ".list"@,
        ),
        command_task(
            "kubectl"@,
            pod_listing_args(context, namespace, "json"@),
            Category::Pods,
            "kubernetes_pods_"@ + namespace + ".json"@,
        ),
    ]
}

/// The listings of all namespaces, namespace by namespace.
pub open spec fn all_pod_listings(context: Seq<char>, namespaces: Seq<Seq<char>>) -> Seq<
    TaskView,
>
    decreases namespaces.len(),
{
    if namespaces.len() == 0 {
        Seq::empty()
    } else {
        all_pod_listings(context, namespaces.drop_last()) + pod_listings(
            context,
            namespaces.last(),
        )
    }
}

/// The listings of all namespaces of a run.
pub fn pod_listing_tasks(config: &ConfigFile) -> (r: Vec<CollectionTask>)
    ensures
        r.deep_view() == all_pod_listings(config@.context_name, config@.context_namespace),
{
    let context = config.context_name.as_str();
    let namespaces = &config.context_namespace;
    let mut out: Vec<CollectionTask> = Vec::new();
    let mut i: usize = 0;
    assert(out.deep_view() =~= all_pod_listings(context@, namespaces.deep_view().take(0)));
    while i < namespaces.len()
        invariant
            i <= namespaces.len(),
            context@ == config@.context_name,
            namespaces == &config.context_namespace,
            out.deep_view() == all_pod_listings(context@, namespaces.deep_view().take(i as int)),
        decreases namespaces.len() - i,
    {
        let namespace = namespaces[i].as_str();
        let ghost before = out.deep_view();
        let mut table_name = String::from_str("kubernetes_pods_");
        table_name.append(namespace);
        table_name.append(".list");
        let table = new_command_task(
            "kubectl",
            texts(&["get", "pod", "-n", namespace, "--context", context, "-o", "wide"]),
            Category::Pods,
            table_name,
        );
        let mut json_name = String::from_str("kubernetes_pods_");
        json_name.append(namespace);
        json_name.append(".json");
        let json = new_command_task(
            "kubectl",
            texts(&["get", "pod", "-n", namespace, "--context", context, "-o", "json"]),
            Category::Pods,
            json_name,
        );
        push_task(&mut out, table);
        push_task(&mut out, json);
        proof {
            let all = namespaces.deep_view();
            assert(all.take(i + 1).drop_last() =~= all.take(i as int));
            assert(all.take(i + 1).last() == namespace@);
            assert(table@.retrieval->Command_args =~= pod_listing_args(
                context@,
                namespace@,
                "wide"@,
            ));
            assert(json@.retrieval->Command_args =~= pod_listing_args(
                context@,
                namespace@,
                "json"@,
            ));
            assert(out.deep_view() =~= before + pod_listings(context@, namespace@));
        }
        i += 1;
    }
    proof {
        assert(namespaces.deep_view().take(namespaces.len() as int) =~= namespaces.deep_view());
    }
    out
}

/// The task that describes one instance.
pub open spec fn pod_description(context: Seq<char>, pod: HandleView) -> TaskView {
    command_task(
        "kubectl"@,
        seq!["describe"@, "pod"@, pod.name, "-n"@, pod.namespace, "--context"@, context],
        Category::Pods,
        pod.namespace + "_"@ + pod.name + ".description"@,
    )
}

/// The descriptions of all instances, in their order.
pub open spec fn pod_descriptions(context: Seq<char>, pods: Seq<HandleView>) -> Seq<TaskView> {
    Seq::new(pods.len(), |k: int| pod_description(context, pods[k]))
}

/// The first batch of a run: the listings of all namespaces, then the
/// descriptions of all instances.
pub open spec fn pod_batch(config: ConfigView, pods: Seq<HandleView>) -> Seq<TaskView> {
    all_pod_listings(config.context_name, config.context_namespace) + pod_descriptions(
        config.context_name,
        pods,
    )
}

/// The descriptions of all instances.
pub fn pod_description_tasks(config: &ConfigFile, pods: &Vec<WorkloadInstanceHandle>) -> (r: Vec<
    CollectionTask,
>)
    ensures
        r.deep_view() == pod_descriptions(config@.context_name, pods.deep_view()),
{
    let context = config.context_name.as_str();
    let ghost goal = pod_descriptions(context@, pods.deep_view());
    let mut out: Vec<CollectionTask> = Vec::new();
    let mut i: usize = 0;
    assert(out.deep_view() =~= goal.take(0));
    while i < pods.len()
        invariant
            i <= pods.len(),
            context@ == config@.context_name,
            goal == pod_descriptions(context@, pods.deep_view()),
            out.deep_view() == goal.take(i as int),
        decreases pods.len() - i,
    {
        let pod = &pods[i];
        let task = new_command_task(
            "kubectl",
            texts(
                &[
                    "describe",
                    "pod",
                    pod.name.as_str(),
                    "-n",
                    pod.namespace.as_str(),
                    "--context",
                    context,
                ],
            ),
            Category::Pods,
            cat4(pod.namespace.as_str(), "_", pod.name.as_str(), ".description"),
        );
        proof {
            assert(pods.deep_view()[i as int] == pod.deep_view());
            assert(task@.retrieval->Command_args =~= pod_description(
                context@,
                pod@,
            ).retrieval->Command_args);
            assert(task@.filename =~= pod_description(context@, pod@).filename);
            lemma_take_step(goal, i as int);
        }
        push_task(&mut out, task);
        i += 1;
    }
    proof {
        assert(goal.take(pods.len() as int) =~= goal);
    }
    out
}

/// The first batch of a run.
pub fn pod_tasks(config: &ConfigFile, pods: &Vec<WorkloadInstanceHandle>) -> (r: Vec<
    CollectionTask,
>)
    ensures
        r.deep_view() == pod_batch(config@, pods.deep_view()),
{
    let mut out = pod_listing_tasks(config);
    extend_tasks(&mut out, pod_description_tasks(config, pods));
    out
}

/// The name of the file that keeps the log of one container.
pub open spec fn log_file_name(previous: bool, pod: HandleView, container: Seq<char>) -> Seq<
    char,
> {
    (if previous {
        "logs_previous_"@
    } else {
        "logs_current_"@
    }) + pod.namespace + "_"@ + pod.name + "_"@ + container + ".log"@
}

/// The log tasks of one instance: one for each container it declares.
pub open spec fn pod_logs(pod: HandleView, previous: bool) -> Seq<TaskView> {
    Seq::new(
        pod.containers.len(),
        |k: int|
            logs_task(
                pod,
                pod.containers[k],
                previous,
                log_file_name(previous, pod, pod.containers[k]),
            ),
    )
}

/// The log tasks of all instances, instance by instance.
pub open spec fn all_logs(pods: Seq<HandleView>, previous: bool) -> Seq<TaskView>
    decreases pods.len(),
{
    if pods.len() == 0 {
        Seq::empty()
    } else {
        all_logs(pods.drop_last(), previous) + pod_logs(pods.last(), previous)
    }
}

/// The log batch of a run: empty where the configuration does not ask for
/// these logs.
pub open spec fn log_batch(config: ConfigView, pods: Seq<HandleView>, previous: bool) -> Seq<
    TaskView,
> {
    if (previous && config.previous_logs) || (!previous && config.current_logs) {
        all_logs(pods, previous)
    } else {
        Seq::empty()
    }
}

fn logs_of_pod(pod: &WorkloadInstanceHandle, previous: bool) -> (r: Vec<CollectionTask>)
    ensures
        r.deep_view() == pod_logs(pod@, previous),
{
    let ghost goal = pod_logs(pod@, previous);
    let mut out: Vec<CollectionTask> = Vec::new();
    let mut k: usize = 0;
    assert(out.deep_view() =~= goal.take(0));
    while k < pod.containers.len()
        invariant
            k <= pod.containers.len(),
            goal == pod_logs(pod@, previous),
            out.deep_view() == goal.take(k as int),
        decreases pod.containers.len() - k,
    {
        let container = pod.containers[k].as_str();
        let mut name = String::from_str(
            if previous {
                "logs_previous_"
            } else {
                "logs_current_"
            },
        );
        name.append(pod.namespace.as_str());
        name.append("_");
        name.append(pod.name.as_str());
        name.append("_");
        name.append(container);
        name.append(".log");
        let task = new_logs_task(pod, container, previous, name);
        proof {
            assert(pod.containers.deep_view()[k as int] == container@);
            lemma_take_step(goal, k as int);
        }
        push_task(&mut out, task);
        k += 1;
    }
    proof {
        assert(goal.take(pod.containers.len() as int) =~= goal);
    }
    out
}

/// The log batch of a run: for each instance and each container it
/// declares one task, where the configuration asks for these logs.
pub fn log_tasks(config: &ConfigFile, pods: &Vec<WorkloadInstanceHandle>, previous: bool) -> (r:
    Vec<CollectionTask>)
    ensures
        r.deep_view() == log_batch(config@, pods.deep_view(), previous),
{
    let mut out: Vec<CollectionTask> = Vec::new();
    let wanted = if previous {
        config.previous_logs
    } else {
        config.current_logs
    };
    if !wanted {
        assert(out.deep_view() =~= Seq::<TaskView>::empty());
        return out;
    }
    let mut i: usize = 0;
    assert(out.deep_view() =~= all_logs(pods.deep_view().take(0), previous));
    while i < pods.len()
        invariant
            i <= pods.len(),
            out.deep_view() == all_logs(pods.deep_view().take(i as int), previous),
        decreases pods.len() - i,
    {
        proof {
            lemma_take_step(pods.deep_view(), i as int);
            assert(pods.deep_view()[i as int] == pods[i as int].deep_view());
        }
        extend_tasks(&mut out, logs_of_pod(&pods[i], previous));
        i += 1;
    }
    proof {
        assert(pods.deep_view().take(pods.len() as int) =~= pods.deep_view());
    }
    out
}

/// The tasks about the cluster that do not depend on its nodes.
pub open spec fn infra_fixed(context: Seq<char>) -> Seq<TaskView> {
    seq![
        command_task(
            "kubectl"@,
            seq!["get"@, "nodes"@, "--context"@, context, "-o"@, "wide"@],
            Category::Infra,
            "kubernetes_nodes.list"@,
        ),
        command_task(
            "kubectl"@,
            seq!["get"@, "nodes"@, "--context"@, context, "-o"@, "json"@],
            Category::Infra,
            "kubernetes_nodes_list.json"@,
        ),
        command_task(
            "kubectl"@,
            seq!["version"@, "--context"@, context, "-o"@, "json"@],
            Category::Infra,
            "kubernetes_version.json"@,
        ),
        command_task(
            "kubectl"@,
            seq!["get"@, "events"@, "-A"@, "--context"@, context],
            Category::Infra,
            "kubernetes_cluster.events"@,
        ),
    ]
}

/// The task that describes one node.
pub open spec fn node_description(context: Seq<char>, node: Seq<char>) -> TaskView {
    command_task(
        "kubectl"@,
        seq!["describe"@, "node"@, node, "--context"@, context],
        Category::Infra,
        node + ".description"@,
    )
}

/// The infrastructure batch: the fixed tasks, then one description for
/// each node, in the order of the nodes.
pub open spec fn infra_batch(context: Seq<char>, nodes: Seq<Seq<char>>) -> Seq<TaskView> {
    infra_fixed(context) + Seq::new(nodes.len(), |k: int| node_description(context, nodes[k]))
}

fn infra_fixed_tasks(context: &str) -> (r: Vec<CollectionTask>)
    ensures
        r.deep_view() == infra_fixed(context@),
{
    let mut out: Vec<CollectionTask> = Vec::new();
    let table = new_command_task(
        "kubectl",
        texts(&["get", "nodes", "--context", context, "-o", "wide"]),
        Category::Infra,
        String::from_str("kubernetes_nodes.list"),
    );
    let json = new_command_task(
        "kubectl",
        texts(&["get", "nodes", "--context", context, "-o", "json"]),
        Category::Infra,
        String::from_str("kubernetes_nodes_list.json"),
    );
    let version = new_command_task(
        "kubectl",
        texts(&["version", "--context", context, "-o", "json"]),
        Category::Infra,
        String::from_str("kubernetes_version.json"),
    );
    let events = new_command_task(
        "kubectl",
        texts(&["get", "events", "-A", "--context", context]),
        Category::Infra,
        String::from_str("kubernetes_cluster.events"),
    );
    proof {
        let goal = infra_fixed(context@);
        assert(table@.retrieval->Command_args =~= goal[0].retrieval->Command_args);
        assert(json@.retrieval->Command_args =~= goal[1].retrieval->Command_args);
        assert(version@.retrieval->Command_args =~= goal[2].retrieval->Command_args);
        assert(events@.retrieval->Command_args =~= goal[3].retrieval->Command_args);
    }
    push_task(&mut out, table);
    push_task(&mut out, json);
    push_task(&mut out, version);
    push_task(&mut out, events);
    assert(out.deep_view() =~= infra_fixed(context@));
    out
}

/// The infrastructure batch, for the nodes that the cluster names.
pub fn infra_tasks(config: &ConfigFile, nodes: &Vec<String>) -> (r: Vec<CollectionTask>)
    ensures
        r.deep_view() == infra_batch(config@.context_name, nodes.deep_view()),
{
    let context = config.context_name.as_str();
    let ghost per_node = Seq::new(
        nodes.deep_view().len(),
        |k: int| node_description(context@, nodes.deep_view()[k]),
    );
    let mut out = infra_fixed_tasks(context);
    let mut i: usize = 0;
    assert(out.deep_view() =~= infra_fixed(context@) + per_node.take(0));
    while i < nodes.len()
        invariant
            i <= nodes.len(),
            context@ == config@.context_name,
            per_node == Seq::new(
                nodes.deep_view().len(),
                |k: int| node_description(context@, nodes.deep_view()[k]),
            ),
            out.deep_view() == infra_fixed(context@) + per_node.take(i as int),
        decreases nodes.len() - i,
    {
        let node = nodes[i].as_str();
        let task = new_command_task(
            "kubectl",
            texts(&["describe", "node", node, "--context", context]),
            Category::Infra,
            cat2(node, ".description"),
        );
        proof {
            assert(nodes.deep_view()[i as int] == node@);
            let goal = node_description(context@, node@);
            assert(task@.retrieval->Command_args =~= goal.retrieval->Command_args);
            assert(task@.filename =~= goal.filename);
            lemma_take_step(per_node, i as int);
        }
        let ghost before = out.deep_view();
        push_task(&mut out, task);
        proof {
            assert(out.deep_view() =~= infra_fixed(context@) + per_node.take(i + 1));
        }
        i += 1;
    }
    proof {
        assert(per_node.take(nodes.len() as int) =~= per_node);
    }
    out
}

} // verus!
