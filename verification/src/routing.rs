//! Where the batches of a run write: each to the folder of one category.

use crate::catalog::DriverView;
use crate::catalog::elastic_password;
use crate::catalog::elastic_probes;
use crate::catalog::elasticsearch_block;
use crate::catalog::hadoop_probes;
use crate::catalog::hbase_probes;
use crate::catalog::kafka_block;
use crate::catalog::kafka_pods;
use crate::catalog::kafka_prefix;
use crate::catalog::kafka_probes;
use crate::catalog::prometheus_block;
use crate::catalog::prometheus_probes;
use crate::catalog::streaming_core_block;
use crate::config::ConfigView;
use crate::layout::Category;
use crate::phase::Phase;
use crate::plan::all_logs;
use crate::plan::all_pod_listings;
use crate::plan::infra_batch;
use crate::plan::log_batch;
use crate::plan::pod_batch;
use crate::releases::NamespaceReleasesView;
use crate::releases::all_namespace_tasks;
use crate::releases::helm_batch;
use crate::resolve::HandleView;
use crate::schedule::FoundView;
use crate::schedule::planned;
use crate::services::ProbeView;
use crate::services::block_of;
use crate::task::TaskView;
use vstd::prelude::*;

verus! {

/// Every task of `tasks` writes to `category`.
pub open spec fn all_write_to(tasks: Seq<TaskView>, category: Category) -> bool {
    forall|i: int| 0 <= i < tasks.len() ==> (#[trigger] tasks[i]).category == category
}

/// The batches about workload instances write to the folder of workload
/// instances, every task of them: listings, descriptions and logs.
pub proof fn lemma_pod_batches_write_to_pods(
    config: ConfigView,
    pods: Seq<HandleView>,
    previous: bool,
)
    ensures
        all_write_to(pod_batch(config, pods), Category::Pods),
        all_write_to(log_batch(config, pods, previous), Category::Pods),
{
    lemma_listings_write_to_pods(config.context_name, config.context_namespace);
    lemma_logs_write_to_pods(pods, previous);
}

proof fn lemma_listings_write_to_pods(context: Seq<char>, namespaces: Seq<Seq<char>>)
    ensures
        all_write_to(all_pod_listings(context, namespaces), Category::Pods),
    decreases namespaces.len(),
{
    if namespaces.len() > 0 {
        lemma_listings_write_to_pods(context, namespaces.drop_last());
    }
}

proof fn lemma_logs_write_to_pods(pods: Seq<HandleView>, previous: bool)
    ensures
        all_write_to(all_logs(pods, previous), Category::Pods),
    decreases pods.len(),
{
    if pods.len() > 0 {
        lemma_logs_write_to_pods(pods.drop_last(), previous);
    }
}

/// The batch about nodes and cluster writes to the folder of the
/// infrastructure, and the batch about releases to that of the package
/// manager.
pub proof fn lemma_infra_and_helm_batches_write_to_their_folders(
    context: Seq<char>,
    nodes: Seq<Seq<char>>,
    kube_config_path: Seq<char>,
    found: Seq<NamespaceReleasesView>,
)
    ensures
        all_write_to(infra_batch(context, nodes), Category::Infra),
        all_write_to(helm_batch(kube_config_path, context, found), Category::Helm),
{
    lemma_namespace_tasks_write_to_helm(kube_config_path, context, found);
}

proof fn lemma_namespace_tasks_write_to_helm(
    kube_config_path: Seq<char>,
    context: Seq<char>,
    found: Seq<NamespaceReleasesView>,
)
    ensures
        all_write_to(all_namespace_tasks(kube_config_path, context, found), Category::Helm),
    decreases found.len(),
{
    if found.len() > 0 {
        lemma_namespace_tasks_write_to_helm(kube_config_path, context, found.drop_last());
    }
}

/// The batch of a service block writes to the folder of the applications,
/// whatever the service and its commands.
pub proof fn lemma_blocks_write_to_apps(
    pods: Seq<HandleView>,
    probes: Seq<ProbeView>,
    pretty: bool,
    drivers: Seq<DriverView>,
)
    ensures
        block_of(pods, probes, pretty) matches Ok(tasks) ==> all_write_to(tasks, Category::Apps),
        streaming_core_block(drivers) matches Ok(tasks) ==> all_write_to(tasks, Category::Apps),
    decreases drivers.len(),
{
    if drivers.len() > 0 {
        lemma_blocks_write_to_apps(pods, probes, pretty, drivers.drop_last());
    }
}

/// Where no service is found, nothing at all is written to the folder of
/// the applications: every block of the run is empty.
pub proof fn lemma_nothing_found_writes_nothing_to_apps(credentials: Seq<Seq<char>>)
    ensures
        elasticsearch_block(Seq::empty(), credentials) matches Ok(tasks) && tasks.len() == 0,
        streaming_core_block(Seq::empty()) matches Ok(tasks) && tasks.len() == 0,
        block_of(Seq::empty(), hadoop_probes(), false) matches Ok(tasks) && tasks.len() == 0,
        block_of(Seq::empty(), hbase_probes(), false) matches Ok(tasks) && tasks.len() == 0,
        kafka_block(Seq::empty(), Seq::empty()) matches Ok(tasks) && tasks.len() == 0,
        prometheus_block(Seq::empty()) matches Ok(tasks) && tasks.len() == 0,
{
}

/// The category that the batch of a phase writes to; the last phase has no
/// batch and writes to none.
pub open spec fn category_of(phase: Phase) -> Option<Category> {
    match phase {
        Phase::PodDiagnostics | Phase::CurrentLogs | Phase::PreviousLogs => Some(Category::Pods),
        Phase::Infrastructure => Some(Category::Infra),
        Phase::PackageReleases => Some(Category::Helm),
        Phase::Archiving => None,
        _ => Some(Category::Apps),
    }
}

/// Whatever has been found, the batch that is planned for a phase writes
/// to the folder of that phase's category, every task of it; and the last
/// phase has no task at all.
pub proof fn lemma_planned_batch_writes_to_its_category(
    phase: Phase,
    config: ConfigView,
    kube_config_path: Seq<char>,
    found: FoundView,
)
    ensures
        planned(phase, config, kube_config_path, found) matches Ok(tasks) ==> match category_of(
            phase,
        ) {
            Some(category) => all_write_to(tasks, category),
            None => tasks.len() == 0,
        },
{
    lemma_pod_batches_write_to_pods(config, found.pods, false);
    lemma_pod_batches_write_to_pods(config, found.pods, true);
    lemma_infra_and_helm_batches_write_to_their_folders(
        config.context_name,
        found.nodes,
        kube_config_path,
        found.releases,
    );
    lemma_blocks_write_to_apps(
        found.elasticsearch,
        elastic_probes(elastic_password(found.credentials)),
        false,
        found.drivers,
    );
    lemma_blocks_write_to_apps(found.hadoop, hadoop_probes(), false, found.drivers);
    lemma_blocks_write_to_apps(found.hbase, hbase_probes(), false, found.drivers);
    lemma_blocks_write_to_apps(
        kafka_pods(found.kafka, found.message_bus),
        kafka_probes(kafka_prefix(found.kafka, found.message_bus)),
        false,
        found.drivers,
    );
    if found.prometheus.len() > 0 {
        lemma_blocks_write_to_apps(
            found.prometheus,
            prometheus_probes(found.prometheus[0]),
            true,
            found.drivers,
        );
    }
}

} // verus!
