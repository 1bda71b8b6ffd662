//! Which batch belongs to which phase.
//!
//! The batch of a phase is planned from the configuration and from what
//! the run has found out about the cluster by then. Nothing else decides
//! what a phase runs.

use crate::catalog::Driver;
use crate::catalog::DriverView;
use crate::catalog::Service;
use crate::catalog::elasticsearch_block;
use crate::catalog::elasticsearch_tasks;
use crate::catalog::hadoop_probes;
use crate::catalog::hadoop_tasks;
use crate::catalog::hbase_probes;
use crate::catalog::hbase_tasks;
use crate::catalog::kafka_block;
use crate::catalog::kafka_tasks;
use crate::catalog::prometheus_block;
use crate::catalog::prometheus_tasks;
use crate::catalog::streaming_core_block;
use crate::catalog::streaming_core_tasks;
use crate::config::ConfigFile;
use crate::config::ConfigView;
use crate::outcome::Failure;
use crate::outcome::FailureView;
use crate::phase::Phase;
use crate::plan::infra_batch;
use crate::plan::infra_tasks;
use crate::plan::log_batch;
use crate::plan::log_tasks;
use crate::plan::pod_batch;
use crate::plan::pod_tasks;
use crate::releases::NamespaceReleases;
use crate::releases::NamespaceReleasesView;
use crate::releases::helm_batch;
use crate::releases::helm_tasks;
use crate::resolve::HandleView;
use crate::resolve::WorkloadInstanceHandle;
use crate::services::batch_view;
use crate::services::block_of;
use crate::task::CollectionTask;
use crate::task::TaskView;
use vstd::prelude::*;

verus! {

/// What a run has found out about the cluster. The caller fills it in as
/// the run goes on: what a phase needs has to be there when the run goes on
/// to that phase.
#[derive(Clone, Debug, PartialEq, Eq)]
pub struct Found {
    /// The workload instances in scope.
    pub pods: Vec<WorkloadInstanceHandle>,
    /// The names of the nodes.
    pub nodes: Vec<String>,
    /// The releases of each namespace.
    pub releases: Vec<NamespaceReleases>,
    /// The instances of the search engine.
    pub elasticsearch: Vec<WorkloadInstanceHandle>,
    /// The credentials of the search engine, in the order they were found.
    pub credentials: Vec<String>,
    /// The drivers of the streaming engine, each with its application.
    pub drivers: Vec<Driver>,
    /// The data nodes of the file system.
    pub hadoop: Vec<WorkloadInstanceHandle>,
    /// The masters of the table store.
    pub hbase: Vec<WorkloadInstanceHandle>,
    /// The instances of the message bus under its first name.
    pub kafka: Vec<WorkloadInstanceHandle>,
    /// The instances of the message bus under its second name.
    pub message_bus: Vec<WorkloadInstanceHandle>,
    /// The instances of the monitoring service.
    pub prometheus: Vec<WorkloadInstanceHandle>,
}

/// What a run has found out, as plain mathematical values.
pub struct FoundView {
    pub pods: Seq<HandleView>,
    pub nodes: Seq<Seq<char>>,
    pub releases: Seq<NamespaceReleasesView>,
    pub elasticsearch: Seq<HandleView>,
    pub credentials: Seq<Seq<char>>,
    pub drivers: Seq<DriverView>,
    pub hadoop: Seq<HandleView>,
    pub hbase: Seq<HandleView>,
    pub kafka: Seq<HandleView>,
    pub message_bus: Seq<HandleView>,
    pub prometheus: Seq<HandleView>,
}

impl DeepView for Found {
    type V = FoundView;

    open spec fn deep_view(&self) -> FoundView {
        FoundView {
            pods: self.pods.deep_view(),
            nodes: self.nodes.deep_view(),
            releases: self.releases.deep_view(),
            elasticsearch: self.elasticsearch.deep_view(),
            credentials: self.credentials.deep_view(),
            drivers: self.drivers.deep_view(),
            hadoop: self.hadoop.deep_view(),
            hbase: self.hbase.deep_view(),
            kafka: self.kafka.deep_view(),
            message_bus: self.message_bus.deep_view(),
            prometheus: self.prometheus.deep_view(),
        }
    }
}

/// The services whose instances are looked for before the batch of a phase
/// is planned, in the order in which they are looked for.
pub open spec fn services_of(phase: Phase) -> Seq<Service> {
    match phase {
        Phase::Elasticsearch => seq![Service::Elasticsearch],
        Phase::StreamingCore => seq![Service::StreamingCore],
        Phase::Hadoop => seq![Service::Hadoop],
        Phase::HBase => seq![Service::HBase],
        Phase::MessageBus => seq![Service::Kafka, Service::MessageBus],
        Phase::Monitoring => seq![Service::Prometheus],
        _ => Seq::empty(),
    }
}

/// The batch of a phase, or the failure that leaves the phase without one.
pub open spec fn planned(
    phase: Phase,
    config: ConfigView,
    kube_config_path: Seq<char>,
    found: FoundView,
) -> Result<Seq<TaskView>, FailureView> {
    match phase {
        Phase::PodDiagnostics => Ok(pod_batch(config, found.pods)),
        Phase::CurrentLogs => Ok(log_batch(config, found.pods, false)),
        Phase::PreviousLogs => Ok(log_batch(config, found.pods, true)),
        Phase::Infrastructure => Ok(infra_batch(config.context_name, found.nodes)),
        Phase::PackageReleases => Ok(
            helm_batch(kube_config_path, config.context_name, found.releases),
        ),
        Phase::Elasticsearch => elasticsearch_block(found.elasticsearch, found.credentials),
        Phase::StreamingCore => streaming_core_block(found.drivers),
        Phase::Hadoop => block_of(found.hadoop, hadoop_probes(), false),
        Phase::HBase => block_of(found.hbase, hbase_probes(), false),
        Phase::MessageBus => kafka_block(found.kafka, found.message_bus),
        Phase::Monitoring => prometheus_block(found.prometheus),
        Phase::Archiving => Ok(Seq::empty()),
    }
}

impl Found {
    /// Nothing found.
    pub fn nothing() -> (r: Found)
        ensures
            r.deep_view() == (FoundView {
                pods: Seq::empty(),
                nodes: Seq::empty(),
                releases: Seq::empty(),
                elasticsearch: Seq::empty(),
                credentials: Seq::empty(),
                drivers: Seq::empty(),
                hadoop: Seq::empty(),
                hbase: Seq::empty(),
                kafka: Seq::empty(),
                message_bus: Seq::empty(),
                prometheus: Seq::empty(),
            }),
    {
        let r = Found {
            pods: Vec::new(),
            nodes: Vec::new(),
            releases: Vec::new(),
            elasticsearch: Vec::new(),
            credentials: Vec::new(),
            drivers: Vec::new(),
            hadoop: Vec::new(),
            hbase: Vec::new(),
            kafka: Vec::new(),
            message_bus: Vec::new(),
            prometheus: Vec::new(),
        };
        proof {
            assert(r.pods.deep_view() =~= Seq::<HandleView>::empty());
            assert(r.nodes.deep_view() =~= Seq::<Seq<char>>::empty());
            assert(r.releases.deep_view() =~= Seq::<NamespaceReleasesView>::empty());
            assert(r.elasticsearch.deep_view() =~= Seq::<HandleView>::empty());
            assert(r.credentials.deep_view() =~= Seq::<Seq<char>>::empty());
            assert(r.drivers.deep_view() =~= Seq::<DriverView>::empty());
            assert(r.hadoop.deep_view() =~= Seq::<HandleView>::empty());
            assert(r.hbase.deep_view() =~= Seq::<HandleView>::empty());
            assert(r.kafka.deep_view() =~= Seq::<HandleView>::empty());
            assert(r.message_bus.deep_view() =~= Seq::<HandleView>::empty());
            assert(r.prometheus.deep_view() =~= Seq::<HandleView>::empty());
        }
        r
    }

    /// Whether the credentials of the search engine are to be asked for:
    /// only where the search engine has been found.
    pub fn credentials_wanted(&self) -> (r: bool)
        ensures
            r == (self.deep_view().elasticsearch.len() > 0),
    {
        self.elasticsearch.len() > 0
    }
}

impl Phase {
    /// The services whose instances are looked for before the batch of the
    /// phase is planned.
    pub fn services(self) -> (r: Vec<Service>)
        ensures
            r@ == services_of(self),
    {
        let mut out: Vec<Service> = Vec::new();
        match self {
            Phase::Elasticsearch => out.push(Service::Elasticsearch),
            Phase::StreamingCore => out.push(Service::StreamingCore),
            Phase::Hadoop => out.push(Service::Hadoop),
            Phase::HBase => out.push(Service::HBase),
            Phase::MessageBus => {
                out.push(Service::Kafka);
                out.push(Service::MessageBus);
            },
            Phase::Monitoring => out.push(Service::Prometheus),
            _ => {},
        }
        assert(out@ =~= services_of(self));
        out
    }
}

/// The batch of `phase`, from the configuration and from what has been
/// found.
pub fn batch_of(phase: Phase, config: &ConfigFile, kube_config_path: &str, found: &Found) -> (r:
    Result<Vec<CollectionTask>, Failure>)
    ensures
        batch_view(r) == planned(phase, config@, kube_config_path@, found.deep_view()),
{
    match phase {
        Phase::PodDiagnostics => Ok(pod_tasks(config, &found.pods)),
        Phase::CurrentLogs => Ok(log_tasks(config, &found.pods, false)),
        Phase::PreviousLogs => Ok(log_tasks(config, &found.pods, true)),
        Phase::Infrastructure => Ok(infra_tasks(config, &found.nodes)),
        Phase::PackageReleases => Ok(helm_tasks(config, kube_config_path, &found.releases)),
        Phase::Elasticsearch => elasticsearch_tasks(&found.elasticsearch, &found.credentials),
        Phase::StreamingCore => streaming_core_tasks(&found.drivers),
        Phase::Hadoop => hadoop_tasks(&found.hadoop),
        Phase::HBase => hbase_tasks(&found.hbase),
        Phase::MessageBus => kafka_tasks(&found.kafka, &found.message_bus),
        Phase::Monitoring => prometheus_tasks(&found.prometheus),
        Phase::Archiving => {
            let none: Vec<CollectionTask> = Vec::new();
            assert(none.deep_view() =~= Seq::<TaskView>::empty());
            Ok(none)
        },
    }
}

} // verus!
