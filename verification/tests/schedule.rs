use logpv2::catalog::elasticsearch_tasks;
use logpv2::catalog::hadoop_tasks;
use logpv2::catalog::hbase_tasks;
use logpv2::catalog::kafka_tasks;
use logpv2::catalog::prometheus_tasks;
use logpv2::catalog::streaming_core_tasks;
use logpv2::catalog::Driver;
use logpv2::catalog::Service;
use logpv2::config::ConfigFile;
use logpv2::outcome::Failure;
use logpv2::phase::Phase;
use logpv2::plan::infra_tasks;
use logpv2::plan::log_tasks;
use logpv2::plan::pod_tasks;
use logpv2::releases::helm_tasks;
use logpv2::releases::Helm;
use logpv2::releases::NamespaceReleases;
use logpv2::resolve::WorkloadInstanceHandle;
use logpv2::schedule::batch_of;
use logpv2::schedule::Found;

fn schedule_pod(name: &str, containers: &[&str]) -> WorkloadInstanceHandle {
    WorkloadInstanceHandle {
        name: name.to_string(),
        namespace: "a".to_string(),
        capability: 0,
        containers: containers.iter().map(|c| c.to_string()).collect(),
    }
}

fn everything_found() -> (ConfigFile, Found) {
    let config = ConfigFile {
        context_name: "ctx".to_string(),
        context_namespace: vec!["a".to_string()],
        output_directory_path: "/o".to_string(),
        previous_logs: true,
        current_logs: true,
        non_exfo_kafka_product_kubernetes_label: String::new(),
    };
    let found = Found {
        pods: vec![schedule_pod("web-0", &["main"])],
        nodes: vec!["node-1".to_string()],
        releases: vec![NamespaceReleases {
            namespace: "a".to_string(),
            releases: vec![Helm { name: "web".to_string(), ..Helm::default() }],
        }],
        elasticsearch: vec![schedule_pod("es-0", &["es"])],
        credentials: vec!["secret".to_string()],
        drivers: vec![Driver { pod: schedule_pod("drv-0", &["spark"]), application_id: "app".to_string() }],
        hadoop: vec![schedule_pod("dn-0", &["dn"])],
        hbase: vec![schedule_pod("hm-0", &["hm"])],
        kafka: vec![schedule_pod("kafka-0", &["k"])],
        message_bus: vec![schedule_pod("bus-0", &["b"])],
        prometheus: vec![schedule_pod("prom-0", &["p"])],
    };
    (config, found)
}

#[test]
fn every_phase_has_its_own_batch() {
    let (c, f) = everything_found();
    assert_eq!(batch_of(Phase::PodDiagnostics, &c, "/k", &f), Ok(pod_tasks(&c, &f.pods)));
    assert_eq!(batch_of(Phase::CurrentLogs, &c, "/k", &f), Ok(log_tasks(&c, &f.pods, false)));
    assert_eq!(batch_of(Phase::PreviousLogs, &c, "/k", &f), Ok(log_tasks(&c, &f.pods, true)));
    assert_eq!(batch_of(Phase::Infrastructure, &c, "/k", &f), Ok(infra_tasks(&c, &f.nodes)));
    assert_eq!(batch_of(Phase::PackageReleases, &c, "/k", &f), Ok(helm_tasks(&c, "/k", &f.releases)));
    assert_eq!(
        batch_of(Phase::Elasticsearch, &c, "/k", &f),
        elasticsearch_tasks(&f.elasticsearch, &f.credentials)
    );
    assert_eq!(batch_of(Phase::StreamingCore, &c, "/k", &f), streaming_core_tasks(&f.drivers));
    assert_eq!(batch_of(Phase::Hadoop, &c, "/k", &f), hadoop_tasks(&f.hadoop));
    assert_eq!(batch_of(Phase::HBase, &c, "/k", &f), hbase_tasks(&f.hbase));
    assert_eq!(batch_of(Phase::MessageBus, &c, "/k", &f), kafka_tasks(&f.kafka, &f.message_bus));
    assert_eq!(batch_of(Phase::Monitoring, &c, "/k", &f), prometheus_tasks(&f.prometheus));
    assert_eq!(batch_of(Phase::Archiving, &c, "/k", &f), Ok(Vec::new()));
    let sizes: Vec<usize> = [
        Phase::PodDiagnostics,
        Phase::CurrentLogs,
        Phase::PreviousLogs,
        Phase::Infrastructure,
        Phase::PackageReleases,
        Phase::Elasticsearch,
        Phase::StreamingCore,
        Phase::Hadoop,
        Phase::HBase,
        Phase::MessageBus,
        Phase::Monitoring,
        Phase::Archiving,
    ]
    .iter()
    .map(|p| batch_of(*p, &c, "/k", &f).unwrap().len())
    .collect();
    assert_eq!(sizes, vec![3, 1, 1, 5, 3, 8, 4, 3, 1, 5, 5, 0]);
}

#[test]
fn a_phase_without_containers_has_a_failed_batch() {
    let (c, mut f) = everything_found();
    f.prometheus = vec![schedule_pod("bare", &[])];
    assert_eq!(
        batch_of(Phase::Monitoring, &c, "/k", &f),
        Err(Failure::Resolution("No container found on bare".to_string()))
    );
}

#[test]
fn nothing_found_plans_only_what_needs_no_instance() {
    let c = ConfigFile::default();
    let f = Found::nothing();
    assert_eq!(batch_of(Phase::PodDiagnostics, &c, "", &f), Ok(Vec::new()));
    assert_eq!(batch_of(Phase::Infrastructure, &c, "", &f).unwrap().len(), 4);
    assert_eq!(batch_of(Phase::PackageReleases, &c, "", &f).unwrap().len(), 1);
    for phase in [
        Phase::CurrentLogs,
        Phase::PreviousLogs,
        Phase::Elasticsearch,
        Phase::StreamingCore,
        Phase::Hadoop,
        Phase::HBase,
        Phase::MessageBus,
        Phase::Monitoring,
        Phase::Archiving,
    ] {
        assert_eq!(batch_of(phase, &c, "", &f), Ok(Vec::new()));
    }
}

#[test]
fn services_are_looked_for_before_their_phase() {
    assert_eq!(Phase::Elasticsearch.services(), vec![Service::Elasticsearch]);
    assert_eq!(Phase::StreamingCore.services(), vec![Service::StreamingCore]);
    assert_eq!(Phase::Hadoop.services(), vec![Service::Hadoop]);
    assert_eq!(Phase::HBase.services(), vec![Service::HBase]);
    assert_eq!(Phase::MessageBus.services(), vec![Service::Kafka, Service::MessageBus]);
    assert_eq!(Phase::Monitoring.services(), vec![Service::Prometheus]);
    for phase in [
        Phase::PodDiagnostics,
        Phase::CurrentLogs,
        Phase::PreviousLogs,
        Phase::Infrastructure,
        Phase::PackageReleases,
        Phase::Archiving,
    ] {
        assert_eq!(phase.services(), Vec::new());
    }
}

#[test]
fn credentials_are_wanted_only_where_the_search_engine_is() {
    let (_, found) = everything_found();
    assert!(found.credentials_wanted());
    assert!(!Found::nothing().credentials_wanted());
    let mut other = Found::nothing();
    other.hadoop = vec![schedule_pod("dn-0", &["dn"])];
    other.credentials = vec!["unused".to_string()];
    assert!(!other.credentials_wanted());
}
