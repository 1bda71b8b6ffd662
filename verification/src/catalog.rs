//! The services a run knows: the selector that finds each, and the commands
//! that are run inside it.

use crate::outcome::Failure;
use crate::outcome::FailureView;
use crate::output::Invocation;
use crate::output::InvocationView;
use crate::resolve::HandleView;
use crate::resolve::WorkloadInstanceHandle;
use crate::services::Probe;
use crate::services::ProbeView;
use crate::services::batch_view;
use crate::services::block;
use crate::services::block_of;
use crate::services::no_container;
use crate::services::push_probe;
use crate::services::shell_in;
use crate::services::shell_in_first_container;
use crate::session::get_output;
use crate::session::output_text;
use crate::task::CollectionTask;
use crate::task::Retrieval;
use crate::task::TaskView;
use crate::task::extend_tasks;
use crate::text::cat2;
use crate::text::cat3;
use crate::text::cat4;
use crate::text::clone_texts;
use crate::text::contains;
use crate::text::lemma_take_step;
use crate::text::occurs_in;
use vstd::prelude::*;
use vstd::string::StringExecFns;

verus! {

/// The services with a block of their own, in the order of their blocks.
/// The message bus is looked for under two names.
#[derive(Clone, Copy, Debug, PartialEq, Eq, Structural)]
pub enum Service {
    Elasticsearch,
    StreamingCore,
    Hadoop,
    HBase,
    Kafka,
    MessageBus,
    Prometheus,
}

/// The label selector that finds the instances of a service.
pub open spec fn selector_of(service: Service) -> Seq<char> {
    match service {
        Service::Elasticsearch => "elasticsearch.k8s.elastic.co/node-master=true"@,
        Service::StreamingCore
            => "spark-role=driver,app.kubernetes.io/component=streaming-core-consumer"@,
        Service::Hadoop => "app.kubernetes.io/component=datanode"@,
        Service::HBase => "app.kubernetes.io/name=hbase, app.kubernetes.io/component=master"@,
        Service::Kafka => "app.kubernetes.io/name=kafka"@,
        Service::MessageBus => "app.kubernetes.io/name=eric-data-message-bus-kf"@,
        Service::Prometheus => "app.kubernetes.io/name=prometheus"@,
    }
}

impl Service {
    /// The label selector that finds the instances of the service.
    pub fn selector(self) -> (r: &'static str)
        ensures
            r@ == selector_of(self),
    {
        match self {
            Service::Elasticsearch => "elasticsearch.k8s.elastic.co/node-master=true",
            Service::StreamingCore
                => "spark-role=driver,app.kubernetes.io/component=streaming-core-consumer",
            Service::Hadoop => "app.kubernetes.io/component=datanode",
            Service::HBase => "app.kubernetes.io/name=hbase, app.kubernetes.io/component=master",
            Service::Kafka => "app.kubernetes.io/name=kafka",
            Service::MessageBus => "app.kubernetes.io/name=eric-data-message-bus-kf",
            Service::Prometheus => "app.kubernetes.io/name=prometheus",
        }
    }
}

/// The label selector that finds the secrets holding the search engine's
/// credentials.
pub fn credentials_selector() -> (r: &'static str)
    ensures
        r@ == "eck.k8s.elastic.co/owner-kind=Elasticsearch, eck.k8s.elastic.co/credentials=true"@,
{
    "eck.k8s.elastic.co/owner-kind=Elasticsearch, eck.k8s.elastic.co/credentials=true"
}

/// The password that the search engine is asked with: the last credential
/// found, and the empty text where none was found.
pub open spec fn elastic_password(credentials: Seq<Seq<char>>) -> Seq<char> {
    if credentials.len() == 0 {
        Seq::empty()
    } else {
        credentials.last()
    }
}

/// One request to the search engine.
pub open spec fn elastic_probe(password: Seq<char>, request: Seq<char>, filename: Seq<char>) -> ProbeView {
    ProbeView { script: "curl -k -u elastic:"@ + password + request, filename }
}

/// The requests to the search engine.
pub open spec fn elastic_probes(password: Seq<char>) -> Seq<ProbeView> {
    seq![
        elastic_probe(
            password,
            " -X GET \"https://localhost:9200/_cluster/health?pretty\""@,
            "elastic_search_health.json"@,
        ),
        elastic_probe(
            password,
            " -X GET \"https://localhost:9200/_cat/indices?h=health,status,index,id,p,r,dc,dd,ss,creation.date.string,&v&s=creation.date:desc\""@,
            "elastic_search_indices.json"@,
        ),
        elastic_probe(
            password,
            " -X GET \"https://localhost:9200/_cluster/settings?pretty\""@,
            "elastic_search_settings.json"@,
        ),
        elastic_probe(
            password,
            " -X GET \"https://localhost:9200/_cluster/settings?include_defaults=true&pretty\""@,
            "elastic_search_defaults_settings.json"@,
        ),
        elastic_probe(
            password,
            " -X GET \"https://localhost:9200/_cat/nodes?v&pretty\""@,
            "elastic_search_nodes.json"@,
        ),
        elastic_probe(
            password,
            " -X GET \"https://localhost:9200/_cat/_cat/shards?v\""@,
            "elastic_search_shards.json"@,
        ),
        elastic_probe(
            password,
            " -X GET \"https://localhost:9200/_cluster/state?pretty\""@,
            "elastic_search_state.json"@,
        ),
        elastic_probe(
            password,
            " -X GET \"https://localhost:9200/_cluster/stats?human&pretty\""@,
            "elastic_search_stats_human.json"@,
        ),
    ]
}

/// The block of the search engine.
pub open spec fn elasticsearch_block(pods: Seq<HandleView>, credentials: Seq<Seq<char>>) -> Result<
    Seq<TaskView>,
    FailureView,
> {
    block_of(pods, elastic_probes(elastic_password(credentials)), false)
}

fn push_elastic_probe(out: &mut Vec<Probe>, password: &str, request: &str, filename: &str)
    ensures
        final(out).deep_view() == old(out).deep_view().push(
            elastic_probe(password@, request@, filename@),
        ),
{
    push_probe(out, cat3("curl -k -u elastic:", password, request), String::from_str(filename));
}

/// The block of the search engine, for the instances and the credentials
/// that were found.
pub fn elasticsearch_tasks(pods: &Vec<WorkloadInstanceHandle>, credentials: &Vec<String>) -> (r:
    Result<Vec<CollectionTask>, Failure>)
    ensures
        batch_view(r) == elasticsearch_block(pods.deep_view(), credentials.deep_view()),
{
    let empty = String::new();
    let password = if credentials.len() == 0 {
        empty.as_str()
    } else {
        credentials[credentials.len() - 1].as_str()
    };
    proof {
        if credentials.len() > 0 {
            assert(credentials.deep_view().last() == credentials[credentials.len() - 1]@);
        }
        assert(password@ =~= elastic_password(credentials.deep_view()));
    }
    let mut probes: Vec<Probe> = Vec::new();
    push_elastic_probe(
        &mut probes,
        password,
        " -X GET \"https://localhost:9200/_cluster/health?pretty\"",
        "elastic_search_health.json",
    );
    push_elastic_probe(
        &mut probes,
        password,
        " -X GET \"https://localhost:9200/_cat/indices?h=health,status,index,id,p,r,dc,dd,ss,creation.date.string,&v&s=creation.date:desc\"",
        "elastic_search_indices.json",
    );
    push_elastic_probe(
        &mut probes,
        password,
        " -X GET \"https://localhost:9200/_cluster/settings?pretty\"",
        "elastic_search_settings.json",
    );
    push_elastic_probe(
        &mut probes,
        password,
        " -X GET \"https://localhost:9200/_cluster/settings?include_defaults=true&pretty\"",
        "elastic_search_defaults_settings.json",
    );
    push_elastic_probe(
        &mut probes,
        password,
        " -X GET \"https://localhost:9200/_cat/nodes?v&pretty\"",
        "elastic_search_nodes.json",
    );
    push_elastic_probe(
        &mut probes,
        password,
        " -X GET \"https://localhost:9200/_cat/_cat/shards?v\"",
        "elastic_search_shards.json",
    );
    push_elastic_probe(
        &mut probes,
        password,
        " -X GET \"https://localhost:9200/_cluster/state?pretty\"",
        "elastic_search_state.json",
    );
    push_elastic_probe(
        &mut probes,
        password,
        " -X GET \"https://localhost:9200/_cluster/stats?human&pretty\"",
        "elastic_search_stats_human.json",
    );
    assert(probes.deep_view() =~= elastic_probes(password@));
    block(pods, &probes, false)
}

/// The commands run in a data node of the file system.
pub open spec fn hadoop_probes() -> Seq<ProbeView> {
    seq![
        ProbeView { script: "hdfs dfsadmin -report"@, filename: "hadoop_report_dfsadmin.log"@ },
        ProbeView { script: "hdfs dfsadmin -safemode get"@, filename: "hadoop_safe_mode.log"@ },
        ProbeView {
            script: "time dd if=/dev/zero of=/dfs/test conv=fsync bs=384k count=10K"@,
            filename: "hadoop_hdfs_diskwrite_perf.log"@,
        },
    ]
}

/// The block of the file system, for the instances that were found.
pub fn hadoop_tasks(pods: &Vec<WorkloadInstanceHandle>) -> (r: Result<Vec<CollectionTask>, Failure>)
    ensures
        batch_view(r) == block_of(pods.deep_view(), hadoop_probes(), false),
{
    let mut probes: Vec<Probe> = Vec::new();
    push_probe(
        &mut probes,
        String::from_str("hdfs dfsadmin -report"),
        String::from_str("hadoop_report_dfsadmin.log"),
    );
    push_probe(
        &mut probes,
        String::from_str("hdfs dfsadmin -safemode get"),
        String::from_str("hadoop_safe_mode.log"),
    );
    push_probe(
        &mut probes,
        String::from_str("time dd if=/dev/zero of=/dfs/test conv=fsync bs=384k count=10K"),
        String::from_str("hadoop_hdfs_diskwrite_perf.log"),
    );
    assert(probes.deep_view() =~= hadoop_probes());
    block(pods, &probes, false)
}

/// The command run in the master of the table store.
pub open spec fn hbase_probes() -> Seq<ProbeView> {
    seq![
        ProbeView {
            script: "echo \"status 'detailed'\" | hbase shell"@,
            filename: "hbase_status_detailed.log"@,
        },
    ]
}

/// The block of the table store, for the instances that were found.
pub fn hbase_tasks(pods: &Vec<WorkloadInstanceHandle>) -> (r: Result<Vec<CollectionTask>, Failure>)
    ensures
        batch_view(r) == block_of(pods.deep_view(), hbase_probes(), false),
{
    let mut probes: Vec<Probe> = Vec::new();
    push_probe(
        &mut probes,
        String::from_str("echo \"status 'detailed'\" | hbase shell"),
        String::from_str("hbase_status_detailed.log"),
    );
    assert(probes.deep_view() =~= hbase_probes());
    block(pods, &probes, false)
}

/// The directory in which the message bus keeps its tools, by the name
/// under which it was found: the second name decides where both found
/// instances.
pub open spec fn kafka_prefix(kafka: Seq<HandleView>, bus: Seq<HandleView>) -> Seq<char> {
    if bus.len() == 0 && kafka.len() > 0 {
        "bin/"@
    } else {
        Seq::empty()
    }
}

/// The instances of the message bus that the commands are aimed at: those
/// found under the first name, or under the second where the first found
/// none.
pub open spec fn kafka_pods(kafka: Seq<HandleView>, bus: Seq<HandleView>) -> Seq<HandleView> {
    if kafka.len() > 0 {
        kafka
    } else {
        bus
    }
}

/// The commands run in the message bus.
pub open spec fn kafka_probes(prefix: Seq<char>) -> Seq<ProbeView> {
    seq![
        ProbeView {
            script: prefix + "kafka-topics.sh --bootstrap-server localhost:9092 --list"@,
            filename: "kafka_topics.log"@,
        },
        ProbeView {
            script: prefix + "kafka-topics.sh --bootstrap-server localhost:9092 --describe"@,
            filename: "kafka_topics_description.log"@,
        },
        ProbeView {
            script: prefix + "kafka-consumer-groups.sh --bootstrap-server localhost:9092 --list"@,
            filename: "kafka_groups_list.log"@,
        },
        ProbeView {
            script: prefix
                + "kafka-broker-api-versions.sh --bootstrap-server localhost:9092 | awk '/^[a-z]/ {print $1}'"@,
            filename: "kafka_brokers_list.log"@,
        },
        ProbeView {
            script: prefix
                + "kafka-consumer-groups.sh --bootstrap-server localhost:9092 --describe --all-groups"@,
            filename: "kafka_groups_describe.log"@,
        },
    ]
}

/// The block of the message bus.
pub open spec fn kafka_block(kafka: Seq<HandleView>, bus: Seq<HandleView>) -> Result<
    Seq<TaskView>,
    FailureView,
> {
    block_of(kafka_pods(kafka, bus), kafka_probes(kafka_prefix(kafka, bus)), false)
}

/// The block of the message bus, for the instances found under its two
/// names.
pub fn kafka_tasks(kafka: &Vec<WorkloadInstanceHandle>, bus: &Vec<WorkloadInstanceHandle>) -> (r:
    Result<Vec<CollectionTask>, Failure>)
    ensures
        batch_view(r) == kafka_block(kafka.deep_view(), bus.deep_view()),
{
    let empty = String::new();
    let prefix = if bus.len() == 0 && kafka.len() > 0 {
        "bin/"
    } else {
        empty.as_str()
    };
    assert(prefix@ =~= kafka_prefix(kafka.deep_view(), bus.deep_view()));
    let pods = if kafka.len() > 0 {
        kafka
    } else {
        bus
    };
    let mut probes: Vec<Probe> = Vec::new();
    push_probe(
        &mut probes,
        cat2(prefix, "kafka-topics.sh --bootstrap-server localhost:9092 --list"),
        String::from_str("kafka_topics.log"),
    );
    push_probe(
        &mut probes,
        cat2(prefix, "kafka-topics.sh --bootstrap-server localhost:9092 --describe"),
        String::from_str("kafka_topics_description.log"),
    );
    push_probe(
        &mut probes,
        cat2(prefix, "kafka-consumer-groups.sh --bootstrap-server localhost:9092 --list"),
        String::from_str("kafka_groups_list.log"),
    );
    push_probe(
        &mut probes,
        cat2(
            prefix,
            "kafka-broker-api-versions.sh --bootstrap-server localhost:9092 | awk '/^[a-z]/ {print $1}'",
        ),
        String::from_str("kafka_brokers_list.log"),
    );
    push_probe(
        &mut probes,
        cat2(
            prefix,
            "kafka-consumer-groups.sh --bootstrap-server localhost:9092 --describe --all-groups",
        ),
        String::from_str("kafka_groups_describe.log"),
    );
    assert(probes.deep_view() =~= kafka_probes(prefix@));
    block(pods, &probes, false)
}

/// The part of the monitoring address that names the deployment: the first
/// of three known names that the instance's name holds, and the instance's
/// namespace where it holds none.
pub open spec fn prometheus_path(pod: HandleView) -> Seq<char> {
    if occurs_in("midlayer"@, pod.name) {
        "midlayer"@
    } else if occurs_in("session"@, pod.name) {
        "session"@
    } else if occurs_in("titan-ns"@, pod.name) {
        "titan-ns"@
    } else {
        pod.namespace
    }
}

/// One request to the monitoring service.
pub open spec fn prometheus_probe(pod: HandleView, request: Seq<char>, name: Seq<char>) -> ProbeView {
    ProbeView {
        script: "wget -q 'http://127.0.0.1:9090/"@ + prometheus_path(pod) + "/prometheus/api/v1/"@
            + request + "' -O -"@,
        filename: "prometheus_"@ + pod.namespace + "_"@ + name,
    }
}

/// The requests to the monitoring service that runs as `pod`.
pub open spec fn prometheus_probes(pod: HandleView) -> Seq<ProbeView> {
    seq![
        prometheus_probe(pod, "rules"@, "rules.json"@),
        prometheus_probe(pod, "alerts"@, "alerts.json"@),
        prometheus_probe(pod, "targets"@, "targets.json"@),
        prometheus_probe(pod, "status/runtimeinfo"@, "runtime_info.json"@),
        prometheus_probe(pod, "status/buildinfo"@, "build_info.json"@),
    ]
}

/// The block of the monitoring service. Its answers are JSON and are laid
/// out anew.
pub open spec fn prometheus_block(pods: Seq<HandleView>) -> Result<Seq<TaskView>, FailureView> {
    if pods.len() == 0 {
        Ok(Seq::empty())
    } else {
        block_of(pods, prometheus_probes(pods[0]), true)
    }
}

fn push_prometheus_probe(
    out: &mut Vec<Probe>,
    pod: &WorkloadInstanceHandle,
    path: &str,
    request: &str,
    name: &str,
)
    requires
        path@ == prometheus_path(pod@),
    ensures
        final(out).deep_view() == old(out).deep_view().push(
            prometheus_probe(pod@, request@, name@),
        ),
{
    let mut script = String::from_str("wget -q 'http://127.0.0.1:9090/");
    script.append(path);
    script.append("/prometheus/api/v1/");
    script.append(request);
    script.append("' -O -");
    push_probe(out, script, cat4("prometheus_", pod.namespace.as_str(), "_", name));
}

/// The block of the monitoring service, for the instances that were found.
pub fn prometheus_tasks(pods: &Vec<WorkloadInstanceHandle>) -> (r: Result<
    Vec<CollectionTask>,
    Failure,
>)
    ensures
        batch_view(r) == prometheus_block(pods.deep_view()),
{
    let mut probes: Vec<Probe> = Vec::new();
    if pods.len() == 0 {
        return block(pods, &probes, true);
    }
    let pod = &pods[0];
    assert(pods.deep_view()[0] == pod@);
    let name = pod.name.as_str();
    let path = if contains(name, "midlayer") {
        "midlayer"
    } else if contains(name, "session") {
        "session"
    } else if contains(name, "titan-ns") {
        "titan-ns"
    } else {
        pod.namespace.as_str()
    };
    push_prometheus_probe(&mut probes, pod, path, "rules", "rules.json");
    push_prometheus_probe(&mut probes, pod, path, "alerts", "alerts.json");
    push_prometheus_probe(&mut probes, pod, path, "targets", "targets.json");
    push_prometheus_probe(&mut probes, pod, path, "status/runtimeinfo", "runtime_info.json");
    push_prometheus_probe(&mut probes, pod, path, "status/buildinfo", "build_info.json");
    assert(probes.deep_view() =~= prometheus_probes(pod@));
    block(pods, &probes, true)
}

/// One driver of the streaming engine, with the application it runs.
#[derive(Clone, Debug, PartialEq, Eq)]
pub struct Driver {
    pub pod: WorkloadInstanceHandle,
    /// What the driver answered when it was asked for its application.
    pub application_id: String,
}

/// A driver as plain mathematical values.
pub struct DriverView {
    pub pod: HandleView,
    pub application_id: Seq<char>,
}

impl DeepView for Driver {
    type V = DriverView;

    open spec fn deep_view(&self) -> DriverView {
        DriverView { pod: self.pod@, application_id: self.application_id@ }
    }
}

/// The driver `pod` with the application it runs, from what it answered
/// when it was asked: the text of the answer names the application. A
/// driver that could not be asked is a failure.
pub open spec fn identified(pod: HandleView, answer: InvocationView) -> Result<
    DriverView,
    FailureView,
> {
    match answer {
        InvocationView::Finished { stdout, .. } => Ok(
            DriverView { pod, application_id: output_text(seq![stdout]) },
        ),
        InvocationView::Failed(reason) => Err(
            FailureView::Invocation(pod.name + ": "@ + reason),
        ),
    }
}

impl Driver {
    /// The driver `pod` with the application it runs, from what it
    /// answered when it was asked.
    pub fn identify(pod: WorkloadInstanceHandle, answer: Invocation) -> (r: Result<
        Driver,
        Failure,
    >)
        ensures
            match identified(pod@, answer@) {
                Ok(driver) => r matches Ok(d) && d.deep_view() == driver,
                Err(failure) => r matches Err(f) && f@ == failure,
            },
    {
        match answer {
            Invocation::Finished { stdout, .. } => {
                let ghost bytes = stdout@;
                let mut answer: Vec<Vec<u8>> = Vec::new();
                answer.push(stdout);
                proof {
                    assert(answer.deep_view()[0] =~= bytes);
                    assert(answer.deep_view() =~= seq![bytes]);
                }
                Ok(Driver { pod, application_id: get_output(&answer) })
            },
            Invocation::Failed(reason) => Err(
                Failure::Invocation(cat3(pod.name.as_str(), ": ", reason.as_str())),
            ),
        }
    }
}

/// The command that asks a driver for the application it runs.
pub open spec fn application_query() -> Seq<char> {
    "curl -s localhost:4040/api/v1/applications | jq -r  '.[0] | .id' | tr -d '\n'"@
}

/// One request to a driver about its application.
pub open spec fn driver_probe(driver: DriverView, request: Seq<char>, name: Seq<char>) -> ProbeView {
    ProbeView {
        script: "curl \"localhost:4040/api/v1/applications/"@ + driver.application_id + "/"@
            + request + "\""@,
        filename: driver.pod.name + "_"@ + name,
    }
}

/// The requests to one driver.
pub open spec fn driver_probes(driver: DriverView) -> Seq<ProbeView> {
    seq![
        driver_probe(driver, "environment"@, "environment.json"@),
        driver_probe(driver, "executors"@, "executors.json"@),
        driver_probe(driver, "streaming/statistics"@, "streaming_statistics.json"@),
        driver_probe(driver, "streaming/batches"@, "streaming_batches.json"@),
    ]
}

/// The tasks of one driver. Its answers are JSON and are laid out anew.
pub open spec fn driver_block(driver: DriverView) -> Result<Seq<TaskView>, FailureView> {
    block_of(seq![driver.pod], driver_probes(driver), true)
}

/// The block of the streaming engine: the tasks of each driver, driver by
/// driver; the failure of the first driver that has one.
pub open spec fn streaming_core_block(drivers: Seq<DriverView>) -> Result<
    Seq<TaskView>,
    FailureView,
>
    decreases drivers.len(),
{
    if drivers.len() == 0 {
        Ok(Seq::empty())
    } else {
        match streaming_core_block(drivers.drop_last()) {
            Err(failure) => Err(failure),
            Ok(tasks) => match driver_block(drivers.last()) {
                Err(failure) => Err(failure),
                Ok(more) => Ok(tasks + more),
            },
        }
    }
}

/// The retrieval that asks the driver `pod` for the application it runs.
pub fn application_query_of(pod: &WorkloadInstanceHandle) -> (r: Result<Retrieval, Failure>)
    ensures
        pod@.containers.len() == 0 ==> (r matches Err(e) && e@ == no_container(pod@)),
        pod@.containers.len() > 0 ==> (r matches Ok(retrieval) && retrieval.deep_view()
            == shell_in(pod@, pod@.containers[0], application_query())),
{
    shell_in_first_container(
        pod,
        "curl -s localhost:4040/api/v1/applications | jq -r  '.[0] | .id' | tr -d '\n'",
    )
}

fn push_driver_probe(out: &mut Vec<Probe>, driver: &Driver, request: &str, name: &str)
    ensures
        final(out).deep_view() == old(out).deep_view().push(
            driver_probe(driver.deep_view(), request@, name@),
        ),
{
    let mut script = String::from_str("curl \"localhost:4040/api/v1/applications/");
    script.append(driver.application_id.as_str());
    script.append("/");
    script.append(request);
    script.append("\"");
    push_probe(out, script, cat3(driver.pod.name.as_str(), "_", name));
}

fn driver_tasks(driver: &Driver) -> (r: Result<Vec<CollectionTask>, Failure>)
    ensures
        batch_view(r) == driver_block(driver.deep_view()),
{
    let mut probes: Vec<Probe> = Vec::new();
    push_driver_probe(&mut probes, driver, "environment", "environment.json");
    push_driver_probe(&mut probes, driver, "executors", "executors.json");
    push_driver_probe(&mut probes, driver, "streaming/statistics", "streaming_statistics.json");
    push_driver_probe(&mut probes, driver, "streaming/batches", "streaming_batches.json");
    assert(probes.deep_view() =~= driver_probes(driver.deep_view()));
    let mut pods: Vec<WorkloadInstanceHandle> = Vec::new();
    pods.push(
        WorkloadInstanceHandle {
            name: driver.pod.name.clone(),
            namespace: driver.pod.namespace.clone(),
            capability: driver.pod.capability,
            containers: clone_texts(&driver.pod.containers),
        },
    );
    assert(pods.deep_view() =~= seq![driver.pod@]);
    block(&pods, &probes, true)
}

/// The block of the streaming engine, for the drivers that were found and
/// asked.
pub fn streaming_core_tasks(drivers: &Vec<Driver>) -> (r: Result<Vec<CollectionTask>, Failure>)
    ensures
        batch_view(r) == streaming_core_block(drivers.deep_view()),
{
    let mut out: Vec<CollectionTask> = Vec::new();
    let mut i: usize = 0;
    assert(out.deep_view() =~= Seq::<TaskView>::empty());
    assert(drivers.deep_view().take(0).len() == 0);
    while i < drivers.len()
        invariant
            i <= drivers.len(),
            streaming_core_block(drivers.deep_view().take(i as int)) == Ok::<
                Seq<TaskView>,
                FailureView,
            >(out.deep_view()),
        decreases drivers.len() - i,
    {
        proof {
            lemma_take_step(drivers.deep_view(), i as int);
            assert(drivers.deep_view()[i as int] == drivers[i as int].deep_view());
        }
        match driver_tasks(&drivers[i]) {
            Err(failure) => {
                proof {
                    lemma_failure_stays(drivers.deep_view(), i + 1);
                }
                return Err(failure);
            },
            Ok(more) => {
                extend_tasks(&mut out, more);
            },
        }
        i += 1;
    }
    proof {
        assert(drivers.deep_view().take(drivers.len() as int) =~= drivers.deep_view());
    }
    Ok(out)
}

/// A block that has failed for the first `n` drivers fails for all of them,
/// in the same way.
pub proof fn lemma_failure_stays(drivers: Seq<DriverView>, n: int)
    requires
        0 <= n <= drivers.len(),
        streaming_core_block(drivers.take(n)) is Err,
    ensures
        streaming_core_block(drivers) == streaming_core_block(drivers.take(n)),
    decreases drivers.len(),
{
    if n < drivers.len() {
        assert(drivers.drop_last().take(n) =~= drivers.take(n));
        lemma_failure_stays(drivers.drop_last(), n);
    } else {
        assert(drivers.take(n) =~= drivers);
    }
}

} // verus!
