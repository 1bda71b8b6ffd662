use flate2::read::GzDecoder;
use flate2::write::GzEncoder;
use flate2::Compression;
use logpv2::archive::ArchiveAction;
use logpv2::archive::Stage;
use logpv2::catalog::elasticsearch_tasks;
use logpv2::catalog::hadoop_tasks;
use logpv2::catalog::hbase_tasks;
use logpv2::catalog::kafka_tasks;
use logpv2::catalog::prometheus_tasks;
use logpv2::catalog::streaming_core_tasks;
use logpv2::config::ConfigFile;
use logpv2::layout::staging_tree;
use logpv2::layout::Category;
use logpv2::layout::StagingTree;
use logpv2::outcome::CollectionResult;
use logpv2::output::Invocation;
use logpv2::phase::Executor;
use logpv2::phase::Phase;
use logpv2::plan::log_tasks;
use logpv2::plan::pod_tasks;
use logpv2::resolve::get_pod_list;
use logpv2::resolve::Listing;
use logpv2::resolve::PodEntry;
use logpv2::schedule::Found;
use logpv2::services::batch_or_report;
use logpv2::task::CollectionTask;
use logpv2::task::Retrieval;
use std::collections::BTreeMap;
use std::io::Read;

fn two_namespaces() -> ConfigFile {
    ConfigFile {
        context_name: "prod".to_string(),
        context_namespace: vec!["alpha".to_string(), "beta".to_string()],
        output_directory_path: "/out/".to_string(),
        previous_logs: false,
        current_logs: true,
        non_exfo_kafka_product_kubernetes_label: String::new(),
    }
}

fn one_instance_each() -> Vec<Listing> {
    vec![
        Listing::Found(vec![PodEntry {
            name: "web-0".to_string(),
            namespace: "alpha".to_string(),
            containers: vec!["nginx".to_string()],
        }]),
        Listing::Found(vec![PodEntry {
            name: "db-0".to_string(),
            namespace: "beta".to_string(),
            containers: vec!["postgres".to_string()],
        }]),
    ]
}

fn nothing_found() -> Vec<Listing> {
    vec![Listing::Found(Vec::new()), Listing::Found(Vec::new())]
}

/// Runs the batch of the present phase: every task prints its own file
/// name, and every write goes well. The tasks end in reverse order.
fn run_batch(executor: &mut Executor, tree: &StagingTree, files: &mut BTreeMap<String, Vec<u8>>) {
    for index in (0..executor.len()).rev() {
        let output = executor.task(index).unwrap().filename.clone().into_bytes();
        let invocation = Invocation::Finished { stdout: output, stderr: Vec::new() };
        assert!(executor.retrieved(index, tree, invocation).is_empty());
        let append = executor.pending_write(index).unwrap().clone();
        files.entry(append.path).or_default().extend_from_slice(&append.bytes);
        assert!(executor.written(index, Ok(())).is_some());
    }
}

fn scenario_block(block: Result<Vec<CollectionTask>, logpv2::outcome::Failure>) -> Vec<CollectionTask> {
    let (tasks, record) = batch_or_report(block);
    assert_eq!(record, None);
    tasks
}

#[test]
fn two_namespaces_with_one_instance_each() {
    let config = two_namespaces();
    let pods = get_pod_list(&one_instance_each()).unwrap();
    assert_eq!(pods.len(), 2);

    let commands = pod_tasks(&config, &pods);
    let listings = commands
        .iter()
        .filter(|t| matches!(&t.retrieval, Retrieval::Command { args, .. } if args[0] == "get"))
        .count();
    let descriptions = commands
        .iter()
        .filter(|t| matches!(&t.retrieval, Retrieval::Command { args, .. } if args[0] == "describe"))
        .count();
    assert_eq!(listings, 4);
    assert_eq!(descriptions, 2);
    assert_eq!(commands.len(), 6);

    let current = log_tasks(&config, &pods, false);
    let previous = log_tasks(&config, &pods, true);
    assert_eq!(current.len(), 2);
    assert!(current
        .iter()
        .all(|t| matches!(&t.retrieval, Retrieval::Logs { previous: false, .. })));
    assert_eq!(previous.len(), 0);

    assert!(commands.iter().chain(current.iter()).all(|t| t.category == Category::Pods));

    let none = get_pod_list(&nothing_found()).unwrap();
    let service_tasks = [
        scenario_block(elasticsearch_tasks(&none, &Vec::new())),
        scenario_block(streaming_core_tasks(&Vec::new())),
        scenario_block(hadoop_tasks(&none)),
        scenario_block(hbase_tasks(&none)),
        scenario_block(kafka_tasks(&none, &none)),
        scenario_block(prometheus_tasks(&none)),
    ];
    assert!(service_tasks.iter().all(|tasks| tasks.is_empty()));
}

#[test]
fn a_whole_run_writes_under_pods_and_nothing_under_apps() {
    let config = two_namespaces();
    let tree = staging_tree(&config, "20240102030405", "/work");
    let none = get_pod_list(&nothing_found()).unwrap();
    let mut found = Found::nothing();
    found.pods = get_pod_list(&one_instance_each()).unwrap();
    found.nodes = vec!["node-1".to_string()];
    for service in [found.elasticsearch.clone(), found.hadoop.clone(), found.prometheus.clone()] {
        assert_eq!(service, none);
    }
    assert!(!found.credentials_wanted());
    let mut files: BTreeMap<String, Vec<u8>> = BTreeMap::new();

    let mut executor = Executor::begin(&config, &found);
    let mut results: Vec<CollectionResult> = Vec::new();
    loop {
        run_batch(&mut executor, &tree, &mut files);
        match executor.advance(&config, "/k", &found) {
            Some(handover) => {
                assert_eq!(handover.report, None);
                results.extend(handover.results);
            }
            None => break,
        }
    }
    assert_eq!(executor.phase(), Phase::Archiving);
    assert_eq!(results.len(), 6 + 2 + 5 + 1);
    assert!(results.iter().all(|r| matches!(r, CollectionResult::Success(_))));

    let under = |folder: &String| files.keys().filter(|p| p.starts_with(&format!("{}/", folder))).count();
    assert_eq!(under(&tree.pods), 8);
    assert_eq!(under(&tree.infra), 5);
    assert_eq!(under(&tree.helm), 1);
    assert_eq!(under(&tree.apps), 0);
    assert_eq!(
        files["/out/info_prod_20240102030405/pods/logs_current_alpha_web-0_nginx.log"],
        b"logs_current_alpha_web-0_nginx.log".to_vec()
    );
    assert_eq!(
        files["/out/info_prod_20240102030405/pods/beta_db-0.description"],
        b"beta_db-0.description".to_vec()
    );
}

#[test]
fn the_archive_unpacks_to_the_staging_tree_and_the_log() {
    let config = two_namespaces();
    let tree = staging_tree(&config, "20240102030405", "/work");
    let mut files: BTreeMap<String, Vec<u8>> = BTreeMap::new();
    files.insert(format!("{}/kubernetes_pods_alpha.list", tree.pods), b"NAME READY\n".to_vec());
    files.insert(format!("{}/kubernetes_nodes.list", tree.infra), vec![0, 1, 2, 255]);
    files.insert(format!("{}/elastic_search_health.json", tree.apps), b"{}".to_vec());
    let log = b"12:00 Starting Log collection...\n".to_vec();

    let empty_config = ConfigFile::default();
    let nothing = Found::nothing();
    let mut scratch: BTreeMap<String, Vec<u8>> = BTreeMap::new();
    let mut executor = Executor::begin(&empty_config, &nothing);
    loop {
        run_batch(&mut executor, &tree, &mut scratch);
        if executor.advance(&empty_config, "/k", &nothing).is_none() {
            break;
        }
    }
    let mut archiver =
        executor.archiver(&tree, "output_antlog_gather_tool_20240102030405.log").unwrap();
    let mut builder = None;
    let mut archive: Vec<u8> = Vec::new();
    let mut staging_removed = false;
    while archiver.stage() != Stage::Done {
        let outcome: Result<(), String> = match archiver.action() {
            ArchiveAction::Create { path } => {
                assert_eq!(path, "/out/info_prod_20240102030405.tar.gz");
                builder = Some(tar::Builder::new(GzEncoder::new(Vec::new(), Compression::default())));
                Ok(())
            }
            ArchiveAction::AddTree { name, source } => {
                let builder = builder.as_mut().unwrap();
                for (path, bytes) in &files {
                    let relative = path.strip_prefix(&format!("{}/", source)).unwrap();
                    let mut header = tar::Header::new_gnu();
                    header.set_size(bytes.len() as u64);
                    header.set_mode(0o644);
                    builder
                        .append_data(&mut header, format!("{}/{}", name, relative), &bytes[..])
                        .unwrap();
                }
                Ok(())
            }
            ArchiveAction::AddLog { name, .. } => {
                let mut header = tar::Header::new_gnu();
                header.set_size(log.len() as u64);
                header.set_mode(0o644);
                builder.as_mut().unwrap().append_data(&mut header, name, &log[..]).unwrap();
                Ok(())
            }
            ArchiveAction::Finish => {
                archive = builder.take().unwrap().into_inner().unwrap().finish().unwrap();
                Ok(())
            }
            ArchiveAction::RemoveStaging { path } => {
                assert_eq!(path, tree.staging_root);
                assert!(!archive.is_empty());
                staging_removed = true;
                Ok(())
            }
            ArchiveAction::Stop => panic!("the archive has failed"),
        };
        archiver.step(outcome);
    }
    assert!(staging_removed);

    let mut unpacked: BTreeMap<String, Vec<u8>> = BTreeMap::new();
    let mut reader = tar::Archive::new(GzDecoder::new(&archive[..]));
    for entry in reader.entries().unwrap() {
        let mut entry = entry.unwrap();
        let path = entry.path().unwrap().to_string_lossy().into_owned();
        let mut bytes = Vec::new();
        entry.read_to_end(&mut bytes).unwrap();
        unpacked.insert(path, bytes);
    }
    let mut expected: BTreeMap<String, Vec<u8>> = BTreeMap::new();
    expected.insert(
        "info_prod_20240102030405/pods/kubernetes_pods_alpha.list".to_string(),
        b"NAME READY\n".to_vec(),
    );
    expected.insert(
        "info_prod_20240102030405/infra/kubernetes_nodes.list".to_string(),
        vec![0, 1, 2, 255],
    );
    expected.insert(
        "info_prod_20240102030405/apps/elastic_search_health.json".to_string(),
        b"{}".to_vec(),
    );
    expected.insert("output_antlog_gather_tool_20240102030405.log".to_string(), log.clone());
    assert_eq!(unpacked, expected);
}
