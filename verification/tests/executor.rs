use logpv2::config::ConfigFile;
use logpv2::executor::PhaseRun;
use logpv2::layout::staging_tree;
use logpv2::layout::Category;
use logpv2::layout::StagingTree;
use logpv2::outcome::CollectionResult;
use logpv2::outcome::Failure;
use logpv2::outcome::Level;
use logpv2::outcome::LogRecord;
use logpv2::output::Append;
use logpv2::output::Invocation;
use logpv2::phase::Executor;
use logpv2::phase::Handover;
use logpv2::phase::Phase;
use logpv2::plan::log_tasks;
use logpv2::plan::pod_tasks;
use logpv2::resolve::WorkloadInstanceHandle;
use logpv2::schedule::batch_of;
use logpv2::schedule::Found;
use logpv2::task::CollectionTask;
use logpv2::task::Retrieval;

fn run_tree() -> StagingTree {
    let config = ConfigFile {
        context_name: "ctx".to_string(),
        output_directory_path: "/o".to_string(),
        ..ConfigFile::default()
    };
    staging_tree(&config, "d", "/w")
}

fn run_task(name: &str, category: Category) -> CollectionTask {
    CollectionTask {
        retrieval: Retrieval::Command { program: name.to_string(), args: Vec::new() },
        category,
        filename: format!("{}.out", name),
        pretty: false,
    }
}

fn printed(text: &str) -> Invocation {
    Invocation::Finished { stdout: text.as_bytes().to_vec(), stderr: Vec::new() }
}

#[test]
fn a_fresh_batch_waits_for_every_task() {
    let run = PhaseRun::start(vec![run_task("slow", Category::Pods), run_task("fast", Category::Pods)]);
    assert_eq!(run.len(), 2);
    assert!(!run.is_complete());
    assert_eq!(run.task(1), Some(&run_task("fast", Category::Pods)));
    assert_eq!(run.task(2), None);
    assert_eq!(run.pending_write(0), None);
    assert!(run.finish().is_err());
}

#[test]
fn an_empty_batch_is_over_at_once() {
    let run = PhaseRun::start(Vec::new());
    assert!(run.is_complete());
    assert_eq!(run.finish().ok(), Some(Vec::new()));
}

#[test]
fn a_task_goes_from_retrieval_to_write_to_result() {
    let tree = run_tree();
    let mut run = PhaseRun::start(vec![run_task("one", Category::Infra)]);
    assert_eq!(run.retrieved(0, &tree, printed("data")), Vec::new());
    assert_eq!(
        run.pending_write(0),
        Some(&Append { path: "/o/info_ctx_d/infra/one.out".to_string(), bytes: b"data".to_vec() })
    );
    assert!(!run.is_complete());
    assert_eq!(
        run.written(0, Ok(())),
        Some(LogRecord {
            level: Level::Info,
            message: "File has been created /o/info_ctx_d/infra/one.out".to_string()
        })
    );
    assert_eq!(run.pending_write(0), None);
    assert!(run.is_complete());
    assert_eq!(run.finish().ok(), Some(vec![CollectionResult::Success(b"data".to_vec())]));
}

#[test]
fn each_category_writes_to_its_own_folder() {
    let tree = run_tree();
    let mut run = PhaseRun::start(vec![
        run_task("a", Category::Pods),
        run_task("b", Category::Helm),
        run_task("c", Category::Apps),
    ]);
    for index in 0..3 {
        run.retrieved(index, &tree, printed("x"));
    }
    assert_eq!(run.pending_write(0).unwrap().path, "/o/info_ctx_d/pods/a.out");
    assert_eq!(run.pending_write(1).unwrap().path, "/o/info_ctx_d/helm/b.out");
    assert_eq!(run.pending_write(2).unwrap().path, "/o/info_ctx_d/apps/c.out");
}

#[test]
fn a_failed_task_does_not_touch_its_siblings() {
    let tree = run_tree();
    let mut run = PhaseRun::start(vec![
        run_task("bad", Category::Pods),
        run_task("empty", Category::Pods),
        run_task("good", Category::Pods),
        run_task("unwritable", Category::Pods),
    ]);
    assert_eq!(
        run.retrieved(0, &tree, Invocation::Failed("failed to start".to_string())),
        vec![LogRecord { level: Level::Warn, message: "bad: failed to start".to_string() }]
    );
    assert_eq!(
        run.retrieved(1, &tree, printed("")),
        vec![LogRecord {
            level: Level::Warn,
            message: "kubectl command empty response empty".to_string()
        }]
    );
    assert_eq!(run.retrieved(2, &tree, printed("fine")), Vec::new());
    assert_eq!(run.retrieved(3, &tree, printed("lost")), Vec::new());
    assert_eq!(run.written(0, Ok(())), None);
    assert_eq!(run.written(1, Ok(())), None);
    assert!(run.written(2, Ok(())).is_some());
    assert_eq!(
        run.written(3, Err("disk full".to_string())),
        Some(LogRecord {
            level: Level::Warn,
            message: "/o/info_ctx_d/pods/unwritable.out: disk full".to_string()
        })
    );
    assert_eq!(
        run.finish().ok(),
        Some(vec![
            CollectionResult::Failed(Failure::Invocation("bad: failed to start".to_string())),
            CollectionResult::Failed(Failure::EmptyOutput(
                "kubectl command empty response empty".to_string()
            )),
            CollectionResult::Success(b"fine".to_vec()),
            CollectionResult::Failed(Failure::Write(
                "/o/info_ctx_d/pods/unwritable.out: disk full".to_string()
            )),
        ])
    );
}

#[test]
fn results_stand_in_the_order_of_the_tasks_whatever_ended_first() {
    let tree = run_tree();
    let mut run = PhaseRun::start(vec![run_task("slow", Category::Pods), run_task("fast", Category::Pods)]);
    run.retrieved(1, &tree, printed("fast output"));
    run.written(1, Ok(()));
    assert!(!run.is_complete());
    run.retrieved(0, &tree, printed("slow output"));
    run.written(0, Ok(()));
    assert_eq!(
        run.finish().ok(),
        Some(vec![
            CollectionResult::Success(b"slow output".to_vec()),
            CollectionResult::Success(b"fast output".to_vec()),
        ])
    );
}

#[test]
fn reports_out_of_turn_change_nothing() {
    let tree = run_tree();
    let mut run = PhaseRun::start(vec![run_task("one", Category::Pods)]);
    assert_eq!(run.written(0, Ok(())), None);
    assert_eq!(run.retrieved(5, &tree, printed("x")), Vec::new());
    assert_eq!(run.written(5, Ok(())), None);
    run.retrieved(0, &tree, printed("first"));
    assert_eq!(run.retrieved(0, &tree, printed("second")), Vec::new());
    assert_eq!(run.pending_write(0).unwrap().bytes, b"first".to_vec());
    run.written(0, Ok(()));
    assert_eq!(run.written(0, Err("late".to_string())), None);
    assert_eq!(run.retrieved(0, &tree, printed("third")), Vec::new());
    assert_eq!(run.finish().ok(), Some(vec![CollectionResult::Success(b"first".to_vec())]));
}

fn two_pods() -> (ConfigFile, Found) {
    let config = ConfigFile {
        context_name: "ctx".to_string(),
        context_namespace: vec!["a".to_string()],
        output_directory_path: "/o".to_string(),
        current_logs: true,
        ..ConfigFile::default()
    };
    let mut found = Found::nothing();
    found.pods = vec![WorkloadInstanceHandle {
        name: "web-0".to_string(),
        namespace: "a".to_string(),
        capability: 0,
        containers: vec!["main".to_string()],
    }];
    found.nodes = vec!["node-1".to_string()];
    (config, found)
}

fn finish_batch(executor: &mut Executor, tree: &StagingTree) {
    for index in 0..executor.len() {
        executor.retrieved(index, tree, printed("x"));
        executor.written(index, Ok(()));
    }
}

#[test]
fn the_next_phase_waits_for_the_slow_task() {
    let tree = run_tree();
    let (config, found) = two_pods();
    let mut executor = Executor::begin(&config, &found);
    assert_eq!(executor.phase(), Phase::PodDiagnostics);
    assert_eq!(executor.len(), 3);
    assert_eq!(executor.task(2), pod_tasks(&config, &found.pods).get(2));

    // The fast tasks end; the slow one, at the front, has not.
    for fast in [1, 2] {
        executor.retrieved(fast, &tree, printed("fast output"));
        executor.written(fast, Ok(()));
    }
    assert_eq!(executor.advance(&config, "/k", &found), None);
    assert_eq!(executor.phase(), Phase::PodDiagnostics);
    assert_eq!(executor.len(), 3);
    assert!(!executor.is_complete());

    // Its retrieval is over, its write is not.
    executor.retrieved(0, &tree, printed("slow output"));
    assert_eq!(executor.advance(&config, "/k", &found), None);
    assert_eq!(executor.phase(), Phase::PodDiagnostics);
    assert!(executor.pending_write(0).is_some());

    executor.written(0, Ok(()));
    assert!(executor.is_complete());
    assert_eq!(
        executor.advance(&config, "/k", &found),
        Some(Handover {
            results: vec![
                CollectionResult::Success(b"slow output".to_vec()),
                CollectionResult::Success(b"fast output".to_vec()),
                CollectionResult::Success(b"fast output".to_vec()),
            ],
            report: None,
        })
    );
    assert_eq!(executor.phase(), Phase::CurrentLogs);
    assert_eq!(executor.len(), 1);
    assert_eq!(executor.task(0), log_tasks(&config, &found.pods, false).first());
    assert!(!executor.is_complete());
}

#[test]
fn each_phase_runs_the_batch_planned_for_it() {
    let tree = run_tree();
    let (config, mut found) = two_pods();
    found.hadoop = found.pods.clone();
    let mut executor = Executor::begin(&config, &found);
    let mut phase = Phase::PodDiagnostics;
    loop {
        let planned = batch_of(phase, &config, "/k", &found).unwrap();
        assert_eq!(executor.phase(), phase);
        assert_eq!(executor.len(), planned.len());
        for (index, task) in planned.iter().enumerate() {
            assert_eq!(executor.task(index), Some(task));
        }
        assert_eq!(executor.archiver(&tree, "run.log").is_some(), phase == Phase::Archiving);
        finish_batch(&mut executor, &tree);
        match phase.next() {
            Some(next) => {
                let handover = executor.advance(&config, "/k", &found).unwrap();
                assert_eq!(handover.results.len(), planned.len());
                assert_eq!(handover.report, None);
                phase = next;
            }
            None => break,
        }
    }
    assert_eq!(phase, Phase::Archiving);
    assert_eq!(executor.advance(&config, "/k", &found), None);
    assert_eq!(executor.phase(), Phase::Archiving);
    assert!(executor.archiver(&tree, "run.log").is_some());
}

#[test]
fn a_failed_block_leaves_its_phase_without_a_batch() {
    let tree = run_tree();
    let (config, mut found) = two_pods();
    found.hbase = vec![WorkloadInstanceHandle {
        name: "bare".to_string(),
        namespace: "a".to_string(),
        capability: 0,
        containers: Vec::new(),
    }];
    let mut executor = Executor::begin(&config, &found);
    while executor.phase() != Phase::Hadoop {
        finish_batch(&mut executor, &tree);
        executor.advance(&config, "/k", &found).unwrap();
    }
    finish_batch(&mut executor, &tree);
    let handover = executor.advance(&config, "/k", &found).unwrap();
    assert_eq!(executor.phase(), Phase::HBase);
    assert_eq!(executor.len(), 0);
    assert_eq!(
        handover.report,
        Some(LogRecord { level: Level::Warn, message: "No container found on bare".to_string() })
    );
    assert!(executor.advance(&config, "/k", &found).is_some());
    assert_eq!(executor.phase(), Phase::MessageBus);
}

#[test]
fn the_archive_waits_for_the_last_phase() {
    let tree = run_tree();
    let (config, found) = two_pods();
    let mut executor = Executor::begin(&config, &found);
    while executor.phase() != Phase::Archiving {
        assert!(executor.archiver(&tree, "run.log").is_none());
        finish_batch(&mut executor, &tree);
        assert!(executor.archiver(&tree, "run.log").is_none());
        executor.advance(&config, "/k", &found).unwrap();
    }
    assert!(executor.is_complete());
    assert!(executor.archiver(&tree, "run.log").is_some());
    assert_eq!(Phase::Archiving.next(), None);
    assert_eq!(Phase::PodDiagnostics.next(), Some(Phase::CurrentLogs));
}
