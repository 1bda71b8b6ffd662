use logpv2::layout::Category;
use logpv2::outcome::CollectionResult;
use logpv2::outcome::Failure;
use logpv2::outcome::Level;
use logpv2::outcome::LogRecord;
use logpv2::output::conclude;
use logpv2::output::payload_of_layout;
use logpv2::output::process;
use logpv2::output::settle;
use logpv2::output::settle_output;
use logpv2::output::write_file;
use logpv2::output::Append;
use logpv2::output::Invocation;
use logpv2::output::Settlement;
use logpv2::output::Step;
use logpv2::text::cat2;
use logpv2::text::cat3;
use logpv2::text::cat4;
use logpv2::text::cat5;
use logpv2::text::join_spaced;
use logpv2::task::CollectionTask;
use logpv2::task::Retrieval;
use std::collections::HashMap;

fn command(pretty: bool) -> CollectionTask {
    CollectionTask {
        retrieval: Retrieval::Command {
            program: "kubectl".to_string(),
            args: vec!["get".to_string(), "pod".to_string(), "-n".to_string(), "a".to_string()],
        },
        category: Category::Pods,
        filename: "pods.list".to_string(),
        pretty,
    }
}

fn log_task() -> CollectionTask {
    CollectionTask {
        retrieval: Retrieval::Logs {
            pod: "web-0".to_string(),
            capability: 0,
            container: "main".to_string(),
            previous: true,
        },
        category: Category::Pods,
        filename: "logs_previous_a_web-0_main.log".to_string(),
        pretty: false,
    }
}

fn exec_task(pretty: bool) -> CollectionTask {
    CollectionTask {
        retrieval: Retrieval::Exec {
            pod: "es-0".to_string(),
            capability: 0,
            container: "es".to_string(),
            command: vec!["/bin/sh".to_string(), "-c".to_string(), "curl x".to_string()],
        },
        category: Category::Apps,
        filename: "x.json".to_string(),
        pretty,
    }
}

fn warn(message: &str) -> LogRecord {
    LogRecord { level: Level::Warn, message: message.to_string() }
}

fn apply(files: &mut HashMap<String, Vec<u8>>, step: &Step) {
    if let Step::Write(append) = step {
        files.entry(append.path.clone()).or_default().extend_from_slice(&append.bytes);
    }
}

#[test]
fn write_file_appends_output_to_the_file_of_the_task() {
    let error = Failure::EmptyOutput("nothing".to_string());
    assert_eq!(
        write_file("/o/pods", b"hello", "a.list", error),
        Ok(Append { path: "/o/pods/a.list".to_string(), bytes: b"hello".to_vec() })
    );
}

#[test]
fn write_file_rejects_empty_output_with_the_given_error() {
    let error = Failure::EmptyOutput("kubectl command empty response kubectl get pod".to_string());
    assert_eq!(write_file("/o/pods", b"", "a.list", error.clone()), Err(error));
    let other = Failure::Invocation("made up by the caller".to_string());
    assert_eq!(write_file("/o/pods", &[], "a.list", other.clone()), Err(other));
}

#[test]
fn write_file_keeps_bytes_that_are_not_text() {
    let error = Failure::EmptyOutput(String::new());
    assert_eq!(
        write_file("d", &[0, 159, 255], "f", error),
        Ok(Append { path: "d/f".to_string(), bytes: vec![0, 159, 255] })
    );
}

#[test]
fn output_written_twice_accumulates() {
    let mut files: HashMap<String, Vec<u8>> = HashMap::new();
    let task = command(false);
    for _ in 0..2 {
        let invocation = Invocation::Finished { stdout: b"row\n".to_vec(), stderr: Vec::new() };
        let settlement = settle(&task, "/o/pods", invocation);
        assert!(settlement.records.is_empty());
        apply(&mut files, &settlement.step);
    }
    assert_eq!(files.len(), 1);
    assert_eq!(files["/o/pods/pods.list"], b"row\nrow\n".to_vec());
}

#[test]
fn non_empty_output_reaches_its_file_unchanged() {
    let mut files: HashMap<String, Vec<u8>> = HashMap::new();
    files.insert("/o/pods/other".to_string(), b"kept".to_vec());
    let invocation = Invocation::Finished { stdout: vec![1, 2, 3], stderr: Vec::new() };
    let settlement = settle(&command(false), "/o/pods", invocation);
    assert_eq!(
        settlement,
        Settlement {
            step: Step::Write(Append { path: "/o/pods/pods.list".to_string(), bytes: vec![1, 2, 3] }),
            records: Vec::new(),
        }
    );
    apply(&mut files, &settlement.step);
    assert_eq!(files["/o/pods/pods.list"], vec![1, 2, 3]);
    assert_eq!(files["/o/pods/other"], b"kept".to_vec());
}

#[test]
fn empty_output_makes_no_file_and_one_warning() {
    let mut files: HashMap<String, Vec<u8>> = HashMap::new();
    let invocation = Invocation::Finished { stdout: Vec::new(), stderr: Vec::new() };
    let settlement = settle(&command(false), "/o/pods", invocation);
    let message = "kubectl command empty response kubectl get pod -n a";
    assert_eq!(
        settlement,
        Settlement {
            step: Step::Stop(Failure::EmptyOutput(message.to_string())),
            records: vec![warn(message)],
        }
    );
    apply(&mut files, &settlement.step);
    assert!(files.is_empty());
}

#[test]
fn empty_log_names_instance_and_container() {
    let invocation = Invocation::Finished { stdout: Vec::new(), stderr: Vec::new() };
    let settlement = settle(&log_task(), "/o/pods", invocation);
    let message = "No Log found web-0 on container main.";
    assert_eq!(settlement.step, Step::Stop(Failure::EmptyOutput(message.to_string())));
    assert_eq!(settlement.records, vec![warn(message)]);
}

#[test]
fn empty_exec_output_names_the_command() {
    let invocation = Invocation::Finished { stdout: Vec::new(), stderr: Vec::new() };
    let settlement = settle(&exec_task(false), "/o/apps", invocation);
    let message = "kubectl command empty response /bin/sh -c curl x";
    assert_eq!(settlement.step, Step::Stop(Failure::EmptyOutput(message.to_string())));
    assert_eq!(settlement.records, vec![warn(message)]);
}

#[test]
fn tasks_are_named_by_what_they_do() {
    assert_eq!(command(false).label(), "kubectl get pod -n a");
    assert_eq!(log_task().label(), "web-0 on container main");
    assert_eq!(exec_task(false).label(), "/bin/sh -c curl x");
    assert_eq!(command(false).describe_failure("timed out"), "kubectl get pod -n a: timed out");
    assert_eq!(log_task().describe_failure(""), "web-0 on container main: ");
}

#[test]
fn every_failure_names_its_task() {
    let invocations = [
        Invocation::Failed("boom".to_string()),
        Invocation::Finished { stdout: Vec::new(), stderr: Vec::new() },
        Invocation::Finished { stdout: vec![0xff], stderr: b"x".to_vec() },
    ];
    for task in [command(false), command(true), log_task(), exec_task(false), exec_task(true)] {
        for invocation in invocations.iter() {
            let settlement = settle(&task, "/o", invocation.clone());
            if let Step::Stop(failure) = &settlement.step {
                assert!(failure.message().contains(&task.label()));
                assert_eq!(settlement.records[0], warn(failure.message()));
            }
        }
    }
}

#[test]
fn describe_empty_output_of_a_command_without_arguments() {
    let task = CollectionTask {
        retrieval: Retrieval::Command { program: "helm".to_string(), args: Vec::new() },
        category: Category::Helm,
        filename: "f".to_string(),
        pretty: false,
    };
    assert_eq!(task.describe_empty_output(), "kubectl command empty response helm");
}

#[test]
fn complaints_are_warnings_and_never_failures() {
    let invocation =
        Invocation::Finished { stdout: b"out".to_vec(), stderr: b"deprecated flag".to_vec() };
    let settlement = settle(&command(false), "/o/pods", invocation);
    assert_eq!(
        settlement.step,
        Step::Write(Append { path: "/o/pods/pods.list".to_string(), bytes: b"out".to_vec() })
    );
    assert_eq!(settlement.records, vec![warn("deprecated flag")]);
}

#[test]
fn complaints_follow_the_report_of_a_failure() {
    let invocation = Invocation::Finished { stdout: Vec::new(), stderr: b"no such pod".to_vec() };
    let settlement = settle(&command(false), "/o/pods", invocation);
    assert_eq!(
        settlement.records,
        vec![warn("kubectl command empty response kubectl get pod -n a"), warn("no such pod")]
    );
}

#[test]
fn complaints_that_are_not_text_are_reported_with_replacements() {
    let invocation = Invocation::Finished { stdout: b"out".to_vec(), stderr: vec![b'a', 0xff, b'b'] };
    let settlement = settle(&command(false), "/o/pods", invocation);
    assert_eq!(settlement.records, vec![warn("a\u{fffd}b")]);
}

#[test]
fn failed_invocation_is_reported_and_writes_nothing() {
    let settlement =
        settle(&log_task(), "/o/pods", Invocation::Failed("previous terminated container not found".to_string()));
    assert_eq!(
        settlement,
        Settlement {
            step: Step::Stop(Failure::Invocation(
                "web-0 on container main: previous terminated container not found".to_string()
            )),
            records: vec![warn("web-0 on container main: previous terminated container not found")],
        }
    );
}

#[test]
fn process_keeps_plain_output_as_it_is() {
    assert_eq!(process(&command(false), b"{\"a\":1}".to_vec()), Ok(b"{\"a\":1}".to_vec()));
    assert_eq!(process(&command(false), vec![0xff]), Ok(vec![0xff]));
    assert_eq!(process(&command(false), Vec::new()), Ok(Vec::new()));
}

#[test]
fn process_lays_json_out_anew() {
    assert_eq!(
        process(&exec_task(true), b"{\"a\":1,\"b\":[1,2]}".to_vec()),
        Ok(b"{\n  \"a\": 1,\n  \"b\": [\n    1,\n    2\n  ]\n}".to_vec())
    );
}

#[test]
fn process_refuses_to_lay_out_what_is_not_text() {
    assert_eq!(
        process(&exec_task(true), vec![b'{', 0xff, b'}']),
        Err(Failure::Invocation("/bin/sh -c curl x: output is not text".to_string()))
    );
}

#[test]
fn blank_json_is_empty_output() {
    let invocation = Invocation::Finished { stdout: b" \n\t ".to_vec(), stderr: Vec::new() };
    let settlement = settle(&exec_task(true), "/o/apps", invocation);
    assert_eq!(
        settlement.step,
        Step::Stop(Failure::EmptyOutput(
            "kubectl command empty response /bin/sh -c curl x".to_string()
        ))
    );
}

#[test]
fn pretty_task_writes_the_new_layout() {
    let invocation = Invocation::Finished { stdout: b"[ ]".to_vec(), stderr: Vec::new() };
    let settlement = settle(&exec_task(true), "/o/apps", invocation);
    assert_eq!(
        settlement.step,
        Step::Write(Append { path: "/o/apps/x.json".to_string(), bytes: b"[]".to_vec() })
    );
}

#[test]
fn payload_of_layout_keeps_text_or_reason() {
    assert_eq!(payload_of_layout(&exec_task(true), Ok("é".to_string())), Ok(vec![0xc3, 0xa9]));
    assert_eq!(payload_of_layout(&exec_task(true), Ok(String::new())), Ok(Vec::new()));
    assert_eq!(
        payload_of_layout(&exec_task(true), Err("bad".to_string())),
        Err(Failure::Invocation("/bin/sh -c curl x: bad".to_string()))
    );
}

#[test]
fn settle_output_passes_a_processing_failure_on() {
    let settlement = settle_output(
        &exec_task(true),
        "/o/apps",
        Err(Failure::Invocation("broken".to_string())),
        Some("stderr text".to_string()),
    );
    assert_eq!(settlement.step, Step::Stop(Failure::Invocation("broken".to_string())));
    assert_eq!(settlement.records, vec![warn("broken"), warn("stderr text")]);
}

#[test]
fn conclude_reports_a_written_file() {
    let append = Append { path: "/o/pods/pods.list".to_string(), bytes: b"x".to_vec() };
    assert_eq!(
        conclude(append, Ok(())),
        (
            CollectionResult::Success(b"x".to_vec()),
            LogRecord {
                level: Level::Info,
                message: "File has been created /o/pods/pods.list".to_string()
            }
        )
    );
}

#[test]
fn conclude_reports_a_failed_write() {
    let append = Append { path: "/o/pods/pods.list".to_string(), bytes: b"x".to_vec() };
    assert_eq!(
        conclude(append, Err("disk full".to_string())),
        (
            CollectionResult::Failed(Failure::Write("/o/pods/pods.list: disk full".to_string())),
            warn("/o/pods/pods.list: disk full")
        )
    );
}

#[test]
fn conclude_never_keeps_an_empty_output() {
    let append = Append { path: "/o/pods/pods.list".to_string(), bytes: Vec::new() };
    assert_eq!(
        conclude(append.clone(), Ok(())),
        (
            CollectionResult::Failed(Failure::EmptyOutput(
                "/o/pods/pods.list: nothing to write".to_string()
            )),
            warn("/o/pods/pods.list: nothing to write")
        )
    );
    assert_eq!(
        conclude(append, Err("disk full".to_string())).0,
        CollectionResult::Failed(Failure::EmptyOutput(
            "/o/pods/pods.list: nothing to write".to_string()
        ))
    );
}

#[test]
fn failures_carry_their_text() {
    for failure in [
        Failure::EmptyOutput("m".to_string()),
        Failure::Invocation("m".to_string()),
        Failure::Resolution("m".to_string()),
        Failure::Write("m".to_string()),
    ] {
        assert_eq!(failure.message(), "m");
        assert_eq!(failure.record(), warn("m"));
    }
}

#[test]
fn texts_are_joined_in_order() {
    assert_eq!(cat2("a", "b"), "ab");
    assert_eq!(cat3("a", "", "c"), "ac");
    assert_eq!(cat4("a", "b", "c", "d"), "abcd");
    assert_eq!(cat5("a", "b", "c", "d", "e"), "abcde");
    assert_eq!(join_spaced(&vec!["a".to_string(), "b".to_string(), "c".to_string()]), "a b c");
    assert_eq!(join_spaced(&vec!["a".to_string()]), "a");
    assert_eq!(join_spaced(&Vec::new()), "");
}
