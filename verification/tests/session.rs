use logpv2::output::Invocation;
use logpv2::session::get_logs;
use logpv2::session::get_output;
use logpv2::session::send_command;
use logpv2::session::ExecOutput;
use logpv2::session::ExecRequest;
use logpv2::session::LogRequest;

#[test]
fn get_logs_asks_for_one_container() {
    assert_eq!(
        get_logs("web-0", "main", false),
        LogRequest {
            pod: "web-0".to_string(),
            container: "main".to_string(),
            pretty: true,
            previous: false,
        }
    );
    assert!(get_logs("web-0", "main", true).previous);
}

#[test]
fn send_command_captures_both_streams_without_a_terminal() {
    let command = vec!["/bin/sh".to_string(), "-c".to_string(), "ls".to_string()];
    assert_eq!(
        send_command("web-0", "main", &command),
        ExecRequest {
            pod: "web-0".to_string(),
            container: "main".to_string(),
            command: command.clone(),
            stdin: false,
            stdout: true,
            stderr: true,
            tty: false,
        }
    );
}

#[test]
fn get_output_joins_the_pieces_in_order() {
    let chunks = vec![b"hel".to_vec(), b"lo ".to_vec(), Vec::new(), "wörld".as_bytes().to_vec()];
    assert_eq!(get_output(&chunks), "hello wörld");
    assert_eq!(get_output(&Vec::new()), "");
}

#[test]
fn get_output_drops_pieces_that_are_not_text() {
    let chunks = vec![b"ab".to_vec(), vec![0xff, b'x'], b"cd".to_vec()];
    assert_eq!(get_output(&chunks), "abcd");
}

#[test]
fn get_output_gives_text_cut_inside_a_character_back_whole() {
    let split = "é".as_bytes();
    let chunks = vec![b"a".to_vec(), vec![split[0]], vec![split[1]], b"b".to_vec()];
    assert_eq!(get_output(&chunks), "aéb");
    let text = "naïve — 日本語 ✓";
    let bytes = text.as_bytes();
    for cut in 0..=bytes.len() {
        let chunks = vec![bytes[..cut].to_vec(), bytes[cut..].to_vec()];
        assert_eq!(get_output(&chunks), text);
    }
    for first in 0..=bytes.len() {
        for second in first..=bytes.len() {
            let chunks = vec![
                bytes[..first].to_vec(),
                bytes[first..second].to_vec(),
                bytes[second..].to_vec(),
            ];
            assert_eq!(get_output(&chunks), text);
        }
    }
}

#[test]
fn exec_output_is_whole_however_the_streams_were_cut() {
    let split = "é".as_bytes();
    let output = ExecOutput::collect(
        &vec![b"caf".to_vec(), vec![split[0]], vec![split[1]]],
        &vec![vec![split[0]], vec![split[1]], b"!".to_vec()],
    );
    assert_eq!(output.stdout, "café");
    assert_eq!(output.stderr, "é!");
}

#[test]
fn exec_output_is_had_combined_or_apart() {
    let output = ExecOutput::collect(&vec![b"out".to_vec()], &vec![b"er".to_vec(), b"r".to_vec()]);
    assert_eq!(output.stdout, "out");
    assert_eq!(output.stderr, "err");
    assert_eq!(output.combined(), "outerr");
    assert_eq!(
        output.into_invocation(),
        Invocation::Finished { stdout: b"out".to_vec(), stderr: b"err".to_vec() }
    );
}
