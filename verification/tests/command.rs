use bbiribarabu::command::{classify_stderr, stderr_line, CommandLoop, CommandOutcome};
use bbiribarabu::terminal::{OutputKind, OutputLine};
use bbiribarabu::text::{decimal_string, has_prefix, split_lines};

fn pairs(lines: &[OutputLine]) -> Vec<(OutputKind, String)> {
    lines.iter().map(|l| (l.kind, l.text.clone())).collect()
}

const RULE: &str = "--------------------------------";

#[test]
fn lines_are_split_like_std() {
    for text in ["", "a", "a\n", "a\nb", "a\r\nb\r\n", "\n", "\n\n", "a\r", "a\r\r\n", "\r\n", "a\rb\nc", "x\n\ny", "\r", "한\r\n글"] {
        let expected: Vec<String> = text.lines().map(|l| l.to_string()).collect();
        assert_eq!(split_lines(text), expected, "{:?}", text);
    }
    assert_eq!(split_lines("a\r\nb\n"), vec!["a", "b"]);
    assert_eq!(split_lines("a\r"), vec!["a\r"]);
}

#[test]
fn integers_in_decimal() {
    for n in [0i64, 1, 9, 10, 42, 127, 1000, -1, -10, -255, 2147483647, i64::MAX, i64::MIN] {
        assert_eq!(decimal_string(n), n.to_string());
    }
    assert_eq!(decimal_string(-2147483648), "-2147483648");
    assert_eq!(decimal_string(130), "130");
}

#[test]
fn prefixes() {
    assert!(has_prefix("error: x", "error:"));
    assert!(has_prefix("error:", "error:"));
    assert!(!has_prefix("error", "error:"));
    assert!(!has_prefix("Error: x", "error:"));
    assert!(has_prefix("anything", ""));
    assert!(has_prefix("", ""));
    assert!(!has_prefix("", "a"));
    assert!(has_prefix("한글 text", "한글"));
}

#[test]
fn stderr_of_a_successful_command_is_a_note() {
    let l = stderr_line("warning: unused", true);
    assert!(l.kind == OutputKind::Info);
    assert_eq!(l.text, "warning: unused");
}

#[test]
fn stderr_that_names_an_error_is_an_error() {
    let l = stderr_line("  Error: boom", true);
    assert!(l.kind == OutputKind::Stderr);
    assert_eq!(l.text, "[error]   Error: boom");
    let l = stderr_line("FATAL: not a repo", true);
    assert!(l.kind == OutputKind::Stderr);
    assert_eq!(l.text, "[error] FATAL: not a repo");
    let l = stderr_line("an error: later", true);
    assert!(l.kind == OutputKind::Info);
}

#[test]
fn stderr_of_a_failed_command_is_an_error() {
    let l = stderr_line("something", false);
    assert!(l.kind == OutputKind::Stderr);
    assert_eq!(l.text, "[error] something");
    let l = stderr_line("[error] already marked", false);
    assert!(l.kind == OutputKind::Stderr);
    assert_eq!(l.text, "[error] already marked");
}

#[test]
fn classification_goes_by_the_lowered_line() {
    let l = classify_stderr("X", "fatal: y", true);
    assert!(l.kind == OutputKind::Stderr);
    assert_eq!(l.text, "[error] X");
    let l = classify_stderr("error: x", "nothing", true);
    assert!(l.kind == OutputKind::Info);
    assert_eq!(l.text, "error: x");
}

#[test]
fn accept_trims_requests() {
    let state = CommandLoop::new();
    assert!(state.first_command);
    assert_eq!(state.accept("  ls -l \n"), Some("ls -l".to_string()));
    assert_eq!(state.accept(" \t "), None);
    assert_eq!(state.accept(""), None);
}

#[test]
fn report_of_a_command_that_ran() {
    let mut state = CommandLoop::new();
    let outcome = CommandOutcome::Finished {
        exit_code: Some(0),
        success: true,
        stdout: "a\nb\r\n".to_string(),
        stderr: "note\nerror: bad\n".to_string(),
    };
    let lines = state.report("ls", &outcome);
    assert!(!state.first_command);
    assert_eq!(
        pairs(&lines),
        vec![
            (OutputKind::Command, "$ ls   (exit=0)".to_string()),
            (OutputKind::Info, RULE.to_string()),
            (OutputKind::Stdout, "a".to_string()),
            (OutputKind::Stdout, "b".to_string()),
            (OutputKind::Info, "note".to_string()),
            (OutputKind::Stderr, "[error] error: bad".to_string()),
        ]
    );
}

#[test]
fn report_of_a_later_command_starts_with_a_gap() {
    let mut state = CommandLoop { first_command: false };
    let outcome = CommandOutcome::Finished {
        exit_code: Some(2),
        success: false,
        stdout: String::new(),
        stderr: "no such file".to_string(),
    };
    let lines = state.report("cat x", &outcome);
    assert_eq!(
        pairs(&lines),
        vec![
            (OutputKind::Info, String::new()),
            (OutputKind::Command, "$ cat x   (exit=2)".to_string()),
            (OutputKind::Info, RULE.to_string()),
            (OutputKind::Stderr, "[error] no such file".to_string()),
        ]
    );
}

#[test]
fn report_of_a_command_ended_by_a_signal() {
    let mut state = CommandLoop::new();
    let outcome = CommandOutcome::Finished {
        exit_code: None,
        success: false,
        stdout: String::new(),
        stderr: String::new(),
    };
    let lines = state.report("sleep 9", &outcome);
    assert_eq!(
        pairs(&lines),
        vec![
            (OutputKind::Command, "$ sleep 9   (exit=-1)".to_string()),
            (OutputKind::Info, RULE.to_string()),
        ]
    );
}

#[test]
fn report_of_a_command_that_did_not_start() {
    let mut state = CommandLoop::new();
    let outcome = CommandOutcome::Failed { error: "No such file or directory".to_string() };
    let lines = state.report("nope", &outcome);
    assert!(!state.first_command);
    assert_eq!(
        pairs(&lines),
        vec![
            (OutputKind::Command, "$ nope   (failed to start)".to_string()),
            (OutputKind::Stderr, "[error] No such file or directory".to_string()),
            (OutputKind::Info, RULE.to_string()),
        ]
    );
    let again = state.report("nope", &outcome);
    assert_eq!(again.len(), 4);
    assert!(again[0].kind == OutputKind::Info);
    assert_eq!(again[0].text, "");
}
