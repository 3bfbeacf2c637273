//! What a command runner reports of one command: the lines that go into
//! its buffer, from the command's exit status and what it wrote.

use vstd::prelude::*;
use vstd::string::StringExecFns;
use crate::terminal::{OutputKind, OutputLine};
use crate::text::{
    decimal, decimal_string, has_prefix, lines_of, lowercase, lowercased, split_lines, texts,
    trim, trim_start, trimmed, trimmed_start,
};

verus! {

/// How running a command ended.
pub enum CommandOutcome {
    /// The command could not be started.
    Failed { error: String },
    /// The command ran. `exit_code` is `None` where a signal ended it.
    Finished { exit_code: Option<i32>, success: bool, stdout: String, stderr: String },
}

/// The line that separates a command from its output.
pub open spec fn rule() -> Seq<char> {
    "--------------------------------"@
}

/// The lines as plain values.
pub open spec fn line_models(lines: Seq<OutputLine>) -> Seq<(OutputKind, Seq<char>)> {
    lines.map_values(|l: OutputLine| l@)
}

/// Whether a line in lower case, without the white space before it, names
/// an error.
pub open spec fn names_error(lowered: Seq<char>) -> bool {
    "error:"@.is_prefix_of(lowered) || "fatal:"@.is_prefix_of(lowered)
}

/// What a line of the error stream is: a note where the command succeeded
/// and the line names no error, else an error.
pub open spec fn stderr_kind(lowered: Seq<char>, success: bool) -> OutputKind {
    if success && !names_error(lowered) {
        OutputKind::Info
    } else {
        OutputKind::Stderr
    }
}

/// The text shown for a line of the error stream: an error is marked as
/// one unless it is already.
pub open spec fn stderr_text(line: Seq<char>, kind: OutputKind) -> Seq<char> {
    if kind == OutputKind::Stderr && !"[error]"@.is_prefix_of(line) {
        "[error] "@ + line
    } else {
        line
    }
}

/// The head line of a command that ran.
pub open spec fn finished_head(command: Seq<char>, exit_code: Option<i32>) -> Seq<char> {
    "$ "@ + command + "   (exit="@ + decimal(
        match exit_code {
            Some(code) => code as int,
            None => -1,
        },
    ) + ")"@
}

/// The head line of a command that did not start.
pub open spec fn failed_head(command: Seq<char>) -> Seq<char> {
    "$ "@ + command + "   (failed to start)"@
}

/// A line of the given kind and text.
fn line(kind: OutputKind, text: String) -> (l: OutputLine)
    ensures
        l.kind == kind,
        l.text == text,
{
    OutputLine { kind, text }
}

/// Classifies a line of the error stream, given the line in lower case
/// without the white space before it.
pub fn classify_stderr(text: &str, lowered: &str, success: bool) -> (l: OutputLine)
    ensures
        l.kind == stderr_kind(lowered@, success),
        l.text@ == stderr_text(text@, l.kind),
{
    let is_error = has_prefix(lowered, "error:") || has_prefix(lowered, "fatal:");
    if success && !is_error {
        line(OutputKind::Info, text.to_owned())
    } else if !has_prefix(text, "[error]") {
        line(OutputKind::Stderr, String::from_str("[error] ").concat(text))
    } else {
        line(OutputKind::Stderr, text.to_owned())
    }
}

/// Classifies a line of the error stream.
pub fn stderr_line(text: &str, success: bool) -> (l: OutputLine)
    ensures
        l.kind == stderr_kind(lowercased(trimmed_start(text@)), success),
        l.text@ == stderr_text(text@, l.kind),
{
    let lowered = lowercase(trim_start(text));
    classify_stderr(text, lowered.as_str(), success)
}

/// What is reported of the lines that a command wrote to its output.
pub open spec fn stdout_report(lines: Seq<Seq<char>>) -> Seq<(OutputKind, Seq<char>)> {
    lines.map_values(|t: Seq<char>| (OutputKind::Stdout, t))
}

/// What is reported of one line that a command wrote to its error stream.
pub open spec fn stderr_entry(text: Seq<char>, success: bool) -> (OutputKind, Seq<char>) {
    let kind = stderr_kind(lowercased(trimmed_start(text)), success);
    (kind, stderr_text(text, kind))
}

/// What is reported of the lines that a command wrote to its error stream.
pub open spec fn stderr_report(lines: Seq<Seq<char>>, success: bool) -> Seq<(OutputKind, Seq<char>)> {
    lines.map_values(|t: Seq<char>| stderr_entry(t, success))
}

/// What is reported of a command: after an empty line, unless it is the
/// first command, its head line; then for one that did not start the
/// error and a rule, and for one that ran a rule, its output and its
/// error stream, line by line.
pub open spec fn report(first: bool, command: Seq<char>, outcome: CommandOutcome) -> Seq<
    (OutputKind, Seq<char>),
> {
    let gap = if first {
        Seq::<(OutputKind, Seq<char>)>::empty()
    } else {
        seq![(OutputKind::Info, Seq::<char>::empty())]
    };
    gap + match outcome {
        CommandOutcome::Failed { error } => seq![
            (OutputKind::Command, failed_head(command)),
            (OutputKind::Stderr, "[error] "@ + error@),
            (OutputKind::Info, rule()),
        ],
        CommandOutcome::Finished { exit_code, success, stdout, stderr } => seq![
            (OutputKind::Command, finished_head(command, exit_code)),
            (OutputKind::Info, rule()),
        ] + stdout_report(lines_of(stdout@)) + stderr_report(lines_of(stderr@), success),
    }
}

/// The part of a command runner that turns commands into lines: it knows
/// whether a command has been reported yet.
pub struct CommandLoop {
    pub first_command: bool,
}

impl CommandLoop {
    /// A loop that has reported nothing yet.
    pub fn new() -> (state: Self)
        ensures
            state.first_command,
    {
        CommandLoop { first_command: true }
    }

    /// The command to run for a request: the request without the white
    /// space around it, or `None` where nothing is left.
    pub fn accept(&self, request: &str) -> (command: Option<String>)
        ensures
            match command {
                Some(c) => c@ == trimmed(request@) && c@.len() > 0,
                None => trimmed(request@).len() == 0,
            },
    {
        let command = trim(request);
        if command.is_empty() {
            None
        } else {
            Some(command.to_owned())
        }
    }

    /// The lines that report a command and how it ended.
    pub fn report(&mut self, command: &str, outcome: &CommandOutcome) -> (lines: Vec<OutputLine>)
        ensures
            line_models(lines@) == report(old(self).first_command, command@, *outcome),
            !final(self).first_command,
    {
        let mut lines: Vec<OutputLine> = Vec::new();
        if !self.first_command {
            lines.push(line(OutputKind::Info, String::new()));
        }
        self.first_command = false;
        let ghost gap = line_models(lines@);
        assert(gap =~= if old(self).first_command {
            Seq::<(OutputKind, Seq<char>)>::empty()
        } else {
            seq![(OutputKind::Info, Seq::<char>::empty())]
        });
        let head = String::from_str("$ ").concat(command);
        match outcome {
            CommandOutcome::Failed { error } => {
                let head = head.concat("   (failed to start)");
                lines.push(line(OutputKind::Command, head));
                lines.push(
                    line(OutputKind::Stderr, String::from_str("[error] ").concat(error.as_str())),
                );
                lines.push(line(OutputKind::Info, String::from_str("--------------------------------")));
                assert(line_models(lines@) =~= report(
                    old(self).first_command,
                    command@,
                    *outcome,
                ));
            },
            CommandOutcome::Finished { exit_code, success, stdout, stderr } => {
                let code: i64 = match exit_code {
                    Some(code) => *code as i64,
                    None => -1,
                };
                let head = head.concat("   (exit=").concat(decimal_string(code).as_str()).concat(")");
                lines.push(line(OutputKind::Command, head));
                lines.push(line(OutputKind::Info, String::from_str("--------------------------------")));
                let ghost heads = line_models(lines@);
                assert(heads =~= gap + seq![
                    (OutputKind::Command, finished_head(command@, *exit_code)),
                    (OutputKind::Info, rule()),
                ]);
                let written = split_lines(stdout.as_str());
                let mut i: usize = 0;
                while i < written.len()
                    invariant
                        i <= written.len(),
                        texts(written@) == lines_of(stdout@),
                        line_models(lines@) == heads + stdout_report(lines_of(stdout@)).take(
                            i as int,
                        ),
                    decreases written.len() - i,
                {
                    let ghost before = line_models(lines@);
                    lines.push(line(OutputKind::Stdout, written[i].clone()));
                    assert(texts(written@)[i as int] == written@[i as int]@);
                    assert(line_models(lines@) =~= before.push(
                        (OutputKind::Stdout, lines_of(stdout@)[i as int]),
                    ));
                    assert(stdout_report(lines_of(stdout@)).take(i + 1) =~= stdout_report(
                        lines_of(stdout@),
                    ).take(i as int).push((OutputKind::Stdout, lines_of(stdout@)[i as int])));
                    i += 1;
                }
                assert(stdout_report(lines_of(stdout@)).take(i as int) =~= stdout_report(
                    lines_of(stdout@),
                ));
                let ghost outs = line_models(lines@);
                let errors = split_lines(stderr.as_str());
                let mut j: usize = 0;
                while j < errors.len()
                    invariant
                        j <= errors.len(),
                        texts(errors@) == lines_of(stderr@),
                        line_models(lines@) == outs + stderr_report(lines_of(stderr@), *success).take(
                            j as int,
                        ),
                    decreases errors.len() - j,
                {
                    let ghost before = line_models(lines@);
                    let entry = stderr_line(errors[j].as_str(), *success);
                    assert(texts(errors@)[j as int] == errors@[j as int]@);
                    assert(entry@ == stderr_entry(lines_of(stderr@)[j as int], *success));
                    lines.push(entry);
                    assert(line_models(lines@) =~= before.push(
                        stderr_entry(lines_of(stderr@)[j as int], *success),
                    ));
                    assert(stderr_report(lines_of(stderr@), *success).take(j + 1)
                        =~= stderr_report(lines_of(stderr@), *success).take(j as int).push(
                        stderr_entry(lines_of(stderr@)[j as int], *success),
                    ));
                    j += 1;
                }
                assert(stderr_report(lines_of(stderr@), *success).take(j as int) =~= stderr_report(
                    lines_of(stderr@),
                    *success,
                ));
            },
        }
        lines
    }
}

} // verus!
