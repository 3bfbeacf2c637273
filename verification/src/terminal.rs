//! The line buffer of a command runner: the latest lines of output, a
//! viewport that scrolls back through them, and the commands that wait to
//! be run.

use std::collections::VecDeque;
use vstd::prelude::*;
use crate::text::{trim, trimmed};

verus! {

/// What a line of the buffer is.
#[derive(Clone, Copy, PartialEq, Eq, Structural, Debug)]
pub enum OutputKind {
    Command,
    Stdout,
    Stderr,
    Info,
}

/// One line of the buffer.
#[derive(Clone, Debug)]
pub struct OutputLine {
    pub kind: OutputKind,
    pub text: String,
}

impl View for OutputLine {
    type V = (OutputKind, Seq<char>);

    open spec fn view(&self) -> (OutputKind, Seq<char>) {
        (self.kind, self.text@)
    }
}

/// How many lines a runner keeps.
pub const MAX_LINES: usize = 500;

/// The buffer after `line` arrived: the oldest line leaves where there
/// would be more than `max_lines`.
pub open spec fn lines_after_push(lines: Seq<OutputLine>, line: OutputLine, max_lines: usize) -> Seq<
    OutputLine,
> {
    if lines.len() + 1 > max_lines {
        lines.push(line).drop_first()
    } else {
        lines.push(line)
    }
}

/// The buffer after all of `more` arrived, the first one first.
pub open spec fn lines_after_all(lines: Seq<OutputLine>, more: Seq<OutputLine>, max_lines: usize) -> Seq<
    OutputLine,
>
    decreases more.len(),
{
    if more.len() == 0 {
        lines
    } else {
        lines_after_push(lines_after_all(lines, more.drop_last(), max_lines), more.last(), max_lines)
    }
}

/// The largest scroll offset in a buffer of `len` lines: its oldest line
/// can always be shown.
pub open spec fn max_scroll(len: nat) -> nat {
    if len == 0 {
        0
    } else {
        (len - 1) as nat
    }
}

/// The smaller of two numbers.
pub open spec fn at_most(a: nat, b: nat) -> nat {
    if a <= b {
        a
    } else {
        b
    }
}

/// Where the window of `height` lines ends in a buffer of `len` lines
/// scrolled back by `scroll`.
pub open spec fn window_end(len: nat, scroll: nat) -> nat {
    (len - at_most(scroll, len)) as nat
}

/// Where that window starts.
pub open spec fn window_start(len: nat, scroll: nat, height: nat) -> nat {
    (window_end(len, scroll) - at_most(height, window_end(len, scroll))) as nat
}

/// The lines that a window of `height` lines shows.
pub open spec fn window(lines: Seq<OutputLine>, scroll: nat, height: nat) -> Seq<OutputLine> {
    lines.subrange(
        window_start(lines.len(), scroll, height) as int,
        window_end(lines.len(), scroll) as int,
    )
}

/// The scroll offset after a line arrived and the buffer has `len` lines.
pub open spec fn scroll_after_push(scroll: usize, len: nat) -> usize {
    at_most(scroll as nat, max_scroll(len)) as usize
}

/// The scroll offset after all of `more` arrived.
pub open spec fn scroll_after_all(
    lines: Seq<OutputLine>,
    scroll: usize,
    more: Seq<OutputLine>,
    max_lines: usize,
) -> usize
    decreases more.len(),
{
    if more.len() == 0 {
        scroll
    } else {
        scroll_after_push(
            scroll_after_all(lines, scroll, more.drop_last(), max_lines),
            lines_after_all(lines, more, max_lines).len(),
        )
    }
}

/// The text that opens every buffer.
pub open spec fn greeting() -> Seq<char> {
    "Shell started (bash --noprofile --norc)"@
}

/// A copy of a line.
pub fn copy_line(line: &OutputLine) -> (copy: OutputLine)
    ensures
        copy == *line,
{
    OutputLine { kind: line.kind, text: line.text.clone() }
}

/// A command runner as the user interface sees it: the lines that its
/// commands wrote, and the commands that wait to be run.
pub struct TerminalRunner {
    /// The command line being typed.
    pub input: String,
    /// How many lines the view is scrolled back from the newest one.
    pub scroll: usize,
    buffer: VecDeque<OutputLine>,
    queued: Vec<String>,
}

impl TerminalRunner {
    /// The lines of the buffer, oldest first.
    pub closed spec fn lines(&self) -> Seq<OutputLine> {
        self.buffer@
    }

    /// The value of the field `scroll`.
    pub closed spec fn scroll_back(&self) -> usize {
        self.scroll
    }

    /// The text of the field `input`.
    pub closed spec fn typed(&self) -> Seq<char> {
        self.input@
    }

    /// The commands that wait to be run, oldest first.
    pub closed spec fn queued(&self) -> Seq<Seq<char>> {
        self.queued@.map_values(|c: String| c@)
    }

    /// The runner's invariant: the buffer never holds more than
    /// `MAX_LINES` lines.
    pub open spec fn wf(&self) -> bool {
        self.lines().len() <= MAX_LINES
    }

    /// A runner whose buffer holds the greeting and nothing else.
    pub fn new() -> (runner: Self)
        ensures
            runner.wf(),
            runner.lines().len() == 1,
            runner.lines()[0].kind == OutputKind::Info,
            runner.lines()[0].text@ == greeting(),
            runner.scroll_back() == 0,
            runner.typed() == Seq::<char>::empty(),
            runner.queued() == Seq::<Seq<char>>::empty(),
    {
        let mut runner = TerminalRunner {
            input: String::new(),
            scroll: 0,
            buffer: VecDeque::new(),
            queued: Vec::new(),
        };
        assert(runner.queued() =~= Seq::<Seq<char>>::empty());
        runner.push_output(OutputKind::Info, "Shell started (bash --noprofile --norc)".to_owned());
        runner
    }

    /// Appends a line. The oldest line leaves a full buffer, and the view
    /// is scrolled back no further than the oldest line.
    pub fn push_output(&mut self, kind: OutputKind, text: String)
        requires
            old(self).wf(),
        ensures
            final(self).wf(),
            final(self).lines() == lines_after_push(
                old(self).lines(),
                OutputLine { kind, text },
                MAX_LINES,
            ),
            final(self).scroll_back() == scroll_after_push(old(self).scroll_back(), final(self).lines().len()),
            final(self).typed() == old(self).typed(),
            final(self).queued() == old(self).queued(),
    {
        self.buffer.push_back(OutputLine { kind, text });
        if self.buffer.len() > MAX_LINES {
            self.buffer.pop_front();
        }
        let max_scroll = self.buffer.len().saturating_sub(1);
        if self.scroll > max_scroll {
            self.scroll = max_scroll;
        }
    }

    /// How many lines the buffer holds.
    pub fn buffer_len(&self) -> (len: usize)
        ensures
            len == self.lines().len(),
    {
        self.buffer.len()
    }

    /// Scrolls back by `amount` lines, at most to the oldest line.
    pub fn scroll_up(&mut self, amount: usize)
        ensures
            final(self).scroll_back() == at_most(
                (old(self).scroll_back() + amount) as nat,
                max_scroll(old(self).lines().len()),
            ),
            final(self).lines() == old(self).lines(),
            final(self).typed() == old(self).typed(),
            final(self).queued() == old(self).queued(),
    {
        let max_scroll = self.buffer.len().saturating_sub(1);
        self.scroll = if self.scroll >= max_scroll || amount >= max_scroll - self.scroll {
            max_scroll
        } else {
            self.scroll + amount
        };
    }

    /// Scrolls forward by `amount` lines, at most to the newest line.
    pub fn scroll_down(&mut self, amount: usize)
        ensures
            final(self).scroll_back() == old(self).scroll_back() - at_most(amount as nat, old(self).scroll_back() as nat),
            final(self).lines() == old(self).lines(),
            final(self).typed() == old(self).typed(),
            final(self).queued() == old(self).queued(),
    {
        self.scroll = self.scroll.saturating_sub(amount);
    }

    /// The lines that a view of `height` lines shows, oldest first.
    pub fn visible_lines(&self, height: usize) -> (shown: Vec<OutputLine>)
        ensures
            shown@ == window(self.lines(), self.scroll_back() as nat, height as nat),
    {
        if height == 0 {
            return Vec::new();
        }
        let total = self.buffer.len();
        let end = total.saturating_sub(self.scroll);
        let start = end.saturating_sub(height);
        let mut shown: Vec<OutputLine> = Vec::new();
        let mut i = start;
        while i < end
            invariant
                start <= i <= end <= self.buffer@.len(),
                shown@ == self.buffer@.subrange(start as int, i as int),
            decreases end - i,
        {
            shown.push(copy_line(&self.buffer[i]));
            i += 1;
        }
        shown
    }

    /// Queues a command to be run. White space around it is dropped, and
    /// a command of white space alone is not queued.
    pub fn run_command(&mut self, cmd: &str)
        ensures
            final(self).queued() == if trimmed(cmd@).len() == 0 {
                old(self).queued()
            } else {
                old(self).queued().push(trimmed(cmd@))
            },
            final(self).lines() == old(self).lines(),
            final(self).scroll_back() == old(self).scroll_back(),
            final(self).typed() == old(self).typed(),
    {
        let command = trim(cmd);
        if command.is_empty() {
            return ;
        }
        self.queued.push(command.to_owned());
        assert(self.queued() =~= old(self).queued().push(trimmed(cmd@)));
    }

    /// Hands out the queued commands, oldest first, and empties the queue.
    pub fn take_commands(&mut self) -> (commands: Vec<String>)
        ensures
            commands@.map_values(|c: String| c@) == old(self).queued(),
            final(self).queued() == Seq::<Seq<char>>::empty(),
            final(self).lines() == old(self).lines(),
            final(self).scroll_back() == old(self).scroll_back(),
            final(self).typed() == old(self).typed(),
    {
        let mut commands: Vec<String> = Vec::new();
        std::mem::swap(&mut self.queued, &mut commands);
        assert(self.queued() =~= Seq::<Seq<char>>::empty());
        commands
    }

    /// Appends the lines that the commands wrote, in their order.
    pub fn poll_output(&mut self, arrived: &Vec<OutputLine>)
        requires
            old(self).wf(),
        ensures
            final(self).wf(),
            final(self).lines() == lines_after_all(old(self).lines(), arrived@, MAX_LINES),
            final(self).scroll_back() == scroll_after_all(
                old(self).lines(),
                old(self).scroll_back(),
                arrived@,
                MAX_LINES,
            ),
            final(self).typed() == old(self).typed(),
            final(self).queued() == old(self).queued(),
    {
        let mut i: usize = 0;
        while i < arrived.len()
            invariant
                i <= arrived.len(),
                self.wf(),
                self.lines() == lines_after_all(old(self).lines(), arrived@.take(i as int), MAX_LINES),
                self.scroll_back() == scroll_after_all(
                    old(self).lines(),
                    old(self).scroll_back(),
                    arrived@.take(i as int),
                    MAX_LINES,
                ),
                self.typed() == old(self).typed(),
                self.queued() == old(self).queued(),
            decreases arrived.len() - i,
        {
            proof {
                assert(arrived@.take(i + 1).drop_last() =~= arrived@.take(i as int));
                assert(arrived@.take(i + 1).last() == arrived@[i as int]);
            }
            let line = copy_line(&arrived[i]);
            self.push_output(line.kind, line.text);
            i += 1;
        }
        proof {
            assert(arrived@.take(i as int) =~= arrived@);
        }
    }
}

/// A window shows no more lines than it is high, and a view that is not
/// scrolled back shows the newest lines.
pub proof fn lemma_window_shows_the_tail(lines: Seq<OutputLine>, scroll: nat, height: nat)
    ensures
        window(lines, scroll, height).len() <= height,
        window(lines, scroll, height).len() <= lines.len(),
        scroll == 0 && height <= lines.len() ==> window(lines, scroll, height) == lines.subrange(
            lines.len() - height,
            lines.len() as int,
        ),
{
}

/// A buffer within its bound stays within it, whatever arrives, and the
/// newest line is always the last one kept.
pub proof fn lemma_buffer_stays_bounded(lines: Seq<OutputLine>, line: OutputLine, max_lines: usize)
    requires
        lines.len() <= max_lines,
        max_lines >= 1,
    ensures
        lines_after_push(lines, line, max_lines).len() <= max_lines,
        lines_after_push(lines, line, max_lines).len() >= 1,
        lines_after_push(lines, line, max_lines).last() == line,
{
}

} // verus!
