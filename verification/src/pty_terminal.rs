//! The terminal panel as the user interface drives it: a screen fed with the
//! shell's output, a viewport that can scroll back through its history, and
//! the bytes that wait to be written to the shell.

use vstd::prelude::*;
use crate::screen::{
    after_resize, at_rest, cell_at, consistent, csi, decimal_bytes,
    erase_bytes, flush_bytes, goto_bytes, grid_fits, least, mend_bytes, other_fits, parser_new,
    parser_process, parser_screen, parser_set_scrollback, parser_set_size, processed,
    screen_alternate, screen_cursor_position, screen_hide_cursor, screen_model, screen_of,
    screen_scrollback, screen_size, shown_cell, shrinks, switch_bytes, usable_size, ScreenModel,
    MAX_COLS, MIN_COLS, MIN_ROWS,
};
use crate::spans::{row_runs, row_spans, span_models, Cell, Span};

verus! {

/// How many rows of history a panel keeps.
pub const SCROLLBACK_ROWS: usize = 10_000;

/// Where to draw the cursor.
#[derive(Debug, Clone, Copy)]
pub struct CursorState {
    pub draw: bool,
    pub row: u16,
    pub col: u16,
}

/// A terminal panel. Whoever owns the pseudo-terminal hands it the chunks
/// read from it and writes out the bytes it has queued.
pub struct PtyTerminal {
    parser: vt100::Parser,
    outgoing: Vec<u8>,
}

/// The offset after scrolling `lines` rows up into a history of `history`
/// rows.
pub open spec fn offset_scrolled_up(offset: usize, lines: usize, history: usize) -> usize {
    if offset + lines <= history {
        (offset + lines) as usize
    } else {
        history
    }
}

/// The offset after scrolling `lines` rows down towards the live bottom.
pub open spec fn offset_scrolled_down(offset: usize, lines: usize) -> usize {
    if lines >= offset {
        0
    } else {
        (offset - lines) as usize
    }
}

/// The cursor's row and column, with a cursor that waits behind the last
/// column taken into it.
pub open spec fn cursor_in_grid(m: ScreenModel) -> (u16, u16) {
    (
        m.cursor_row,
        if m.cursor_col < m.cols {
            m.cursor_col
        } else {
            (m.cols - 1) as u16
        },
    )
}

/// Whether `after` is the screen `m` after a resize. The size is the new
/// one, and capacity and modes are as they were. Where the emulator was at
/// rest or nothing was taken away, the screen is exactly `after_resize`;
/// else the end of what the shell had begun may have left a mark on it.
pub open spec fn resize_effect(
    m: ScreenModel,
    at_rest: bool,
    rows: u16,
    cols: u16,
    after: ScreenModel,
) -> bool {
    &&& after.rows == rows
    &&& after.cols == cols
    &&& after.capacity == m.capacity
    &&& after.alternate == m.alternate
    &&& after.cursor_hidden == m.cursor_hidden
    &&& at_rest || !shrinks(m, rows, cols) ==> after == after_resize(m, rows, cols)
}

/// Whether a panel with screen `m` has another size than the one asked for.
pub open spec fn needs_resize(m: ScreenModel, rows: u16, cols: u16) -> bool {
    m.rows != rows || m.cols != cols
}

/// The byte sequences of the chunks, in their order.
pub open spec fn chunk_bytes(chunks: Seq<Vec<u8>>) -> Seq<Seq<u8>> {
    chunks.map_values(|c: Vec<u8>| c@)
}

/// The parser that `p` becomes by processing the chunks one after the
/// other, the first one first.
pub open spec fn fed(p: vt100::Parser, chunks: Seq<Seq<u8>>) -> vt100::Parser
    decreases chunks.len(),
{
    if chunks.len() == 0 {
        p
    } else {
        processed(fed(p, chunks.drop_last()), chunks.last())
    }
}

/// The cells that the viewport shows in the first `cols` columns of a row,
/// from left to right.
pub open spec fn row_cells(p: vt100::Parser, row: u16, cols: nat) -> Seq<Cell>
    decreases cols,
{
    if cols == 0 {
        Seq::<Cell>::empty()
    } else {
        match shown_cell(p, row, (cols - 1) as u16) {
            Some(cell) => row_cells(p, row, (cols - 1) as nat).push(cell),
            None => row_cells(p, row, (cols - 1) as nat),
        }
    }
}

/// Appends a number in decimal digits.
fn push_decimal(out: &mut Vec<u8>, n: u32)
    ensures
        final(out)@ == old(out)@ + decimal_bytes(n as nat),
    decreases n,
{
    if n >= 10 {
        push_decimal(out, n / 10);
    }
    out.push(0x30 + (n % 10) as u8);
    assert(out@ =~= old(out)@ + decimal_bytes(n as nat));
}

/// Appends the control sequence with one number and the final byte
/// `last`.
fn push_csi(out: &mut Vec<u8>, n: u32, last: u8)
    ensures
        final(out)@ == old(out)@ + csi(n as nat, last),
{
    out.push(0x1b);
    out.push(0x5b);
    push_decimal(out, n);
    out.push(last);
    assert(out@ =~= old(out)@ + csi(n as nat, last));
}

/// Appends the bytes that put the cursor in a row and a column.
fn push_goto(out: &mut Vec<u8>, row: u16, col: u16)
    ensures
        final(out)@ == old(out)@ + goto_bytes(row, col),
{
    push_csi(out, row as u32 + 1, 0x64);
    push_csi(out, col as u32 + 1, 0x47);
    assert(out@ =~= old(out)@ + goto_bytes(row, col));
}

/// The bytes of `flush_bytes`.
pub fn flush_sequence() -> (bytes: Vec<u8>)
    ensures
        bytes@ == flush_bytes(),
{
    let bytes = vec![0x18, 0x18];
    assert(bytes@ =~= flush_bytes());
    bytes
}

/// The bytes of `switch_bytes`.
pub fn switch_sequence(alternate: bool) -> (bytes: Vec<u8>)
    ensures
        bytes@ == switch_bytes(alternate),
{
    let last: u8 = if alternate {
        0x6c
    } else {
        0x68
    };
    let bytes = vec![0x1b, 0x5b, 0x3f, 0x34, 0x37, last];
    assert(bytes@ =~= switch_bytes(alternate));
    bytes
}

/// The bytes of `mend_bytes`.
pub fn mend_sequence(rows: u16, cols: u16, erase: &Vec<u16>, row: u16, col: u16) -> (bytes: Vec<u8>)
    requires
        rows >= 1,
        cols >= 1,
    ensures
        bytes@ == mend_bytes(rows, cols, erase@, row, col),
{
    let mut bytes: Vec<u8> = Vec::new();
    let mut i: usize = 0;
    assert(erase@.take(0) =~= Seq::<u16>::empty());
    while i < erase.len()
        invariant
            i <= erase@.len(),
            cols >= 1,
            bytes@ == erase_bytes(erase@.take(i as int), (cols - 1) as u16),
        decreases erase@.len() - i,
    {
        proof {
            assert(erase@.take(i + 1).drop_last() =~= erase@.take(i as int));
            assert(erase@.take(i + 1).last() == erase@[i as int]);
        }
        let ghost before = bytes@;
        push_goto(&mut bytes, erase[i], cols - 1);
        bytes.push(0x1b);
        bytes.push(0x5b);
        bytes.push(0x58);
        assert(bytes@ =~= before + goto_bytes(erase@[i as int], (cols - 1) as u16) + seq![
            0x1bu8,
            0x5bu8,
            0x58u8,
        ]);
        i += 1;
    }
    assert(erase@.take(i as int) =~= erase@);
    let ghost erased = bytes@;
    let to_row = if row <= rows - 1 {
        row
    } else {
        rows - 1
    };
    let to_col = if col <= cols - 1 {
        col
    } else {
        cols - 1
    };
    push_goto(&mut bytes, to_row, to_col);
    bytes.push(0x1b);
    bytes.push(0x37);
    let ghost saved = bytes@;
    assert(saved =~= erased + goto_bytes(to_row, to_col) + seq![0x1bu8, 0x37u8]);
    push_goto(&mut bytes, row, col);
    bytes
}

impl PtyTerminal {
    /// The emulator behind the panel.
    pub closed spec fn parser(&self) -> vt100::Parser {
        self.parser
    }

    /// The bytes queued for the shell, oldest first.
    pub closed spec fn outgoing(&self) -> Seq<u8> {
        self.outgoing@
    }

    /// The screen as the viewport logic sees it.
    pub open spec fn view(&self) -> ScreenModel {
        screen_model(self.parser())
    }

    /// The panel's invariant: the screen is consistent, and it keeps
    /// `SCROLLBACK_ROWS` rows of history at most.
    pub open spec fn wf(&self) -> bool {
        consistent(self@) && self@.capacity == SCROLLBACK_ROWS
    }

    /// Whether the emulator stands between two sequences of the shell's
    /// output.
    pub open spec fn at_rest(&self) -> bool {
        at_rest(self.parser())
    }

    /// A panel of the given size with an empty screen, a live view and
    /// nothing queued.
    pub fn spawn(rows: u16, cols: u16) -> (term: Self)
        requires
            usable_size(rows, cols),
        ensures
            term.wf(),
            term@ == (ScreenModel {
                rows,
                cols,
                offset: 0,
                history: 0,
                capacity: SCROLLBACK_ROWS,
                cursor_row: 0,
                cursor_col: 0,
                cursor_hidden: false,
                alternate: false,
                other_history: 0,
                other_cursor_row: 0,
                other_cursor_col: 0,
            }),
            term.at_rest(),
            term.outgoing() == Seq::<u8>::empty(),
    {
        PtyTerminal { parser: parser_new(rows, cols, SCROLLBACK_ROWS), outgoing: Vec::new() }
    }

    /// A panel of the given size, or `None` where the emulator cannot work
    /// with a grid of that size.
    pub fn try_spawn(rows: u16, cols: u16) -> (term: Option<Self>)
        ensures
            term is Some <==> usable_size(rows, cols),
            term matches Some(t) ==> t.wf() && t@ == (ScreenModel {
                rows,
                cols,
                offset: 0,
                history: 0,
                capacity: SCROLLBACK_ROWS,
                cursor_row: 0,
                cursor_col: 0,
                cursor_hidden: false,
                alternate: false,
                other_history: 0,
                other_cursor_row: 0,
                other_cursor_col: 0,
            }) && t.at_rest() && t.outgoing() == Seq::<u8>::empty(),
    {
        if rows >= MIN_ROWS && cols >= MIN_COLS && cols <= MAX_COLS {
            Some(Self::spawn(rows, cols))
        } else {
            None
        }
    }

    /// The offset of the viewport: 0 when it shows the live bottom.
    pub fn scroll_offset(&self) -> (offset: usize)
        ensures
            offset == self@.offset,
    {
        screen_scrollback(&self.parser)
    }

    /// Rows and columns of the grid.
    pub fn size(&self) -> (size: (u16, u16))
        ensures
            size == (self@.rows, self@.cols),
    {
        screen_size(&self.parser)
    }

    /// Whether the alternate grid is shown.
    pub fn alternate_screen(&self) -> (alternate: bool)
        ensures
            alternate == self@.alternate,
    {
        screen_alternate(&self.parser)
    }

    /// The screen, for a renderer to read.
    pub fn screen(&self) -> (screen: &vt100::Screen)
        ensures
            *screen == screen_of(self.parser()),
    {
        parser_screen(&self.parser)
    }

    /// Makes the grid shown fit a size that takes rows or columns away:
    /// where it gets narrower, the wide glyphs that the new right edge
    /// would cut in two are erased, and the cursor is saved where it will
    /// stand.
    fn mend(&mut self, rows: u16, cols: u16)
        requires
            old(self).wf(),
            old(self).at_rest(),
            old(self)@.offset == 0,
            usable_size(rows, cols),
        ensures
            final(self).wf(),
            final(self).at_rest(),
            grid_fits(final(self).parser(), rows, cols),
            other_fits(final(self).parser(), rows, cols) == other_fits(
                old(self).parser(),
                rows,
                cols,
            ),
            final(self)@ == (ScreenModel {
                cursor_col: least(old(self)@.cursor_col, (old(self)@.cols - 1) as u16),
                ..old(self)@
            }),
            final(self).outgoing() == old(self).outgoing(),
    {
        let (current_rows, current_cols) = screen_size(&self.parser);
        let (row, col) = screen_cursor_position(&self.parser);
        let mut erase: Vec<u16> = Vec::new();
        if cols < current_cols {
            let mut r: u16 = 0;
            while r < current_rows
                invariant
                    r <= current_rows,
                    current_rows == self@.rows,
                    self.wf(),
                    self@.offset == 0,
                    cols >= 1,
                    forall|i: int| 0 <= i < erase@.len() ==> erase@[i] < current_rows,
                    forall|q: u16|
                        q < r && (#[trigger] shown_cell(self.parser(), q, (cols - 1) as u16)
                            matches Some(cell) && cell.wide) ==> erase@.contains(q),
                decreases current_rows - r,
            {
                let ghost before = erase@;
                match cell_at(&self.parser, r, cols - 1) {
                    Some(cell) => {
                        if cell.wide {
                            erase.push(r);
                            assert(erase@.last() == r);
                            assert forall|q: u16|
                                q < r && (#[trigger] shown_cell(
                                    self.parser(),
                                    q,
                                    (cols - 1) as u16,
                                ) matches Some(cell) && cell.wide) implies erase@.contains(q) by {
                                let k = choose|k: int| 0 <= k < before.len() && before[k] == q;
                                assert(erase@[k] == q);
                            }
                        }
                    },
                    None => {},
                }
                r += 1;
            }
        }
        let bytes = mend_sequence(rows, cols, &erase, row, col);
        parser_process(&mut self.parser, bytes.as_slice());
    }

    /// Keeps the grid at the size of the panel. Returns whether the size
    /// changed, in which case the pseudo-terminal is to be resized as well.
    /// The viewport keeps its offset. Before rows or columns are taken
    /// away, either grid is made to fit: this ends a sequence that the
    /// shell has begun and not finished, erases the wide glyphs that the
    /// new right edge would cut in two, and saves the cursors anew.
    pub fn ensure_size(&mut self, rows: u16, cols: u16) -> (resized: bool)
        requires
            old(self).wf(),
            usable_size(rows, cols),
        ensures
            final(self).wf(),
            resized == needs_resize(old(self)@, rows, cols),
            !resized ==> final(self).parser() == old(self).parser(),
            resized ==> resize_effect(old(self)@, old(self).at_rest(), rows, cols, final(self)@),
            resized && shrinks(old(self)@, rows, cols) ==> final(self).at_rest(),
            resized && !shrinks(old(self)@, rows, cols) ==> final(self).at_rest() == old(
                self,
            ).at_rest(),
            final(self).outgoing() == old(self).outgoing(),
    {
        let (current_rows, current_cols) = screen_size(&self.parser);
        if current_rows != rows || current_cols != cols {
            let offset = self.scroll_offset();
            if rows < current_rows || cols < current_cols {
                let flush = flush_sequence();
                parser_process(&mut self.parser, flush.as_slice());
                parser_set_scrollback(&mut self.parser, 0);
                self.mend(rows, cols);
                let to_other = switch_sequence(screen_alternate(&self.parser));
                parser_process(&mut self.parser, to_other.as_slice());
                self.mend(rows, cols);
                let back = switch_sequence(screen_alternate(&self.parser));
                parser_process(&mut self.parser, back.as_slice());
            }
            parser_set_size(&mut self.parser, rows, cols);
            parser_set_scrollback(&mut self.parser, offset);
            true
        } else {
            false
        }
    }

    /// Keeps the grid at the size of the panel, as `ensure_size` does, or
    /// leaves it alone and returns `None` where the emulator cannot work
    /// with a grid of that size.
    pub fn try_ensure_size(&mut self, rows: u16, cols: u16) -> (resized: Option<bool>)
        requires
            old(self).wf(),
        ensures
            final(self).wf(),
            final(self).outgoing() == old(self).outgoing(),
            match resized {
                Some(changed) => usable_size(rows, cols) && changed == needs_resize(
                    old(self)@,
                    rows,
                    cols,
                ) && (!changed ==> final(self).parser() == old(self).parser()) && (changed
                    ==> resize_effect(
                    old(self)@,
                    old(self).at_rest(),
                    rows,
                    cols,
                    final(self)@,
                )),
                None => !usable_size(rows, cols) && final(self).parser() == old(self).parser(),
            },
    {
        if rows >= MIN_ROWS && cols >= MIN_COLS && cols <= MAX_COLS {
            Some(self.ensure_size(rows, cols))
        } else {
            None
        }
    }

    /// Queues bytes for the shell. A live view stays live and a view into
    /// the history stays where it is.
    pub fn send_bytes(&mut self, bytes: &[u8])
        requires
            old(self).wf(),
        ensures
            final(self).wf(),
            final(self)@ == old(self)@,
            final(self).outgoing() == old(self).outgoing() + bytes@,
    {
        if self.scroll_offset() == 0 {
            parser_set_scrollback(&mut self.parser, 0);
        }
        self.outgoing.extend_from_slice(bytes);
    }

    /// Hands out the queued bytes, oldest first, and empties the queue.
    pub fn take_outgoing(&mut self) -> (bytes: Vec<u8>)
        ensures
            bytes@ == old(self).outgoing(),
            final(self).outgoing() == Seq::<u8>::empty(),
            final(self).parser() == old(self).parser(),
    {
        let mut bytes: Vec<u8> = Vec::new();
        std::mem::swap(&mut self.outgoing, &mut bytes);
        bytes
    }

    /// Feeds the chunks read from the shell to the screen, in their order.
    pub fn poll_output(&mut self, chunks: &Vec<Vec<u8>>)
        requires
            old(self).wf(),
        ensures
            final(self).wf(),
            final(self).parser() == fed(old(self).parser(), chunk_bytes(chunks@)),
            final(self)@.rows == old(self)@.rows,
            final(self)@.cols == old(self)@.cols,
            final(self)@.capacity == old(self)@.capacity,
            old(self)@.offset == 0 ==> final(self)@.offset == 0,
            final(self).outgoing() == old(self).outgoing(),
    {
        let mut i: usize = 0;
        while i < chunks.len()
            invariant
                i <= chunks.len(),
                self.wf(),
                self.parser() == fed(old(self).parser(), chunk_bytes(chunks@).take(i as int)),
                self@.rows == old(self)@.rows,
                self@.cols == old(self)@.cols,
                self@.capacity == old(self)@.capacity,
                old(self)@.offset == 0 ==> self@.offset == 0,
                self.outgoing() == old(self).outgoing(),
            decreases chunks.len() - i,
        {
            proof {
                let all = chunk_bytes(chunks@);
                assert(all.take(i + 1).drop_last() =~= all.take(i as int));
                assert(all.take(i + 1).last() == chunks@[i as int]@);
            }
            parser_process(&mut self.parser, chunks[i].as_slice());
            i += 1;
        }
        proof {
            let all = chunk_bytes(chunks@);
            assert(all.take(i as int) =~= all);
        }
    }

    /// Where to draw the cursor: nowhere while the view is in the history
    /// or the cursor is hidden, and else at the cursor's place, which is
    /// always inside the grid. A cursor that waits behind the last column
    /// for the next character is drawn in the last column.
    pub fn cursor_state(&self) -> (state: Option<CursorState>)
        requires
            self.wf(),
        ensures
            state is Some <==> self@.offset == 0 && !self@.cursor_hidden,
            state matches Some(c) ==> c.draw && c.row == cursor_in_grid(self@).0 && c.col
                == cursor_in_grid(self@).1 && c.row < self@.rows && c.col < self@.cols,
    {
        if self.scroll_offset() > 0 || screen_hide_cursor(&self.parser) {
            return None;
        }
        let (_, cols) = screen_size(&self.parser);
        let (row, col) = screen_cursor_position(&self.parser);
        Some(
            CursorState {
                draw: true,
                row,
                col: if col < cols {
                    col
                } else {
                    cols - 1
                },
            },
        )
    }

    /// The rows that the viewport shows, each as its spans. The emulator
    /// can show at most as many rows of history as the grid is high.
    pub fn terminal_lines(&self) -> (lines: Vec<Vec<Span>>)
        requires
            self.wf(),
            self@.offset <= self@.rows,
        ensures
            lines@.len() == self@.rows,
            forall|r: int|
                0 <= r < self@.rows ==> span_models(#[trigger] lines@[r]@) == row_runs(
                    row_cells(self.parser(), r as u16, self@.cols as nat),
                ),
    {
        let (rows, cols) = screen_size(&self.parser);
        let mut lines: Vec<Vec<Span>> = Vec::new();
        let mut row: u16 = 0;
        while row < rows
            invariant
                row <= rows,
                rows == self@.rows,
                cols == self@.cols,
                self.wf(),
                self@.offset <= self@.rows,
                lines@.len() == row,
                forall|r: int|
                    0 <= r < row ==> span_models(#[trigger] lines@[r]@) == row_runs(
                        row_cells(self.parser(), r as u16, cols as nat),
                    ),
            decreases rows - row,
        {
            let mut cells: Vec<Cell> = Vec::new();
            let mut col: u16 = 0;
            while col < cols
                invariant
                    col <= cols,
                    self.wf(),
                    self@.offset <= self@.rows,
                    cells@ == row_cells(self.parser(), row, col as nat),
                decreases cols - col,
            {
                match cell_at(&self.parser, row, col) {
                    Some(cell) => {
                        cells.push(cell);
                    },
                    None => {},
                }
                col += 1;
            }
            lines.push(row_spans(&cells));
            row += 1;
        }
        lines
    }

    /// The rows that the viewport shows, or `None` where it is scrolled
    /// back by more rows than the grid is high.
    pub fn visible_lines(&self) -> (lines: Option<Vec<Vec<Span>>>)
        requires
            self.wf(),
        ensures
            lines is Some <==> self@.offset <= self@.rows,
            lines matches Some(l) ==> l@.len() == self@.rows && forall|r: int|
                0 <= r < self@.rows ==> span_models(#[trigger] l@[r]@) == row_runs(
                    row_cells(self.parser(), r as u16, self@.cols as nat),
                ),
    {
        let (rows, _) = screen_size(&self.parser);
        if self.scroll_offset() <= rows as usize {
            Some(self.terminal_lines())
        } else {
            None
        }
    }

    /// Scrolls the view `lines` rows up into the history, as far as it goes.
    pub fn scroll_up(&mut self, lines: usize)
        requires
            old(self).wf(),
        ensures
            final(self).wf(),
            final(self)@ == (ScreenModel {
                offset: offset_scrolled_up(old(self)@.offset, lines, old(self)@.history),
                ..old(self)@
            }),
            final(self).outgoing() == old(self).outgoing(),
    {
        let offset = self.scroll_offset().saturating_add(lines);
        parser_set_scrollback(&mut self.parser, offset);
    }

    /// Scrolls the view `lines` rows down, at most to the live bottom.
    pub fn scroll_down(&mut self, lines: usize)
        requires
            old(self).wf(),
        ensures
            final(self).wf(),
            final(self)@ == (ScreenModel {
                offset: offset_scrolled_down(old(self)@.offset, lines),
                ..old(self)@
            }),
            final(self).outgoing() == old(self).outgoing(),
    {
        let offset = self.scroll_offset().saturating_sub(lines);
        parser_set_scrollback(&mut self.parser, offset);
    }
}

/// The history never outgrows its bound, and the viewport never leaves the
/// history.
pub proof fn lemma_history_is_bounded(term: PtyTerminal)
    requires
        term.wf(),
    ensures
        term@.offset <= term@.history <= SCROLLBACK_ROWS,
{
}

/// A panel that was given a size has it: asking for the same size again
/// finds nothing to do, so neither the grid nor the pseudo-terminal is
/// resized a second time.
pub proof fn lemma_resize_settles(m: ScreenModel, rows: u16, cols: u16)
    requires
        consistent(m),
        usable_size(rows, cols),
    ensures
        !needs_resize(after_resize(m, rows, cols), rows, cols),
        after_resize(after_resize(m, rows, cols), rows, cols) == after_resize(m, rows, cols),
{
}

/// A resize keeps the offset of the viewport and the history behind it.
pub proof fn lemma_resize_keeps_viewport(m: ScreenModel, rows: u16, cols: u16)
    requires
        consistent(m),
        usable_size(rows, cols),
    ensures
        consistent(after_resize(m, rows, cols)),
        after_resize(m, rows, cols).offset == m.offset,
        after_resize(m, rows, cols).history == m.history,
        after_resize(m, rows, cols).capacity == m.capacity,
{
}

/// Scrolling up from the live view and then down by the same number of
/// rows leads back to the live view, however long the history is.
pub proof fn lemma_scroll_round_trip(lines: usize, history: usize)
    ensures
        offset_scrolled_down(offset_scrolled_up(0, lines, history), lines) == 0,
{
}

/// Scrolling never leaves the history: the offset stays between 0 and the
/// number of rows kept. Scrolling up from the live view leaves it exactly
/// when there is history and `lines` is not 0; scrolling down by at least
/// the offset returns to it.
pub proof fn lemma_scroll_stays_in_history(offset: usize, lines: usize, history: usize)
    requires
        offset <= history,
    ensures
        offset <= offset_scrolled_up(offset, lines, history) <= history,
        offset_scrolled_down(offset, lines) <= offset,
        offset_scrolled_up(0, lines, history) > 0 <==> (lines > 0 && history > 0),
        offset_scrolled_down(offset, lines) == 0 <==> lines >= offset,
{
}

} // verus!
