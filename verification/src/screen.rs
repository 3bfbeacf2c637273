//! The boundary to the terminal emulator: what this crate assumes of
//! `vt100::Parser`, stated over a plain model of the screen.
//!
//! The emulator keeps two grids, of which it shows one. It does not mend
//! a grid that loses rows or columns: a cursor that was saved outside the
//! new size, or a wide glyph that the new right edge cuts in two, makes it
//! fail later. So a grid is only made smaller once it fits the new size,
//! and `mend_bytes` is what makes it fit.

use vstd::prelude::*;
use crate::spans::{Cell, CellStyle, Color};

verus! {

/// `vt100::Parser`, the emulator: an opaque value.
#[verifier::external_type_specification]
#[verifier::external_body]
pub struct ExParser(vt100::Parser);

/// `vt100::Screen`, what a renderer reads: an opaque value.
#[verifier::external_type_specification]
#[verifier::external_body]
pub struct ExScreen(vt100::Screen);

/// What the viewport logic reads of a terminal screen. Offset, history and
/// cursor are those of the grid that is shown; of the other grid, whose
/// offset is always 0, the model holds what a switch brings back.
pub struct ScreenModel {
    /// Height of the grids.
    pub rows: u16,
    /// Width of the grids.
    pub cols: u16,
    /// How many rows of history are shown above the live bottom.
    pub offset: usize,
    /// How many rows of history the grid has kept.
    pub history: usize,
    /// The most rows of history that are ever kept.
    pub capacity: usize,
    pub cursor_row: u16,
    pub cursor_col: u16,
    pub cursor_hidden: bool,
    /// Whether the alternate grid is the one shown.
    pub alternate: bool,
    /// The history of the grid that is not shown.
    pub other_history: usize,
    pub other_cursor_row: u16,
    pub other_cursor_col: u16,
}

/// The lowest grid: a line that wraps needs a row above the last one.
pub const MIN_ROWS: u16 = 2;

/// The narrowest grid: the widest glyph takes three columns.
pub const MIN_COLS: u16 = 3;

/// The widest grid: the tab stop after the last column still fits in `u16`.
pub const MAX_COLS: u16 = 65527;

/// The grid sizes that the emulator can work with.
pub open spec fn usable_size(rows: u16, cols: u16) -> bool {
    MIN_ROWS <= rows && MIN_COLS <= cols <= MAX_COLS
}

/// What holds of every screen: a usable size, the offset within the
/// history, either history within the capacity, and either cursor inside
/// the grid or, while it waits for the next character, just behind the
/// last column.
pub open spec fn consistent(m: ScreenModel) -> bool {
    &&& usable_size(m.rows, m.cols)
    &&& m.offset <= m.history <= m.capacity
    &&& m.other_history <= m.capacity
    &&& m.cursor_row < m.rows
    &&& m.cursor_col <= m.cols
    &&& m.other_cursor_row < m.rows
    &&& m.other_cursor_col <= m.cols
}

/// Whether a resize takes rows or columns away.
pub open spec fn shrinks(m: ScreenModel, rows: u16, cols: u16) -> bool {
    rows < m.rows || cols < m.cols
}

/// The smaller of two numbers.
pub open spec fn least(a: u16, b: u16) -> u16 {
    if a <= b {
        a
    } else {
        b
    }
}

/// The screen after a resize: the new size, and either cursor moved onto
/// the last row or column where it would be outside. A resize that takes
/// something away also ends the wait of a cursor behind the last column.
pub open spec fn after_resize(m: ScreenModel, rows: u16, cols: u16) -> ScreenModel {
    let width = if shrinks(m, rows, cols) {
        least(m.cols, cols)
    } else {
        cols
    };
    ScreenModel {
        rows,
        cols,
        cursor_row: least(m.cursor_row, (rows - 1) as u16),
        cursor_col: least(m.cursor_col, (width - 1) as u16),
        other_cursor_row: least(m.other_cursor_row, (rows - 1) as u16),
        other_cursor_col: least(m.other_cursor_col, (width - 1) as u16),
        ..m
    }
}

/// The screen after a switch to the other grid, which is then shown from
/// its live bottom.
pub open spec fn switched(m: ScreenModel) -> ScreenModel {
    ScreenModel {
        alternate: !m.alternate,
        offset: 0,
        history: m.other_history,
        cursor_row: m.other_cursor_row,
        cursor_col: m.other_cursor_col,
        other_history: m.history,
        other_cursor_row: m.cursor_row,
        other_cursor_col: m.cursor_col,
        ..m
    }
}

/// The offset after a request to show `offset` rows of history, of which
/// `history` exist.
pub open spec fn clamped_offset(offset: usize, history: usize) -> usize {
    if offset <= history {
        offset
    } else {
        history
    }
}

/// A number in decimal digits.
pub open spec fn decimal_bytes(n: nat) -> Seq<u8>
    decreases n,
{
    if n < 10 {
        seq![(0x30 + n) as u8]
    } else {
        decimal_bytes(n / 10).push((0x30 + n % 10) as u8)
    }
}

/// The control sequence with one number and the final byte `last`.
pub open spec fn csi(n: nat, last: u8) -> Seq<u8> {
    seq![0x1bu8, 0x5bu8] + decimal_bytes(n) + seq![last]
}

/// The bytes that put the cursor in a row and a column, counted from 0,
/// wherever margins are set: first the row, then the column.
pub open spec fn goto_bytes(row: u16, col: u16) -> Seq<u8> {
    csi((row + 1) as nat, 0x64) + csi((col + 1) as nat, 0x47)
}

/// The bytes that erase the cell in column `col` of each of the rows.
pub open spec fn erase_bytes(rows: Seq<u16>, col: u16) -> Seq<u8>
    decreases rows.len(),
{
    if rows.len() == 0 {
        Seq::<u8>::empty()
    } else {
        erase_bytes(rows.drop_last(), col) + goto_bytes(rows.last(), col) + seq![
            0x1bu8,
            0x5bu8,
            0x58u8,
        ]
    }
}

/// Two `CAN`: they end whatever sequence or character was begun.
pub open spec fn flush_bytes() -> Seq<u8> {
    seq![0x18u8, 0x18u8]
}

/// The bytes that switch to the other grid without clearing it.
pub open spec fn switch_bytes(alternate: bool) -> Seq<u8> {
    seq![0x1bu8, 0x5bu8, 0x3fu8, 0x34u8, 0x37u8, if alternate {
        0x6cu8
    } else {
        0x68u8
    }]
}

/// The bytes that make the grid shown fit a size of `rows` by `cols`:
/// they erase the last column that stays in each of the rows `erase`,
/// save the cursor where it will stand after the resize, and put it back
/// to `row` and `col`.
pub open spec fn mend_bytes(rows: u16, cols: u16, erase: Seq<u16>, row: u16, col: u16) -> Seq<u8> {
    erase_bytes(erase, (cols - 1) as u16) + goto_bytes(
        least(row, (rows - 1) as u16),
        least(col, (cols - 1) as u16),
    ) + seq![0x1bu8, 0x37u8] + goto_bytes(row, col)
}

/// Whether `erase` names every row of the grid shown in which a wide
/// glyph begins in the last column that a width of `cols` leaves.
pub open spec fn covers_cut_glyphs(p: vt100::Parser, cols: u16, erase: Seq<u16>) -> bool {
    forall|r: u16|
        r < screen_model(p).rows && (#[trigger] shown_cell(p, r, (cols - 1) as u16) matches Some(
            cell,
        ) && cell.wide) ==> erase.contains(r)
}

/// The model of a parser's screen.
pub uninterp spec fn screen_model(p: vt100::Parser) -> ScreenModel;

/// The parser that `p` becomes by processing `bytes`.
pub uninterp spec fn processed(p: vt100::Parser, bytes: Seq<u8>) -> vt100::Parser;

/// Whether the parser stands between two sequences, with no escape
/// sequence and no character begun.
pub uninterp spec fn at_rest(p: vt100::Parser) -> bool;

/// Whether the grid shown fits a size: its saved cursor lies inside, and
/// no wide glyph begins in the column that would be the last.
pub uninterp spec fn grid_fits(p: vt100::Parser, rows: u16, cols: u16) -> bool;

/// Whether the grid that is not shown fits a size.
pub uninterp spec fn other_fits(p: vt100::Parser, rows: u16, cols: u16) -> bool;

/// What the viewport shows in a cell, if it shows one there.
pub uninterp spec fn shown_cell(p: vt100::Parser, row: u16, col: u16) -> Option<Cell>;

/// The screen of a parser.
pub uninterp spec fn screen_of(p: vt100::Parser) -> vt100::Screen;

/// `vt100::Parser::new`: a parser at rest with two empty grids of the
/// given size, the primary one shown, the cursor shown in the top left
/// corner, no history yet, and room for `capacity` rows of it.
#[verifier::external_body]
pub(crate) fn parser_new(rows: u16, cols: u16, capacity: usize) -> (p: vt100::Parser)
    requires
        usable_size(rows, cols),
    ensures
        screen_model(p) == (ScreenModel {
            rows,
            cols,
            offset: 0,
            history: 0,
            capacity,
            cursor_row: 0,
            cursor_col: 0,
            cursor_hidden: false,
            alternate: false,
            other_history: 0,
            other_cursor_row: 0,
            other_cursor_col: 0,
        }),
        at_rest(p),
{
    vt100::Parser::new(rows, cols, capacity)
}

/// `vt100::Parser::process`: feeds the bytes to the emulator one by one.
/// The outcome is a function of the parser and the bytes. Whatever they
/// are, the grids keep their size and the history its capacity, the
/// histories stay within the capacity and the offset within the history,
/// the cursors stay inside, and a view that was live stays live.
///
/// Of three byte strings the contract says more.
/// After `flush_bytes` the parser is at rest on the grid it was on, and
/// if it was at rest before, nothing has changed.
/// After `switch_bytes`, at rest, the other grid is shown.
/// After `mend_bytes`, at rest and with the live grid in view, the cursor
/// is back in its place, though no longer behind the last column, and the
/// grid shown fits the size, provided that columns are only erased where
/// the grid gets narrower and that the rows erased then include every row
/// with a wide glyph in that column; the other grid is as it was.
#[verifier::external_body]
pub(crate) fn parser_process(p: &mut vt100::Parser, bytes: &[u8])
    requires
        consistent(screen_model(*old(p))),
    ensures
        *final(p) == processed(*old(p), bytes@),
        consistent(screen_model(*final(p))),
        screen_model(*final(p)).rows == screen_model(*old(p)).rows,
        screen_model(*final(p)).cols == screen_model(*old(p)).cols,
        screen_model(*final(p)).capacity == screen_model(*old(p)).capacity,
        screen_model(*old(p)).offset == 0 ==> screen_model(*final(p)).offset == 0,
        bytes@ == flush_bytes() ==> {
            &&& at_rest(*final(p))
            &&& screen_model(*final(p)).alternate == screen_model(*old(p)).alternate
            &&& screen_model(*final(p)).cursor_hidden == screen_model(*old(p)).cursor_hidden
            &&& at_rest(*old(p)) ==> screen_model(*final(p)) == screen_model(*old(p))
        },
        bytes@ == switch_bytes(screen_model(*old(p)).alternate) && at_rest(*old(p)) ==> {
            &&& at_rest(*final(p))
            &&& screen_model(*final(p)) == switched(screen_model(*old(p)))
            &&& forall|r: u16, c: u16| #[trigger]
                grid_fits(*final(p), r, c) == other_fits(*old(p), r, c)
            &&& forall|r: u16, c: u16| #[trigger]
                other_fits(*final(p), r, c) == grid_fits(*old(p), r, c)
        },
        forall|rows: u16, cols: u16, erase: Seq<u16>|
            {
                &&& bytes@ == #[trigger] mend_bytes(
                    rows,
                    cols,
                    erase,
                    screen_model(*old(p)).cursor_row,
                    screen_model(*old(p)).cursor_col,
                )
                &&& at_rest(*old(p))
                &&& screen_model(*old(p)).offset == 0
                &&& usable_size(rows, cols)
                &&& cols >= screen_model(*old(p)).cols ==> erase.len() == 0
                &&& cols < screen_model(*old(p)).cols ==> covers_cut_glyphs(*old(p), cols, erase)
                &&& forall|i: int| 0 <= i < erase.len() ==> erase[i] < screen_model(*old(p)).rows
            } ==> {
                &&& at_rest(*final(p))
                &&& grid_fits(*final(p), rows, cols)
                &&& other_fits(*final(p), rows, cols) == other_fits(*old(p), rows, cols)
                &&& screen_model(*final(p)) == (ScreenModel {
                    cursor_col: least(
                        screen_model(*old(p)).cursor_col,
                        (screen_model(*old(p)).cols - 1) as u16,
                    ),
                    ..screen_model(*old(p))
                })
            },
{
    p.process(bytes)
}

/// `vt100::Parser::set_size`: gives both grids the new size, cutting or
/// padding rows and columns, and moves a cursor that is then outside onto
/// the last row or column. History, offset, modes and the parser are not
/// touched. Rows or columns are only taken from grids that fit the new
/// size.
#[verifier::external_body]
pub(crate) fn parser_set_size(p: &mut vt100::Parser, rows: u16, cols: u16)
    requires
        consistent(screen_model(*old(p))),
        usable_size(rows, cols),
        shrinks(screen_model(*old(p)), rows, cols) ==> grid_fits(*old(p), rows, cols)
            && other_fits(*old(p), rows, cols),
    ensures
        screen_model(*final(p)) == (ScreenModel {
            rows,
            cols,
            cursor_row: least(screen_model(*old(p)).cursor_row, (rows - 1) as u16),
            cursor_col: least(screen_model(*old(p)).cursor_col, (cols - 1) as u16),
            other_cursor_row: least(screen_model(*old(p)).other_cursor_row, (rows - 1) as u16),
            other_cursor_col: least(screen_model(*old(p)).other_cursor_col, (cols - 1) as u16),
            ..screen_model(*old(p))
        }),
        at_rest(*final(p)) == at_rest(*old(p)),
{
    p.set_size(rows, cols)
}

/// `vt100::Parser::set_scrollback`: sets the offset of the grid shown to
/// `offset`, or to the length of its history where that is less, and
/// touches nothing else.
#[verifier::external_body]
pub(crate) fn parser_set_scrollback(p: &mut vt100::Parser, offset: usize)
    ensures
        at_rest(*final(p)) == at_rest(*old(p)),
        forall|r: u16, c: u16| #[trigger]
            grid_fits(*final(p), r, c) == grid_fits(*old(p), r, c),
        forall|r: u16, c: u16| #[trigger]
            other_fits(*final(p), r, c) == other_fits(*old(p), r, c),
        screen_model(*final(p)) == (ScreenModel {
            offset: clamped_offset(offset, screen_model(*old(p)).history),
            ..screen_model(*old(p))
        }),
{
    p.set_scrollback(offset)
}

/// `vt100::Parser::screen`: the screen, for a renderer to read.
#[verifier::external_body]
pub(crate) fn parser_screen(p: &vt100::Parser) -> (s: &vt100::Screen)
    ensures
        *s == screen_of(*p),
{
    p.screen()
}

/// `vt100::Screen::size`: rows and columns of the grids.
#[verifier::external_body]
pub(crate) fn screen_size(p: &vt100::Parser) -> (size: (u16, u16))
    ensures
        size == (screen_model(*p).rows, screen_model(*p).cols),
{
    p.screen().size()
}

/// `vt100::Screen::scrollback`: the offset of the grid shown.
#[verifier::external_body]
pub(crate) fn screen_scrollback(p: &vt100::Parser) -> (offset: usize)
    ensures
        offset == screen_model(*p).offset,
{
    p.screen().scrollback()
}

/// `vt100::Screen::hide_cursor`: whether the cursor is hidden.
#[verifier::external_body]
pub(crate) fn screen_hide_cursor(p: &vt100::Parser) -> (hidden: bool)
    ensures
        hidden == screen_model(*p).cursor_hidden,
{
    p.screen().hide_cursor()
}

/// `vt100::Screen::cursor_position`: row and column of the cursor.
#[verifier::external_body]
pub(crate) fn screen_cursor_position(p: &vt100::Parser) -> (pos: (u16, u16))
    ensures
        pos == (screen_model(*p).cursor_row, screen_model(*p).cursor_col),
{
    p.screen().cursor_position()
}

/// `vt100::Screen::alternate_screen`: whether the alternate grid is shown.
#[verifier::external_body]
pub(crate) fn screen_alternate(p: &vt100::Parser) -> (alternate: bool)
    ensures
        alternate == screen_model(*p).alternate,
{
    p.screen().alternate_screen()
}

/// `vt100::Screen::cell`, with the cell's text, colours and flags read
/// through `vt100::Cell`'s getters: the cell that the viewport shows at the
/// given place. The emulator counts the rows of the viewport from those of
/// the grid, so the offset must not be larger.
#[verifier::external_body]
pub(crate) fn cell_at(p: &vt100::Parser, row: u16, col: u16) -> (cell: Option<Cell>)
    requires
        consistent(screen_model(*p)),
        screen_model(*p).offset <= screen_model(*p).rows,
    ensures
        cell == shown_cell(*p, row, col),
{
    let cell = p.screen().cell(row, col)?;
    let color = |c| match c {
        vt100::Color::Default => Color::Default,
        vt100::Color::Idx(i) => Color::Idx(i),
        vt100::Color::Rgb(r, g, b) => Color::Rgb(r, g, b),
    };
    let (fg, bg) = (color(cell.fgcolor()), color(cell.bgcolor()));
    let (bold, italic, underline) = (cell.bold(), cell.italic(), cell.underline());
    let style = CellStyle { fg, bg, bold, italic, underline, inverse: cell.inverse() };
    let wide_continuation = cell.is_wide_continuation();
    Some(Cell { text: cell.contents(), style, wide: cell.is_wide(), wide_continuation })
}

} // verus!
