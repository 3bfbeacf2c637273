//! Rectangles on screen: the inside of a bordered panel, and where the
//! terminal's cursor goes.

use vstd::prelude::*;
use crate::pty_terminal::CursorState;

verus! {

/// A rectangle of cells.
#[derive(Clone, Copy, Debug, PartialEq, Eq, Structural)]
pub struct Rect {
    pub x: u16,
    pub y: u16,
    pub width: u16,
    pub height: u16,
}

/// The widest that the debug overlay gets.
pub const OVERLAY_WIDTH: u16 = 32;

/// The highest that the debug overlay gets.
pub const OVERLAY_HEIGHT: u16 = 6;

/// `a + b`, or the largest `u16` where that is less.
pub open spec fn capped(a: u16, b: u16) -> u16 {
    if a + b <= u16::MAX {
        (a + b) as u16
    } else {
        u16::MAX
    }
}

/// `a - b`, or 0 where `b` is larger.
pub open spec fn floored(a: u16, b: u16) -> u16 {
    if a >= b {
        (a - b) as u16
    } else {
        0
    }
}

/// The smaller of two numbers.
pub open spec fn lesser(a: u16, b: u16) -> u16 {
    if a <= b {
        a
    } else {
        b
    }
}

/// What a border of one cell leaves of an area.
pub open spec fn inside(area: Rect) -> Rect {
    Rect {
        x: capped(area.x, 1),
        y: capped(area.y, 1),
        width: floored(area.width, 2),
        height: floored(area.height, 2),
    }
}

/// The inside of a bordered panel.
pub fn inner(area: Rect) -> (rect: Rect)
    ensures
        rect == inside(area),
{
    Rect {
        x: area.x.saturating_add(1),
        y: area.y.saturating_add(1),
        width: area.width.saturating_sub(2),
        height: area.height.saturating_sub(2),
    }
}

/// Where the debug overlay goes: one cell inside the terminal's inside,
/// and no larger than that.
pub fn overlay(inner: Rect) -> (rect: Rect)
    ensures
        rect == (Rect {
            x: capped(inner.x, 1),
            y: capped(inner.y, 1),
            width: lesser(inner.width, OVERLAY_WIDTH),
            height: lesser(inner.height, OVERLAY_HEIGHT),
        }),
{
    Rect {
        x: inner.x.saturating_add(1),
        y: inner.y.saturating_add(1),
        width: if inner.width <= OVERLAY_WIDTH {
            inner.width
        } else {
            OVERLAY_WIDTH
        },
        height: if inner.height <= OVERLAY_HEIGHT {
            inner.height
        } else {
            OVERLAY_HEIGHT
        },
    }
}

/// The cell of the screen in which the terminal's cursor is drawn: the
/// cursor's place in the grid, kept within the panel and counted from the
/// panel's corner. There is none where the cursor is not to be drawn, the
/// panel has no cells, or the cell lies beyond what `u16` can name.
pub open spec fn cursor_place(inner: Rect, cursor: CursorState) -> Option<(u16, u16)> {
    if !cursor.draw || inner.width == 0 || inner.height == 0 {
        None
    } else {
        let x = inner.x + lesser(cursor.col, (inner.width - 1) as u16);
        let y = inner.y + lesser(cursor.row, (inner.height - 1) as u16);
        if x <= u16::MAX && y <= u16::MAX {
            Some((x as u16, y as u16))
        } else {
            None
        }
    }
}

/// Computes `cursor_place`.
pub fn cursor_cell(inner: Rect, cursor: CursorState) -> (cell: Option<(u16, u16)>)
    ensures
        cell == cursor_place(inner, cursor),
{
    if !cursor.draw || inner.width == 0 || inner.height == 0 {
        return None;
    }
    let col = if cursor.col <= inner.width - 1 {
        cursor.col
    } else {
        inner.width - 1
    };
    let row = if cursor.row <= inner.height - 1 {
        cursor.row
    } else {
        inner.height - 1
    };
    match (inner.x.checked_add(col), inner.y.checked_add(row)) {
        (Some(x), Some(y)) => Some((x, y)),
        _ => None,
    }
}

/// A cursor that is drawn lies inside the panel.
pub proof fn lemma_cursor_inside(inner: Rect, cursor: CursorState)
    ensures
        cursor_place(inner, cursor) matches Some((x, y)) ==> inner.x <= x < inner.x + inner.width
            && inner.y <= y < inner.y + inner.height,
{
}

} // verus!
