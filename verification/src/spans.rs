//! Rows of the screen as runs of equally styled text, for a renderer.

use vstd::prelude::*;

verus! {

/// A colour of a cell.
#[derive(Clone, Copy, Debug, PartialEq, Eq, Structural)]
pub enum Color {
    /// The terminal's own foreground or background.
    Default,
    /// One of the 256 indexed colours.
    Idx(u8),
    /// A 24-bit colour.
    Rgb(u8, u8, u8),
}

/// How a cell is drawn.
#[derive(Clone, Copy, Debug, PartialEq, Eq, Structural)]
pub struct CellStyle {
    pub fg: Color,
    pub bg: Color,
    pub bold: bool,
    pub italic: bool,
    pub underline: bool,
    pub inverse: bool,
}

/// What a renderer reads of one cell of the grid.
#[derive(Debug)]
pub struct Cell {
    /// The character of the cell with what combines with it; empty for a
    /// blank cell.
    pub text: String,
    pub style: CellStyle,
    /// Whether the cell is the first column of a wide glyph.
    pub wide: bool,
    /// Whether the cell is the second column of a wide glyph.
    pub wide_continuation: bool,
}

/// A run of equally styled text.
#[derive(Debug)]
pub struct Span {
    pub text: String,
    pub style: CellStyle,
}

/// A span as a plain value.
pub struct SpanModel {
    pub text: Seq<char>,
    pub style: CellStyle,
}

impl View for Span {
    type V = SpanModel;

    open spec fn view(&self) -> SpanModel {
        SpanModel { text: self.text@, style: self.style }
    }
}

/// The style of text that no escape sequence has styled.
pub open spec fn plain_style() -> CellStyle {
    CellStyle {
        fg: Color::Default,
        bg: Color::Default,
        bold: false,
        italic: false,
        underline: false,
        inverse: false,
    }
}

/// What a cell shows: a blank where it holds nothing.
pub open spec fn cell_text(cell: Cell) -> Seq<char> {
    if cell.text@.len() == 0 {
        seq![' ']
    } else {
        cell.text@
    }
}

/// The cells of a row as runs: the second columns of wide glyphs are left
/// out, and a cell joins the run before it where their styles are equal.
pub open spec fn runs(cells: Seq<Cell>) -> Seq<SpanModel>
    decreases cells.len(),
{
    if cells.len() == 0 {
        Seq::<SpanModel>::empty()
    } else {
        let before = runs(cells.drop_last());
        let cell = cells.last();
        if cell.wide_continuation {
            before
        } else if before.len() > 0 && before.last().style == cell.style {
            before.drop_last().push(
                SpanModel { text: before.last().text + cell_text(cell), style: cell.style },
            )
        } else {
            before.push(SpanModel { text: cell_text(cell), style: cell.style })
        }
    }
}

/// The spans of a row: its runs, or one empty plain span where it has none.
pub open spec fn row_runs(cells: Seq<Cell>) -> Seq<SpanModel> {
    if runs(cells).len() == 0 {
        seq![SpanModel { text: Seq::<char>::empty(), style: plain_style() }]
    } else {
        runs(cells)
    }
}

/// The spans as plain values.
pub open spec fn span_models(spans: Seq<Span>) -> Seq<SpanModel> {
    spans.map_values(|s: Span| s@)
}

/// The text of all spans, one after the other.
pub open spec fn joined(spans: Seq<SpanModel>) -> Seq<char>
    decreases spans.len(),
{
    if spans.len() == 0 {
        Seq::<char>::empty()
    } else {
        joined(spans.drop_last()) + spans.last().text
    }
}

/// The text of all cells that are no second column of a wide glyph.
pub open spec fn row_text(cells: Seq<Cell>) -> Seq<char>
    decreases cells.len(),
{
    if cells.len() == 0 {
        Seq::<char>::empty()
    } else if cells.last().wide_continuation {
        row_text(cells.drop_last())
    } else {
        row_text(cells.drop_last()) + cell_text(cells.last())
    }
}

/// The runs of a row hold its text, nothing lost and nothing added.
pub proof fn lemma_runs_keep_text(cells: Seq<Cell>)
    ensures
        joined(runs(cells)) == row_text(cells),
    decreases cells.len(),
{
    if cells.len() > 0 {
        lemma_runs_keep_text(cells.drop_last());
        let before = runs(cells.drop_last());
        let cell = cells.last();
        if cell.wide_continuation {
        } else if before.len() > 0 && before.last().style == cell.style {
            let merged = SpanModel { text: before.last().text + cell_text(cell), style: cell.style };
            assert(before.drop_last().push(merged).drop_last() =~= before.drop_last());
            assert(joined(runs(cells)) =~= joined(before) + cell_text(cell));
        } else {
            let added = SpanModel { text: cell_text(cell), style: cell.style };
            assert(before.push(added).drop_last() =~= before);
        }
    }
}

/// Runs are maximal: two neighbours never have the same style, and no run
/// is empty.
pub proof fn lemma_runs_are_maximal(cells: Seq<Cell>)
    ensures
        forall|i: int| 0 <= i < runs(cells).len() ==> (#[trigger] runs(cells)[i]).text.len() > 0,
        forall|i: int|
            0 < i < runs(cells).len() ==> (#[trigger] runs(cells)[i]).style != runs(cells)[i
                - 1].style,
    decreases cells.len(),
{
    if cells.len() > 0 {
        lemma_runs_are_maximal(cells.drop_last());
    }
}

/// The plain style.
pub fn default_style() -> (style: CellStyle)
    ensures
        style == plain_style(),
{
    CellStyle {
        fg: Color::Default,
        bg: Color::Default,
        bold: false,
        italic: false,
        underline: false,
        inverse: false,
    }
}

/// Groups the cells of a row into spans.
pub fn row_spans(cells: &Vec<Cell>) -> (spans: Vec<Span>)
    ensures
        span_models(spans@) == row_runs(cells@),
{
    let mut spans: Vec<Span> = Vec::new();
    let mut current_style = default_style();
    let mut current_text = String::new();
    let mut started = false;
    let mut i: usize = 0;
    assert(span_models(spans@) =~= Seq::<SpanModel>::empty());
    while i < cells.len()
        invariant
            i <= cells.len(),
            !started ==> spans@.len() == 0,
            runs(cells@.take(i as int)) == span_models(spans@) + (if started {
                seq![SpanModel { text: current_text@, style: current_style }]
            } else {
                Seq::<SpanModel>::empty()
            }),
        decreases cells.len() - i,
    {
        let cell = &cells[i];
        proof {
            assert(cells@.take(i + 1).drop_last() =~= cells@.take(i as int));
            assert(cells@.take(i + 1).last() == *cell);
        }
        if !cell.wide_continuation {
            let ghost before = runs(cells@.take(i as int));
            let ghost done = span_models(spans@);
            let ghost shown = cell_text(*cell);
            if !started {
                assert(before =~= Seq::<SpanModel>::empty());
                current_style = cell.style;
                current_text = String::new();
                started = true;
            } else if cell.style == current_style {
                assert(before.last() == SpanModel { text: current_text@, style: current_style });
                assert(before.drop_last() =~= done);
            } else {
                let ghost closed = SpanModel { text: current_text@, style: current_style };
                assert(before.last() == closed);
                spans.push(Span { text: current_text, style: current_style });
                assert(span_models(spans@) =~= done.push(closed));
                assert(before =~= span_models(spans@));
                current_text = String::new();
                current_style = cell.style;
            }
            let ghost so_far = current_text@;
            assert(runs(cells@.take(i + 1)) == span_models(spans@).push(
                SpanModel { text: so_far + shown, style: current_style },
            )) by {
                assert(Seq::<char>::empty() + shown =~= shown);
            }
            if cell.text.as_str().is_empty() {
                proof {
                    reveal_strlit(" ");
                }
                current_text.append(" ");
                assert(current_text@ =~= so_far + shown);
            } else {
                current_text.append(cell.text.as_str());
            }
            assert(runs(cells@.take(i + 1)) =~= span_models(spans@) + seq![
                SpanModel { text: current_text@, style: current_style },
            ]);
        }
        i += 1;
    }
    assert(cells@.take(i as int) =~= cells@);
    if started {
        let ghost done = span_models(spans@);
        let ghost closed = SpanModel { text: current_text@, style: current_style };
        spans.push(Span { text: current_text, style: current_style });
        assert(span_models(spans@) =~= done.push(closed));
    } else {
        spans.push(Span { text: String::new(), style: default_style() });
        assert(span_models(spans@) =~= seq![
            SpanModel { text: Seq::<char>::empty(), style: plain_style() },
        ]);
    }
    spans
}

} // verus!
