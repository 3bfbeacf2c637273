use bbiribarabu::pty_terminal::PtyTerminal;
use bbiribarabu::spans::{default_style, row_spans, Cell, CellStyle, Color, Span};

fn cell(text: &str, style: CellStyle) -> Cell {
    Cell { text: text.to_string(), style, wide: false, wide_continuation: false }
}

fn bold() -> CellStyle {
    CellStyle { bold: true, ..default_style() }
}

fn texts(spans: &[Span]) -> Vec<String> {
    spans.iter().map(|s| s.text.clone()).collect()
}

#[test]
fn empty_row_is_one_empty_span() {
    let spans = row_spans(&vec![]);
    assert_eq!(spans.len(), 1);
    assert_eq!(spans[0].text, "");
    assert!(spans[0].style == default_style());
}

#[test]
fn blank_cells_show_as_spaces() {
    let plain = default_style();
    let spans = row_spans(&vec![cell("a", plain), cell("", plain), cell("b", plain)]);
    assert_eq!(texts(&spans), vec!["a b"]);
}

#[test]
fn equal_styles_are_merged_and_different_ones_split() {
    let plain = default_style();
    let red = CellStyle { fg: Color::Idx(1), ..plain };
    let cells = vec![
        cell("a", plain),
        cell("b", plain),
        cell("c", bold()),
        cell("d", bold()),
        cell("e", red),
        cell("f", plain),
    ];
    let spans = row_spans(&cells);
    assert_eq!(texts(&spans), vec!["ab", "cd", "e", "f"]);
    assert!(spans[0].style == plain);
    assert!(spans[1].style == bold());
    assert!(spans[2].style == red);
    assert!(spans[3].style == plain);
}

#[test]
fn wide_continuations_are_skipped() {
    let plain = default_style();
    let cells = vec![
        Cell { wide: true, ..cell("한", plain) },
        Cell { text: String::new(), style: bold(), wide: false, wide_continuation: true },
        cell("x", plain),
    ];
    let spans = row_spans(&cells);
    assert_eq!(texts(&spans), vec!["한x"]);
    let only = vec![Cell { text: String::new(), style: bold(), wide: false, wide_continuation: true }];
    let spans = row_spans(&only);
    assert_eq!(texts(&spans), vec![""]);
    assert!(spans[0].style == default_style());
}

#[test]
fn terminal_lines_read_the_screen() {
    let mut term = PtyTerminal::spawn(3, 6);
    term.poll_output(&vec![b"ab\x1b[1mcd\x1b[0m\r\n\x1b[31;44mxy".to_vec()]);
    let lines = term.terminal_lines();
    assert_eq!(lines.len(), 3);
    assert_eq!(texts(&lines[0]), vec!["ab", "cd", "  "]);
    assert!(lines[0][0].style == default_style());
    assert!(lines[0][1].style == bold());
    assert_eq!(texts(&lines[1]), vec!["xy", "    "]);
    let coloured = CellStyle { fg: Color::Idx(1), bg: Color::Idx(4), ..default_style() };
    assert!(lines[1][0].style == coloured);
    assert_eq!(texts(&lines[2]), vec!["      "]);
}

#[test]
fn terminal_lines_show_wide_glyphs_once() {
    let mut term = PtyTerminal::spawn(2, 6);
    term.poll_output(&vec!["한a".as_bytes().to_vec()]);
    let lines = term.terminal_lines();
    assert_eq!(texts(&lines[0]), vec!["한a   "]);
}

#[test]
fn terminal_lines_show_rgb_and_flags() {
    let mut term = PtyTerminal::spawn(2, 4);
    term.poll_output(&vec![b"\x1b[38;2;1;2;3m\x1b[3;4;7mq".to_vec()]);
    let lines = term.terminal_lines();
    let style = lines[0][0].style;
    assert!(style.fg == Color::Rgb(1, 2, 3));
    assert!(style.bg == Color::Default);
    assert!(style.italic && style.underline && style.inverse && !style.bold);
    assert_eq!(lines[0][0].text, "q");
}

#[test]
fn visible_lines_follow_the_viewport() {
    let mut term = PtyTerminal::spawn(3, 4);
    term.poll_output(&vec![b"a\r\nb\r\nc\r\nd\r\ne\r\nf\r\ng".to_vec()]);
    let live = term.visible_lines().unwrap();
    assert_eq!(texts(&live[0]), vec!["e   "]);
    assert_eq!(texts(&live[2]), vec!["g   "]);
    term.scroll_up(2);
    let back = term.visible_lines().unwrap();
    assert_eq!(texts(&back[0]), vec!["c   "]);
    assert_eq!(texts(&back[2]), vec!["e   "]);
    term.scroll_up(2);
    assert_eq!(term.scroll_offset(), 4);
    assert!(term.visible_lines().is_none());
}
