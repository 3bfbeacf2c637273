//! Text helpers: what counts as surrounding white space, and trimming it.

use vstd::prelude::*;
use vstd::string::StringSliceAdditionalSpecFns;
use vstd::utf8::{encode_scalar, encode_utf8};

verus! {

/// The characters with the Unicode property `White_Space`.
pub open spec fn is_white_space(c: char) -> bool {
    let v = c as u32;
    ||| 0x09 <= v <= 0x0d
    ||| v == 0x20
    ||| v == 0x85
    ||| v == 0xa0
    ||| v == 0x1680
    ||| 0x2000 <= v <= 0x200a
    ||| v == 0x2028
    ||| v == 0x2029
    ||| v == 0x202f
    ||| v == 0x205f
    ||| v == 0x3000
}

/// Whether a character has the Unicode property `White_Space`.
pub fn is_space(c: char) -> (yes: bool)
    ensures
        yes == is_white_space(c),
{
    let v: u32 = c as u32;
    (0x09 <= v && v <= 0x0d) || v == 0x20 || v == 0x85 || v == 0xa0 || v == 0x1680 || (0x2000 <= v
        && v <= 0x200a) || v == 0x2028 || v == 0x2029 || v == 0x202f || v == 0x205f || v == 0x3000
}

/// `s` without the white space at its start.
pub open spec fn trimmed_start(s: Seq<char>) -> Seq<char>
    decreases s.len(),
{
    if s.len() > 0 && is_white_space(s[0]) {
        trimmed_start(s.drop_first())
    } else {
        s
    }
}

/// `s` without the white space at its end.
pub open spec fn trimmed_end(s: Seq<char>) -> Seq<char>
    decreases s.len(),
{
    if s.len() > 0 && is_white_space(s.last()) {
        trimmed_end(s.drop_last())
    } else {
        s
    }
}

/// `s` without the white space at either end.
pub open spec fn trimmed(s: Seq<char>) -> Seq<char> {
    trimmed_end(trimmed_start(s))
}

/// `str::trim`: the slice without leading and trailing white space, as
/// Unicode's `White_Space` property defines it.
#[verifier::external_body]
pub(crate) fn trim(s: &str) -> (t: &str)
    ensures
        t@ == trimmed(s@),
{
    s.trim()
}

/// Every character takes at least one byte of UTF-8.
pub proof fn lemma_chars_within_bytes(chars: Seq<char>)
    ensures
        chars.len() <= encode_utf8(chars).len(),
    decreases chars.len(),
{
    if chars.len() > 0 {
        lemma_chars_within_bytes(chars.drop_first());
        assert(encode_scalar(chars[0] as u32).len() >= 1);
    }
}

/// The number of characters of `text`.
pub fn char_count(text: &str) -> (n: usize)
    ensures
        n == text@.len(),
{
    let bytes = text.as_bytes().len();
    proof {
        lemma_chars_within_bytes(text@);
    }
    let mut n: usize = 0;
    for ch in it: text.chars()
        invariant
            n == it.index(),
            it.seq() == text@,
            text@.len() <= bytes,
    {
        n = n + 1;
    }
    n
}

/// What `unicode_width` gives as the width of a character.
pub uninterp spec fn char_width(c: char) -> Option<usize>;

/// What `unicode_width` gives as the width of a string; for some sequences
/// it is not the sum of the widths of the characters.
pub uninterp spec fn str_width(s: Seq<char>) -> usize;

/// `unicode_width::UnicodeWidthChar::width`: the columns that a character
/// takes, at most three; 1 for printable ASCII, and none for the control
/// characters below U+00A0.
#[verifier::external_body]
pub(crate) fn width_of_char(c: char) -> (w: Option<usize>)
    ensures
        w == char_width(c),
        w matches Some(n) ==> n <= 3,
        0x20 <= c as u32 && (c as u32) < 0x7f ==> w == Some(1usize),
        (c as u32) < 0x20 || (0x7f <= c as u32 && (c as u32) < 0xa0) ==> w is None,
{
    unicode_width::UnicodeWidthChar::width(c)
}

/// `unicode_width::UnicodeWidthStr::width`: the columns that a string
/// takes.
#[verifier::external_body]
pub(crate) fn width_of_str(s: &str) -> (w: usize)
    ensures
        w == str_width(s@),
{
    unicode_width::UnicodeWidthStr::width(s)
}

/// `String::push`: appends one character.
#[verifier::external_body]
pub(crate) fn push_char(s: &mut String, c: char)
    ensures
        final(s)@ == old(s)@.push(c),
{
    s.push(c)
}

/// The columns that a character takes on screen: none for a control
/// character.
pub open spec fn cell_width(c: char) -> nat {
    match char_width(c) {
        Some(w) => w as nat,
        None => 0,
    }
}

/// The columns that the characters of `s` take, each counted by itself.
pub open spec fn cells(s: Seq<char>) -> nat
    decreases s.len(),
{
    if s.len() == 0 {
        0
    } else {
        cells(s.drop_last()) + cell_width(s.last())
    }
}

/// The first `n` characters of `s`, all of them where it has fewer.
pub open spec fn prefix(s: Seq<char>, n: nat) -> Seq<char> {
    if n <= s.len() {
        s.take(n as int)
    } else {
        s
    }
}

/// `n` as a `usize`, or the largest `usize` where it does not fit.
pub open spec fn saturated(n: nat) -> usize {
    if n <= usize::MAX {
        n as usize
    } else {
        usize::MAX
    }
}

/// The columns that one character takes.
pub fn columns_of(c: char) -> (w: usize)
    ensures
        w == cell_width(c),
        w <= 3,
{
    match width_of_char(c) {
        Some(w) => w,
        None => 0,
    }
}

/// The columns that the first `char_idx` characters of `text` take.
pub fn width_upto_char(text: &str, char_idx: usize) -> (width: usize)
    ensures
        width == saturated(cells(prefix(text@, char_idx as nat))),
{
    let bytes = text.as_bytes().len();
    proof {
        lemma_chars_within_bytes(text@);
    }
    let mut width: u128 = 0;
    let mut i: usize = 0;
    for ch in it: text.chars()
        invariant
            i == it.index(),
            it.seq() == text@,
            text@.len() <= bytes,
            width == cells(prefix(text@, at_most_index(i, char_idx) as nat)),
            width <= 3 * i,
    {
        if i < char_idx {
            proof {
                let s = text@;
                assert(s.take(i + 1).drop_last() =~= s.take(i as int));
                assert(s.take(i + 1).last() == ch);
            }
            width = width + columns_of(ch) as u128;
        }
        i = i + 1;
    }
    proof {
        assert(text@.take(text@.len() as int) =~= text@);
    }
    if width > usize::MAX as u128 {
        usize::MAX
    } else {
        width as usize
    }
}

/// The smaller of two indices.
pub open spec fn at_most_index(a: usize, b: usize) -> usize {
    if a <= b {
        a
    } else {
        b
    }
}

/// The characters of `s` that show in the columns from `start_col` up to
/// `start_col + max_cols`, where the first character of `s` stands in
/// column `col`: a character is dropped while it ends at or before
/// `start_col`, and the first one that starts at or after the last column
/// ends the slice.
pub open spec fn sliced(s: Seq<char>, col: nat, start_col: nat, max_cols: nat) -> Seq<char>
    decreases s.len(),
{
    if s.len() == 0 {
        Seq::<char>::empty()
    } else if col + cell_width(s[0]) <= start_col {
        sliced(s.drop_first(), col + cell_width(s[0]), start_col, max_cols)
    } else if col >= start_col + max_cols {
        Seq::<char>::empty()
    } else {
        seq![s[0]] + sliced(s.drop_first(), col + cell_width(s[0]), start_col, max_cols)
    }
}

/// The part of `text` that a window of `max_cols` columns shows when it
/// starts at column `start_col`.
pub fn slice_from_col(text: &str, start_col: usize, max_cols: usize) -> (out: String)
    ensures
        out@ == if max_cols == 0 {
            Seq::<char>::empty()
        } else {
            sliced(text@, 0, start_col as nat, max_cols as nat)
        },
{
    let mut out = String::new();
    if max_cols == 0 {
        return out;
    }
    let bytes = text.as_bytes().len();
    proof {
        lemma_chars_within_bytes(text@);
    }
    let limit: u128 = start_col as u128 + max_cols as u128;
    let mut col: u128 = 0;
    let mut done = false;
    let mut i: usize = 0;
    assert(text@.skip(0) =~= text@);
    for ch in it: text.chars()
        invariant
            i == it.index(),
            it.seq() == text@,
            text@.len() <= bytes,
            col <= 3 * i,
            limit == start_col + max_cols,
            sliced(text@, 0, start_col as nat, max_cols as nat) == out@ + (if done {
                Seq::<char>::empty()
            } else {
                sliced(text@.skip(i as int), col as nat, start_col as nat, max_cols as nat)
            }),
    {
        proof {
            assert(text@.skip(i as int)[0] == ch);
            assert(text@.skip(i as int).drop_first() =~= text@.skip(i + 1));
        }
        if !done {
            let w = columns_of(ch) as u128;
            if col + w <= start_col as u128 {
                col = col + w;
            } else if col >= limit {
                done = true;
                assert(out@ + Seq::<char>::empty() =~= out@);
            } else {
                let ghost before = out@;
                let ghost rest = sliced(
                    text@.skip(i + 1),
                    (col + w) as nat,
                    start_col as nat,
                    max_cols as nat,
                );
                push_char(&mut out, ch);
                col = col + w;
                assert(before + (seq![ch] + rest) =~= out@ + rest);
            }
        }
        i = i + 1;
    }
    assert(out@ + Seq::<char>::empty() =~= out@);
    out
}

/// The encoding of a sequence that ends in `c` is the encoding of what is
/// before `c`, followed by that of `c`.
pub proof fn lemma_encode_push(chars: Seq<char>, c: char)
    ensures
        encode_utf8(chars.push(c)) == encode_utf8(chars) + encode_scalar(c as u32),
    decreases chars.len(),
{
    if chars.len() == 0 {
        reveal_with_fuel(encode_utf8, 2);
        assert(chars.push(c).drop_first() =~= Seq::<char>::empty());
        assert(chars.push(c)[0] == c);
        assert(encode_utf8(chars.push(c)) =~= encode_utf8(chars) + encode_scalar(c as u32));
    } else {
        lemma_encode_push(chars.drop_first(), c);
        assert(chars.push(c).drop_first() =~= chars.drop_first().push(c));
        assert(chars.push(c)[0] == chars[0]);
        assert(encode_utf8(chars.push(c)) =~= encode_utf8(chars) + encode_scalar(c as u32));
    }
}

/// How many bytes of UTF-8 a character takes.
pub fn utf8_len(c: char) -> (n: usize)
    ensures
        n == encode_scalar(c as u32).len(),
        1 <= n <= 4,
{
    let v: u32 = c as u32;
    if v <= 0x7f {
        1
    } else if v <= 0x7ff {
        2
    } else if v <= 0xffff {
        proof {
            vstd::utf8::char_is_scalar(c);
        }
        3
    } else {
        4
    }
}

/// The byte offset at which character `char_idx` of `text` starts; the
/// length of `text` in bytes where it has no such character.
pub fn byte_index_from_char(text: &str, char_idx: usize) -> (byte_idx: usize)
    ensures
        byte_idx == encode_utf8(prefix(text@, char_idx as nat)).len(),
        byte_idx <= text.spec_bytes().len(),
{
    let bytes = text.as_bytes().len();
    proof {
        lemma_chars_within_bytes(text@);
    }
    let mut offset: usize = 0;
    let mut i: usize = 0;
    for ch in it: text.chars()
        invariant
            i == it.index(),
            it.seq() == text@,
            bytes == encode_utf8(text@).len(),
            text@.len() <= bytes,
            offset == encode_utf8(prefix(text@, at_most_index(i, char_idx) as nat)).len(),
            offset <= encode_utf8(text@.take(i as int)).len() <= bytes,
    {
        proof {
            let s = text@;
            assert(s.take(i + 1) =~= s.take(i as int).push(ch));
            lemma_encode_push(s.take(i as int), ch);
            lemma_encode_within(s, (i + 1) as nat);
        }
        if i < char_idx {
            offset = offset + utf8_len(ch);
        }
        i = i + 1;
    }
    proof {
        assert(text@.take(text@.len() as int) =~= text@);
    }
    offset
}

/// A prefix has no more bytes than the whole.
pub proof fn lemma_encode_within(chars: Seq<char>, n: nat)
    requires
        n <= chars.len(),
    ensures
        encode_utf8(chars.take(n as int)).len() <= encode_utf8(chars).len(),
    decreases chars.len() - n,
{
    if n < chars.len() {
        lemma_encode_within(chars, n + 1);
        assert(chars.take(n as int + 1) =~= chars.take(n as int).push(chars[n as int]));
        lemma_encode_push(chars.take(n as int), chars[n as int]);
    } else {
        assert(chars.take(n as int) =~= chars);
    }
}

/// The horizontal scroll of an input line that keeps the cursor in view:
/// the line is `total_width` columns wide, the cursor stands after
/// `cursor_width` of them, and the field shows `inner_width` columns, the
/// last of which is kept free for the cursor.
pub open spec fn scroll_in_view(
    total_width: usize,
    cursor_width: usize,
    inner_width: usize,
    current_scroll: usize,
) -> usize {
    if inner_width == 0 {
        0
    } else {
        let max_visible = (inner_width - 1) as usize;
        let scroll = if cursor_width < current_scroll {
            cursor_width
        } else if cursor_width > current_scroll + max_visible {
            (cursor_width - max_visible) as usize
        } else {
            current_scroll
        };
        let max_start = if total_width > max_visible {
            (total_width - max_visible) as usize
        } else {
            0
        };
        at_most_index(scroll, max_start)
    }
}

/// Computes `scroll_in_view`.
pub fn scroll_for(
    total_width: usize,
    cursor_width: usize,
    inner_width: usize,
    current_scroll: usize,
) -> (scroll: usize)
    ensures
        scroll == scroll_in_view(total_width, cursor_width, inner_width, current_scroll),
{
    if inner_width == 0 {
        return 0;
    }
    let max_visible = inner_width - 1;
    let mut scroll = current_scroll;
    if cursor_width < scroll {
        scroll = cursor_width;
    } else if cursor_width - scroll > max_visible {
        scroll = cursor_width - max_visible;
    }
    let max_start = total_width.saturating_sub(max_visible);
    if scroll <= max_start {
        scroll
    } else {
        max_start
    }
}

/// The horizontal scroll that keeps the cursor, which stands before
/// character `cursor` of `text`, within a field of `inner_width` columns.
pub fn adjust_input_scroll(text: &str, cursor: usize, inner_width: usize, current_scroll: usize) -> (scroll:
    usize)
    ensures
        scroll == scroll_in_view(
            str_width(text@),
            saturated(cells(prefix(text@, cursor as nat))),
            inner_width,
            current_scroll,
        ),
{
    if inner_width == 0 {
        return 0;
    }
    let total_width = width_of_str(text);
    let cursor_width = width_upto_char(text, cursor);
    scroll_for(total_width, cursor_width, inner_width, current_scroll)
}

/// `s` without a carriage return at its end.
pub open spec fn without_cr(s: Seq<char>) -> Seq<char> {
    if s.len() > 0 && s.last() == '\r' {
        s.drop_last()
    } else {
        s
    }
}

/// The lines of a text of which `line` has been read and `rest` follows: a
/// line feed ends a line, a carriage return before it belongs to the line
/// ending, and what follows the last line feed is a line unless it is
/// empty.
pub open spec fn lines_from(line: Seq<char>, rest: Seq<char>) -> Seq<Seq<char>>
    decreases rest.len(),
{
    if rest.len() == 0 {
        if line.len() == 0 {
            Seq::<Seq<char>>::empty()
        } else {
            seq![line]
        }
    } else if rest[0] == '\n' {
        seq![without_cr(line)] + lines_from(Seq::<char>::empty(), rest.drop_first())
    } else {
        lines_from(line.push(rest[0]), rest.drop_first())
    }
}

/// The lines of a text.
pub open spec fn lines_of(text: Seq<char>) -> Seq<Seq<char>> {
    lines_from(Seq::<char>::empty(), text)
}

/// The texts of the strings.
pub open spec fn texts(strings: Seq<String>) -> Seq<Seq<char>> {
    strings.map_values(|s: String| s@)
}

/// Splits a text into its lines.
pub fn split_lines(text: &str) -> (lines: Vec<String>)
    ensures
        texts(lines@) == lines_of(text@),
{
    let bytes = text.as_bytes().len();
    proof {
        lemma_chars_within_bytes(text@);
    }
    let mut lines: Vec<String> = Vec::new();
    let mut line = String::new();
    let mut held_cr = false;
    let mut i: usize = 0;
    assert(text@.skip(0) =~= text@);
    assert(texts(lines@) =~= Seq::<Seq<char>>::empty());
    for ch in it: text.chars()
        invariant
            i == it.index(),
            it.seq() == text@,
            text@.len() <= bytes,
            !held_cr ==> line@.len() == 0 || line@.last() != '\r',
            lines_of(text@) == texts(lines@) + lines_from(
                if held_cr {
                    line@.push('\r')
                } else {
                    line@
                },
                text@.skip(i as int),
            ),
    {
        let ghost done = texts(lines@);
        let ghost read = if held_cr {
            line@.push('\r')
        } else {
            line@
        };
        proof {
            assert(text@.skip(i as int)[0] == ch);
            assert(text@.skip(i as int).drop_first() =~= text@.skip(i + 1));
        }
        if ch == '\n' {
            assert(without_cr(read) =~= line@);
            lines.push(line);
            assert(texts(lines@) =~= done.push(without_cr(read)));
            line = String::new();
            held_cr = false;
            assert(done + (seq![without_cr(read)] + lines_from(
                Seq::<char>::empty(),
                text@.skip(i + 1),
            )) =~= texts(lines@) + lines_from(line@, text@.skip(i + 1)));
        } else {
            if held_cr {
                push_char(&mut line, '\r');
            }
            if ch == '\r' {
                held_cr = true;
            } else {
                held_cr = false;
                push_char(&mut line, ch);
            }
        }
        i = i + 1;
    }
    let ghost done = texts(lines@);
    if held_cr {
        push_char(&mut line, '\r');
    }
    if !line.as_str().is_empty() {
        let ghost last = line@;
        lines.push(line);
        assert(texts(lines@) =~= done + seq![last]);
    } else {
        assert(done + Seq::<Seq<char>>::empty() =~= done);
    }
    lines
}

/// What `str::to_lowercase` gives for a text.
pub uninterp spec fn lowercased(s: Seq<char>) -> Seq<char>;

/// `str::to_lowercase`: the text in lower case, by Unicode's rules.
#[verifier::external_body]
pub(crate) fn lowercase(s: &str) -> (lower: String)
    ensures
        lower@ == lowercased(s@),
{
    s.to_lowercase()
}

/// `str::trim_start`: the slice without leading white space, as Unicode's
/// `White_Space` property defines it.
#[verifier::external_body]
pub(crate) fn trim_start(s: &str) -> (t: &str)
    ensures
        t@ == trimmed_start(s@),
{
    s.trim_start()
}

/// Whether `text` starts with `start`.
pub fn has_prefix(text: &str, start: &str) -> (yes: bool)
    ensures
        yes == start@.is_prefix_of(text@),
{
    let n = char_count(start);
    if char_count(text) < n {
        return false;
    }
    let mut i: usize = 0;
    while i < n
        invariant
            i <= n,
            n == start@.len(),
            n <= text@.len(),
            text@.take(i as int) == start@.take(i as int),
        decreases n - i,
    {
        if text.get_char(i) != start.get_char(i) {
            assert(text@.take(n as int)[i as int] != start@[i as int]);
            return false;
        }
        assert(text@.take(i + 1) =~= text@.take(i as int).push(text@[i as int]));
        assert(start@.take(i + 1) =~= start@.take(i as int).push(start@[i as int]));
        i += 1;
    }
    assert(start@.take(n as int) =~= start@);
    assert(text@.subrange(0, n as int) =~= text@.take(n as int));
    true
}

/// The character of a decimal digit.
pub open spec fn digit_char(d: nat) -> char
    recommends
        d < 10,
{
    (0x30 + d) as char
}

/// A natural number in decimal.
pub open spec fn digits(n: nat) -> Seq<char>
    decreases n,
{
    if n < 10 {
        seq![digit_char(n)]
    } else {
        digits(n / 10).push(digit_char(n % 10))
    }
}

/// An integer in decimal, with a minus sign where it is negative.
pub open spec fn decimal(n: int) -> Seq<char> {
    if n < 0 {
        seq!['-'] + digits((-n) as nat)
    } else {
        digits(n as nat)
    }
}

/// Writes an integer in decimal.
pub fn decimal_string(n: i64) -> (out: String)
    ensures
        out@ == decimal(n as int),
{
    let mut out = String::new();
    let mut rest: u64 = if n < 0 {
        push_char(&mut out, '-');
        (-(n as i128)) as u64
    } else {
        n as u64
    };
    let ghost sign = out@;
    let ghost magnitude = rest as nat;
    // Digits from the last to the first.
    let mut reversed: Vec<char> = Vec::new();
    loop
        invariant_except_break
            digits(magnitude) == digits(rest as nat) + reversed@.reverse(),
        ensures
            reversed@.len() > 0,
            digits(magnitude) == reversed@.reverse(),
        decreases rest,
    {
        let d: u8 = (rest % 10) as u8;
        let c: char = (0x30u8 + d) as char;
        assert(c == digit_char((rest % 10) as nat));
        let ghost before = reversed@;
        reversed.push(c);
        assert(reversed@.reverse() =~= seq![c] + before.reverse());
        if rest < 10 {
            assert(digits(rest as nat) + before.reverse() =~= reversed@.reverse());
            break;
        }
        assert(digits(rest as nat) + before.reverse() =~= digits((rest / 10) as nat)
            + reversed@.reverse());
        rest = rest / 10;
    }
    let mut i: usize = reversed.len();
    while i > 0
        invariant
            i <= reversed@.len(),
            out@ == sign + reversed@.reverse().take(reversed@.len() - i),
        decreases i,
    {
        i -= 1;
        push_char(&mut out, reversed[i]);
        assert(reversed@.reverse().take(reversed@.len() - i) =~= reversed@.reverse().take(
            reversed@.len() - i - 1,
        ).push(reversed@[i as int]));
    }
    assert(reversed@.reverse().take(reversed@.len() as int) =~= reversed@.reverse());
    assert(Seq::<char>::empty() + reversed@.reverse() =~= reversed@.reverse());
    out
}

} // verus!
