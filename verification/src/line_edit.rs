//! A one-line text field with a cursor, scrolled sideways so that the
//! cursor stays in view.

use vstd::prelude::*;
use vstd::string::{StrSliceExecFns, StringExecFns};
use crate::keys::KeyCode;
use crate::text::{
    adjust_input_scroll, cells, char_count, lemma_chars_within_bytes, prefix, push_char,
    saturated, scroll_in_view, slice_from_col, sliced, str_width, width_of_str, width_upto_char,
};

verus! {

/// The field: its text, the cursor as the number of characters before it,
/// and the column at which the shown part starts.
pub struct LineEdit {
    text: String,
    cursor: usize,
    scroll_x: usize,
}

/// The scroll that keeps the cursor of a field in view.
pub open spec fn scroll_of(text: Seq<char>, cursor: usize, inner_width: usize, scroll_x: usize) -> usize {
    scroll_in_view(
        str_width(text),
        saturated(cells(prefix(text, cursor as nat))),
        inner_width,
        scroll_x,
    )
}

/// Whether a key edits a field or moves its cursor.
pub open spec fn is_edit_key(code: KeyCode) -> bool {
    match code {
        KeyCode::Backspace | KeyCode::Delete | KeyCode::Left | KeyCode::Right | KeyCode::Home
        | KeyCode::End | KeyCode::Char(_) => true,
        _ => false,
    }
}

/// The text after an edit key.
pub open spec fn edited_text(text: Seq<char>, cursor: usize, code: KeyCode) -> Seq<char> {
    match code {
        KeyCode::Backspace => if cursor > 0 {
            text.remove(cursor - 1)
        } else {
            text
        },
        KeyCode::Delete => if cursor < text.len() {
            text.remove(cursor as int)
        } else {
            text
        },
        KeyCode::Char(c) => text.insert(cursor as int, c),
        _ => text,
    }
}

/// The cursor after an edit key.
pub open spec fn edited_cursor(text: Seq<char>, cursor: usize, code: KeyCode) -> int {
    match code {
        KeyCode::Backspace => if cursor > 0 {
            cursor - 1
        } else {
            0
        },
        KeyCode::Left => if cursor > 0 {
            cursor - 1
        } else {
            0
        },
        KeyCode::Right => if cursor < text.len() {
            cursor + 1
        } else {
            cursor as int
        },
        KeyCode::Home => 0,
        KeyCode::End => text.len() as int,
        KeyCode::Char(_) => cursor + 1,
        _ => cursor as int,
    }
}

/// Whether an edit key leaves the scroll as it is: a key that finds
/// nothing to remove does, and so does any key that is no edit key.
pub open spec fn keeps_scroll(text: Seq<char>, cursor: usize, code: KeyCode) -> bool {
    match code {
        KeyCode::Backspace => cursor == 0,
        KeyCode::Delete => cursor >= text.len(),
        KeyCode::Left | KeyCode::Right | KeyCode::End | KeyCode::Char(_) => false,
        KeyCode::Home => false,
        _ => true,
    }
}

impl LineEdit {
    /// Whether `after` is this field after the key `code`, in a field that
    /// shows `inner_width` columns.
    pub open spec fn edited(&self, after: LineEdit, code: KeyCode, inner_width: usize) -> bool {
        &&& after.chars() == edited_text(self.chars(), self.at(), code)
        &&& after.at() == edited_cursor(self.chars(), self.at(), code)
        &&& after.scrolled() == if keeps_scroll(self.chars(), self.at(), code) {
            self.scrolled()
        } else if code == KeyCode::Home {
            0
        } else {
            scroll_of(after.chars(), after.at(), inner_width, self.scrolled())
        }
    }

    /// The text of the field.
    pub closed spec fn chars(&self) -> Seq<char> {
        self.text@
    }

    /// How many characters stand before the cursor.
    pub closed spec fn at(&self) -> usize {
        self.cursor
    }

    /// The column at which the shown part starts.
    pub closed spec fn scrolled(&self) -> usize {
        self.scroll_x
    }

    /// The field's invariant: the cursor stands within the text.
    pub open spec fn wf(&self) -> bool {
        self.at() <= self.chars().len()
    }

    /// An empty field.
    pub fn new() -> (field: Self)
        ensures
            field.wf(),
            field.chars() == Seq::<char>::empty(),
            field.at() == 0,
            field.scrolled() == 0,
    {
        LineEdit { text: String::new(), cursor: 0, scroll_x: 0 }
    }

    /// The text.
    pub fn text(&self) -> (text: &str)
        ensures
            text@ == self.chars(),
    {
        self.text.as_str()
    }

    /// The cursor.
    pub fn cursor(&self) -> (cursor: usize)
        ensures
            cursor == self.at(),
    {
        self.cursor
    }

    /// The scroll.
    pub fn scroll_x(&self) -> (scroll_x: usize)
        ensures
            scroll_x == self.scrolled(),
    {
        self.scroll_x
    }

    /// Empties the field.
    pub fn clear(&mut self)
        ensures
            final(self).wf(),
            final(self).chars() == Seq::<char>::empty(),
            final(self).at() == 0,
            final(self).scrolled() == 0,
    {
        self.text = String::new();
        self.cursor = 0;
        self.scroll_x = 0;
    }

    /// Puts the cursor behind the text, without touching the text.
    pub fn end(&mut self, inner_width: usize)
        ensures
            final(self).wf(),
            final(self).chars() == old(self).chars(),
            final(self).at() == old(self).chars().len(),
            final(self).scrolled() == scroll_of(
                final(self).chars(),
                final(self).at(),
                inner_width,
                old(self).scrolled(),
            ),
    {
        self.cursor = char_count(self.text.as_str());
        self.scroll_x = adjust_input_scroll(
            self.text.as_str(),
            self.cursor,
            inner_width,
            self.scroll_x,
        );
    }

    /// Replaces the text and puts the cursor behind it.
    pub fn set_text(&mut self, text: &str, inner_width: usize)
        ensures
            final(self).wf(),
            final(self).chars() == text@,
            final(self).at() == text@.len(),
            final(self).scrolled() == scroll_of(
                text@,
                final(self).at(),
                inner_width,
                old(self).scrolled(),
            ),
    {
        self.text = text.to_owned();
        self.end(inner_width);
    }

    /// Puts the cursor before the text.
    pub fn home(&mut self)
        ensures
            final(self).wf(),
            final(self).chars() == old(self).chars(),
            final(self).at() == 0,
            final(self).scrolled() == 0,
    {
        self.cursor = 0;
        self.scroll_x = 0;
    }

    /// Moves the cursor one character to the left, if there is one.
    pub fn left(&mut self, inner_width: usize)
        requires
            old(self).wf(),
        ensures
            final(self).wf(),
            final(self).chars() == old(self).chars(),
            final(self).at() == if old(self).at() > 0 {
                (old(self).at() - 1) as usize
            } else {
                0
            },
            final(self).scrolled() == scroll_of(
                final(self).chars(),
                final(self).at(),
                inner_width,
                old(self).scrolled(),
            ),
    {
        if self.cursor > 0 {
            self.cursor -= 1;
        }
        self.scroll_x = adjust_input_scroll(
            self.text.as_str(),
            self.cursor,
            inner_width,
            self.scroll_x,
        );
    }

    /// Moves the cursor one character to the right, if there is one.
    pub fn right(&mut self, inner_width: usize)
        requires
            old(self).wf(),
        ensures
            final(self).wf(),
            final(self).chars() == old(self).chars(),
            final(self).at() == if old(self).at() < old(self).chars().len() {
                old(self).at() + 1
            } else {
                old(self).at() as int
            },
            final(self).scrolled() == scroll_of(
                final(self).chars(),
                final(self).at(),
                inner_width,
                old(self).scrolled(),
            ),
    {
        let len = char_count(self.text.as_str());
        if self.cursor < len {
            self.cursor += 1;
        }
        self.scroll_x = adjust_input_scroll(
            self.text.as_str(),
            self.cursor,
            inner_width,
            self.scroll_x,
        );
    }

    /// Inserts a character at the cursor and moves the cursor behind it.
    pub fn insert(&mut self, c: char, inner_width: usize)
        requires
            old(self).wf(),
        ensures
            final(self).wf(),
            final(self).chars() == old(self).chars().insert(old(self).at() as int, c),
            final(self).at() == old(self).at() + 1,
            final(self).scrolled() == scroll_of(
                final(self).chars(),
                final(self).at(),
                inner_width,
                old(self).scrolled(),
            ),
    {
        let len = char_count(self.text.as_str());
        let mut text = String::from_str(self.text.as_str().substring_char(0, self.cursor));
        push_char(&mut text, c);
        text.append(self.text.as_str().substring_char(self.cursor, len));
        assert(text@ =~= old(self).chars().insert(old(self).at() as int, c));
        let bytes = text.as_str().as_bytes().len();
        proof {
            lemma_chars_within_bytes(text@);
        }
        self.text = text;
        self.cursor += 1;
        self.scroll_x = adjust_input_scroll(
            self.text.as_str(),
            self.cursor,
            inner_width,
            self.scroll_x,
        );
    }

    /// The text without character `index`.
    fn without(&self, index: usize) -> (text: String)
        requires
            index < self.chars().len(),
        ensures
            text@ == self.chars().remove(index as int),
    {
        let len = char_count(self.text.as_str());
        let mut text = String::from_str(self.text.as_str().substring_char(0, index));
        text.append(self.text.as_str().substring_char(index + 1, len));
        assert(text@ =~= self.chars().remove(index as int));
        text
    }

    /// Removes the character before the cursor. Without one, nothing
    /// changes.
    pub fn backspace(&mut self, inner_width: usize)
        requires
            old(self).wf(),
        ensures
            final(self).wf(),
            old(self).at() == 0 ==> final(self).chars() == old(self).chars() && final(self).at()
                == 0 && final(self).scrolled() == old(self).scrolled(),
            old(self).at() > 0 ==> final(self).chars() == old(self).chars().remove(
                old(self).at() - 1,
            ) && final(self).at() == old(self).at() - 1 && final(self).scrolled() == scroll_of(
                final(self).chars(),
                final(self).at(),
                inner_width,
                old(self).scrolled(),
            ),
    {
        if self.cursor > 0 {
            self.text = self.without(self.cursor - 1);
            self.cursor -= 1;
            self.scroll_x = adjust_input_scroll(
                self.text.as_str(),
                self.cursor,
                inner_width,
                self.scroll_x,
            );
        }
    }

    /// Removes the character at the cursor. Without one, nothing changes.
    pub fn delete(&mut self, inner_width: usize)
        requires
            old(self).wf(),
        ensures
            final(self).wf(),
            final(self).at() == old(self).at(),
            old(self).at() == old(self).chars().len() ==> final(self).chars() == old(
                self,
            ).chars() && final(self).scrolled() == old(self).scrolled(),
            old(self).at() < old(self).chars().len() ==> final(self).chars() == old(
                self,
            ).chars().remove(old(self).at() as int) && final(self).scrolled() == scroll_of(
                final(self).chars(),
                final(self).at(),
                inner_width,
                old(self).scrolled(),
            ),
    {
        let len = char_count(self.text.as_str());
        if self.cursor < len {
            self.text = self.without(self.cursor);
            self.scroll_x = adjust_input_scroll(
                self.text.as_str(),
                self.cursor,
                inner_width,
                self.scroll_x,
            );
        }
    }

    /// Applies an edit key; any other key changes nothing.
    pub fn apply_key(&mut self, code: KeyCode, inner_width: usize)
        requires
            old(self).wf(),
        ensures
            final(self).wf(),
            old(self).edited(*final(self), code, inner_width),
            !is_edit_key(code) ==> *final(self) == *old(self),
    {
        match code {
            KeyCode::Backspace => self.backspace(inner_width),
            KeyCode::Delete => self.delete(inner_width),
            KeyCode::Left => self.left(inner_width),
            KeyCode::Right => self.right(inner_width),
            KeyCode::Home => self.home(),
            KeyCode::End => self.end(inner_width),
            KeyCode::Char(c) => self.insert(c, inner_width),
            _ => {},
        }
    }

    /// What a field of `inner_width` columns shows: the part of the text
    /// from the scroll on, and the column of the cursor in it. The scroll
    /// is first cut back so that no column stays empty for nothing. A field
    /// without columns shows nothing.
    pub fn shown(&mut self, inner_width: u16) -> (view: (String, Option<u16>))
        requires
            old(self).wf(),
        ensures
            final(self).wf(),
            final(self).chars() == old(self).chars(),
            final(self).at() == old(self).at(),
            inner_width == 0 ==> final(self).scrolled() == old(self).scrolled() && view.0@
                == Seq::<char>::empty() && view.1 is None,
            inner_width > 0 ==> {
                let max_visible = (inner_width - 1) as usize;
                let width = str_width(old(self).chars());
                let max_start = if width > max_visible {
                    (width - max_visible) as usize
                } else {
                    0
                };
                let cursor_width = saturated(cells(prefix(old(self).chars(), old(self).at() as nat)));
                let scroll = final(self).scrolled();
                &&& scroll == if old(self).scrolled() > max_start {
                    max_start
                } else {
                    old(self).scrolled()
                }
                &&& view.0@ == sliced(old(self).chars(), 0, scroll as nat, inner_width as nat)
                &&& view.1 == Some(
                    if cursor_width <= scroll {
                        0u16
                    } else if cursor_width - scroll >= max_visible {
                        max_visible as u16
                    } else {
                        (cursor_width - scroll) as u16
                    },
                )
            },
    {
        if inner_width == 0 {
            return (String::new(), None);
        }
        let width = width_of_str(self.text.as_str());
        let cursor_width = width_upto_char(self.text.as_str(), self.cursor);
        let max_visible: usize = (inner_width - 1) as usize;
        let max_start = width.saturating_sub(max_visible);
        if self.scroll_x > max_start {
            self.scroll_x = max_start;
        }
        let text = slice_from_col(self.text.as_str(), self.scroll_x, inner_width as usize);
        let offset = cursor_width.saturating_sub(self.scroll_x);
        let column: usize = if offset < max_visible {
            offset
        } else {
            max_visible
        };
        (text, Some(column as u16))
    }
}

/// Typing a character and removing it again leaves the text and the
/// cursor as they were.
pub proof fn lemma_backspace_undoes_typing(text: Seq<char>, cursor: usize, c: char)
    requires
        cursor <= text.len(),
        cursor < usize::MAX,
    ensures
        ({
            let typed = edited_text(text, cursor, KeyCode::Char(c));
            let at = edited_cursor(text, cursor, KeyCode::Char(c)) as usize;
            edited_text(typed, at, KeyCode::Backspace) == text && edited_cursor(
                typed,
                at,
                KeyCode::Backspace,
            ) == cursor
        }),
{
    let typed = text.insert(cursor as int, c);
    assert(typed.remove(cursor as int) =~= text);
}

/// No key puts the cursor outside the text.
pub proof fn lemma_cursor_stays_in_text(text: Seq<char>, cursor: usize, code: KeyCode)
    requires
        cursor <= text.len(),
    ensures
        0 <= edited_cursor(text, cursor, code) <= edited_text(text, cursor, code).len(),
{
}

} // verus!
