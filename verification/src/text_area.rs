//! Multi-line input area: an editable character buffer with embedded
//! newlines, soft-wrapped at the rendering width.  The character index is
//! the single source of truth for the cursor; the visual row and column are
//! re-derived from it as a unit after every mutation, so the three
//! coordinate systems can never drift apart.

use vstd::prelude::*;

use crate::width::{c_utf8_len, char_utf8_len, chars_vec, str_utf8_len, str_width, string_of,
    vec_width, lemma_str_utf8_len_le, lemma_str_utf8_len_take_succ, MAX_CONTENT_LEN};
use crate::wrap::{compute_wrap, cursor_col, cursor_pos, cursor_row, join_lines, join_string,
    line_prefix, wrap_lines, lemma_cursor_in_wrap, lemma_wrap_line_len};

verus! {

/// Index of the next hard newline at or after `k`, or the text's length.
pub open spec fn next_newline(s: Seq<char>, k: int) -> int
    decreases s.len() - k,
{
    if k < 0 || k >= s.len() {
        s.len() as int
    } else if s[k] == '\n' {
        k
    } else {
        next_newline(s, k + 1)
    }
}

/// Start of the hard line containing `k`: the position just after the
/// nearest newline before `k`, or the start of the text.
pub open spec fn line_start(s: Seq<char>, k: int) -> int
    decreases k,
{
    if k <= 0 {
        0
    } else if s[k - 1] == '\n' {
        k
    } else {
        line_start(s, k - 1)
    }
}

/// Multi-line input area.
pub struct TextArea {
    /// Characters of the area's content, hard newlines included.
    pub input_buffer: Vec<char>,
    /// Cursor position, counted in characters, `0 ..= input_buffer.len()`.
    pub input_buffer_index: usize,
    /// Cursor column in terminal cells, within its wrapped line.
    pub cursor_position_x: usize,
    /// Wrapped-line row holding the cursor.
    pub cursor_position_y: usize,
    /// Width of the rendering area, in cells.
    pub width: usize,
    /// Height of the rendering area, in rows.
    pub height: usize,
    /// The content wrapped at `width`: derived, never hand-edited.
    pub each_line_string: Vec<Vec<char>>,
    /// Whether the first resize has already snapped the cursor to the end.
    pub align_right: bool,
}

impl TextArea {
    /// The buffer's characters.
    pub open spec fn content(self) -> Seq<char> {
        self.input_buffer@
    }

    /// Cursor position in characters.
    pub open spec fn char_index(self) -> int {
        self.input_buffer_index as int
    }

    /// The cached wrapped lines.
    pub open spec fn lines_view(self) -> Seq<Seq<char>> {
        self.each_line_string.deep_view()
    }

    /// Well-formed: the cursor is a valid split point, and once the area has
    /// been measured the cached wrap and the visual cursor coordinates agree
    /// exactly with the content, the width and the character index.
    pub open spec fn wf(self) -> bool {
        &&& self.content().len() <= MAX_CONTENT_LEN
        &&& 0 <= self.char_index() <= self.content().len()
        &&& self.align_right ==> {
            &&& self.lines_view() == wrap_lines(self.content(), self.width as int)
            &&& self.cursor_position_y == cursor_row(
                self.content(),
                self.width as int,
                self.char_index(),
            )
            &&& self.cursor_position_x == cursor_col(
                self.content(),
                self.width as int,
                self.char_index(),
            )
        }
    }

    /// Rendering area unchanged by an edit.
    pub open spec fn same_geometry(pre: TextArea, post: TextArea) -> bool {
        &&& post.width == pre.width
        &&& post.height == pre.height
        &&& post.align_right == pre.align_right
    }

    /// State reached by jumping to the end of the whole content.
    pub open spec fn moved_to_end(pre: TextArea, post: TextArea) -> bool {
        &&& post.content() == pre.content()
        &&& post.char_index() == pre.content().len()
        &&& Self::same_geometry(pre, post)
    }

    /// A fresh area holding `input_buffer`, cursor at the start, unmeasured.
    pub fn new(input_buffer: String) -> (t: TextArea)
        requires
            input_buffer@.len() <= MAX_CONTENT_LEN,
        ensures
            t.wf(),
            t.content() == input_buffer@,
            t.char_index() == 0,
            t.cursor_position_x == 0,
            t.cursor_position_y == 0,
            t.width == 0,
            t.height == 0,
            !t.align_right,
    {
        let v = chars_vec(input_buffer.as_str());
        TextArea {
            input_buffer: v,
            input_buffer_index: 0,
            cursor_position_x: 0,
            cursor_position_y: 0,
            width: 0,
            height: 0,
            each_line_string: Vec::new(),
            align_right: false,
        }
    }

    /// Re-derive the wrapped lines and the visual cursor from the content,
    /// the width and the character index.
    fn refresh(&mut self)
        requires
            old(self).content().len() <= MAX_CONTENT_LEN,
            0 <= old(self).char_index() <= old(self).content().len(),
        ensures
            final(self).input_buffer == old(self).input_buffer,
            final(self).input_buffer_index == old(self).input_buffer_index,
            final(self).width == old(self).width,
            final(self).height == old(self).height,
            final(self).align_right == old(self).align_right,
            final(self).lines_view() == wrap_lines(old(self).content(), old(self).width as int),
            final(self).cursor_position_y == cursor_row(
                old(self).content(),
                old(self).width as int,
                old(self).char_index(),
            ),
            final(self).cursor_position_x == cursor_col(
                old(self).content(),
                old(self).width as int,
                old(self).char_index(),
            ),
    {
        self.each_line_string = compute_wrap(&self.input_buffer, self.width);
        let pos = cursor_pos(&self.input_buffer, self.width, self.input_buffer_index);
        self.cursor_position_y = pos.0;
        self.cursor_position_x = pos.1;
    }

    /// Record the rendering area and re-wrap; the first call also snaps the
    /// cursor to the end of the content.  Later resizes never move the
    /// logical cursor, only its visual projection.
    pub fn set_width_height(&mut self, width: usize, height: usize)
        requires
            old(self).wf(),
        ensures
            final(self).wf(),
            final(self).width == width,
            final(self).height == height,
            final(self).align_right,
            final(self).content() == old(self).content(),
            old(self).align_right ==> final(self).char_index() == old(self).char_index(),
            !old(self).align_right ==> final(self).char_index() == old(self).content().len(),
    {
        self.width = width;
        self.height = height;
        if !self.align_right {
            self.input_buffer_index = self.input_buffer.len();
            self.align_right = true;
        }
        self.refresh();
    }

    /// Insert a character at the cursor and advance over it.  Never fails.
    pub fn enter_char(&mut self, new_char: char)
        requires
            old(self).wf(),
            old(self).align_right,
            old(self).content().len() < MAX_CONTENT_LEN,
        ensures
            final(self).wf(),
            final(self).content() == old(self).content().insert(
                old(self).char_index(),
                new_char,
            ),
            final(self).char_index() == old(self).char_index() + 1,
            Self::same_geometry(*old(self), *final(self)),
    {
        self.input_buffer.insert(self.input_buffer_index, new_char);
        self.input_buffer_index = self.input_buffer_index + 1;
        self.refresh();
    }

    /// The Enter key: insert a newline, unless the character just before the
    /// cursor is already a newline.
    pub fn handle_enter_key(&mut self)
        requires
            old(self).wf(),
            old(self).align_right,
            old(self).content().len() < MAX_CONTENT_LEN,
        ensures
            final(self).wf(),
            Self::same_geometry(*old(self), *final(self)),
            old(self).char_index() > 0 && old(self).content()[old(self).char_index() - 1] == '\n'
                ==> final(self).content() == old(self).content() && final(self).char_index()
                == old(self).char_index(),
            !(old(self).char_index() > 0 && old(self).content()[old(self).char_index() - 1]
                == '\n') ==> final(self).content() == old(self).content().insert(
                old(self).char_index(),
                '\n',
            ) && final(self).char_index() == old(self).char_index() + 1,
    {
        if self.get_current_char() != '\n' {
            self.enter_char('\n');
        }
    }

    /// Delete the character before the cursor; a no-op at the start.
    pub fn delete_pre_char(&mut self)
        requires
            old(self).wf(),
            old(self).align_right,
        ensures
            final(self).wf(),
            Self::same_geometry(*old(self), *final(self)),
            old(self).char_index() == 0 ==> final(self).content() == old(self).content() && final(self).char_index() == 0,
            old(self).char_index() > 0 ==> final(self).content() == old(self).content().remove(
                old(self).char_index() - 1,
            ) && final(self).char_index() == old(self).char_index() - 1,
    {
        if self.input_buffer_index > 0 {
            self.input_buffer.remove(self.input_buffer_index - 1);
            self.input_buffer_index = self.input_buffer_index - 1;
            self.refresh();
        }
    }

    /// Delete the character after the cursor; a no-op at the end.
    pub fn delete_suf_char(&mut self)
        requires
            old(self).wf(),
            old(self).align_right,
        ensures
            final(self).wf(),
            Self::same_geometry(*old(self), *final(self)),
            final(self).char_index() == old(self).char_index(),
            old(self).char_index() == old(self).content().len() ==> final(self).content() == old(self).content(),
            old(self).char_index() < old(self).content().len() ==> final(self).content() == old(self).content().remove(old(self).char_index()),
    {
        if self.input_buffer_index < self.input_buffer.len() {
            self.input_buffer.remove(self.input_buffer_index);
            self.refresh();
        }
    }

    /// Move the cursor one character to the left; a no-op at the start.
    /// Stepping across a wrapped-line boundary consumes no character.
    pub fn move_cursor_left(&mut self)
        requires
            old(self).wf(),
            old(self).align_right,
        ensures
            final(self).wf(),
            final(self).content() == old(self).content(),
            Self::same_geometry(*old(self), *final(self)),
            final(self).char_index() == if old(self).char_index() > 0 {
                old(self).char_index() - 1
            } else {
                0
            },
    {
        if self.input_buffer_index > 0 {
            self.input_buffer_index = self.input_buffer_index - 1;
            self.refresh();
        }
    }

    /// Move the cursor one character to the right; a no-op at the end.
    pub fn move_cursor_right(&mut self)
        requires
            old(self).wf(),
            old(self).align_right,
        ensures
            final(self).wf(),
            final(self).content() == old(self).content(),
            Self::same_geometry(*old(self), *final(self)),
            final(self).char_index() == if old(self).char_index() < old(self).content().len() {
                old(self).char_index() + 1
            } else {
                old(self).char_index()
            },
    {
        if self.input_buffer_index < self.input_buffer.len() {
            self.input_buffer_index = self.input_buffer_index + 1;
            self.refresh();
        }
    }

    /// Jump to the end of the whole content.
    pub fn end_of_multiline(&mut self)
        requires
            old(self).wf(),
            old(self).align_right,
        ensures
            final(self).wf(),
            final(self).align_right,
            Self::moved_to_end(*old(self), *final(self)),
    {
        self.input_buffer_index = self.input_buffer.len();
        self.refresh();
    }

    /// Jump to the start of the whole content.
    pub fn home_of_multiline(&mut self)
        requires
            old(self).wf(),
            old(self).align_right,
        ensures
            final(self).wf(),
            final(self).content() == old(self).content(),
            final(self).char_index() == 0,
            Self::same_geometry(*old(self), *final(self)),
    {
        self.input_buffer_index = 0;
        self.refresh();
    }

    /// The End key: jump to the end of the current hard line, the position
    /// of the next newline or the end of the content.  Wrap-only breaks are
    /// skipped over.
    pub fn end_of_cursor(&mut self)
        requires
            old(self).wf(),
            old(self).align_right,
        ensures
            final(self).wf(),
            final(self).content() == old(self).content(),
            final(self).char_index() == next_newline(old(self).content(), old(self).char_index()),
            Self::same_geometry(*old(self), *final(self)),
    {
        let ghost s = self.content();
        let mut j: usize = self.input_buffer_index;
        while j < self.input_buffer.len() && self.input_buffer[j] != '\n'
            invariant
                0 <= self.char_index() <= j <= s.len(),
                s == self.content(),
                next_newline(s, self.char_index()) == next_newline(s, j as int),
            decreases s.len() - j,
        {
            j = j + 1;
        }
        self.input_buffer_index = j;
        self.refresh();
    }

    /// The Home key: jump to the start of the current hard line, the
    /// position just after the nearest newline before the cursor.
    pub fn home_of_cursor(&mut self)
        requires
            old(self).wf(),
            old(self).align_right,
        ensures
            final(self).wf(),
            final(self).content() == old(self).content(),
            final(self).char_index() == line_start(old(self).content(), old(self).char_index()),
            Self::same_geometry(*old(self), *final(self)),
    {
        let ghost s = self.content();
        let mut j: usize = self.input_buffer_index;
        while j > 0 && self.input_buffer[j - 1] != '\n'
            invariant
                0 <= j <= self.char_index() <= s.len(),
                s == self.content(),
                line_start(s, self.char_index()) == line_start(s, j as int),
            decreases j,
        {
            j = j - 1;
        }
        self.input_buffer_index = j;
        self.refresh();
    }

    /// The character just before the cursor, or NUL at the buffer start.
    pub fn get_current_char(&self) -> (c: char)
        requires
            self.wf(),
        ensures
            c == if self.char_index() == 0 {
                '\0'
            } else {
                self.content()[self.char_index() - 1]
            },
    {
        if self.input_buffer_index == 0 {
            '\0'
        } else {
            self.input_buffer[self.input_buffer_index - 1]
        }
    }

    /// The character just after the cursor, or NUL at the buffer end.
    pub fn get_next_char(&self) -> (c: char)
        requires
            self.wf(),
        ensures
            c == if self.char_index() < self.content().len() {
                self.content()[self.char_index()]
            } else {
                '\0'
            },
    {
        if self.input_buffer_index < self.input_buffer.len() {
            self.input_buffer[self.input_buffer_index]
        } else {
            '\0'
        }
    }

    /// UTF-8 byte offset of the cursor inside the content.
    pub fn byte_index(&self) -> (r: usize)
        requires
            self.wf(),
        ensures
            r == str_utf8_len(self.content().take(self.char_index())),
    {
        let mut r: usize = 0;
        let mut i: usize = 0;
        while i < self.input_buffer_index
            invariant
                0 <= i <= self.char_index() <= self.content().len() <= MAX_CONTENT_LEN,
                self.wf(),
                r == str_utf8_len(self.content().take(i as int)),
            decreases self.char_index() - i,
        {
            proof {
                lemma_str_utf8_len_take_succ(self.content(), i as int);
                lemma_str_utf8_len_le(self.content().take(i + 1));
            }
            r = r + c_utf8_len(self.input_buffer[i]);
            i = i + 1;
        }
        r
    }

    /// The content as a `String`.
    pub fn get_content(&self) -> (r: String)
        ensures
            r@ == self.content(),
    {
        string_of(&self.input_buffer)
    }

    /// The wrapped text to draw: the wrapped lines joined with newlines.
    pub fn should_show_text(&self) -> (r: String)
        requires
            self.wf(),
            self.align_right,
        ensures
            r@ == join_lines(wrap_lines(self.content(), self.width as int)),
    {
        join_string(&self.each_line_string)
    }

    /// Display width of wrapped line `index`, or zero past the last line.
    pub fn get_len_of_line(&self, index: usize) -> (r: usize)
        requires
            self.wf(),
            self.align_right,
        ensures
            r == if index < self.lines_view().len() {
                str_width(self.lines_view()[index as int]) as int
            } else {
                0
            },
    {
        if index < self.each_line_string.len() {
            proof {
                lemma_wrap_line_len(self.content(), self.width as int);
                assert(self.lines_view()[index as int] == self.each_line_string@[index as int]@);
            }
            vec_width(&self.each_line_string[index])
        } else {
            0
        }
    }

    /// Cursor cell inside the window, clamped to the rendering area.
    pub fn get_cursor_position(&self) -> (pos: (usize, usize))
        ensures
            pos.0 == if self.cursor_position_x <= self.width {
                self.cursor_position_x as int
            } else {
                self.width as int
            },
            pos.1 == if self.cursor_position_y <= self.height {
                self.cursor_position_y as int
            } else {
                self.height as int
            },
    {
        let x = if self.cursor_position_x <= self.width {
            self.cursor_position_x
        } else {
            self.width
        };
        let y = if self.cursor_position_y <= self.height {
            self.cursor_position_y
        } else {
            self.height
        };
        (x, y)
    }

    /// Reset to the empty content with the cursor at the start; the area
    /// stays measured and keeps its rendering size.
    pub fn clear(&mut self)
        requires
            old(self).wf(),
        ensures
            final(self).wf(),
            final(self).content() == Seq::<char>::empty(),
            final(self).char_index() == 0,
            final(self).align_right,
            final(self).width == old(self).width,
            final(self).height == old(self).height,
    {
        self.input_buffer = Vec::new();
        self.input_buffer_index = 0;
        self.align_right = true;
        self.refresh();
    }
}

/// Re-wrapping identical content at the same width yields identical wrapped
/// lines: the wrap is a function of content and width alone.
pub proof fn lemma_wrap_deterministic(a: TextArea, b: TextArea)
    requires
        a.wf(),
        b.wf(),
        a.align_right,
        b.align_right,
        a.content() == b.content(),
        a.width == b.width,
    ensures
        a.lines_view() == b.lines_view(),
{
}

/// The visual cursor of a measured, well-formed area is consistent with its
/// wrapped lines: its row exists, and its column is exactly the display
/// width of the characters standing before it on its own wrapped line,
/// which are a prefix of that line.
pub proof fn lemma_cursor_column_consistent(t: TextArea)
    requires
        t.wf(),
        t.align_right,
    ensures
        0 <= t.cursor_position_y < t.lines_view().len(),
        t.cursor_position_x == str_width(
            line_prefix(t.content(), t.width as int, t.char_index()),
        ),
        line_prefix(t.content(), t.width as int, t.char_index()) == t.lines_view()[
            t.cursor_position_y as int].take(
            line_prefix(t.content(), t.width as int, t.char_index()).len() as int,
        ),
{
    lemma_cursor_in_wrap(t.content(), t.width as int, t.char_index());
}

/// Jumping to the end of the content twice is the same as jumping once: the
/// second jump leaves every part of the state unchanged.
pub proof fn lemma_end_of_multiline_idempotent(a: TextArea, b: TextArea, c: TextArea)
    requires
        b.wf(),
        c.wf(),
        b.align_right,
        c.align_right,
        TextArea::moved_to_end(a, b),
        TextArea::moved_to_end(b, c),
    ensures
        c.content() == b.content(),
        c.char_index() == b.char_index(),
        c.cursor_position_x == b.cursor_position_x,
        c.cursor_position_y == b.cursor_position_y,
        c.lines_view() == b.lines_view(),
        c.width == b.width,
        c.height == b.height,
{
}

} // verus!
