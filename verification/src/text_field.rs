//! Single-line input field: an editable character buffer with a cursor
//! tracked both as a character index and as a display column, and a
//! horizontally scrolled visible window.  Every operation is total: edits at
//! the buffer ends are no-ops, never errors.

use vstd::prelude::*;

use crate::width::{c_len, c_utf8_len, char_utf8_len, char_width, chars_vec, str_utf8_len,
    str_width, string_of, vec_width, lemma_str_utf8_len_le, lemma_str_utf8_len_take_succ,
    lemma_str_width_le, lemma_str_width_take_le, lemma_str_width_take_succ, MAX_CONTENT_LEN};

verus! {

/// Index of the first character still visible when the columns before the
/// window are `cut` cells wide: the scan consumes characters until their
/// accumulated width reaches `cut`.
pub open spec fn scroll_start(s: Seq<char>, cut: int) -> int
    decreases s.len(),
{
    if cut <= 0 || s.len() == 0 {
        0
    } else {
        1 + scroll_start(s.drop_first(), cut - char_width(s.first()))
    }
}

/// Single-line input field.
pub struct TextField {
    /// Characters of the field's content.
    pub input_buffer: Vec<char>,
    /// Cursor position, counted in characters, `0 ..= input_buffer.len()`.
    pub input_buffer_index: usize,
    /// Cursor position in terminal cells: the display width of the
    /// characters before the cursor.
    pub cursor_position_x: usize,
    /// Width of the rendering area, in cells.
    pub width: usize,
    /// Whether the first resize has already snapped the cursor to the end.
    pub align_right: bool,
}

impl TextField {
    /// The buffer's characters.
    pub open spec fn content(self) -> Seq<char> {
        self.input_buffer@
    }

    /// Cursor position in characters.
    pub open spec fn char_index(self) -> int {
        self.input_buffer_index as int
    }

    /// Well-formed: the cursor is a valid split point of the content, and the
    /// display column is exactly the width of the characters before it.
    pub open spec fn wf(self) -> bool {
        &&& self.content().len() <= MAX_CONTENT_LEN
        &&& 0 <= self.char_index() <= self.content().len()
        &&& self.cursor_position_x == str_width(self.content().take(self.char_index()))
    }

    /// Geometry (width and first-resize flag) unchanged by an edit.
    pub open spec fn same_geometry(pre: TextField, post: TextField) -> bool {
        &&& post.width == pre.width
        &&& post.align_right == pre.align_right
    }

    /// State reached by jumping to the end of the content.
    pub open spec fn moved_to_end(pre: TextField, post: TextField) -> bool {
        &&& post.content() == pre.content()
        &&& post.char_index() == pre.content().len()
        &&& post.cursor_position_x == str_width(pre.content())
        &&& Self::same_geometry(pre, post)
    }

    /// A fresh field holding `input_buffer`, cursor at the start, unmeasured.
    pub fn new(input_buffer: String) -> (t: TextField)
        requires
            input_buffer@.len() <= MAX_CONTENT_LEN,
        ensures
            t.wf(),
            t.content() == input_buffer@,
            t.char_index() == 0,
            t.cursor_position_x == 0,
            t.width == 0,
            !t.align_right,
    {
        let v = chars_vec(input_buffer.as_str());
        proof {
            assert(v@.take(0) =~= Seq::<char>::empty());
        }
        TextField {
            input_buffer: v,
            input_buffer_index: 0,
            cursor_position_x: 0,
            width: 0,
            align_right: false,
        }
    }

    /// Clamp a candidate cursor position into `0 ..= len`.
    pub fn clamp_cursor(&self, new_cursor_pos: usize) -> (r: usize)
        ensures
            r == if new_cursor_pos <= self.content().len() {
                new_cursor_pos as int
            } else {
                self.content().len() as int
            },
    {
        if new_cursor_pos <= self.input_buffer.len() {
            new_cursor_pos
        } else {
            self.input_buffer.len()
        }
    }

    /// Jump the cursor to the end of the content.
    pub fn end_of_cursor(&mut self)
        requires
            old(self).wf(),
        ensures
            final(self).wf(),
            Self::moved_to_end(*old(self), *final(self)),
    {
        self.input_buffer_index = self.input_buffer.len();
        self.cursor_position_x = vec_width(&self.input_buffer);
        proof {
            assert(self.content().take(self.content().len() as int) =~= self.content());
        }
    }

    /// Jump the cursor to the start of the content.
    pub fn home_of_cursor(&mut self)
        requires
            old(self).wf(),
        ensures
            final(self).wf(),
            final(self).content() == old(self).content(),
            final(self).char_index() == 0,
            final(self).cursor_position_x == 0,
            Self::same_geometry(*old(self), *final(self)),
    {
        self.input_buffer_index = 0;
        self.cursor_position_x = 0;
        proof {
            assert(self.content().take(0) =~= Seq::<char>::empty());
        }
    }

    /// The character just before the cursor, or NUL at the buffer start.
    pub fn get_current_char(&self) -> (c: char)
        requires
            self.wf(),
        ensures
            c == if self.char_index() == 0 {
                '\0'
            } else {
                self.content()[self.char_index() - 1]
            },
    {
        if self.input_buffer_index == 0 {
            '\0'
        } else {
            self.input_buffer[self.input_buffer_index - 1]
        }
    }

    /// The character just after the cursor, or NUL at the buffer end.
    pub fn get_next_char(&self) -> (c: char)
        requires
            self.wf(),
        ensures
            c == if self.char_index() < self.content().len() {
                self.content()[self.char_index()]
            } else {
                '\0'
            },
    {
        if self.input_buffer_index < self.input_buffer.len() {
            self.input_buffer[self.input_buffer_index]
        } else {
            '\0'
        }
    }

    /// Move the cursor one character to the left; a no-op at the start.
    pub fn move_cursor_left(&mut self)
        requires
            old(self).wf(),
        ensures
            final(self).wf(),
            final(self).content() == old(self).content(),
            Self::same_geometry(*old(self), *final(self)),
            old(self).char_index() == 0 ==> final(self).char_index() == 0
                && final(self).cursor_position_x == old(self).cursor_position_x,
            old(self).char_index() > 0 ==> final(self).char_index() == old(self).char_index() - 1
                && final(self).cursor_position_x == old(self).cursor_position_x - char_width(
                old(self).content()[old(self).char_index() - 1]),
    {
        if self.input_buffer_index > 0 {
            let c = self.input_buffer[self.input_buffer_index - 1];
            proof {
                lemma_str_width_take_succ(self.content(), self.char_index() - 1);
            }
            let w = c_len(c);
            self.input_buffer_index = self.input_buffer_index - 1;
            self.cursor_position_x = self.cursor_position_x - w;
        }
    }

    /// Move the cursor one character to the right; a no-op at the end.
    pub fn move_cursor_right(&mut self)
        requires
            old(self).wf(),
        ensures
            final(self).wf(),
            final(self).content() == old(self).content(),
            Self::same_geometry(*old(self), *final(self)),
            old(self).char_index() == old(self).content().len() ==> final(self).char_index()
                == old(self).char_index() && final(self).cursor_position_x == old(self).cursor_position_x,
            old(self).char_index() < old(self).content().len() ==> final(self).char_index() == old(self).char_index() + 1 && final(self).cursor_position_x == old(self).cursor_position_x
                + char_width(old(self).content()[old(self).char_index()]),
    {
        if self.input_buffer_index < self.input_buffer.len() {
            let c = self.input_buffer[self.input_buffer_index];
            proof {
                lemma_str_width_take_succ(self.content(), self.char_index());
                lemma_str_width_take_le(self.content(), self.char_index() + 1);
                lemma_str_width_le(self.content());
            }
            let w = c_len(c);
            self.cursor_position_x = self.cursor_position_x + w;
            self.input_buffer_index = self.input_buffer_index + 1;
        }
    }

    /// Insert a character at the cursor and advance over it.  Never fails.
    pub fn enter_char(&mut self, new_char: char)
        requires
            old(self).wf(),
            old(self).content().len() < MAX_CONTENT_LEN,
        ensures
            final(self).wf(),
            final(self).content() == old(self).content().insert(
                old(self).char_index(),
                new_char,
            ),
            final(self).char_index() == old(self).char_index() + 1,
            final(self).cursor_position_x == old(self).cursor_position_x + char_width(new_char),
            Self::same_geometry(*old(self), *final(self)),
    {
        let ghost pre = self.content();
        let ghost i = self.char_index();
        self.input_buffer.insert(self.input_buffer_index, new_char);
        proof {
            assert(self.content().take(i) =~= pre.take(i));
            lemma_str_width_take_succ(self.content(), i);
            assert(self.content()[i] == new_char);
            lemma_str_width_take_le(self.content(), i + 1);
            lemma_str_width_le(self.content());
        }
        let w = c_len(new_char);
        self.cursor_position_x = self.cursor_position_x + w;
        self.input_buffer_index = self.input_buffer_index + 1;
    }

    /// Delete the character before the cursor; a no-op at the start.
    pub fn delete_pre_char(&mut self)
        requires
            old(self).wf(),
        ensures
            final(self).wf(),
            Self::same_geometry(*old(self), *final(self)),
            old(self).char_index() == 0 ==> final(self).content() == old(self).content()
                && final(self).char_index() == 0 && final(self).cursor_position_x == old(self).cursor_position_x,
            old(self).char_index() > 0 ==> final(self).content() == old(self).content().remove(
                old(self).char_index() - 1,
            ) && final(self).char_index() == old(self).char_index() - 1 && final(self).cursor_position_x == old(self).cursor_position_x - char_width(
                old(self).content()[old(self).char_index() - 1],
            ),
    {
        if self.input_buffer_index > 0 {
            let ghost pre = self.content();
            let ghost i = self.char_index();
            let c = self.input_buffer[self.input_buffer_index - 1];
            proof {
                lemma_str_width_take_succ(pre, i - 1);
            }
            let w = c_len(c);
            self.input_buffer.remove(self.input_buffer_index - 1);
            self.input_buffer_index = self.input_buffer_index - 1;
            self.cursor_position_x = self.cursor_position_x - w;
            proof {
                assert(self.content().take(i - 1) =~= pre.take(i - 1));
            }
        }
    }

    /// Delete the character after the cursor; a no-op at the end.
    pub fn delete_suf_char(&mut self)
        requires
            old(self).wf(),
        ensures
            final(self).wf(),
            Self::same_geometry(*old(self), *final(self)),
            final(self).char_index() == old(self).char_index(),
            final(self).cursor_position_x == old(self).cursor_position_x,
            old(self).char_index() == old(self).content().len() ==> final(self).content() == old(self).content(),
            old(self).char_index() < old(self).content().len() ==> final(self).content() == old(self).content().remove(old(self).char_index()),
    {
        if self.input_buffer_index < self.input_buffer.len() {
            let ghost pre = self.content();
            let ghost i = self.char_index();
            self.input_buffer.remove(self.input_buffer_index);
            proof {
                assert(self.content().take(i) =~= pre.take(i));
            }
        }
    }

    /// UTF-8 byte offset of the cursor inside the content.
    pub fn byte_index(&self) -> (r: usize)
        requires
            self.wf(),
        ensures
            r == str_utf8_len(self.content().take(self.char_index())),
    {
        let mut r: usize = 0;
        let mut i: usize = 0;
        while i < self.input_buffer_index
            invariant
                0 <= i <= self.char_index() <= self.content().len() <= MAX_CONTENT_LEN,
                self.wf(),
                r == str_utf8_len(self.content().take(i as int)),
            decreases self.char_index() - i,
        {
            proof {
                lemma_str_utf8_len_take_succ(self.content(), i as int);
                lemma_str_utf8_len_le(self.content().take(i + 1));
            }
            r = r + c_utf8_len(self.input_buffer[i]);
            i = i + 1;
        }
        r
    }

    /// Record the rendering width; the first call also snaps the cursor to
    /// the end of the content.
    pub fn set_width_height(&mut self, width: usize, _height: usize)
        requires
            old(self).wf(),
        ensures
            final(self).wf(),
            final(self).width == width,
            final(self).align_right,
            final(self).content() == old(self).content(),
            old(self).align_right ==> final(self).char_index() == old(self).char_index() && final(self).cursor_position_x == old(self).cursor_position_x,
            !old(self).align_right ==> final(self).char_index() == old(self).content().len()
                && final(self).cursor_position_x == str_width(old(self).content()),
    {
        self.width = width;
        if !self.align_right {
            self.end_of_cursor();
            self.align_right = true;
        }
    }

    /// The content as a `String`.
    pub fn get_content(&self) -> (r: String)
        ensures
            r@ == self.content(),
    {
        string_of(&self.input_buffer)
    }

    /// Reset to the empty content with the cursor at the start.
    pub fn clear(&mut self)
        ensures
            final(self).wf(),
            final(self).content() == Seq::<char>::empty(),
            final(self).char_index() == 0,
            final(self).cursor_position_x == 0,
            Self::same_geometry(*old(self), *final(self)),
    {
        self.input_buffer = Vec::new();
        self.input_buffer_index = 0;
        self.cursor_position_x = 0;
        proof {
            assert(self.content().take(0) =~= Seq::<char>::empty());
        }
    }

    /// Run the scroll scan: the index where the visible suffix starts when
    /// `start` cells are hidden, together with the display width of the
    /// hidden prefix.
    fn scroll_scan(&self, start: usize) -> (r: (usize, usize))
        requires
            self.wf(),
        ensures
            r.0 == scroll_start(self.content(), start as int),
            0 <= r.0 <= self.content().len(),
            r.1 == str_width(self.content().take(r.0 as int)),
            start <= str_width(self.content()) ==> r.1 >= start,
    {
        let ghost s = self.content();
        proof {
            assert(s.skip(0) =~= s);
            assert(s.take(0) =~= Seq::<char>::empty());
        }
        let mut j: usize = 0;
        let mut acc: usize = 0;
        while j < self.input_buffer.len() && acc < start
            invariant
                0 <= j <= s.len() <= MAX_CONTENT_LEN,
                s == self.content(),
                acc == str_width(s.take(j as int)),
                acc < start ==> scroll_start(s, start as int) == j + scroll_start(
                    s.skip(j as int),
                    start - acc,
                ),
                acc >= start ==> scroll_start(s, start as int) == j,
            decreases s.len() - j,
        {
            proof {
                lemma_str_width_take_succ(s, j as int);
                lemma_str_width_take_le(s, j + 1);
                lemma_str_width_le(s);
                assert(s.skip(j as int).first() == s[j as int]);
                assert(s.skip(j as int).drop_first() =~= s.skip(j + 1));
            }
            acc = acc + c_len(self.input_buffer[j]);
            j = j + 1;
            proof {
                if acc >= start {
                    assert(scroll_start(s.skip(j as int), start - acc) == 0);
                }
            }
        }
        proof {
            if j == s.len() && acc < start {
                assert(s.skip(j as int) =~= Seq::<char>::empty());
                assert(scroll_start(s.skip(j as int), start - acc) == 0);
                assert(s.take(j as int) =~= s);
            }
            assert(scroll_start(s, start as int) == j);
        }
        (j, acc)
    }

    /// The suffix of the content that is still visible when the columns
    /// before the window are `start` cells wide.
    pub fn sub_input_buffer(&self, start: usize) -> (r: String)
        requires
            self.wf(),
        ensures
            r@ == self.content().skip(scroll_start(self.content(), start as int)),
    {
        let ghost s = self.content();
        let scan = self.scroll_scan(start);
        let j = scan.0;
        let mut r = String::new();
        let mut m: usize = j;
        while m < self.input_buffer.len()
            invariant
                j <= m <= s.len(),
                s == self.content(),
                r@ == s.subrange(j as int, m as int),
            decreases s.len() - m,
        {
            crate::width::push_char(&mut r, self.input_buffer[m]);
            proof {
                assert(s.subrange(j as int, m + 1) =~= s.subrange(j as int, m as int).push(
                    s[m as int],
                ));
            }
            m = m + 1;
        }
        proof {
            assert(s.subrange(j as int, s.len() as int) =~= s.skip(j as int));
        }
        r
    }

    /// The text to draw: all of the content when it fits or the cursor is
    /// inside the window, else the suffix that keeps the cursor visible.
    pub fn should_show_text(&self) -> (r: String)
        requires
            self.wf(),
        ensures
            str_width(self.content()) > self.width && self.cursor_position_x > self.width
                ==> r@ == self.content().skip(
                scroll_start(self.content(), self.cursor_position_x - self.width),
            ),
            !(str_width(self.content()) > self.width && self.cursor_position_x > self.width)
                ==> r@ == self.content(),
    {
        let total = vec_width(&self.input_buffer);
        if total > self.width && self.cursor_position_x > self.width {
            self.sub_input_buffer(self.cursor_position_x - self.width)
        } else {
            string_of(&self.input_buffer)
        }
    }

    /// Cursor cell inside the window: the display column minus the width
    /// consumed by the characters scrolled out of view, clamped into the
    /// window; a single-line field always sits on row zero.
    pub fn get_cursor_position(&self) -> (pos: (usize, usize))
        requires
            self.wf(),
        ensures
            pos.1 == 0,
            pos.0 <= self.width,
            str_width(self.content()) > self.width && self.cursor_position_x > self.width
                ==> pos.0 == self.cursor_position_x - str_width(
                self.content().take(
                    scroll_start(self.content(), self.cursor_position_x - self.width),
                ),
            ),
            !(str_width(self.content()) > self.width && self.cursor_position_x > self.width)
                ==> pos.0 == self.cursor_position_x,
    {
        let total = vec_width(&self.input_buffer);
        if total > self.width && self.cursor_position_x > self.width {
            let cut = self.cursor_position_x - self.width;
            let scan = self.scroll_scan(cut);
            let hidden = scan.1;
            proof {
                let s = self.content();
                let k = self.char_index();
                let j = scroll_start(s, cut as int);
                // The cursor's own prefix is at least `cut` wide, so the
                // scan stops at or before the cursor and the hidden width
                // never exceeds the display column.
                lemma_scroll_start_le(s, cut as int, k);
                assert(s.take(k).take(j) =~= s.take(j));
                lemma_str_width_take_le(s.take(k), j);
                lemma_str_width_take_le(s, k);
            }
            let x = self.cursor_position_x - hidden;
            if x <= self.width {
                (x, 0)
            } else {
                (self.width, 0)
            }
        } else {
            proof {
                lemma_str_width_take_le(self.content(), self.char_index());
            }
            (self.cursor_position_x, 0)
        }
    }
}

/// A prefix at least `cut` cells wide exists up to index `k`, so the scroll
/// scan stops at or before `k`.
pub proof fn lemma_scroll_start_le(s: Seq<char>, cut: int, k: int)
    requires
        0 <= k <= s.len(),
        str_width(s.take(k)) >= cut,
    ensures
        scroll_start(s, cut) <= k,
    decreases s.len(),
{
    if cut <= 0 || s.len() == 0 {
    } else {
        assert(s.take(0) =~= Seq::<char>::empty());
        let s2 = s.drop_first();
        let cut2 = cut - char_width(s.first());
        assert(s.take(k) =~= seq![s[0]] + s2.take(k - 1));
        crate::width::lemma_str_width_concat(seq![s[0]], s2.take(k - 1));
        assert(seq![s[0]].len() == 1);
        assert(seq![s[0]].drop_last() =~= Seq::<char>::empty());
        assert(str_width(seq![s[0]].drop_last()) == 0);
        assert(seq![s[0]].last() == s[0]);
        assert(str_width(seq![s[0]]) == char_width(s[0]));
        lemma_scroll_start_le(s2, cut2, k - 1);
    }
}

/// Jumping to the end of the content twice is the same as jumping once: the
/// second jump leaves the state unchanged.
pub proof fn lemma_move_to_end_idempotent(a: TextField, b: TextField, c: TextField)
    requires
        TextField::moved_to_end(a, b),
        TextField::moved_to_end(b, c),
    ensures
        c.content() == b.content(),
        c.char_index() == b.char_index(),
        c.cursor_position_x == b.cursor_position_x,
        c.width == b.width,
        c.align_right == b.align_right,
{
}

} // verus!
