//! Virtual scrolling compositor for the chat history: variable-height
//! entries are laid out top-to-bottom into an unbounded off-screen surface,
//! and a scroll-offset-shifted window of bounded height is extracted for the
//! real screen.  Out-of-range scroll requests are clamped, never rejected.

use vstd::prelude::*;

use crate::width::MAX_CONTENT_LEN;
use crate::wrap::wrap_lines;

verus! {

/// Rows an entry occupies beyond its message text: top and bottom border
/// plus the timestamp row.
pub const TOP_BOTTOM_BORDER_TIME_HEIGHT: u16 = 3;

/// Who produced a chat message.
#[derive(Clone, Debug)]
pub enum Sender {
    /// A message typed by the user; the payload is the attached image path,
    /// empty when there is none.
    User(String),
    /// A reply from the model.
    Bot,
    /// A marker entry that is never rendered; it occupies no rows.
    Never,
}

/// One entry of the chat history, as the compositor consumes it.  The
/// timestamp is carried as an already formatted string: the compositor only
/// displays it.
#[derive(Clone, Debug)]
pub struct ChatMessage {
    /// Whether the message was delivered successfully.
    pub success: bool,
    /// The message text.
    pub message: String,
    /// Who sent it.
    pub sender: Sender,
    /// The formatted send time.
    pub date_time: String,
}

/// On-screen height of one entry at rendering width `w`: its wrapped line
/// count plus the border and timestamp rows; a `Never` entry is invisible.
pub open spec fn msg_height(m: ChatMessage, w: int) -> int {
    if m.sender is Never {
        0
    } else {
        wrap_lines(m.message@, w).len() + TOP_BOTTOM_BORDER_TIME_HEIGHT
    }
}

/// Total height of the composed surface: the sum of all entry heights.
pub open spec fn total_height_of(msgs: Seq<ChatMessage>, w: int) -> int
    decreases msgs.len(),
{
    if msgs.len() == 0 {
        0
    } else {
        total_height_of(msgs.drop_last(), w) + msg_height(msgs.last(), w)
    }
}

/// Entry heights are never negative.
pub proof fn lemma_total_height_nonneg(msgs: Seq<ChatMessage>, w: int)
    ensures
        total_height_of(msgs, w) >= 0,
    decreases msgs.len(),
{
    if msgs.len() > 0 {
        lemma_total_height_nonneg(msgs.drop_last(), w);
    }
}

/// Height of one entry, saturated into `u16`.
pub fn entry_height(m: &ChatMessage, width: usize) -> (h: u16)
    requires
        m.message@.len() <= MAX_CONTENT_LEN,
    ensures
        h == if msg_height(*m, width as int) <= u16::MAX {
            msg_height(*m, width as int)
        } else {
            u16::MAX as int
        },
{
    match &m.sender {
        Sender::Never => 0,
        _ => {
            let v = crate::width::chars_vec(m.message.as_str());
            let lines = crate::wrap::compute_wrap(&v, width);
            let count = lines.len();
            if count > (u16::MAX - TOP_BOTTOM_BORDER_TIME_HEIGHT) as usize {
                u16::MAX
            } else {
                (count as u16) + TOP_BOTTOM_BORDER_TIME_HEIGHT
            }
        },
    }
}

/// Total height of the composed surface, saturated into `u16`.
pub fn total_height(history: &Vec<ChatMessage>, width: usize) -> (t: u16)
    requires
        forall|i: int|
            0 <= i < history@.len() ==> (#[trigger] history@[i]).message@.len()
                <= MAX_CONTENT_LEN,
    ensures
        t == if total_height_of(history@, width as int) <= u16::MAX {
            total_height_of(history@, width as int)
        } else {
            u16::MAX as int
        },
{
    let mut t: u16 = 0;
    let mut i: usize = 0;
    while i < history.len()
        invariant
            0 <= i <= history@.len(),
            forall|j: int|
                0 <= j < history@.len() ==> (#[trigger] history@[j]).message@.len()
                    <= MAX_CONTENT_LEN,
            t == if total_height_of(history@.take(i as int), width as int) <= u16::MAX {
                total_height_of(history@.take(i as int), width as int)
            } else {
                u16::MAX as int
            },
        decreases history@.len() - i,
    {
        let h = entry_height(&history[i], width);
        proof {
            assert(history@.take(i + 1).drop_last() =~= history@.take(i as int));
            assert(history@.take(i + 1).last() == history@[i as int]);
            lemma_total_height_nonneg(history@.take(i as int), width as int);
        }
        t = if t > u16::MAX - h {
            u16::MAX
        } else {
            t + h
        };
        i = i + 1;
    }
    proof {
        assert(history@.take(history@.len() as int) =~= history@);
    }
    t
}

/// Row offsets at which the entries start: entry `i` begins at the sum of
/// the heights before it, saturated into `u16`.
pub fn entry_offsets(history: &Vec<ChatMessage>, width: usize) -> (offs: Vec<u16>)
    requires
        forall|i: int|
            0 <= i < history@.len() ==> (#[trigger] history@[i]).message@.len()
                <= MAX_CONTENT_LEN,
    ensures
        offs@.len() == history@.len(),
        forall|i: int|
            0 <= i < history@.len() ==> offs@[i] == if total_height_of(
                history@.take(i),
                width as int,
            ) <= u16::MAX {
                total_height_of(history@.take(i), width as int)
            } else {
                u16::MAX as int
            },
{
    let mut offs: Vec<u16> = Vec::new();
    let mut t: u16 = 0;
    let mut i: usize = 0;
    while i < history.len()
        invariant
            0 <= i <= history@.len(),
            offs@.len() == i,
            forall|j: int|
                0 <= j < history@.len() ==> (#[trigger] history@[j]).message@.len()
                    <= MAX_CONTENT_LEN,
            t == if total_height_of(history@.take(i as int), width as int) <= u16::MAX {
                total_height_of(history@.take(i as int), width as int)
            } else {
                u16::MAX as int
            },
            forall|j: int|
                0 <= j < i ==> offs@[j] == if total_height_of(history@.take(j), width as int)
                    <= u16::MAX {
                    total_height_of(history@.take(j), width as int)
                } else {
                    u16::MAX as int
                },
        decreases history@.len() - i,
    {
        offs.push(t);
        let h = entry_height(&history[i], width);
        proof {
            assert(history@.take(i + 1).drop_last() =~= history@.take(i as int));
            assert(history@.take(i + 1).last() == history@[i as int]);
            lemma_total_height_nonneg(history@.take(i as int), width as int);
        }
        t = if t > u16::MAX - h {
            u16::MAX
        } else {
            t + h
        };
        i = i + 1;
    }
    offs
}

/// One upward scroll step: move toward the top, saturating at zero.
pub open spec fn scroll_up_step(off: u16) -> u16 {
    if off > 0 {
        (off - 1) as u16
    } else {
        0
    }
}

/// One downward scroll step: move toward the bottom, clamped at `max`.
pub open spec fn scroll_down_step(off: u16, max: u16) -> u16 {
    if off + 1 <= max {
        (off + 1) as u16
    } else {
        max
    }
}

/// The greatest scroll offset that still shows content: the rows of the
/// surface that do not fit in the visible window.
pub open spec fn max_scroll(total: u16, visible: u16) -> u16 {
    if total >= visible {
        (total - visible) as u16
    } else {
        0
    }
}

/// The offset after a sequence of scroll steps (`true` scrolls down,
/// `false` scrolls up).
pub open spec fn scroll_run(off: u16, ops: Seq<bool>, max: u16) -> u16
    decreases ops.len(),
{
    if ops.len() == 0 {
        off
    } else {
        scroll_run(
            if ops.first() {
                scroll_down_step(off, max)
            } else {
                scroll_up_step(off)
            },
            ops.drop_first(),
            max,
        )
    }
}

/// For any sequence of scroll-up / scroll-down steps, an offset that starts
/// inside `[0, max]` never leaves it.
pub proof fn lemma_scroll_clamp(off: u16, ops: Seq<bool>, max: u16)
    requires
        off <= max,
    ensures
        scroll_run(off, ops, max) <= max,
    decreases ops.len(),
{
    if ops.len() > 0 {
        if ops.first() {
            lemma_scroll_clamp(scroll_down_step(off, max), ops.drop_first(), max);
        } else {
            lemma_scroll_clamp(scroll_up_step(off), ops.drop_first(), max);
        }
    }
}

/// Scroll state of the chat view.
pub struct ScrollProps {
    /// Rows of the composed surface hidden above the visible window.
    pub scroll_offset: u16,
    /// Total height of the composed surface.
    pub chat_history_area_height: u16,
    /// Height of the most recently appended entry.
    pub last_chat_history_height: u16,
    /// Whether a blank separator entry still has to be appended.
    pub add_a_blank_line: bool,
}

impl ScrollProps {
    /// A fresh scroll state: at the top of an empty surface.
    pub fn new() -> (s: ScrollProps)
        ensures
            s.scroll_offset == 0,
            s.chat_history_area_height == 0,
            s.last_chat_history_height == 0,
            !s.add_a_blank_line,
    {
        ScrollProps {
            scroll_offset: 0,
            chat_history_area_height: 0,
            last_chat_history_height: 0,
            add_a_blank_line: false,
        }
    }

    /// The greatest useful scroll offset for a window of `visible_height`
    /// rows.
    pub fn max_scroll_offset(&self, visible_height: u16) -> (m: u16)
        ensures
            m == max_scroll(self.chat_history_area_height, visible_height),
    {
        if self.chat_history_area_height >= visible_height {
            self.chat_history_area_height - visible_height
        } else {
            0
        }
    }

    /// Scroll one row toward the top, saturating at zero.
    pub fn up(&mut self)
        ensures
            final(self).scroll_offset == scroll_up_step(old(self).scroll_offset),
            final(self).chat_history_area_height == old(self).chat_history_area_height,
            final(self).last_chat_history_height == old(self).last_chat_history_height,
            final(self).add_a_blank_line == old(self).add_a_blank_line,
    {
        if self.scroll_offset > 0 {
            self.scroll_offset = self.scroll_offset - 1;
        }
    }

    /// Scroll one row toward the bottom, clamped so the window never runs
    /// past the content.
    pub fn down(&mut self, visible_height: u16)
        ensures
            final(self).scroll_offset == scroll_down_step(
                old(self).scroll_offset,
                max_scroll(old(self).chat_history_area_height, visible_height),
            ),
            final(self).chat_history_area_height == old(self).chat_history_area_height,
            final(self).last_chat_history_height == old(self).last_chat_history_height,
            final(self).add_a_blank_line == old(self).add_a_blank_line,
    {
        let max = self.max_scroll_offset(visible_height);
        if self.scroll_offset < max {
            self.scroll_offset = self.scroll_offset + 1;
        } else {
            self.scroll_offset = max;
        }
    }

    /// Jump to the newest content: the bottom of the surface.
    pub fn scroll_to_bottom(&mut self, visible_height: u16)
        ensures
            final(self).scroll_offset == max_scroll(
                old(self).chat_history_area_height,
                visible_height,
            ),
            final(self).chat_history_area_height == old(self).chat_history_area_height,
            final(self).last_chat_history_height == old(self).last_chat_history_height,
            final(self).add_a_blank_line == old(self).add_a_blank_line,
    {
        self.scroll_offset = self.max_scroll_offset(visible_height);
    }
}

/// The chat history together with its scroll state.
pub struct ChatShowScrollProps {
    /// The entries displayed by the compositor.
    pub chat_history: Vec<ChatMessage>,
    /// Rows of the composed surface hidden above the visible window.
    pub scroll_offset: u16,
    /// Total height of the composed surface, as last computed.
    pub chat_history_area_height: u16,
}

impl ChatShowScrollProps {
    /// A fresh view: no history, at the top.
    pub fn new() -> (s: ChatShowScrollProps)
        ensures
            s.chat_history@.len() == 0,
            s.scroll_offset == 0,
            s.chat_history_area_height == 0,
    {
        ChatShowScrollProps {
            chat_history: Vec::new(),
            scroll_offset: 0,
            chat_history_area_height: 0,
        }
    }

    /// Recompute the surface height from the current entries at the given
    /// rendering width.
    pub fn rebuild_height(&mut self, width: usize)
        requires
            forall|i: int|
                0 <= i < old(self).chat_history@.len() ==> (#[trigger] old(
                    self,
                ).chat_history@[i]).message@.len() <= MAX_CONTENT_LEN,
        ensures
            final(self).chat_history == old(self).chat_history,
            final(self).scroll_offset == old(self).scroll_offset,
            final(self).chat_history_area_height == if total_height_of(
                old(self).chat_history@,
                width as int,
            ) <= u16::MAX {
                total_height_of(old(self).chat_history@, width as int)
            } else {
                u16::MAX as int
            },
    {
        self.chat_history_area_height = total_height(&self.chat_history, width);
    }

    /// The greatest useful scroll offset for a window of `visible_height`
    /// rows.
    pub fn max_scroll_offset(&self, visible_height: u16) -> (m: u16)
        ensures
            m == max_scroll(self.chat_history_area_height, visible_height),
    {
        if self.chat_history_area_height >= visible_height {
            self.chat_history_area_height - visible_height
        } else {
            0
        }
    }

    /// Scroll one row toward the top, saturating at zero.
    pub fn up(&mut self)
        ensures
            final(self).scroll_offset == scroll_up_step(old(self).scroll_offset),
            final(self).chat_history == old(self).chat_history,
            final(self).chat_history_area_height == old(self).chat_history_area_height,
    {
        if self.scroll_offset > 0 {
            self.scroll_offset = self.scroll_offset - 1;
        }
    }

    /// Scroll one row toward the bottom, clamped so the window never runs
    /// past the content.
    pub fn down(&mut self, visible_height: u16)
        ensures
            final(self).scroll_offset == scroll_down_step(
                old(self).scroll_offset,
                max_scroll(old(self).chat_history_area_height, visible_height),
            ),
            final(self).chat_history == old(self).chat_history,
            final(self).chat_history_area_height == old(self).chat_history_area_height,
    {
        let max = self.max_scroll_offset(visible_height);
        if self.scroll_offset < max {
            self.scroll_offset = self.scroll_offset + 1;
        } else {
            self.scroll_offset = max;
        }
    }

    /// Jump to the newest content: the bottom of the surface.
    pub fn scroll_to_bottom(&mut self, visible_height: u16)
        ensures
            final(self).scroll_offset == max_scroll(
                old(self).chat_history_area_height,
                visible_height,
            ),
            final(self).chat_history == old(self).chat_history,
            final(self).chat_history_area_height == old(self).chat_history_area_height,
    {
        self.scroll_offset = self.max_scroll_offset(visible_height);
    }

    /// Scrollbar descriptor for the current state: the thumb position and
    /// the scrollable range.
    pub fn scrollbar(&self, visible_height: u16) -> (sb: (u16, u16))
        ensures
            sb.1 == max_scroll(self.chat_history_area_height, visible_height),
            sb.0 == if self.scroll_offset <= sb.1 {
                self.scroll_offset as int
            } else {
                max_scroll(self.chat_history_area_height, visible_height) as int
            },
    {
        let max = self.max_scroll_offset(visible_height);
        let pos = if self.scroll_offset <= max {
            self.scroll_offset
        } else {
            max
        };
        (pos, max)
    }
}

} // verus!
