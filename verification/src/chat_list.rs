//! Selection state of the saved-conversation sidebar: which entry is
//! selected and how far the list is scrolled so the selection stays in
//! view.  Pure window arithmetic over the list's length; the store that
//! materializes the list lives outside and only hands its size in.

use vstd::prelude::*;

verus! {

/// Rows each conversation entry occupies in the sidebar list.
pub const ITEM_HEIGHT: u16 = 3;

/// Selection and scroll state of the conversation list.
pub struct ChatItemListScrollProps {
    /// Number of conversations in the list.
    pub item_count: usize,
    /// Rows of the list hidden above the visible window.
    pub scroll_offset: u16,
    /// Height of the visible list area, in rows.
    pub show_chat_item_area_height: u16,
    /// Index of the selected conversation.
    pub selected_conversation: usize,
}

impl ChatItemListScrollProps {
    /// Well-formed: all item rows fit in `u16` arithmetic, the selection
    /// points into the list (or at zero on an empty list), and the scroll
    /// offset never runs past the list.
    pub open spec fn wf(self) -> bool {
        &&& self.item_count * ITEM_HEIGHT <= u16::MAX
        &&& self.item_count == 0 ==> self.selected_conversation == 0
        &&& self.item_count > 0 ==> self.selected_conversation < self.item_count
        &&& self.scroll_offset <= self.item_count * ITEM_HEIGHT
        &&& self.scroll_offset % ITEM_HEIGHT == 0
    }

    /// A fresh list state: empty, at the top, nothing selected.
    pub fn new() -> (s: ChatItemListScrollProps)
        ensures
            s.wf(),
            s.item_count == 0,
            s.scroll_offset == 0,
            s.show_chat_item_area_height == 0,
            s.selected_conversation == 0,
    {
        ChatItemListScrollProps {
            item_count: 0,
            scroll_offset: 0,
            show_chat_item_area_height: 0,
            selected_conversation: 0,
        }
    }

    /// Record the list's current size and the visible height, clamping the
    /// selection and the scroll offset into the new bounds.
    pub fn rebuild(&mut self, item_count: usize, area_height: u16)
        requires
            old(self).wf(),
            item_count * ITEM_HEIGHT <= u16::MAX,
        ensures
            final(self).wf(),
            final(self).item_count == item_count,
            final(self).show_chat_item_area_height == area_height,
            final(self).selected_conversation == if item_count == 0 {
                0
            } else if old(self).selected_conversation < item_count {
                old(self).selected_conversation as int
            } else {
                item_count - 1
            },
            final(self).scroll_offset == if old(self).scroll_offset <= item_count * ITEM_HEIGHT {
                old(self).scroll_offset as int
            } else {
                item_count * ITEM_HEIGHT
            },
    {
        self.item_count = item_count;
        self.show_chat_item_area_height = area_height;
        if item_count == 0 {
            self.selected_conversation = 0;
        } else if self.selected_conversation >= item_count {
            self.selected_conversation = item_count - 1;
        }
        let rows = (item_count as u16) * ITEM_HEIGHT;
        if self.scroll_offset > rows {
            self.scroll_offset = rows;
        }
    }

    /// Select the next conversation; when its rows would fall below the
    /// visible window, scroll one item further down.
    pub fn next_item(&mut self)
        requires
            old(self).wf(),
        ensures
            final(self).wf(),
            final(self).item_count == old(self).item_count,
            final(self).show_chat_item_area_height == old(self).show_chat_item_area_height,
            old(self).item_count > 0 && old(self).selected_conversation + 1 < old(self).item_count ==> {
                &&& final(self).selected_conversation == old(self).selected_conversation + 1
                &&& final(self).scroll_offset == if (old(self).selected_conversation + 2)
                    * ITEM_HEIGHT > old(self).show_chat_item_area_height + old(self).scroll_offset {
                    old(self).scroll_offset + ITEM_HEIGHT
                } else {
                    old(self).scroll_offset as int
                }
            },
            !(old(self).item_count > 0 && old(self).selected_conversation + 1 < old(self).item_count) ==> final(self).selected_conversation == old(self).selected_conversation && final(self).scroll_offset == old(self).scroll_offset,
    {
        if self.item_count > 0 && self.selected_conversation + 1 < self.item_count {
            self.selected_conversation = self.selected_conversation + 1;
            let current_height = (self.selected_conversation + 1) * (ITEM_HEIGHT as usize);
            if current_height > (self.show_chat_item_area_height as usize) + (
            self.scroll_offset as usize) {
                proof {
                    // The offset is a multiple of the item height and lies
                    // strictly below the selected item's bottom row, so one
                    // more item still fits under the list's row bound.
                    assert(self.scroll_offset + ITEM_HEIGHT <= (self.selected_conversation + 1)
                        * ITEM_HEIGHT) by (nonlinear_arith)
                        requires
                            self.scroll_offset % ITEM_HEIGHT == 0,
                            (self.scroll_offset as int) < (self.selected_conversation + 1)
                                * ITEM_HEIGHT,
                            ITEM_HEIGHT == 3,
                    {
                    }
                    assert((self.selected_conversation + 1) * ITEM_HEIGHT <= self.item_count
                        * ITEM_HEIGHT) by (nonlinear_arith)
                        requires
                            self.selected_conversation + 1 <= self.item_count,
                            ITEM_HEIGHT == 3,
                    {
                    }
                }
                self.scroll_offset = self.scroll_offset + ITEM_HEIGHT;
            }
        }
    }

    /// Select the previous conversation; when its rows would rise above the
    /// visible window, scroll one item back up.
    pub fn prev_item(&mut self)
        requires
            old(self).wf(),
        ensures
            final(self).wf(),
            final(self).item_count == old(self).item_count,
            final(self).show_chat_item_area_height == old(self).show_chat_item_area_height,
            old(self).selected_conversation > 0 ==> {
                &&& final(self).selected_conversation == old(self).selected_conversation - 1
                &&& final(self).scroll_offset == if old(self).selected_conversation * ITEM_HEIGHT
                    <= old(self).scroll_offset {
                    old(self).scroll_offset - ITEM_HEIGHT
                } else {
                    old(self).scroll_offset as int
                }
            },
            old(self).selected_conversation == 0 ==> final(self).selected_conversation == 0
                && final(self).scroll_offset == old(self).scroll_offset,
    {
        if self.selected_conversation > 0 {
            self.selected_conversation = self.selected_conversation - 1;
            let current_height = (self.selected_conversation + 1) * (ITEM_HEIGHT as usize);
            if current_height <= self.scroll_offset as usize {
                self.scroll_offset = self.scroll_offset - ITEM_HEIGHT;
            }
        }
    }

    /// Drop the selected conversation from the list and step the selection
    /// back, telling the caller whether there was one to delete.  The
    /// caller removes the conversation itself from its store.
    pub fn delete_item(&mut self) -> (deleted: bool)
        requires
            old(self).wf(),
        ensures
            final(self).wf(),
            final(self).show_chat_item_area_height == old(self).show_chat_item_area_height,
            deleted <==> old(self).item_count > 0,
            deleted ==> final(self).item_count == old(self).item_count - 1,
            deleted ==> final(self).selected_conversation == if old(self).selected_conversation
                > 0 {
                old(self).selected_conversation - 1
            } else {
                0
            },
            deleted ==> final(self).scroll_offset == {
                let mid = if old(self).selected_conversation > 0 && old(
                    self,
                ).selected_conversation * ITEM_HEIGHT <= old(self).scroll_offset {
                    old(self).scroll_offset - ITEM_HEIGHT
                } else {
                    old(self).scroll_offset as int
                };
                if mid <= (old(self).item_count - 1) * ITEM_HEIGHT {
                    mid
                } else {
                    (old(self).item_count - 1) * ITEM_HEIGHT
                }
            },
            !deleted ==> final(self).item_count == old(self).item_count && final(self).selected_conversation == old(self).selected_conversation && final(self).scroll_offset == old(self).scroll_offset,
    {
        if self.item_count > 0 {
            self.prev_item();
            self.item_count = self.item_count - 1;
            if self.item_count == 0 {
                self.selected_conversation = 0;
            }
            let rows = (self.item_count as u16) * ITEM_HEIGHT;
            if self.scroll_offset > rows {
                self.scroll_offset = rows;
            }
            true
        } else {
            false
        }
    }
}

} // verus!
