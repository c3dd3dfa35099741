//! The off-screen render surface: entries are laid out top-to-bottom with no
//! gaps into a conceptually unbounded grid of text rows, and the window
//! selected by the scroll offset is extracted with every out-of-bounds cell
//! read as blank.

use vstd::prelude::*;

use crate::chat::{msg_height, total_height_of, ChatMessage, Sender};
use crate::width::{chars_vec, string_of, MAX_CONTENT_LEN};
use crate::wrap::{compute_wrap, wrap_lines};

verus! {

/// Text shown on an entry's header row: who sent the message.
pub open spec fn sender_label(s: Sender) -> Seq<char> {
    match s {
        Sender::User(_) => "User"@,
        Sender::Bot => "Bot"@,
        Sender::Never => Seq::empty(),
    }
}

/// The text rows of one entry: a header row naming the sender, the wrapped
/// message lines, a border row carrying no text, and the timestamp row.  A
/// `Never` entry contributes nothing.
pub open spec fn entry_rows(m: ChatMessage, w: int) -> Seq<Seq<char>> {
    if m.sender is Never {
        Seq::empty()
    } else {
        seq![sender_label(m.sender)] + wrap_lines(m.message@, w) + seq![
            Seq::<char>::empty(),
            m.date_time@,
        ]
    }
}

/// All entries' rows, laid out top-to-bottom with no gaps.
pub open spec fn compose_rows(msgs: Seq<ChatMessage>, w: int) -> Seq<Seq<char>>
    decreases msgs.len(),
{
    if msgs.len() == 0 {
        Seq::empty()
    } else {
        compose_rows(msgs.drop_last(), w) + entry_rows(msgs.last(), w)
    }
}

/// The laid-out surface is exactly as tall as the sum of the entry heights.
pub proof fn lemma_compose_height(msgs: Seq<ChatMessage>, w: int)
    ensures
        compose_rows(msgs, w).len() == total_height_of(msgs, w),
    decreases msgs.len(),
{
    if msgs.len() > 0 {
        lemma_compose_height(msgs.drop_last(), w);
    }
}

/// Lay the entries out into the off-screen surface.  The surface is at
/// least `visible_height` rows tall: rows below the content are blank.
pub fn compose(history: &Vec<ChatMessage>, width: usize, visible_height: usize) -> (grid: Vec<
    Vec<char>,
>)
    requires
        forall|i: int|
            0 <= i < history@.len() ==> (#[trigger] history@[i]).message@.len()
                <= MAX_CONTENT_LEN,
    ensures
        grid@.len() == if compose_rows(history@, width as int).len() >= visible_height {
            compose_rows(history@, width as int).len() as int
        } else {
            visible_height as int
        },
        forall|j: int|
            0 <= j < compose_rows(history@, width as int).len() ==> grid.deep_view()[j]
                == compose_rows(history@, width as int)[j],
        forall|j: int|
            compose_rows(history@, width as int).len() <= j < grid@.len()
                ==> grid.deep_view()[j] == Seq::<char>::empty(),
{
    let ghost msgs = history@;
    let ghost w = width as int;
    let mut grid: Vec<Vec<char>> = Vec::new();
    let mut i: usize = 0;
    proof {
        assert(grid.deep_view() =~~= compose_rows(msgs.take(0), w));
    }
    while i < history.len()
        invariant
            0 <= i <= msgs.len(),
            msgs == history@,
            w == width as int,
            forall|j: int|
                0 <= j < msgs.len() ==> (#[trigger] msgs[j]).message@.len() <= MAX_CONTENT_LEN,
            grid.deep_view() == compose_rows(msgs.take(i as int), w),
        decreases msgs.len() - i,
    {
        let ghost base = grid.deep_view();
        proof {
            assert(msgs.take(i + 1).drop_last() =~= msgs.take(i as int));
            assert(msgs.take(i + 1).last() == msgs[i as int]);
        }
        let is_never = match &history[i].sender {
            Sender::Never => true,
            _ => false,
        };
        if is_never {
            proof {
                assert(entry_rows(msgs[i as int], w) =~= Seq::<Seq<char>>::empty());
                assert(grid.deep_view() =~~= compose_rows(msgs.take(i + 1), w));
            }
        } else {
            let label = match &history[i].sender {
                Sender::User(_) => "User",
                _ => "Bot",
            };
            let lv = chars_vec(label);
            proof {
                assert(lv@ == sender_label(msgs[i as int].sender));
            }
            grid.push(lv);
            proof {
                assert(grid.deep_view() =~~= base + seq![sender_label(msgs[i as int].sender)]);
            }
            let v = chars_vec(history[i].message.as_str());
            let mut ls = compute_wrap(&v, width);
            let ghost lsdv = ls.deep_view();
            let ghost head = base + seq![sender_label(msgs[i as int].sender)];
            let ghost mut consumed: int = 0;
            proof {
                assert(lsdv.skip(0) =~~= lsdv);
                assert(head + lsdv.take(0) =~~= head);
            }
            while ls.len() > 0
                invariant
                    0 <= consumed <= lsdv.len(),
                    lsdv.len() == ls@.len() + consumed,
                    ls.deep_view() == lsdv.skip(consumed),
                    grid.deep_view() == head + lsdv.take(consumed),
                decreases lsdv.len() - consumed,
            {
                let ghost prevv = ls@;
                let ghost prev_dv = ls.deep_view();
                let ghost gbase = grid.deep_view();
                let row = ls.remove(0);
                let ghost rowv = row.deep_view();
                grid.push(row);
                proof {
                    assert(rowv == prevv[0].deep_view());
                    assert(prev_dv[0] == prevv[0].deep_view());
                    assert(prev_dv[0] == lsdv.skip(consumed)[0]);
                    assert(lsdv.skip(consumed)[0] == lsdv[consumed]);
                    assert forall|m: int| 0 <= m < ls@.len() implies #[trigger] ls.deep_view()[m]
                        == lsdv.skip(consumed + 1)[m] by {
                        assert(ls@[m] == prevv[m + 1]);
                        assert(prev_dv[m + 1] == prevv[m + 1].deep_view());
                        assert(prev_dv[m + 1] == lsdv.skip(consumed)[m + 1]);
                    }
                    assert(ls.deep_view() =~~= lsdv.skip(consumed + 1));
                    assert(grid.deep_view() =~~= gbase.push(rowv));
                    assert(gbase.push(rowv) =~~= head + lsdv.take(consumed + 1));
                    consumed = consumed + 1;
                }
            }
            let ghost g1 = grid.deep_view();
            grid.push(Vec::new());
            let dv = chars_vec(history[i].date_time.as_str());
            proof {
                assert(dv@ == msgs[i as int].date_time@);
            }
            grid.push(dv);
            proof {
                assert(lsdv.take(lsdv.len() as int) =~~= lsdv);
                assert(lsdv == wrap_lines(msgs[i as int].message@, w));
                assert(grid.deep_view() =~~= g1 + seq![
                    Seq::<char>::empty(),
                    msgs[i as int].date_time@,
                ]);
                assert(grid.deep_view() =~~= base + entry_rows(msgs[i as int], w));
                assert(grid.deep_view() =~~= compose_rows(msgs.take(i + 1), w));
            }
        }
        i = i + 1;
    }
    proof {
        assert(msgs.take(msgs.len() as int) =~= msgs);
        assert(grid.deep_view() == compose_rows(msgs, w));
        assert(grid@.len() == grid.deep_view().len());
    }
    while grid.len() < visible_height
        invariant
            msgs == history@,
            w == width as int,
            grid@.len() >= compose_rows(msgs, w).len(),
            compose_rows(msgs, w).len() >= visible_height ==> grid@.len() == compose_rows(
                msgs,
                w,
            ).len(),
            compose_rows(msgs, w).len() < visible_height ==> grid@.len() <= visible_height,
            forall|j: int|
                0 <= j < compose_rows(msgs, w).len() ==> grid.deep_view()[j] == compose_rows(
                    msgs,
                    w,
                )[j],
            forall|j: int|
                compose_rows(msgs, w).len() <= j < grid@.len() ==> grid.deep_view()[j]
                    == Seq::<char>::empty(),
        decreases visible_height - grid@.len(),
    {
        let ghost gprev = grid.deep_view();
        let ghost gv = grid@;
        grid.push(Vec::new());
        proof {
            assert forall|j: int| 0 <= j < compose_rows(msgs, w).len() implies grid.deep_view()[j]
                == compose_rows(msgs, w)[j] by {
                assert(grid@[j] == gv[j]);
                assert(grid.deep_view()[j] == grid@[j].deep_view());
                assert(gprev[j] == gv[j].deep_view());
            }
            assert forall|j: int|
                compose_rows(msgs, w).len() <= j < grid@.len() implies grid.deep_view()[j]
                == Seq::<char>::empty() by {
                if j < gprev.len() {
                    assert(grid@[j] == gv[j]);
                    assert(grid.deep_view()[j] == grid@[j].deep_view());
                    assert(gprev[j] == gv[j].deep_view());
                } else {
                    assert(j == gprev.len());
                    assert(grid.deep_view()[j] =~= Seq::<char>::empty());
                }
            }
        }
    }
    grid
}

/// A blank row of `w` cells.
pub open spec fn blank_row(w: nat) -> Seq<char> {
    Seq::new(w, |i: int| ' ')
}

/// A surface row fitted to the window width: truncated when too long,
/// padded with blanks when too short.
pub open spec fn pad_row(row: Seq<char>, w: nat) -> Seq<char> {
    if row.len() >= w {
        row.take(w as int)
    } else {
        row + Seq::new((w - row.len()) as nat, |i: int| ' ')
    }
}

/// Extract the `count` window rows starting `offset` rows down the surface,
/// each fitted to `width` cells.  A row addressed below the surface is
/// blank: the defensive clamp, not an error.
pub fn extract_window(grid: &Vec<Vec<char>>, offset: usize, count: usize, width: usize) -> (win:
    Vec<Vec<char>>)
    requires
        offset + count <= usize::MAX,
    ensures
        win@.len() == count,
        forall|j: int|
            0 <= j < count ==> win.deep_view()[j] == if offset + j < grid@.len() {
                pad_row(grid.deep_view()[offset + j], width as nat)
            } else {
                blank_row(width as nat)
            },
{
    let mut win: Vec<Vec<char>> = Vec::new();
    let mut j: usize = 0;
    while j < count
        invariant
            0 <= j <= count,
            offset + count <= usize::MAX,
            win@.len() == j,
            forall|m: int|
                0 <= m < j ==> win.deep_view()[m] == if offset + m < grid@.len() {
                    pad_row(grid.deep_view()[offset + m], width as nat)
                } else {
                    blank_row(width as nat)
                },
        decreases count - j,
    {
        let mut row: Vec<char> = Vec::new();
        if offset + j < grid.len() {
            let src = &grid[offset + j];
            let mut x: usize = 0;
            while x < width
                invariant
                    0 <= x <= width,
                    row@.len() == x,
                    forall|m: int|
                        0 <= m < x ==> row@[m] == if m < src@.len() {
                            src@[m]
                        } else {
                            ' '
                        },
                decreases width - x,
            {
                if x < src.len() {
                    row.push(src[x]);
                } else {
                    row.push(' ');
                }
                x = x + 1;
            }
            proof {
                assert(grid.deep_view()[offset + j] =~= src@);
                assert(row@ =~= pad_row(grid.deep_view()[offset + j as int], width as nat));
                assert(row@ == pad_row(grid.deep_view()[offset + j as int], width as nat));
            }
        } else {
            let mut x: usize = 0;
            while x < width
                invariant
                    0 <= x <= width,
                    row@.len() == x,
                    forall|m: int| 0 <= m < x ==> row@[m] == ' ',
                decreases width - x,
            {
                row.push(' ');
                x = x + 1;
            }
            proof {
                assert(row@ =~= blank_row(width as nat));
                assert(row@ == blank_row(width as nat));
            }
        }
        let ghost rowv = row@;
        let ghost rowvec = row;
        let ghost wprev = win.deep_view();
        let ghost wv = win@;
        win.push(row);
        proof {
            assert(win@[j as int] == rowvec);
            assert(win.deep_view()[j as int] == rowvec.deep_view());
            assert(rowvec.deep_view() =~= rowv);
            assert forall|m: int| 0 <= m < j + 1 implies win.deep_view()[m] == (if offset + m
                < grid@.len() {
                pad_row(grid.deep_view()[offset + m], width as nat)
            } else {
                blank_row(width as nat)
            }) by {
                if m < j {
                    assert(win@[m] == wv[m]);
                    assert(win.deep_view()[m] == win@[m].deep_view());
                    assert(wprev[m] == wv[m].deep_view());
                } else {
                    assert(win.deep_view()[m] == rowv);
                }
            }
        }
        j = j + 1;
    }
    win
}

/// Wrap a message for display: its wrapped lines as strings.
pub fn wrap_message(message: &String, width: usize) -> (r: Vec<String>)
    requires
        message@.len() <= MAX_CONTENT_LEN,
    ensures
        r.deep_view() == wrap_lines(message@, width as int),
{
    let v = chars_vec(message.as_str());
    let lines = compute_wrap(&v, width);
    let mut out: Vec<String> = Vec::new();
    let mut i: usize = 0;
    while i < lines.len()
        invariant
            0 <= i <= lines@.len(),
            out@.len() == i,
            forall|j: int| 0 <= j < i ==> out.deep_view()[j] == lines.deep_view()[j],
        decreases lines@.len() - i,
    {
        let s = string_of(&lines[i]);
        proof {
            assert(lines.deep_view()[i as int] =~= lines@[i as int]@);
        }
        out.push(s);
        i = i + 1;
    }
    proof {
        assert(out.deep_view() =~~= lines.deep_view());
    }
    out
}

} // verus!
