//! Greedy soft-wrapping of character sequences into display-width-bounded
//! lines.  A hard newline always starts a new wrapped line; a character that
//! would overflow the current line is pushed whole onto the next line, except
//! that a line always accepts at least one character so that wrapping is
//! total even for widths smaller than a single character.

use vstd::prelude::*;

use crate::width::{c_len, char_width, push_char, str_width, lemma_str_width_le,
    MAX_CONTENT_LEN};

verus! {

/// One step of the wrap scan: fold the next character into the state
/// `(closed lines, current line)`.
pub open spec fn wrap_step(
    st: (Seq<Seq<char>>, Seq<char>),
    c: char,
    w: int,
) -> (Seq<Seq<char>>, Seq<char>) {
    if c == '\n' {
        (st.0.push(st.1), Seq::empty())
    } else if st.1.len() > 0 && str_width(st.1) + char_width(c) > w {
        (st.0.push(st.1), seq![c])
    } else {
        (st.0, st.1.push(c))
    }
}

/// State of the wrap scan after consuming all of `s`: the fully closed lines
/// and the still-open current line.
pub open spec fn wrap_accum(s: Seq<char>, w: int) -> (Seq<Seq<char>>, Seq<char>)
    decreases s.len(),
{
    if s.len() == 0 {
        (Seq::empty(), Seq::empty())
    } else {
        wrap_step(wrap_accum(s.drop_last(), w), s.last(), w)
    }
}

/// The wrapped lines of `s` at width `w`: the closed lines followed by the
/// final open line.  Always non-empty; empty content yields one empty line.
pub open spec fn wrap_lines(s: Seq<char>, w: int) -> Seq<Seq<char>> {
    wrap_accum(s, w).0.push(wrap_accum(s, w).1)
}

/// The characters standing before the cursor on the cursor's own wrapped
/// line, for a cursor at character index `k`.
pub open spec fn line_prefix(s: Seq<char>, w: int, k: int) -> Seq<char> {
    wrap_accum(s.take(k), w).1
}

/// Wrapped-line row containing a cursor at character index `k`.
pub open spec fn cursor_row(s: Seq<char>, w: int, k: int) -> int {
    wrap_accum(s.take(k), w).0.len() as int
}

/// Display column of a cursor at character index `k`: the width of the
/// characters before it on its wrapped line.
pub open spec fn cursor_col(s: Seq<char>, w: int, k: int) -> int {
    str_width(line_prefix(s, w, k)) as int
}

/// Unfolds the wrap scan by one character of the prefix.
pub proof fn lemma_wrap_accum_succ(s: Seq<char>, w: int, i: int)
    requires
        0 <= i < s.len(),
    ensures
        wrap_accum(s.take(i + 1), w) == wrap_step(wrap_accum(s.take(i), w), s[i], w),
{
    assert(s.take(i + 1).drop_last() =~= s.take(i));
    assert(s.take(i + 1).last() == s[i]);
}

/// The open line of the wrap scan is never longer than the scanned prefix.
pub proof fn lemma_wrap_accum_cur_len(s: Seq<char>, w: int)
    ensures
        wrap_accum(s, w).1.len() <= s.len(),
        wrap_accum(s, w).0.len() <= s.len(),
    decreases s.len(),
{
    if s.len() > 0 {
        lemma_wrap_accum_cur_len(s.drop_last(), w);
    }
}

/// Every wrapped line consists of characters drawn from the wrapped text, so
/// none is longer than the text itself.
pub proof fn lemma_wrap_line_len(s: Seq<char>, w: int)
    ensures
        forall|i: int|
            0 <= i < wrap_lines(s, w).len() ==> (#[trigger] wrap_lines(s, w)[i]).len() <= s.len(),
{
    assert forall|i: int| 0 <= i < wrap_lines(s, w).len() implies (#[trigger] wrap_lines(s, w)[i]).len()
        <= s.len() by {
        lemma_wrap_accum_line_len(s, w, i);
    }
}

proof fn lemma_wrap_accum_line_len(s: Seq<char>, w: int, i: int)
    requires
        0 <= i < wrap_lines(s, w).len(),
    ensures
        wrap_lines(s, w)[i].len() <= s.len(),
    decreases s.len(),
{
    lemma_wrap_accum_cur_len(s, w);
    let st = wrap_accum(s, w);
    if i == st.0.len() {
        assert(wrap_lines(s, w)[i] == st.1);
    } else {
        assert(wrap_lines(s, w)[i] == st.0[i]);
        if s.len() > 0 {
            let pre = wrap_accum(s.drop_last(), w);
            lemma_wrap_accum_cur_len(s.drop_last(), w);
            if i < pre.0.len() {
                lemma_wrap_accum_line_len(s.drop_last(), w, i);
                assert(wrap_lines(s.drop_last(), w)[i] == pre.0[i]);
                assert(st.0[i] == pre.0[i]);
            } else {
                assert(st.0[i] == pre.1);
            }
        }
    }
}

/// A wrapped line obeys the width bound, or holds one single character whose
/// own width exceeds the bound.
pub open spec fn line_ok(l: Seq<char>, w: int) -> bool {
    str_width(l) <= w || l.len() == 1
}

proof fn lemma_wrap_accum_ok(s: Seq<char>, w: int)
    requires
        w >= 0,
    ensures
        forall|i: int|
            0 <= i < wrap_accum(s, w).0.len() ==> line_ok(#[trigger] wrap_accum(s, w).0[i], w),
        line_ok(wrap_accum(s, w).1, w),
    decreases s.len(),
{
    if s.len() == 0 {
    } else {
        lemma_wrap_accum_ok(s.drop_last(), w);
        let st = wrap_accum(s.drop_last(), w);
        let post = wrap_accum(s, w);
        let c = s.last();
        if c == '\n' {
            assert forall|i: int| 0 <= i < post.0.len() implies line_ok(#[trigger] post.0[i], w)
            by {
                if i < st.0.len() {
                    assert(post.0[i] == st.0[i]);
                } else {
                    assert(post.0[i] == st.1);
                }
            }
        } else if st.1.len() > 0 && str_width(st.1) + char_width(c) > w {
            assert forall|i: int| 0 <= i < post.0.len() implies line_ok(#[trigger] post.0[i], w)
            by {
                if i < st.0.len() {
                    assert(post.0[i] == st.0[i]);
                } else {
                    assert(post.0[i] == st.1);
                }
            }
            assert(post.1 == seq![c]);
            assert(post.1.len() == 1);
        } else {
            assert(post.0 == st.0);
            if st.1.len() == 0 {
                assert(post.1.len() == 1);
            } else {
                assert(str_width(st.1.push(c)) == str_width(st.1) + char_width(c)) by {
                    assert(st.1.push(c).drop_last() =~= st.1);
                }
            }
        }
    }
}

/// No wrapped line exceeds the width, except a line holding one single
/// character whose own width exceeds it.
pub proof fn lemma_wrap_width_bound(s: Seq<char>, w: int)
    requires
        w >= 0,
    ensures
        forall|i: int|
            0 <= i < wrap_lines(s, w).len() ==> line_ok(#[trigger] wrap_lines(s, w)[i], w),
{
    lemma_wrap_accum_ok(s, w);
    let st = wrap_accum(s, w);
    assert forall|i: int| 0 <= i < wrap_lines(s, w).len() implies line_ok(
        #[trigger] wrap_lines(s, w)[i],
        w,
    ) by {
        if i < st.0.len() {
            assert(wrap_lines(s, w)[i] == st.0[i]);
        } else {
            assert(wrap_lines(s, w)[i] == st.1);
        }
    }
}

/// Wrap the characters of `v` at width `w` into lines.
pub fn compute_wrap(v: &Vec<char>, w: usize) -> (lines: Vec<Vec<char>>)
    requires
        v@.len() <= MAX_CONTENT_LEN,
    ensures
        lines.deep_view() == wrap_lines(v@, w as int),
        lines@.len() >= 1,
{
    let ghost s = v@;
    let mut lines: Vec<Vec<char>> = Vec::new();
    let mut cur: Vec<char> = Vec::new();
    let mut cur_w: usize = 0;
    let mut i: usize = 0;
    while i < v.len()
        invariant
            0 <= i <= s.len() <= MAX_CONTENT_LEN,
            s == v@,
            lines.deep_view() == wrap_accum(s.take(i as int), w as int).0,
            cur@ == wrap_accum(s.take(i as int), w as int).1,
            cur@.len() <= i,
            cur_w == str_width(cur@),
        decreases s.len() - i,
    {
        let c = v[i];
        proof {
            lemma_wrap_accum_succ(s, w as int, i as int);
            lemma_str_width_le(cur@);
        }
        let cw = c_len(c);
        if c == '\n' {
            lines.push(cur);
            cur = Vec::new();
            cur_w = 0;
            proof {
                assert(lines.deep_view() =~~= wrap_accum(s.take(i + 1), w as int).0);
            }
        } else if cur.len() > 0 && cur_w + cw > w {
            lines.push(cur);
            cur = Vec::new();
            cur.push(c);
            cur_w = cw;
            proof {
                assert(lines.deep_view() =~~= wrap_accum(s.take(i + 1), w as int).0);
                assert(cur@ =~= wrap_accum(s.take(i + 1), w as int).1);
                assert(cur@.len() == 1);
                assert(cur@.drop_last() =~= Seq::<char>::empty());
                assert(str_width(cur@.drop_last()) == 0);
                assert(cur@.last() == c);
                assert(str_width(cur@) == char_width(c));
            }
        } else {
            cur.push(c);
            cur_w = cur_w + cw;
            proof {
                assert(cur@ =~= wrap_accum(s.take(i + 1), w as int).1);
                assert(str_width(cur@) == str_width(cur@.drop_last()) + char_width(c));
                assert(cur@.drop_last() =~= wrap_accum(s.take(i as int), w as int).1);
            }
        }
        i = i + 1;
    }
    proof {
        assert(s.take(s.len() as int) =~= s);
    }
    lines.push(cur);
    proof {
        assert(lines.deep_view() =~~= wrap_lines(s, w as int));
    }
    lines
}

/// A cursor at character index `k` lies on a real wrapped line: the lines
/// closed by the scan of the prefix are exactly the first rows of the final
/// wrap, the cursor's row exists, and the characters before the cursor on its
/// line are a prefix of that final row.  In particular the cursor's display
/// column equals the width of the characters standing before it on its own
/// wrapped line.
pub proof fn lemma_cursor_in_wrap(s: Seq<char>, w: int, k: int)
    requires
        0 <= k <= s.len(),
    ensures
        wrap_accum(s.take(k), w).0 == wrap_lines(s, w).take(cursor_row(s, w, k)),
        0 <= cursor_row(s, w, k) < wrap_lines(s, w).len(),
        line_prefix(s, w, k).len() <= wrap_lines(s, w)[cursor_row(s, w, k)].len(),
        line_prefix(s, w, k) == wrap_lines(s, w)[cursor_row(s, w, k)].take(
            line_prefix(s, w, k).len() as int,
        ),
        cursor_col(s, w, k) == str_width(line_prefix(s, w, k)),
    decreases s.len() - k,
{
    let lines = wrap_lines(s, w);
    let stk = wrap_accum(s.take(k), w);
    let n = stk.0.len() as int;
    if k == s.len() {
        assert(s.take(k) =~= s);
        assert(stk.0 =~= lines.take(n));
        assert(stk.1 =~= lines[n].take(stk.1.len() as int));
    } else {
        lemma_cursor_in_wrap(s, w, k + 1);
        lemma_wrap_accum_succ(s, w, k);
        let stk1 = wrap_accum(s.take(k + 1), w);
        let c = s[k];
        if c == '\n' || (stk.1.len() > 0 && str_width(stk.1) + char_width(c) > w) {
            // The scan closes the current line: it becomes row `n` of the wrap.
            assert(stk1.0 == stk.0.push(stk.1));
            assert(stk1.0 == lines.take(n + 1));
            assert(stk.0 =~= lines.take(n));
            assert(stk.1 == lines.take(n + 1)[n]);
            assert(stk.1 == lines[n]);
            assert(stk.1 =~= lines[n].take(stk.1.len() as int));
        } else {
            // The character joins the current line, which stays open.
            assert(stk1.0 == stk.0);
            assert(stk1.1 == stk.1.push(c));
            assert(stk1.1 == lines[n].take(stk1.1.len() as int));
            assert(stk.1 =~= lines[n].take(stk.1.len() as int)) by {
                assert(forall|j: int|
                    0 <= j < stk.1.len() ==> stk.1[j] == #[trigger] stk1.1[j]);
            }
        }
    }
}

/// Row and column of a cursor at character index `k` in the wrap of `v` at
/// width `w`.
pub fn cursor_pos(v: &Vec<char>, w: usize, k: usize) -> (pos: (usize, usize))
    requires
        v@.len() <= MAX_CONTENT_LEN,
        k <= v@.len(),
    ensures
        pos.0 == cursor_row(v@, w as int, k as int),
        pos.1 == cursor_col(v@, w as int, k as int),
{
    let ghost s = v@;
    let mut rows: usize = 0;
    let mut cur_w: usize = 0;
    let mut cur_len: usize = 0;
    let mut j: usize = 0;
    while j < k
        invariant
            0 <= j <= k <= s.len() <= MAX_CONTENT_LEN,
            s == v@,
            rows == wrap_accum(s.take(j as int), w as int).0.len(),
            cur_len == wrap_accum(s.take(j as int), w as int).1.len(),
            cur_w == str_width(wrap_accum(s.take(j as int), w as int).1),
            cur_len <= j,
            rows <= j,
        decreases k - j,
    {
        let c = v[j];
        proof {
            lemma_wrap_accum_succ(s, w as int, j as int);
            lemma_str_width_le(wrap_accum(s.take(j as int), w as int).1);
        }
        let cw = c_len(c);
        if c == '\n' {
            rows = rows + 1;
            cur_w = 0;
            cur_len = 0;
        } else if cur_len > 0 && cur_w + cw > w {
            rows = rows + 1;
            cur_w = cw;
            cur_len = 1;
            proof {
                let post = wrap_accum(s.take(j + 1), w as int);
                assert(post.1 == seq![c]);
                assert(post.1.len() == 1);
                assert(post.1.drop_last() =~= Seq::<char>::empty());
                assert(str_width(post.1.drop_last()) == 0);
                assert(post.1.last() == c);
                assert(str_width(post.1) == char_width(c));
            }
        } else {
            proof {
                let prev = wrap_accum(s.take(j as int), w as int).1;
                assert(prev.push(c).drop_last() =~= prev);
                assert(str_width(prev.push(c)) == str_width(prev) + char_width(c));
            }
            cur_w = cur_w + cw;
            cur_len = cur_len + 1;
        }
        j = j + 1;
    }
    (rows, cur_w)
}

/// The wrapped text joined back together with newlines between the lines.
pub open spec fn join_lines(ls: Seq<Seq<char>>) -> Seq<char>
    decreases ls.len(),
{
    if ls.len() == 0 {
        Seq::empty()
    } else if ls.len() == 1 {
        ls[0]
    } else {
        join_lines(ls.drop_last()) + seq!['\n'] + ls.last()
    }
}

/// Join wrapped lines into one `String`, separating them with newlines.
pub fn join_string(lines: &Vec<Vec<char>>) -> (s: String)
    ensures
        s@ == join_lines(lines.deep_view()),
{
    let ghost dv = lines.deep_view();
    let mut s = String::new();
    let mut i: usize = 0;
    while i < lines.len()
        invariant
            0 <= i <= dv.len(),
            dv == lines.deep_view(),
            dv.len() == lines@.len(),
            s@ == join_lines(dv.take(i as int)),
        decreases dv.len() - i,
    {
        if i > 0 {
            push_char(&mut s, '\n');
        }
        let ghost base = s@;
        let line = &lines[i];
        proof {
            assert(dv[i as int] =~= line@);
        }
        let mut m: usize = 0;
        while m < line.len()
            invariant
                0 <= m <= line@.len(),
                dv[i as int] == line@,
                s@ == base + line@.take(m as int),
            decreases line@.len() - m,
        {
            push_char(&mut s, line[m]);
            proof {
                assert(base + line@.take(m + 1) =~= (base + line@.take(m as int)).push(
                    line@[m as int],
                ));
            }
            m = m + 1;
        }
        proof {
            assert(line@.take(line@.len() as int) =~= line@);
            assert(dv.take(i + 1).drop_last() =~= dv.take(i as int));
            if i == 0 {
                assert(join_lines(dv.take(1)) == dv.take(1)[0]);
                assert(s@ =~= dv[0]);
                assert(dv.take(1)[0] == dv[0]);
            } else {
                assert(join_lines(dv.take(i + 1)) == join_lines(dv.take(i as int)) + seq!['\n']
                    + dv.take(i + 1).last());
                assert(s@ =~= join_lines(dv.take(i as int)) + seq!['\n'] + dv[i as int]);
                assert(dv.take(i + 1).last() == dv[i as int]);
            }
        }
        i = i + 1;
    }
    proof {
        assert(dv.take(dv.len() as int) =~= dv);
    }
    s
}

} // verus!
