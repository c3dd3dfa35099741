//! Display-width accounting: every column computation in the crate goes
//! through `char_width` / `str_width` and their executable counterparts.

use vstd::prelude::*;

verus! {

/// Upper bound on the number of characters a buffer may hold.  Keeping the
/// character count below a quarter of the smallest possible `usize::MAX`
/// guarantees that width sums (at most 2 cells per character) and UTF-8 byte
/// offsets (at most 4 bytes per character) fit in a `usize` on every target.
pub const MAX_CONTENT_LEN: usize = 0x3fff_ffff;

/// Number of terminal cells one character occupies: newline and NUL take no
/// cell, other ASCII characters take one, everything else is treated as wide.
pub open spec fn char_width(c: char) -> nat {
    if c == '\n' || c == '\0' {
        0
    } else if (c as u32) < 128 {
        1
    } else {
        2
    }
}

/// Total display width of a sequence of characters.
pub open spec fn str_width(s: Seq<char>) -> nat
    decreases s.len(),
{
    if s.len() == 0 {
        0
    } else {
        str_width(s.drop_last()) + char_width(s.last())
    }
}

/// Width is additive over concatenation.
pub proof fn lemma_str_width_concat(a: Seq<char>, b: Seq<char>)
    ensures
        str_width(a + b) == str_width(a) + str_width(b),
    decreases b.len(),
{
    if b.len() == 0 {
        assert(a + b =~= a);
    } else {
        lemma_str_width_concat(a, b.drop_last());
        assert((a + b).drop_last() =~= a + b.drop_last());
        assert((a + b).last() == b.last());
    }
}

/// A sequence of `n` characters is at most `2 * n` cells wide.
pub proof fn lemma_str_width_le(s: Seq<char>)
    ensures
        str_width(s) <= 2 * s.len(),
    decreases s.len(),
{
    if s.len() > 0 {
        lemma_str_width_le(s.drop_last());
    }
}

/// Extending a prefix by one character adds that character's width.
pub proof fn lemma_str_width_take_succ(s: Seq<char>, i: int)
    requires
        0 <= i < s.len(),
    ensures
        str_width(s.take(i + 1)) == str_width(s.take(i)) + char_width(s[i]),
{
    assert(s.take(i + 1).drop_last() =~= s.take(i));
    assert(s.take(i + 1).last() == s[i]);
}

/// A prefix is never wider than the whole sequence.
pub proof fn lemma_str_width_take_le(s: Seq<char>, i: int)
    requires
        0 <= i <= s.len(),
    ensures
        str_width(s.take(i)) <= str_width(s),
{
    assert(s =~= s.take(i) + s.skip(i));
    lemma_str_width_concat(s.take(i), s.skip(i));
}

/// Number of bytes the character occupies in UTF-8.
pub open spec fn char_utf8_len(c: char) -> nat {
    if (c as u32) < 0x80 {
        1
    } else if (c as u32) < 0x800 {
        2
    } else if (c as u32) < 0x10000 {
        3
    } else {
        4
    }
}

/// Number of bytes a sequence of characters occupies in UTF-8.
pub open spec fn str_utf8_len(s: Seq<char>) -> nat
    decreases s.len(),
{
    if s.len() == 0 {
        0
    } else {
        str_utf8_len(s.drop_last()) + char_utf8_len(s.last())
    }
}

/// A sequence of `n` characters occupies at most `4 * n` bytes in UTF-8.
pub proof fn lemma_str_utf8_len_le(s: Seq<char>)
    ensures
        str_utf8_len(s) <= 4 * s.len(),
    decreases s.len(),
{
    if s.len() > 0 {
        lemma_str_utf8_len_le(s.drop_last());
    }
}

/// Extending a prefix by one character adds that character's byte length.
pub proof fn lemma_str_utf8_len_take_succ(s: Seq<char>, i: int)
    requires
        0 <= i < s.len(),
    ensures
        str_utf8_len(s.take(i + 1)) == str_utf8_len(s.take(i)) + char_utf8_len(s[i]),
{
    assert(s.take(i + 1).drop_last() =~= s.take(i));
    assert(s.take(i + 1).last() == s[i]);
}

/// UTF-8 byte length of one character.
pub fn c_utf8_len(c: char) -> (n: usize)
    ensures
        n == char_utf8_len(c),
{
    let u = c as u32;
    if u < 0x80 {
        1
    } else if u < 0x800 {
        2
    } else if u < 0x10000 {
        3
    } else {
        4
    }
}

/// Display width of one character.
pub fn c_len(c: char) -> (w: usize)
    ensures
        w == char_width(c),
{
    if c == '\n' || c == '\0' {
        0
    } else if (c as u32) < 128 {
        1
    } else {
        2
    }
}

/// Relies on str::chars: it yields exactly the characters of the string, in
/// order, so the resulting vector's view equals the string's view.
#[verifier::external_body]
pub(crate) fn chars_vec(s: &str) -> (v: Vec<char>)
    ensures
        v@ == s@,
{
    s.chars().collect()
}

/// Relies on String::push: it appends the character to the end of the string.
#[verifier::external_body]
pub(crate) fn push_char(s: &mut String, c: char)
    ensures
        final(s)@ == old(s)@.push(c),
{
    s.push(c);
}

/// Turn a character vector back into a `String`, preserving the view.
pub(crate) fn string_of(v: &Vec<char>) -> (s: String)
    ensures
        s@ == v@,
{
    let mut s = String::new();
    let mut i: usize = 0;
    while i < v.len()
        invariant
            0 <= i <= v@.len(),
            s@ == v@.take(i as int),
        decreases v@.len() - i,
    {
        push_char(&mut s, v[i]);
        i = i + 1;
        proof {
            assert(v@.take(i as int) =~= v@.take(i - 1).push(v@[i - 1]));
        }
    }
    proof {
        assert(v@.take(v@.len() as int) =~= v@);
    }
    s
}

/// Total display width of a character vector.
pub(crate) fn vec_width(v: &Vec<char>) -> (n: usize)
    requires
        v@.len() <= MAX_CONTENT_LEN,
    ensures
        n == str_width(v@),
{
    let mut n: usize = 0;
    let mut i: usize = 0;
    while i < v.len()
        invariant
            0 <= i <= v@.len() <= MAX_CONTENT_LEN,
            n == str_width(v@.take(i as int)),
        decreases v@.len() - i,
    {
        proof {
            lemma_str_width_take_succ(v@, i as int);
            lemma_str_width_take_le(v@, i + 1);
            lemma_str_width_le(v@);
        }
        n = n + c_len(v[i]);
        i = i + 1;
    }
    proof {
        assert(v@.take(v@.len() as int) =~= v@);
    }
    n
}

/// Display width of a whole string: the sum of `char_width` over its
/// characters.
pub fn s_length(str: String) -> (n: usize)
    requires
        str@.len() <= MAX_CONTENT_LEN,
    ensures
        n == str_width(str@),
{
    let v = chars_vec(str.as_str());
    vec_width(&v)
}

/// Whether the character lies in one of the CJK ideograph blocks.
pub fn is_chinese_char(c: char) -> (r: bool)
    ensures
        r <==> {
            ||| 0x4E00 <= (c as u32) <= 0x9FFF
            ||| 0x3400 <= (c as u32) <= 0x4DBF
            ||| 0x20000 <= (c as u32) <= 0x2A6DF
            ||| 0x2A700 <= (c as u32) <= 0x2B73F
            ||| 0x2B740 <= (c as u32) <= 0x2B81F
            ||| 0x2B820 <= (c as u32) <= 0x2CEAF
            ||| 0xF900 <= (c as u32) <= 0xFAFF
            ||| 0x2F800 <= (c as u32) <= 0x2FA1F
        },
{
    let u = c as u32;
    if 0x4E00 <= u && u <= 0x9FFF {
        return true;
    }
    if 0x3400 <= u && u <= 0x4DBF {
        return true;
    }
    if 0x20000 <= u && u <= 0x2A6DF {
        return true;
    }
    if 0x2A700 <= u && u <= 0x2B73F {
        return true;
    }
    if 0x2B740 <= u && u <= 0x2B81F {
        return true;
    }
    if 0x2B820 <= u && u <= 0x2CEAF {
        return true;
    }
    if 0xF900 <= u && u <= 0xFAFF {
        return true;
    }
    if 0x2F800 <= u && u <= 0x2FA1F {
        return true;
    }
    false
}

/// Whether the character is a CJK punctuation or full-width form.
pub fn is_chinese_punctuation(c: char) -> (r: bool)
    ensures
        r <==> {
            ||| 0x3000 <= (c as u32) <= 0x303F
            ||| 0xFF00 <= (c as u32) <= 0xFFEF
        },
{
    let u = c as u32;
    if 0x3000 <= u && u <= 0x303F {
        return true;
    }
    if 0xFF00 <= u && u <= 0xFFEF {
        return true;
    }
    false
}

} // verus!
