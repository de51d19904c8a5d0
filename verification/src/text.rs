//! Cutting text to a number of bytes of its UTF-8 encoding.

use vstd::prelude::*;
use vstd::string::StrSliceExecFns;
use vstd::utf8::{char_is_scalar, encode_scalar, encode_utf8};

verus! {

/// The number of bytes that encode `c` in UTF-8: one to four.
pub open spec fn utf8_width(c: char) -> nat {
    encode_scalar(c as u32).len()
}

/// The longest prefix of `text` whose UTF-8 encoding has at most `limit`
/// bytes: its characters are taken one by one for as long as the next one
/// still fits.
pub open spec fn fitting_prefix(text: Seq<char>, limit: nat) -> Seq<char>
    decreases text.len(),
{
    if text.len() == 0 || utf8_width(text[0]) > limit {
        Seq::empty()
    } else {
        seq![text[0]] + fitting_prefix(text.drop_first(), (limit - utf8_width(text[0])) as nat)
    }
}

/// The encoding of a text that starts with `c` is the encoding of `c`
/// followed by that of the rest.
proof fn lemma_encoding_of_first(c: char, rest: Seq<char>)
    ensures
        encode_utf8(seq![c] + rest) == encode_scalar(c as u32) + encode_utf8(rest),
{
    assert((seq![c] + rest).drop_first() =~= rest);
}

/// The fitting prefix is what its name says. It is a prefix of the text; its
/// encoding has at most `limit` bytes; a text that fits is kept whole; and
/// where a character is left out, the prefix with that character does not fit.
pub proof fn lemma_fitting_prefix_is_longest(text: Seq<char>, limit: nat)
    ensures
        ({
            let kept = fitting_prefix(text, limit);
            &&& kept.len() <= text.len()
            &&& kept == text.take(kept.len() as int)
            &&& encode_utf8(kept).len() <= limit
            &&& encode_utf8(text).len() <= limit ==> kept == text
            &&& kept.len() < text.len() ==> encode_utf8(text.take(kept.len() as int + 1)).len() > limit
        }),
    decreases text.len(),
{
    let kept = fitting_prefix(text, limit);
    if text.len() == 0 {
        assert(kept =~= text.take(0));
    } else {
        let c = text[0];
        let rest = text.drop_first();
        let width = utf8_width(c);
        assert(text =~= seq![c] + rest);
        lemma_encoding_of_first(c, rest);
        if width > limit {
            assert(kept =~= text.take(0));
            assert(text.take(1) =~= seq![c] + Seq::<char>::empty());
            lemma_encoding_of_first(c, Seq::<char>::empty());
        } else {
            let left = (limit - width) as nat;
            let tail = fitting_prefix(rest, left);
            lemma_fitting_prefix_is_longest(rest, left);
            lemma_encoding_of_first(c, tail);
            assert(kept =~= text.take(kept.len() as int)) by {
                assert(tail == rest.take(tail.len() as int));
            }
            if kept.len() < text.len() {
                assert(text.take(kept.len() as int + 1) =~= seq![c] + rest.take(tail.len() as int + 1));
                lemma_encoding_of_first(c, rest.take(tail.len() as int + 1));
            }
        }
    }
}

/// The number of bytes that encode `c`.
fn char_width(c: char) -> (width: usize)
    ensures
        width == utf8_width(c),
        1 <= width <= 4,
{
    proof {
        char_is_scalar(c);
    }
    let code: u32 = c as u32;
    if code < 0x80 {
        1
    } else if code < 0x800 {
        2
    } else if code < 0x10000 {
        3
    } else {
        4
    }
}

/// Cuts `text` to at most `limit` bytes without splitting a character: the
/// whole text where it fits, else its longest prefix of whole characters
/// that does.
pub fn truncate_bytes(text: &str, limit: usize) -> (kept: &str)
    ensures
        kept@ == fitting_prefix(text@, limit as nat),
{
    let mut used: usize = 0;
    let mut count: usize = 0;
    let mut open: bool = true;
    assert(text@.skip(0) =~= text@);
    assert(text@.take(0) + text@ =~= text@);
    for c in it: text.chars()
        invariant
            it.seq() == text@,
            count <= used <= limit,
            count <= it.index(),
            open ==> count == it.index(),
            fitting_prefix(text@, limit as nat) == text@.take(count as int) + if open {
                fitting_prefix(text@.skip(it.index() as int), (limit - used) as nat)
            } else {
                Seq::empty()
            },
    {
        if open {
            let width = char_width(c);
            proof {
                let ahead = text@.skip(it.index() as int);
                assert(ahead[0] == c);
                assert(ahead.drop_first() =~= text@.skip(it.index() + 1));
                assert(text@.take(count as int) + seq![c] =~= text@.take(count + 1));
            }
            if width <= limit - used {
                used = used + width;
                count = count + 1;
            } else {
                open = false;
            }
        }
    }
    text.substring_char(0, count)
}

} // verus!
