//! Approximate token counting.

use vstd::prelude::*;

use crate::text::{char_is_ws, chars_of, is_ws};

verus! {

/// Whether position `i` of `s` starts a word: a non-whitespace character
/// that is first or follows whitespace.
pub open spec fn starts_word(s: Seq<char>, i: int) -> bool {
    &&& 0 <= i < s.len()
    &&& !is_ws(s[i])
    &&& (i == 0 || is_ws(s[i - 1]))
}

/// The number of maximal runs of non-whitespace characters in `s`.
pub open spec fn word_count(s: Seq<char>) -> nat
    decreases s.len(),
{
    if s.len() == 0 {
        0
    } else {
        word_count(s.drop_last()) + if starts_word(s, s.len() - 1) {
            1nat
        } else {
            0nat
        }
    }
}

/// A text never holds more words than characters.
pub proof fn law_word_count_bounded(s: Seq<char>)
    ensures
        word_count(s) <= s.len(),
    decreases s.len(),
{
    if s.len() > 0 {
        law_word_count_bounded(s.drop_last());
    }
}

/// Counting continues across a join after whitespace: the words of `x + y`
/// are those of `x` and those of `y` when `x` is empty or ends in
/// whitespace.
proof fn lemma_word_count_after_ws(x: Seq<char>, y: Seq<char>)
    requires
        x.len() == 0 || is_ws(x.last()),
    ensures
        word_count(x + y) == word_count(x) + word_count(y),
    decreases y.len(),
{
    if y.len() == 0 {
        assert(x + y =~= x);
    } else {
        let xy = x + y;
        assert(xy.drop_last() =~= x + y.drop_last());
        lemma_word_count_after_ws(x, y.drop_last());
        let k = xy.len() - 1;
        assert(xy[k] == y[y.len() - 1]);
        if y.len() > 1 {
            assert(xy[k - 1] == y[y.len() - 2]);
        } else if x.len() > 0 {
            assert(xy[k - 1] == x.last());
        }
        assert(starts_word(xy, k) == starts_word(y, y.len() - 1));
    }
}

/// The tokens of two texts joined by a space are the tokens of each.
pub proof fn law_word_count_join(a: Seq<char>, b: Seq<char>)
    ensures
        word_count(a + seq![' '] + b) == word_count(a) + word_count(b),
{
    let x = a + seq![' '];
    assert(x.drop_last() =~= a);
    assert(!starts_word(x, x.len() - 1));
    assert(x.last() == ' ');
    lemma_word_count_after_ws(x, b);
}

/// Count the number of tokens in a string: the runs of non-whitespace
/// characters separated by whitespace.
pub fn count_tokens(text: &str) -> (count: usize)
    ensures
        count == word_count(text@),
{
    let s = chars_of(text);
    let mut prev_was_space = true;
    let mut count: usize = 0;
    let mut i: usize = 0;
    while i < s.len()
        invariant
            0 <= i <= s@.len(),
            s@ == text@,
            prev_was_space == (i == 0 || is_ws(s@[i - 1])),
            count + (if prev_was_space { 0int } else { 1int }) == word_count(s@.take(i as int)),
            word_count(s@.take(i as int)) <= i,
        decreases s.len() - i,
    {
        proof {
            assert(s@.take(i + 1).drop_last() =~= s@.take(i as int));
        }
        let c = s[i];
        if char_is_ws(c) {
            if !prev_was_space {
                count = count + 1;
                prev_was_space = true;
            }
        } else {
            if prev_was_space {
                prev_was_space = false;
            }
        }
        i = i + 1;
    }
    if !prev_was_space {
        count = count + 1;
    }
    proof {
        assert(s@.take(s@.len() as int) =~= s@);
    }
    count
}

/// Count tokens, giving zero for the empty string.
pub fn count_tokens_with_fallback(text: &str) -> (count: usize)
    ensures
        count == word_count(text@),
{
    if text.is_empty() {
        proof {
            assert(text@.len() == 0);
        }
        0
    } else {
        count_tokens(text)
    }
}

} // verus!
