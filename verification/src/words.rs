//! Counting the words of a text.

use vstd::prelude::*;
use vstd::string::StrSliceExecFns;

verus! {

/// Whether a character is white space, as `char::is_whitespace` has it.
pub uninterp spec fn is_space(c: char) -> bool;

/// `char::is_whitespace`: whether the character has the Unicode property
/// White_Space.
#[verifier::external_body]
fn is_whitespace(c: char) -> (r: bool)
    ensures
        r == is_space(c),
{
    c.is_whitespace()
}

/// Whether a word starts at position `i`: a character that is not white
/// space, at the start of the text or after white space.
pub open spec fn starts_word(s: Seq<char>, i: int) -> bool {
    !is_space(s[i]) && (i == 0 || is_space(s[i - 1]))
}

/// The number of words in a text: of maximal runs of characters that are
/// not white space.
pub open spec fn word_count(s: Seq<char>) -> nat
    decreases s.len(),
{
    if s.len() == 0 {
        0
    } else {
        word_count(s.drop_last()) + if starts_word(s, s.len() - 1) {
            1nat
        } else {
            0nat
        }
    }
}

proof fn lemma_word_count_bound(s: Seq<char>)
    ensures
        word_count(s) <= s.len(),
    decreases s.len(),
{
    if s.len() > 0 {
        lemma_word_count_bound(s.drop_last());
    }
}

/// Counts the words of a text.
pub fn count_words(s: &str) -> (r: usize)
    ensures
        r == word_count(s@),
{
    let total = s.unicode_len();
    let mut count: usize = 0;
    let mut in_word = false;
    for c in it: s.chars()
        invariant
            it.seq() == s@,
            total == s@.len(),
            count == word_count(s@.take(it.index() as int)),
            in_word == (it.index() > 0 && !is_space(s@[it.index() - 1])),
    {
        let ghost i = it.index() as int;
        proof {
            let upto = s@.take(i + 1);
            assert(upto.drop_last() =~= s@.take(i));
            lemma_word_count_bound(s@.take(i));
        }
        let space = is_whitespace(c);
        if !space && !in_word {
            count += 1;
        }
        in_word = !space;
    }
    assert(s@.take(s@.len() as int) =~= s@);
    count
}

} // verus!
