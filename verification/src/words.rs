//! The reference text: how words become the sequence of characters to type,
//! and where the words come from.

use vstd::prelude::*;
use crate::session::App;

verus! {

/// The separator that follows every word of the reference text.
pub const SEPARATOR: char = ' ';

/// The reference text made of `words`: each word's characters in order,
/// each word followed by one separator.
pub open spec fn reference_text(words: Seq<Seq<char>>) -> Seq<char>
    decreases words.len(),
{
    if words.len() == 0 {
        Seq::empty()
    } else {
        reference_text(words.drop_last()) + words.last() + seq![SEPARATOR]
    }
}

/// The words of `words` as sequences of characters.
pub open spec fn words_view(words: Seq<Vec<char>>) -> Seq<Seq<char>> {
    Seq::new(words.len(), |i: int| words[i]@)
}

/// How often `c` occurs in `s`.
pub open spec fn occurrences(s: Seq<char>, c: char) -> nat
    decreases s.len(),
{
    if s.len() == 0 {
        0
    } else {
        occurrences(s.drop_last(), c) + if s.last() == c { 1nat } else { 0nat }
    }
}

/// The number of characters in all of `words` together.
pub open spec fn letters(words: Seq<Seq<char>>) -> nat
    decreases words.len(),
{
    if words.len() == 0 {
        0
    } else {
        letters(words.drop_last()) + words.last().len()
    }
}

/// Joins `words` into a reference text.
pub fn join_words(words: &Vec<Vec<char>>) -> (text: Vec<char>)
    ensures
        text@ == reference_text(words_view(words@)),
{
    let mut text: Vec<char> = Vec::new();
    let mut w: usize = 0;
    while w < words.len()
        invariant
            w <= words.len(),
            text@ == reference_text(words_view(words@).take(w as int)),
        decreases words.len() - w,
    {
        let word = &words[w];
        let ghost before = text@;
        let mut k: usize = 0;
        while k < word.len()
            invariant
                k <= word.len(),
                text@ == before + word@.take(k as int),
            decreases word.len() - k,
        {
            text.push(word[k]);
            proof {
                assert(word@.take(k + 1) == word@.take(k as int).push(word@[k as int]));
            }
            k += 1;
        }
        text.push(SEPARATOR);
        proof {
            let all = words_view(words@);
            assert(word@.take(word@.len() as int) == word@);
            assert(all.take(w + 1).drop_last() == all.take(w as int));
            assert(all.take(w + 1).last() == word@);
            assert(text@ == before + word@ + seq![SEPARATOR]);
        }
        w += 1;
    }
    proof {
        let all = words_view(words@);
        assert(all.take(all.len() as int) == all);
    }
    text
}

/// Draws one word from the outside word list: `random_word::get` for English,
/// its characters in order. The word is chosen at random, so nothing is
/// claimed of it. The list is built into that crate, and the call fails only
/// where that data is broken.
#[verifier::external_body]
fn supply_word() -> (word: Vec<char>) {
    random_word::get(random_word::Lang::En).chars().collect()
}

impl App {
    /// Builds a reference text of `count` words drawn from the word supply.
    ///
    /// Which words come is left to chance; the text is the joining of
    /// whatever `count` words came.
    pub fn get_words(count: u8) -> (text: Vec<char>)
        ensures
            exists|words: Seq<Seq<char>>|
                words.len() == count && text@ == #[trigger] reference_text(words),
            count == 0 ==> text@.len() == 0,
    {
        let mut words: Vec<Vec<char>> = Vec::new();
        let mut left: u8 = count;
        while left != 0
            invariant
                words.len() + left == count,
            decreases left,
        {
            words.push(supply_word());
            left -= 1;
        }
        let text = join_words(&words);
        proof {
            assert(words_view(words@).len() == count);
        }
        text
    }
}

} // verus!
