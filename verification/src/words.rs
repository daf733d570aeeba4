//! Words: the stretches of a text between white space.

use crate::text::chars_of;
use vstd::prelude::*;

verus! {

/// Whether `char::is_whitespace` holds of `c`: whether the character has the
/// Unicode property White_Space.
pub uninterp spec fn is_white_space(c: char) -> bool;

/// Calls `char::is_whitespace`.
///
/// Trusted: the result is what `is_white_space` names.
#[verifier::external_body]
pub(crate) fn char_is_whitespace(c: char) -> (b: bool)
    ensures
        b == is_white_space(c),
{
    c.is_whitespace()
}

/// A text that holds nothing but white space.
pub open spec fn is_blank(text: Seq<char>) -> bool {
    forall|i: int| 0 <= i < text.len() ==> is_white_space(#[trigger] text[i])
}

/// The word that is still open at the end of `text`: what follows its last
/// white space.
pub open spec fn open_word(text: Seq<char>) -> Seq<char>
    decreases text.len(),
{
    if text.len() == 0 {
        Seq::empty()
    } else if is_white_space(text.last()) {
        Seq::empty()
    } else {
        open_word(text.drop_last()).push(text.last())
    }
}

/// The words of `text` that white space has closed, in order.
pub open spec fn closed_words(text: Seq<char>) -> Seq<Seq<char>>
    decreases text.len(),
{
    if text.len() == 0 {
        Seq::empty()
    } else {
        let earlier = closed_words(text.drop_last());
        let word = open_word(text.drop_last());
        if is_white_space(text.last()) && word.len() > 0 {
            earlier.push(word)
        } else {
            earlier
        }
    }
}

/// The words of `text`, in order: its longest stretches without white space.
pub open spec fn words(text: Seq<char>) -> Seq<Seq<char>> {
    if open_word(text).len() > 0 {
        closed_words(text).push(open_word(text))
    } else {
        closed_words(text)
    }
}

/// Where the last white space of `text` stands, if it has any.
pub open spec fn last_white_space(text: Seq<char>) -> Option<int>
    decreases text.len(),
{
    if text.len() == 0 {
        None
    } else if is_white_space(text.last()) {
        Some(text.len() - 1)
    } else {
        last_white_space(text.drop_last())
    }
}

/// Whether `text` holds nothing but white space.
pub fn blank(text: &[char]) -> (b: bool)
    ensures
        b == is_blank(text@),
{
    let mut i: usize = 0;
    while i < text.len()
        invariant
            i <= text@.len(),
            forall|k: int| 0 <= k < i ==> is_white_space(#[trigger] text@[k]),
        decreases text@.len() - i,
    {
        if !char_is_whitespace(text[i]) {
            return false;
        }
        i = i + 1;
    }
    true
}

/// The words of `text`, in order.
pub fn split_words(text: &[char]) -> (list: Vec<Vec<char>>)
    ensures
        list.deep_view() == words(text@),
{
    let mut list: Vec<Vec<char>> = Vec::new();
    let mut word: Vec<char> = Vec::new();
    let mut i: usize = 0;
    assert(text@.take(0) =~= Seq::<char>::empty());
    assert(list.deep_view() =~= Seq::<Seq<char>>::empty());
    while i < text.len()
        invariant
            i <= text@.len(),
            word@ == open_word(text@.take(i as int)),
            list.deep_view() == closed_words(text@.take(i as int)),
        decreases text@.len() - i,
    {
        let ghost before = list.deep_view();
        assert(text@.take(i + 1).drop_last() =~= text@.take(i as int));
        assert(text@.take(i + 1).last() == text@[i as int]);
        let c = text[i];
        if char_is_whitespace(c) {
            if word.len() > 0 {
                let mut done: Vec<char> = Vec::new();
                core::mem::swap(&mut word, &mut done);
                assert(done.deep_view() =~= done@);
                list.push(done);
                assert(list.deep_view() =~= before.push(done.deep_view()));
            }
        } else {
            word.push(c);
        }
        i = i + 1;
    }
    assert(text@.take(i as int) =~= text@);
    if word.len() > 0 {
        let ghost before = list.deep_view();
        assert(word.deep_view() =~= word@);
        list.push(word);
        assert(list.deep_view() =~= before.push(word.deep_view()));
    }
    list
}

/// The words of a string, in order.
pub fn words_of(text: &str) -> (list: Vec<Vec<char>>)
    ensures
        list.deep_view() == words(text@),
{
    let chars = chars_of(text);
    split_words(chars.as_slice())
}

/// Where the last white space of `text` stands, if it has any.
pub fn find_last_white_space(text: &[char]) -> (at: Option<usize>)
    ensures
        match at {
            Some(i) => last_white_space(text@) == Some(i as int) && i < text@.len(),
            None => last_white_space(text@) is None,
        },
{
    let mut i: usize = text.len();
    assert(text@.take(i as int) =~= text@);
    while i > 0
        invariant
            i <= text@.len(),
            last_white_space(text@) == last_white_space(text@.take(i as int)),
        decreases i,
    {
        assert(text@.take(i as int).drop_last() =~= text@.take(i - 1));
        assert(text@.take(i as int).last() == text@[i - 1]);
        if char_is_whitespace(text[i - 1]) {
            return Some(i - 1);
        }
        i = i - 1;
    }
    None
}

} // verus!
