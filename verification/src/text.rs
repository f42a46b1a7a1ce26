use vstd::prelude::*;
use vstd::slice::*;
use vstd::string::*;

verus! {

/// The characters of `s`, in order.
pub fn to_chars(s: &str) -> (chars: Vec<char>)
    ensures
        chars@ == s@,
{
    let mut chars: Vec<char> = Vec::new();
    for c in it: s.chars()
        invariant
            chars@ == it.seq().take(it.index()),
    {
        chars.push(c);
    }
    chars
}

/// The length of `word`, if `text` begins with `word`.
pub fn prefix_length(text: &[char], word: &str) -> (length: Option<usize>)
    ensures
        word@.is_prefix_of(text@) ==> length == Some(word@.len() as usize) && word@.len()
            <= text@.len(),
        !word@.is_prefix_of(text@) ==> length is None,
{
    let mut matched: bool = true;
    let mut k: usize = 0;
    for c in it: word.chars()
        invariant
            it.seq() == word@,
            matched ==> k == it.index() && k <= text@.len() && text@.take(k as int)
                == word@.take(k as int),
            !matched ==> !word@.is_prefix_of(text@),
    {
        if matched && k < text.len() && text[k] == c {
            k += 1;
        } else {
            matched = false;
        }
    }
    if matched {
        Some(k)
    } else {
        None
    }
}

/// Whether `text` is `word`.
pub fn is_word(text: &[char], word: &str) -> (same: bool)
    ensures
        same == (text@ == word@),
{
    match prefix_length(text, word) {
        Some(length) => {
            if length == text.len() {
                assert(text@ =~= text@.subrange(0, text@.len() as int));
                true
            } else {
                false
            }
        },
        None => false,
    }
}

/// What follows `word` in `text`, if `text` begins with `word`.
pub fn strip_word<'a>(text: &'a [char], word: &str) -> (rest: Option<&'a [char]>)
    ensures
        word@.is_prefix_of(text@) ==> (rest matches Some(r) && r@ == text@.skip(
            word@.len() as int,
        )),
        !word@.is_prefix_of(text@) ==> rest is None,
{
    match prefix_length(text, word) {
        Some(length) => Some(slice_subrange(text, length, text.len())),
        None => None,
    }
}

} // verus!
