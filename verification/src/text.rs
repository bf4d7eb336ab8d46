//! Small text building blocks: character replacement and concatenation.

use vstd::prelude::*;
use vstd::string::StringExecFns;

verus! {

/// `String::push` appends one character at the end of the string.
pub assume_specification[ String::push ](text: &mut String, c: char)
    ensures
        final(text)@ == old(text)@.push(c),
;

/// `text` with every occurrence of `from` turned into `to`.
pub open spec fn replaced(text: Seq<char>, from: char, to: char) -> Seq<char> {
    text.map_values(
        |c: char|
            if c == from {
                to
            } else {
                c
            },
    )
}

/// The character sequences of a list of strings.
pub open spec fn texts(strings: Seq<String>) -> Seq<Seq<char>> {
    strings.map_values(|s: String| s@)
}

/// Replace every occurrence of `from` by `to`.
pub fn replace_char(text: &str, from: char, to: char) -> (result: String)
    ensures
        result@ == replaced(text@, from, to),
{
    let mut result = String::new();
    for c in chars: text.chars()
        invariant
            chars.seq() == text@,
            result@ == replaced(text@.take(chars.index() as int), from, to),
    {
        let d: char = if c == from {
            to
        } else {
            c
        };
        result.push(d);
        assert(text@.take(chars.index() + 1) =~= text@.take(chars.index() as int).push(c));
    }
    assert(text@.take(text@.len() as int) =~= text@);
    result
}

/// `head` followed by `tail`.
pub fn joined(head: &str, tail: &str) -> (result: String)
    ensures
        result@ == head@ + tail@,
{
    let mut result = head.to_owned();
    result.append(tail);
    result
}

/// Replacing a character by another one removes every occurrence of it and leaves the length alone.
pub proof fn lemma_replaced_is_gone(text: Seq<char>, from: char, to: char)
    requires
        from != to,
    ensures
        replaced(text, from, to).len() == text.len(),
        !replaced(text, from, to).contains(from),
{
}

/// Replacing goes character by character: what is `from` becomes `to`, everything else stays where
/// it is.
pub proof fn replacing_goes_character_by_character(
    text: &str,
    from: char,
    to: char,
    result: String,
    i: int,
)
    requires
        call_ensures(replace_char, (text, from, to), result),
        0 <= i < text@.len(),
    ensures
        result@.len() == text@.len(),
        text@[i] == from ==> result@[i] == to,
        text@[i] != from ==> result@[i] == text@[i],
        replaced(text@, from, to) == result@,
{
}

/// A joined text starts with its head and ends with its tail.
pub proof fn joined_texts_keep_both_parts(head: &str, tail: &str, result: String)
    requires
        call_ensures(joined, (head, tail), result),
    ensures
        result@.len() == head@.len() + tail@.len(),
        result@.take(head@.len() as int) == head@,
        result@.skip(head@.len() as int) == tail@,
{
}

/// The texts of a list are those of its strings, in order.
pub proof fn texts_are_those_of_the_strings(strings: Seq<String>)
    ensures
        texts(strings).len() == strings.len(),
        forall|i: int| 0 <= i < strings.len() ==> #[trigger] texts(strings)[i] == strings[i]@,
{
}

} // verus!
