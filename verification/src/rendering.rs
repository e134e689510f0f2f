//! Texts of schemas whose errors cannot be relied on to be formatted.
//!
//! An API schema that turns out to be invalid is reported with excerpts of the text it comes from.
//! Where the reported element itself has no place in that text, the excerpts are cut at a number of
//! characters that is taken for a number of bytes, which fails inside of a character that is longer
//! than a byte. Two kinds of elements of a valid supergraph have no place in its text and can come
//! to be reported: a built-in type that the text extends by interfaces, and a string that stands
//! for an enum value in `@deprecated` or `@specifiedBy`, whose definitions the text then replaces.

use crate::words::is_name_start;
use crate::words::is_word;
use crate::words::spelled;
use crate::words::split_words;
use crate::words::starts_name;
use crate::words::words;
use vstd::prelude::*;

verus! {

/// Whether a name is reserved for built-in types.
pub open spec fn is_reserved(word: Seq<char>) -> bool {
    word.len() >= 2 && word[0] == '_' && word[1] == '_'
}

/// Whether, at a place among words, a built-in object type is extended by interfaces.
pub open spec fn extends_built_in_type(words: Seq<Seq<char>>, at: int) -> bool {
    &&& 0 <= at
    &&& at + 3 < words.len()
    &&& words[at] == "extend"@
    &&& words[at + 1] == "type"@
    &&& is_reserved(words[at + 2])
    &&& words[at + 3] == "implements"@
}

/// Whether a word is the name of a built-in scalar type.
pub open spec fn is_built_in_scalar(word: Seq<char>) -> bool {
    ||| word == "String"@
    ||| word == "Int"@
    ||| word == "Float"@
    ||| word == "Boolean"@
    ||| word == "ID"@
}

/// Whether the word at a place stands where a type does, and is not a built-in scalar type.
pub open spec fn is_other_type(words: Seq<Seq<char>>, at: int) -> bool {
    &&& words[at].len() > 0
    &&& starts_name(words[at][0])
    &&& words[at - 1] == ":"@ || words[at - 1] == "["@
    &&& !is_built_in_scalar(words[at])
}

/// Whether, within the parentheses that are open at a place, there is a type that is not a built-in
/// scalar type.
pub open spec fn takes_other_type(words: Seq<Seq<char>>, at: int, depth: int) -> bool
    decreases words.len() - at,
{
    if at >= words.len() {
        false
    } else if words[at] == "("@ {
        takes_other_type(words, at + 1, depth + 1)
    } else if words[at] == ")"@ {
        depth > 1 && takes_other_type(words, at + 1, depth - 1)
    } else {
        is_other_type(words, at) || takes_other_type(words, at + 1, depth)
    }
}

/// Whether, at a place among words, one of the directives that API schemas keep is defined anew, to
/// take more than built-in scalars.
pub open spec fn replaces_kept_directive(words: Seq<Seq<char>>, at: int) -> bool {
    &&& 0 <= at
    &&& at + 3 < words.len()
    &&& words[at] == "directive"@
    &&& words[at + 1] == "@"@
    &&& words[at + 2] == "deprecated"@ || words[at + 2] == "specifiedBy"@
    &&& words[at + 3] == "("@
    &&& takes_other_type(words, at + 4, 1)
}

/// Whether the words from a place on lead to elements of the API schema that have no place in the
/// text.
pub open spec fn displaces_elements(words: Seq<Seq<char>>, at: int) -> bool {
    extends_built_in_type(words, at) || replaces_kept_directive(words, at)
}

/// Whether the errors of the API schema of a text may fail to be formatted.
pub open spec fn misrendered(sdl: Seq<char>) -> bool {
    &&& !vstd::utf8::is_ascii_chars(sdl)
    &&& exists|at: int| #[trigger] displaces_elements(words(sdl), at)
}

fn is_other_type_at(found: &Vec<Vec<char>>, at: usize) -> (r: bool)
    requires
        0 < at < found@.len(),
    ensures
        r == is_other_type(spelled(found@), at as int),
{
    let word = &found[at];
    if word.len() == 0 {
        return false;
    }
    let named = is_name_start(word[0]);
    let placed = is_word(&found[at - 1], ":") || is_word(&found[at - 1], "[");
    let scalar = is_word(word, "String") || is_word(word, "Int") || is_word(word, "Float")
        || is_word(word, "Boolean") || is_word(word, "ID");
    named && placed && !scalar
}

fn find_other_type(found: &Vec<Vec<char>>, from: usize) -> (r: bool)
    requires
        0 < from <= found@.len(),
    ensures
        r == takes_other_type(spelled(found@), from as int, 1),
{
    let mut at: usize = from;
    let mut depth: usize = 1;
    while at < found.len()
        invariant
            0 < from <= at <= found@.len(),
            1 <= depth <= at,
            takes_other_type(spelled(found@), at as int, depth as int) == takes_other_type(
                spelled(found@),
                from as int,
                1,
            ),
        decreases found@.len() - at,
    {
        assert(spelled(found@)[at as int] == found@[at as int]@);
        if is_word(&found[at], "(") {
            depth = depth + 1;
        } else if is_word(&found[at], ")") {
            if depth == 1 {
                return false;
            }
            depth = depth - 1;
        } else if is_other_type_at(found, at) {
            return true;
        }
        at = at + 1;
    }
    false
}

fn displaces_at(found: &Vec<Vec<char>>, at: usize) -> (r: bool)
    requires
        at < found@.len(),
    ensures
        r == displaces_elements(spelled(found@), at as int),
{
    if found.len() - at <= 3 {
        return false;
    }
    let third = &found[at + 2];
    if is_word(&found[at], "extend") && is_word(&found[at + 1], "type") && third.len() >= 2
        && third[0] == '_' && third[1] == '_' && is_word(&found[at + 3], "implements") {
        return true;
    }
    is_word(&found[at], "directive") && is_word(&found[at + 1], "@") && (is_word(
        third,
        "deprecated",
    ) || is_word(third, "specifiedBy")) && is_word(&found[at + 3], "(") && find_other_type(
        found,
        at + 4,
    )
}

/// Tells whether the errors of the API schema of a text may fail to be formatted.
pub fn is_misrendered(sdl: &str) -> (r: bool)
    ensures
        r == misrendered(sdl@),
{
    if sdl.is_ascii() {
        return false;
    }
    let found = split_words(sdl);
    let mut at: usize = 0;
    while at < found.len()
        invariant
            spelled(found@) == words(sdl@),
            !vstd::utf8::is_ascii_chars(sdl@),
            at <= found@.len(),
            forall|i: int|
                0 <= i < at ==> !#[trigger] displaces_elements(words(sdl@), i),
        decreases found@.len() - at,
    {
        if displaces_at(&found, at) {
            return true;
        }
        at = at + 1;
    }
    false
}

} // verus!
