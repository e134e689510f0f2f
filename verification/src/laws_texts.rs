//! What holds of taking texts apart, and of telling misrendered texts, for every text.

use crate::rendering::displaces_elements;
use crate::rendering::is_misrendered;
use crate::rendering::takes_other_type;
use crate::words::block_string_end;
use crate::words::is_ignored;
use crate::words::is_name_start;
use crate::words::is_word;
use crate::words::lemma_piece_has_length;
use crate::words::line_end;
use crate::words::name_end;
use crate::words::piece_end;
use crate::words::quotes;
use crate::words::spelled;
use crate::words::split_words;
use crate::words::string_end;
use crate::words::words;
use crate::words::words_from;
use vstd::prelude::*;

verus! {

/// Whether a character is an ASCII letter or an underscore.
pub open spec fn is_letter(c: char) -> bool {
    let code = c as int;
    (97 <= code <= 122) || (65 <= code <= 90) || code == 95
}

/// Whether a character is an ASCII digit.
pub open spec fn is_digit(c: char) -> bool {
    48 <= c as int <= 57
}

/// Whether a character is a tab, a line feed, a carriage return, a space, a comma or a byte order
/// mark.
pub open spec fn is_space(c: char) -> bool {
    let code = c as int;
    code == 9 || code == 10 || code == 13 || code == 32 || code == 44 || code == 0xFEFF
}

/// Whether a character is a line feed or a carriage return.
pub open spec fn is_line_break(c: char) -> bool {
    c as int == 10 || c as int == 13
}

/// Whether a character is neither a quote nor a backslash.
pub open spec fn is_plain(c: char) -> bool {
    c as int != 34 && c as int != 92
}

/// The quote.
pub open spec fn quote() -> Seq<char> {
    seq!['"']
}

/// Three quotes.
pub open spec fn three_quotes() -> Seq<char> {
    seq!['"', '"', '"']
}

/// Whether a text may stand between quotes: plain characters, and any character behind a backslash.
pub open spec fn is_string_body(body: Seq<char>) -> bool
    decreases body.len(),
{
    if body.len() == 0 {
        true
    } else if is_plain(body[0]) {
        is_string_body(body.skip(1))
    } else {
        body[0] == '\\' && body.len() >= 2 && is_string_body(body.skip(2))
    }
}

/// Whether a text has another character than a quote at a place.
pub open spec fn has_other_than_quote(text: Seq<char>, at: int) -> bool {
    at < text.len() && text[at] != '"'
}

/// Whether a text may stand between three quotes and three quotes: any characters, where no three
/// quotes follow one another but behind a backslash, and where the last character is neither a
/// quote nor a backslash, unless it is the last of three quotes behind a backslash.
pub open spec fn is_block_body(body: Seq<char>) -> bool
    decreases body.len(),
{
    if body.len() == 0 {
        true
    } else if is_plain(body[0]) {
        is_block_body(body.skip(1))
    } else if body[0] == '"' {
        &&& has_other_than_quote(body, 1) || has_other_than_quote(body, 2)
        &&& is_block_body(body.skip(1))
    } else if has_other_than_quote(body, 1) {
        is_block_body(body.skip(1))
    } else if has_other_than_quote(body, 2) {
        is_block_body(body.skip(2))
    } else if has_other_than_quote(body, 3) {
        is_block_body(body.skip(3))
    } else {
        body.len() >= 4 && is_block_body(body.skip(4))
    }
}

proof fn lemma_name_end_of_suffix(text: Seq<char>, from: int, at: int)
    requires
        0 <= from <= text.len(),
        0 <= at <= text.len() - from,
    ensures
        name_end(text, from + at) == from + name_end(text.skip(from), at),
    decreases text.len() - from - at,
{
    if from + at < text.len() {
        assert(text.skip(from)[at] == text[from + at]);
        lemma_name_end_of_suffix(text, from, at + 1);
    }
}

proof fn lemma_line_end_of_suffix(text: Seq<char>, from: int, at: int)
    requires
        0 <= from <= text.len(),
        0 <= at <= text.len() - from,
    ensures
        line_end(text, from + at) == from + line_end(text.skip(from), at),
    decreases text.len() - from - at,
{
    if from + at < text.len() {
        assert(text.skip(from)[at] == text[from + at]);
        lemma_line_end_of_suffix(text, from, at + 1);
    }
}

proof fn lemma_string_end_of_suffix(text: Seq<char>, from: int, at: int, escaped: bool)
    requires
        0 <= from <= text.len(),
        0 <= at <= text.len() - from,
    ensures
        string_end(text, from + at, escaped) == from + string_end(text.skip(from), at, escaped),
    decreases text.len() - from - at,
{
    if from + at < text.len() {
        assert(text.skip(from)[at] == text[from + at]);
        lemma_string_end_of_suffix(text, from, at + 1, false);
        lemma_string_end_of_suffix(text, from, at + 1, true);
    }
}

proof fn lemma_quotes_of_suffix(text: Seq<char>, from: int, at: int)
    requires
        0 <= from <= text.len(),
        0 <= at < text.len() - from,
    ensures
        quotes(text, from + at) == quotes(text.skip(from), at),
        at + quotes(text.skip(from), at) <= text.len() - from,
{
    let suffix = text.skip(from);
    if from + at + 1 < text.len() {
        assert(suffix[at + 1] == text[from + at + 1]);
    }
    if from + at + 2 < text.len() {
        assert(suffix[at + 2] == text[from + at + 2]);
    }
}

proof fn lemma_block_string_end_of_suffix(text: Seq<char>, from: int, at: int, escaped: bool)
    requires
        0 <= from <= text.len(),
        0 <= at <= text.len() - from,
    ensures
        block_string_end(text, from + at, escaped) == from + block_string_end(
            text.skip(from),
            at,
            escaped,
        ),
    decreases text.len() - from - at,
{
    if from + at < text.len() {
        let suffix = text.skip(from);
        assert(suffix[at] == text[from + at]);
        lemma_quotes_of_suffix(text, from, at);
        lemma_block_string_end_of_suffix(text, from, at + 1, false);
        lemma_block_string_end_of_suffix(text, from, at + 1, true);
        lemma_block_string_end_of_suffix(text, from, at + quotes(suffix, at), false);
    }
}

proof fn lemma_piece_end_of_suffix(text: Seq<char>, from: int, at: int)
    requires
        0 <= from <= text.len(),
        0 <= at < text.len() - from,
    ensures
        piece_end(text, from + at) == from + piece_end(text.skip(from), at),
{
    let suffix = text.skip(from);
    assert(suffix[at] == text[from + at]);
    lemma_quotes_of_suffix(text, from, at);
    lemma_line_end_of_suffix(text, from, at + 1);
    lemma_string_end_of_suffix(text, from, at + 1, false);
    lemma_name_end_of_suffix(text, from, at + 1);
    if quotes(suffix, at) == 3 {
        lemma_block_string_end_of_suffix(text, from, at + 3, false);
    }
}

proof fn lemma_words_of_suffix(text: Seq<char>, from: int, at: int)
    requires
        0 <= from <= text.len(),
        0 <= at <= text.len() - from,
    ensures
        words_from(text, from + at) == words_from(text.skip(from), at),
    decreases text.len() - from - at,
{
    if from + at < text.len() {
        let suffix = text.skip(from);
        assert(suffix[at] == text[from + at]);
        lemma_piece_end_of_suffix(text, from, at);
        lemma_piece_has_length(suffix, at);
        let end = piece_end(suffix, at);
        lemma_words_of_suffix(text, from, end);
        assert(text.subrange(from + at, from + end) =~= suffix.subrange(at, end));
    }
}

/// The words of a text are the first piece, unless it only separates words, and the words of what
/// is left.
proof fn lemma_first_piece(text: Seq<char>, piece: Seq<char>, rest: Seq<char>)
    requires
        piece.len() > 0,
        text == piece + rest,
        piece_end(text, 0) == piece.len(),
    ensures
        words(text) == (if is_ignored(piece[0]) {
            words(rest)
        } else {
            seq![piece] + words(rest)
        }),
{
    lemma_words_of_suffix(text, piece.len() as int, 0);
    assert(text.skip(piece.len() as int) =~= rest);
    assert(text.subrange(0, piece.len() as int) =~= piece);
    assert(text[0] == piece[0]);
}

/// Whether the words that were found are a word and the words that were found in a rest.
pub open spec fn begins_with(
    found: Seq<Vec<char>>,
    word: Seq<char>,
    found_in_rest: Seq<Vec<char>>,
) -> bool {
    &&& found.len() == found_in_rest.len() + 1
    &&& found[0]@ == word
    &&& forall|i: int|
        0 <= i < found_in_rest.len() ==> #[trigger] found_in_rest[i]@ == found[i + 1]@
}

proof fn lemma_begins_with(found: Seq<Vec<char>>, word: Seq<char>, found_in_rest: Seq<Vec<char>>)
    requires
        spelled(found) == seq![word] + spelled(found_in_rest),
    ensures
        begins_with(found, word, found_in_rest),
{
    let all = seq![word] + spelled(found_in_rest);
    assert(spelled(found).len() == found.len());
    assert(spelled(found)[0] == found[0]@);
    assert forall|i: int| 0 <= i < found_in_rest.len() implies #[trigger] found_in_rest[i]@
        == found[i + 1]@ by {
        assert(spelled(found)[i + 1] == found[i + 1]@);
        assert(all[i + 1] == spelled(found_in_rest)[i]);
    }
}

/// Whether the same words were found twice.
pub open spec fn same_words(found: Seq<Vec<char>>, other: Seq<Vec<char>>) -> bool {
    &&& found.len() == other.len()
    &&& forall|i: int| 0 <= i < found.len() ==> #[trigger] found[i]@ == other[i]@
}

proof fn lemma_same_words(found: Seq<Vec<char>>, other: Seq<Vec<char>>)
    requires
        spelled(found) == spelled(other),
    ensures
        same_words(found, other),
{
    assert(spelled(found).len() == found.len());
    assert(spelled(other).len() == other.len());
    assert forall|i: int| 0 <= i < found.len() implies #[trigger] found[i]@ == other[i]@ by {
        assert(spelled(found)[i] == found[i]@);
        assert(spelled(other)[i] == other[i]@);
    }
}

/// An empty text has no words.
pub proof fn law_empty_text_has_no_words(text: &str, found: Vec<Vec<char>>)
    requires
        text@.len() == 0,
        call_ensures(split_words, (text,), found),
    ensures
        found@.len() == 0,
{
    assert(spelled(found@).len() == found@.len());
}

/// A space, a comma or a byte order mark in front of a text changes nothing in its words.
pub proof fn law_space_only_separates(
    text: &str,
    c: char,
    rest: &str,
    found: Vec<Vec<char>>,
    found_in_rest: Vec<Vec<char>>,
)
    requires
        is_space(c),
        text@ == seq![c] + rest@,
        call_ensures(split_words, (text,), found),
        call_ensures(split_words, (rest,), found_in_rest),
    ensures
        same_words(found@, found_in_rest@),
{
    assert(text@[0] == c);
    lemma_first_piece(text@, seq![c], rest@);
    lemma_same_words(found@, found_in_rest@);
}

proof fn lemma_line_end_of_body(text: Seq<char>, at: int, to: int)
    requires
        0 <= at <= to <= text.len(),
        forall|i: int| at <= i < to ==> !is_line_break(#[trigger] text[i]),
        to < text.len() ==> is_line_break(text[to]),
    ensures
        line_end(text, at) == to,
    decreases to - at,
{
    if at < to {
        assert(!is_line_break(text[at]));
        lemma_line_end_of_body(text, at + 1, to);
    }
}

/// A comment, which ends with its line, changes nothing in the words of what follows.
pub proof fn law_comments_have_no_words(
    text: &str,
    comment: Seq<char>,
    rest: &str,
    found: Vec<Vec<char>>,
    found_in_rest: Vec<Vec<char>>,
)
    requires
        forall|i: int| 0 <= i < comment.len() ==> !is_line_break(#[trigger] comment[i]),
        rest@.len() > 0 ==> is_line_break(rest@[0]),
        text@ == seq!['#'] + comment + rest@,
        call_ensures(split_words, (text,), found),
        call_ensures(split_words, (rest,), found_in_rest),
    ensures
        same_words(found@, found_in_rest@),
{
    let piece = seq!['#'] + comment;
    assert(text@[0] == '#');
    assert forall|i: int| 1 <= i < piece.len() implies !is_line_break(#[trigger] text@[i]) by {
        assert(text@[i] == comment[i - 1]);
    }
    if rest@.len() > 0 {
        assert(text@[piece.len() as int] == rest@[0]);
    }
    lemma_line_end_of_body(text@, 1, piece.len() as int);
    lemma_first_piece(text@, piece, rest@);
    lemma_same_words(found@, found_in_rest@);
}

proof fn lemma_name_end_of_name(text: Seq<char>, at: int, to: int)
    requires
        0 <= at <= to <= text.len(),
        forall|i: int|
            at <= i < to ==> is_letter(#[trigger] text[i]) || is_digit(text[i]),
        to < text.len() ==> !is_letter(text[to]) && !is_digit(text[to]),
    ensures
        name_end(text, at) == to,
    decreases to - at,
{
    if at < to {
        assert(is_letter(text[at]) || is_digit(text[at]));
        lemma_name_end_of_name(text, at + 1, to);
    }
}

/// A name is a word, as long as letters and digits follow one another.
pub proof fn law_names_are_words(
    text: &str,
    name: Seq<char>,
    rest: &str,
    found: Vec<Vec<char>>,
    found_in_rest: Vec<Vec<char>>,
)
    requires
        name.len() > 0,
        is_letter(name[0]),
        forall|i: int| 0 <= i < name.len() ==> is_letter(#[trigger] name[i]) || is_digit(name[i]),
        rest@.len() > 0 ==> !is_letter(rest@[0]) && !is_digit(rest@[0]),
        text@ == name + rest@,
        call_ensures(split_words, (text,), found),
        call_ensures(split_words, (rest,), found_in_rest),
    ensures
        begins_with(found@, name, found_in_rest@),
{
    assert(text@[0] == name[0]);
    assert forall|i: int| 1 <= i < name.len() implies is_letter(#[trigger] text@[i]) || is_digit(
        text@[i],
    ) by {
        assert(text@[i] == name[i]);
    }
    if rest@.len() > 0 {
        assert(text@[name.len() as int] == rest@[0]);
    }
    lemma_name_end_of_name(text@, 1, name.len() as int);
    lemma_first_piece(text@, name, rest@);
    lemma_begins_with(found@, name, found_in_rest@);
}

proof fn lemma_string_end_of_body(text: Seq<char>, at: int, body: Seq<char>)
    requires
        0 <= at,
        at + body.len() < text.len(),
        text.subrange(at, at + body.len()) == body,
        text[at + body.len()] == '"',
        is_string_body(body),
    ensures
        string_end(text, at, false) == at + body.len() + 1,
    decreases body.len(),
{
    if body.len() > 0 {
        assert(text[at] == body[0]);
        if is_plain(body[0]) {
            assert(text.subrange(at + 1, at + body.len()) =~= body.skip(1));
            lemma_string_end_of_body(text, at + 1, body.skip(1));
        } else {
            assert(text.subrange(at + 2, at + body.len()) =~= body.skip(2));
            lemma_string_end_of_body(text, at + 2, body.skip(2));
            assert(string_end(text, at, false) == string_end(text, at + 1, true));
            assert(string_end(text, at + 1, true) == string_end(text, at + 2, false));
        }
    }
}

/// A string is one word, whatever it holds; a quote within it stands behind a backslash.
pub proof fn law_strings_are_words(
    text: &str,
    body: Seq<char>,
    rest: &str,
    found: Vec<Vec<char>>,
    found_in_rest: Vec<Vec<char>>,
)
    requires
        is_string_body(body),
        body.len() == 0 && rest@.len() > 0 ==> rest@[0] != '"',
        text@ == quote() + body + quote() + rest@,
        call_ensures(split_words, (text,), found),
        call_ensures(split_words, (rest,), found_in_rest),
    ensures
        begins_with(found@, quote() + body + quote(), found_in_rest@),
{
    let piece = quote() + body + quote();
    assert(text@[0] == '"');
    assert(text@[1 + body.len() as int] == '"');
    assert(text@.subrange(1, 1 + body.len() as int) =~= body);
    assert(quotes(text@, 0) != 3) by {
        if body.len() > 0 {
            assert(text@[1] == body[0]);
        } else if rest@.len() > 0 {
            assert(text@[2] == rest@[0]);
        }
    }
    lemma_string_end_of_body(text@, 1, body);
    lemma_first_piece(text@, piece, rest@);
    lemma_begins_with(found@, piece, found_in_rest@);
}

proof fn lemma_block_string_end_of_body(text: Seq<char>, at: int, body: Seq<char>)
    requires
        0 <= at,
        at + body.len() + 3 <= text.len(),
        text.subrange(at, at + body.len()) == body,
        text[at + body.len()] == '"',
        text[at + body.len() + 1] == '"',
        text[at + body.len() + 2] == '"',
        is_block_body(body),
    ensures
        block_string_end(text, at, false) == at + body.len() + 3,
    decreases body.len(),
{
    reveal_with_fuel(block_string_end, 4);
    if body.len() > 0 {
        assert(text[at] == body[0]);
        if body.len() > 1 {
            assert(text[at + 1] == body[1]);
        }
        if body.len() > 2 {
            assert(text[at + 2] == body[2]);
        }
        if body.len() > 3 {
            assert(text[at + 3] == body[3]);
        }
        let count: int = if body[0] != '\\' || has_other_than_quote(body, 1) {
            1
        } else if has_other_than_quote(body, 2) {
            2
        } else if has_other_than_quote(body, 3) {
            3
        } else {
            4
        };
        assert(text.subrange(at + count, at + body.len()) =~= body.skip(count));
        lemma_block_string_end_of_body(text, at + count, body.skip(count));
    }
}

/// A block string is one word, whatever it holds; three quotes within it stand behind a backslash.
pub proof fn law_block_strings_are_words(
    text: &str,
    body: Seq<char>,
    rest: &str,
    found: Vec<Vec<char>>,
    found_in_rest: Vec<Vec<char>>,
)
    requires
        is_block_body(body),
        text@ == three_quotes() + body + three_quotes() + rest@,
        call_ensures(split_words, (text,), found),
        call_ensures(split_words, (rest,), found_in_rest),
    ensures
        begins_with(found@, three_quotes() + body + three_quotes(), found_in_rest@),
{
    let piece = three_quotes() + body + three_quotes();
    assert(text@[0] == '"' && text@[1] == '"' && text@[2] == '"');
    assert(text@[3 + body.len() as int] == '"');
    assert(text@[3 + body.len() as int + 1] == '"');
    assert(text@[3 + body.len() as int + 2] == '"');
    assert(text@.subrange(3, 3 + body.len() as int) =~= body);
    lemma_block_string_end_of_body(text@, 3, body);
    lemma_first_piece(text@, piece, rest@);
    lemma_begins_with(found@, piece, found_in_rest@);
}

proof fn lemma_open_string(text: Seq<char>, at: int, body: Seq<char>)
    requires
        0 <= at,
        at + body.len() == text.len(),
        text.subrange(at, text.len() as int) == body,
        is_string_body(body),
    ensures
        string_end(text, at, false) == text.len(),
    decreases body.len(),
{
    if body.len() > 0 {
        assert(text[at] == body[0]);
        if is_plain(body[0]) {
            assert(text.subrange(at + 1, text.len() as int) =~= body.skip(1));
            lemma_open_string(text, at + 1, body.skip(1));
        } else {
            assert(text.subrange(at + 2, text.len() as int) =~= body.skip(2));
            lemma_open_string(text, at + 2, body.skip(2));
            assert(string_end(text, at + 1, true) == string_end(text, at + 2, false));
        }
    }
}

/// A string that does not end is one word, up to the end of the text.
pub proof fn law_open_strings_are_words(text: &str, body: Seq<char>, found: Vec<Vec<char>>)
    requires
        is_string_body(body),
        text@ == quote() + body,
        call_ensures(split_words, (text,), found),
    ensures
        found@.len() == 1,
        found@[0]@ == text@,
{
    assert(text@[0] == '"');
    assert(text@.subrange(1, text@.len() as int) =~= body);
    if body.len() > 0 {
        assert(text@[1] == body[0]);
    }
    lemma_open_string(text@, 1, body);
    assert(text@ =~= text@ + Seq::<char>::empty());
    lemma_first_piece(text@, text@, Seq::empty());
    assert(spelled(found@).len() == found@.len());
    assert(spelled(found@)[0] == found@[0]@);
}

proof fn lemma_open_block_string(text: Seq<char>, at: int, body: Seq<char>)
    requires
        0 <= at,
        at + body.len() == text.len(),
        text.subrange(at, text.len() as int) == body,
        is_block_body(body),
    ensures
        block_string_end(text, at, false) == text.len(),
    decreases body.len(),
{
    reveal_with_fuel(block_string_end, 4);
    if body.len() > 0 {
        assert(text[at] == body[0]);
        if body.len() > 1 {
            assert(text[at + 1] == body[1]);
        }
        if body.len() > 2 {
            assert(text[at + 2] == body[2]);
        }
        if body.len() > 3 {
            assert(text[at + 3] == body[3]);
        }
        let count: int = if body[0] != '\\' || has_other_than_quote(body, 1) {
            1
        } else if has_other_than_quote(body, 2) {
            2
        } else if has_other_than_quote(body, 3) {
            3
        } else {
            4
        };
        assert(text.subrange(at + count, at + body.len()) =~= body.skip(count));
        lemma_open_block_string(text, at + count, body.skip(count));
    }
}

/// A block string that does not end is one word, up to the end of the text.
pub proof fn law_open_block_strings_are_words(text: &str, body: Seq<char>, found: Vec<Vec<char>>)
    requires
        is_block_body(body),
        text@ == three_quotes() + body,
        call_ensures(split_words, (text,), found),
    ensures
        found@.len() == 1,
        found@[0]@ == text@,
{
    assert(text@[0] == '"' && text@[1] == '"' && text@[2] == '"');
    assert(text@.subrange(3, text@.len() as int) =~= body);
    lemma_open_block_string(text@, 3, body);
    assert(text@ =~= text@ + Seq::<char>::empty());
    lemma_first_piece(text@, text@, Seq::empty());
    assert(spelled(found@).len() == found@.len());
    assert(spelled(found@)[0] == found@[0]@);
}

/// Any other character is a word by itself.
pub proof fn law_other_characters_are_words(
    text: &str,
    c: char,
    rest: &str,
    found: Vec<Vec<char>>,
    found_in_rest: Vec<Vec<char>>,
)
    requires
        !is_space(c),
        !is_letter(c),
        c != '#',
        c != '"',
        text@ == seq![c] + rest@,
        call_ensures(split_words, (text,), found),
        call_ensures(split_words, (rest,), found_in_rest),
    ensures
        begins_with(found@, seq![c], found_in_rest@),
{
    assert(text@[0] == c);
    lemma_first_piece(text@, seq![c], rest@);
    lemma_begins_with(found@, seq![c], found_in_rest@);
}

/// A word is told by all of its characters, and a name by its first.
pub proof fn law_words_are_told_by_their_spelling(
    word: &Vec<char>,
    text: &str,
    same: bool,
    c: char,
    letter: bool,
)
    requires
        call_ensures(is_word, (word, text), same),
        call_ensures(is_name_start, (c,), letter),
    ensures
        same <==> word@.len() == text@.len() && forall|i: int|
            0 <= i < word@.len() ==> #[trigger] word@[i] == text@[i],
        letter == is_letter(c),
{
    if word@.len() == text@.len() && forall|i: int|
        0 <= i < word@.len() ==> #[trigger] word@[i] == text@[i] {
        assert(word@ =~= text@);
    }
}

/// The number of opening parentheses less the number of closing ones, among the words from one
/// place up to another.
pub open spec fn depth_between(words: Seq<Seq<char>>, from: int, to: int) -> int
    decreases to - from,
{
    if from >= to {
        0
    } else if words[from] == "("@ {
        1 + depth_between(words, from + 1, to)
    } else if words[from] == ")"@ {
        depth_between(words, from + 1, to) - 1
    } else {
        depth_between(words, from + 1, to)
    }
}

/// Whether the word at a place is a name behind a colon or a bracket other than those of the
/// built-in scalar types.
pub open spec fn names_type(words: Seq<Seq<char>>, at: int) -> bool {
    &&& words[at].len() > 0
    &&& is_letter(words[at][0])
    &&& words[at - 1] == ":"@ || words[at - 1] == "["@
    &&& words[at] != "String"@
    &&& words[at] != "Int"@
    &&& words[at] != "Float"@
    &&& words[at] != "Boolean"@
    &&& words[at] != "ID"@
}

/// Whether a place behind another names a type within the parentheses that are open there: none of
/// them closes on the way.
pub open spec fn names_type_within(words: Seq<Seq<char>>, from: int, at: int) -> bool {
    &&& from <= at < words.len()
    &&& names_type(words, at)
    &&& forall|to: int|
        from < to <= at ==> #[trigger] depth_between(words, from, to) >= 0
}

/// Whether any place behind another names a type within the parentheses that are open there.
pub open spec fn has_type_within(words: Seq<Seq<char>>, from: int) -> bool {
    exists|at: int| #[trigger] names_type_within(words, from, at)
}

/// Whether a type is named within parentheses of a given depth.
spec fn names_type_at_depth(words: Seq<Seq<char>>, from: int, depth: int, at: int) -> bool {
    &&& from <= at < words.len()
    &&& names_type(words, at)
    &&& forall|to: int|
        from < to <= at ==> depth + #[trigger] depth_between(words, from, to) >= 1
}

proof fn lemma_parentheses_name_no_type(words: Seq<Seq<char>>, at: int)
    requires
        words[at] == "("@ || words[at] == ")"@,
    ensures
        !names_type(words, at),
{
    reveal_strlit("(");
    reveal_strlit(")");
}

proof fn lemma_depth_steps(words: Seq<Seq<char>>, from: int, to: int)
    requires
        from < to,
    ensures
        depth_between(words, from, to) == depth_between(words, from, from + 1) + depth_between(
            words,
            from + 1,
            to,
        ),
{
    reveal_with_fuel(depth_between, 2);
}

proof fn lemma_takes_other_type(words: Seq<Seq<char>>, from: int, depth: int)
    requires
        0 < from,
        depth >= 1,
    ensures
        takes_other_type(words, from, depth) <==> exists|at: int|
            #[trigger] names_type_at_depth(words, from, depth, at),
    decreases words.len() - from,
{
    if from < words.len() {
        reveal_with_fuel(depth_between, 2);
        let step = depth_between(words, from, from + 1);
        let deeper = depth + step;
        if deeper >= 1 {
            lemma_takes_other_type(words, from + 1, deeper);
        }
        if words[from] == "("@ || words[from] == ")"@ {
            lemma_parentheses_name_no_type(words, from);
        }
        reveal_strlit("(");
        reveal_strlit(")");
        if takes_other_type(words, from, depth) {
            if names_type(words, from) {
                assert(names_type_at_depth(words, from, depth, from));
            } else {
                let next = from + 1;
                let at = choose|at: int| #[trigger] names_type_at_depth(words, next, deeper, at);
                assert forall|to: int| from < to <= at implies depth + #[trigger] depth_between(
                    words,
                    from,
                    to,
                ) >= 1 by {
                    lemma_depth_steps(words, from, to);
                    if to > from + 1 {
                        assert(deeper + depth_between(words, from + 1, to) >= 1);
                    }
                }
                assert(names_type_at_depth(words, from, depth, at));
            }
        }
        if exists|at: int| #[trigger] names_type_at_depth(words, from, depth, at) {
            let at = choose|at: int| #[trigger] names_type_at_depth(words, from, depth, at);
            if at > from {
                assert(depth + depth_between(words, from, from + 1) >= 1);
                assert forall|to: int|
                    from + 1 < to <= at implies deeper + #[trigger] depth_between(
                    words,
                    from + 1,
                    to,
                ) >= 1 by {
                    lemma_depth_steps(words, from, to);
                    assert(depth + depth_between(words, from, to) >= 1);
                }
                assert(names_type_at_depth(words, from + 1, deeper, at));
            }
        }
    }
}

/// Whether, from a place on, the words extend a type with a reserved name by interfaces.
pub open spec fn is_extension_of_reserved(words: Seq<Seq<char>>, at: int) -> bool {
    &&& 0 <= at
    &&& at + 3 < words.len()
    &&& words[at] == "extend"@
    &&& words[at + 1] == "type"@
    &&& words[at + 2].len() >= 2
    &&& words[at + 2][0] == '_'
    &&& words[at + 2][1] == '_'
    &&& words[at + 3] == "implements"@
}

/// Whether, from a place on, the words define `@deprecated` or `@specifiedBy` with an argument of
/// another than a built-in scalar type.
pub open spec fn is_redefinition(words: Seq<Seq<char>>, at: int) -> bool {
    &&& 0 <= at
    &&& at + 3 < words.len()
    &&& words[at] == "directive"@
    &&& words[at + 1] == "@"@
    &&& words[at + 2] == "deprecated"@ || words[at + 2] == "specifiedBy"@
    &&& words[at + 3] == "("@
    &&& has_type_within(words, at + 4)
}

/// Whether, from some place on, the words extend a reserved type or define a directive anew.
pub open spec fn displaces(words: Seq<Seq<char>>) -> bool {
    exists|at: int| #[trigger] displaces_from(words, at)
}

/// Whether, from a place on, the words extend a reserved type or define a directive anew.
pub open spec fn displaces_from(words: Seq<Seq<char>>, at: int) -> bool {
    is_extension_of_reserved(words, at) || is_redefinition(words, at)
}

/// Whether a text has a character that is longer than a byte.
pub open spec fn has_long_character(text: Seq<char>) -> bool {
    exists|i: int| 0 <= i < text.len() && 128 <= (#[trigger] text[i]) as int
}

/// The characters of each word.
pub open spec fn spellings(found: Seq<Vec<char>>) -> Seq<Seq<char>> {
    Seq::new(found.len(), |i: int| found[i]@)
}

proof fn lemma_displaces_from(words: Seq<Seq<char>>, at: int)
    ensures
        displaces_from(words, at) == displaces_elements(words, at),
{
    if 0 <= at && at + 3 < words.len() {
        let from = at + 4;
        lemma_takes_other_type(words, from, 1);
        if takes_other_type(words, from, 1) {
            let within = choose|within: int| #[trigger]
                names_type_at_depth(words, from, 1, within);
            assert(names_type_within(words, from, within));
        }
        if has_type_within(words, from) {
            let within = choose|within: int| #[trigger] names_type_within(words, from, within);
            assert(names_type_at_depth(words, from, 1, within));
        }
    }
}

proof fn lemma_characters_are_numbered(c: char)
    ensures
        0 <= c as int,
{
}

proof fn lemma_long_character(text: Seq<char>)
    ensures
        has_long_character(text) == !vstd::utf8::is_ascii_chars(text),
{
    if !has_long_character(text) {
        assert forall|i: int| 0 <= i < text.len() implies '\0' <= #[trigger] text[i]
            && text[i] <= '\u{7f}' by {
            lemma_characters_are_numbered(text[i]);
            assert(!(128 <= text[i] as int));
        }
    }
}

/// Misrendered are exactly the texts with a character that is longer than a byte, whose words
/// somewhere extend a reserved type by interfaces, or define one of two directives with other than
/// built-in scalars.
pub proof fn law_misrendered_texts_are_told(sdl: &str, found: Vec<Vec<char>>, told: bool)
    requires
        call_ensures(is_misrendered, (sdl,), told),
        call_ensures(split_words, (sdl,), found),
    ensures
        told <==> has_long_character(sdl@) && displaces(spellings(found@)),
{
    let all = spellings(found@);
    assert(all =~= spelled(found@));
    lemma_long_character(sdl@);
    if told {
        let at = choose|at: int| displaces_elements(all, at);
        lemma_displaces_from(all, at);
    }
    if displaces(all) {
        let at = choose|at: int| displaces_from(all, at);
        lemma_displaces_from(all, at);
    }
}

} // verus!
