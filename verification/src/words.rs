//! The words of a text in the schema definition language.

use vstd::prelude::*;

verus! {

/// Whether a name may begin with this character.
pub open spec fn starts_name(c: char) -> bool {
    ('a' <= c && c <= 'z') || ('A' <= c && c <= 'Z') || c == '_'
}

/// Whether a name may go on with this character.
pub open spec fn continues_name(c: char) -> bool {
    starts_name(c) || ('0' <= c && c <= '9')
}

/// Whether a line ends at this character.
pub open spec fn ends_line(c: char) -> bool {
    c == '\n' || c == '\r'
}

/// Whether what begins with this character only separates words: space, a comma, or a comment.
pub open spec fn is_ignored(c: char) -> bool {
    ends_line(c) || c == ' ' || c == '\t' || c == ',' || c == '#' || c == '\u{FEFF}'
}

/// The place where the name ends that goes on at a place.
pub open spec fn name_end(text: Seq<char>, at: int) -> int
    decreases text.len() - at,
{
    if at < text.len() && continues_name(text[at]) {
        name_end(text, at + 1)
    } else {
        at
    }
}

/// The place where the line ends that goes on at a place.
pub open spec fn line_end(text: Seq<char>, at: int) -> int
    decreases text.len() - at,
{
    if at < text.len() && !ends_line(text[at]) {
        line_end(text, at + 1)
    } else {
        at
    }
}

/// The place behind the string that goes on at a place. A character behind a backslash does not end
/// the string.
pub open spec fn string_end(text: Seq<char>, at: int, escaped: bool) -> int
    decreases text.len() - at,
{
    if at >= text.len() {
        at
    } else if escaped {
        string_end(text, at + 1, false)
    } else if text[at] == '"' {
        at + 1
    } else {
        string_end(text, at + 1, text[at] == '\\')
    }
}

/// The number of quotes that follow one another from the quote at a place, up to three.
pub open spec fn quotes(text: Seq<char>, at: int) -> int {
    if at + 1 < text.len() && text[at + 1] == '"' {
        if at + 2 < text.len() && text[at + 2] == '"' {
            3
        } else {
            2
        }
    } else {
        1
    }
}

/// The place behind the block string that goes on at a place. Three quotes end it, unless they
/// stand behind a backslash.
pub open spec fn block_string_end(text: Seq<char>, at: int, escaped: bool) -> int
    decreases text.len() - at,
{
    if at >= text.len() {
        text.len() as int
    } else if text[at] != '"' {
        block_string_end(text, at + 1, text[at] == '\\')
    } else if escaped {
        block_string_end(text, at + quotes(text, at), false)
    } else if quotes(text, at) == 3 {
        at + 3
    } else {
        block_string_end(text, at + 1, false)
    }
}

/// The place behind what begins at a place: a comment, a string, a name, or a single character.
pub open spec fn piece_end(text: Seq<char>, at: int) -> int {
    if text[at] == '#' {
        line_end(text, at + 1)
    } else if text[at] == '"' && quotes(text, at) == 3 {
        block_string_end(text, at + 3, false)
    } else if text[at] == '"' {
        string_end(text, at + 1, false)
    } else if starts_name(text[at]) {
        name_end(text, at + 1)
    } else {
        at + 1
    }
}

/// The words of a text from a place on: its names, strings and other characters, without what only
/// separates them.
pub open spec fn words_from(text: Seq<char>, at: int) -> Seq<Seq<char>>
    decreases text.len() - at,
{
    if 0 <= at < text.len() {
        let end = piece_end(text, at);
        proof {
            lemma_piece_has_length(text, at);
        }
        let rest = words_from(text, end);
        if is_ignored(text[at]) {
            rest
        } else {
            seq![text.subrange(at, end)] + rest
        }
    } else {
        Seq::empty()
    }
}

/// The words of a text.
pub open spec fn words(text: Seq<char>) -> Seq<Seq<char>> {
    words_from(text, 0)
}

proof fn lemma_name_end(text: Seq<char>, at: int)
    requires
        at <= text.len(),
    ensures
        at <= name_end(text, at) <= text.len(),
    decreases text.len() - at,
{
    if at < text.len() && continues_name(text[at]) {
        lemma_name_end(text, at + 1);
    }
}

proof fn lemma_line_end(text: Seq<char>, at: int)
    requires
        at <= text.len(),
    ensures
        at <= line_end(text, at) <= text.len(),
    decreases text.len() - at,
{
    if at < text.len() && !ends_line(text[at]) {
        lemma_line_end(text, at + 1);
    }
}

proof fn lemma_string_end(text: Seq<char>, at: int, escaped: bool)
    requires
        at <= text.len(),
    ensures
        at <= string_end(text, at, escaped) <= text.len(),
    decreases text.len() - at,
{
    if at < text.len() {
        if escaped {
            lemma_string_end(text, at + 1, false);
        } else if text[at] != '"' {
            lemma_string_end(text, at + 1, text[at] == '\\');
        }
    }
}

proof fn lemma_block_string_end(text: Seq<char>, at: int, escaped: bool)
    requires
        at <= text.len(),
    ensures
        at <= block_string_end(text, at, escaped) <= text.len(),
    decreases text.len() - at,
{
    if at < text.len() {
        if text[at] != '"' {
            lemma_block_string_end(text, at + 1, text[at] == '\\');
        } else if escaped {
            lemma_block_string_end(text, at + quotes(text, at), false);
        } else if quotes(text, at) != 3 {
            lemma_block_string_end(text, at + 1, false);
        }
    }
}

/// What begins at a place of a text has a length, and ends within the text.
pub proof fn lemma_piece_has_length(text: Seq<char>, at: int)
    requires
        0 <= at < text.len(),
    ensures
        at < piece_end(text, at) <= text.len(),
{
    lemma_line_end(text, at + 1);
    lemma_string_end(text, at + 1, false);
    lemma_name_end(text, at + 1);
    if quotes(text, at) == 3 {
        lemma_block_string_end(text, at + 3, false);
    }
}

/// Tells whether a name may begin with this character.
pub fn is_name_start(c: char) -> (r: bool)
    ensures
        r == starts_name(c),
{
    ('a' <= c && c <= 'z') || ('A' <= c && c <= 'Z') || c == '_'
}

fn is_name_continue(c: char) -> (r: bool)
    ensures
        r == continues_name(c),
{
    is_name_start(c) || ('0' <= c && c <= '9')
}

fn is_separator(c: char) -> (r: bool)
    ensures
        r == is_ignored(c),
{
    c == '\n' || c == '\r' || c == ' ' || c == '\t' || c == ',' || c == '#' || c == '\u{FEFF}'
}

fn find_name_end(text: &Vec<char>, from: usize) -> (r: usize)
    requires
        from <= text@.len(),
    ensures
        r == name_end(text@, from as int),
{
    let mut at: usize = from;
    while at < text.len() && is_name_continue(text[at])
        invariant
            at <= text@.len(),
            name_end(text@, at as int) == name_end(text@, from as int),
        decreases text@.len() - at,
    {
        at = at + 1;
    }
    at
}

fn find_line_end(text: &Vec<char>, from: usize) -> (r: usize)
    requires
        from <= text@.len(),
    ensures
        r == line_end(text@, from as int),
{
    let mut at: usize = from;
    while at < text.len() && text[at] != '\n' && text[at] != '\r'
        invariant
            at <= text@.len(),
            line_end(text@, at as int) == line_end(text@, from as int),
        decreases text@.len() - at,
    {
        at = at + 1;
    }
    at
}

fn find_string_end(text: &Vec<char>, from: usize) -> (r: usize)
    requires
        from <= text@.len(),
    ensures
        r == string_end(text@, from as int, false),
{
    let mut at: usize = from;
    let mut escaped = false;
    while at < text.len()
        invariant
            at <= text@.len(),
            string_end(text@, at as int, escaped) == string_end(text@, from as int, false),
        decreases text@.len() - at,
    {
        if escaped {
            escaped = false;
        } else if text[at] == '"' {
            return at + 1;
        } else {
            escaped = text[at] == '\\';
        }
        at = at + 1;
    }
    at
}

fn count_quotes(text: &Vec<char>, at: usize) -> (r: usize)
    requires
        at < text@.len(),
    ensures
        r == quotes(text@, at as int),
        at + r <= text@.len(),
{
    let left: usize = text.len() - at;
    if left > 1 && text[at + 1] == '"' {
        if left > 2 && text[at + 2] == '"' {
            3
        } else {
            2
        }
    } else {
        1
    }
}

fn find_block_string_end(text: &Vec<char>, from: usize) -> (r: usize)
    requires
        from <= text@.len(),
    ensures
        r == block_string_end(text@, from as int, false),
{
    let mut at: usize = from;
    let mut escaped = false;
    while at < text.len()
        invariant
            at <= text@.len(),
            block_string_end(text@, at as int, escaped) == block_string_end(
                text@,
                from as int,
                false,
            ),
        decreases text@.len() - at,
    {
        if text[at] != '"' {
            escaped = text[at] == '\\';
            at = at + 1;
        } else if escaped {
            escaped = false;
            at = at + count_quotes(text, at);
        } else if count_quotes(text, at) == 3 {
            return at + 3;
        } else {
            at = at + 1;
        }
    }
    at
}

fn find_piece_end(text: &Vec<char>, at: usize) -> (r: usize)
    requires
        at < text@.len(),
    ensures
        r == piece_end(text@, at as int),
        at < r <= text@.len(),
{
    assert(at < text.len());
    proof {
        lemma_piece_has_length(text@, at as int);
    }
    if text[at] == '#' {
        find_line_end(text, at + 1)
    } else if text[at] == '"' {
        if count_quotes(text, at) == 3 {
            find_block_string_end(text, at + 3)
        } else {
            find_string_end(text, at + 1)
        }
    } else if is_name_start(text[at]) {
        find_name_end(text, at + 1)
    } else {
        at + 1
    }
}

/// The characters of words.
pub open spec fn spelled(words: Seq<Vec<char>>) -> Seq<Seq<char>> {
    words.map_values(|word: Vec<char>| word@)
}

fn copy_piece(text: &Vec<char>, from: usize, to: usize) -> (r: Vec<char>)
    requires
        from <= to <= text@.len(),
    ensures
        r@ == text@.subrange(from as int, to as int),
{
    let mut piece: Vec<char> = Vec::new();
    let mut at: usize = from;
    while at < to
        invariant
            from <= at <= to <= text@.len(),
            piece@ == text@.subrange(from as int, at as int),
        decreases to - at,
    {
        piece.push(text[at]);
        at = at + 1;
        assert(piece@ =~= text@.subrange(from as int, at as int));
    }
    piece
}

/// Takes a text apart into its words.
pub fn split_words(text: &str) -> (r: Vec<Vec<char>>)
    ensures
        spelled(r@) == words(text@),
{
    let mut chars: Vec<char> = Vec::new();
    for c in iter: text.chars()
        invariant
            iter.seq() == text@,
            chars@ == text@.take(iter.index()),
    {
        chars.push(c);
        assert(chars@ =~= text@.take(iter.index() + 1));
    }
    assert(chars@ =~= text@);
    let mut found: Vec<Vec<char>> = Vec::new();
    let mut at: usize = 0;
    while at < chars.len()
        invariant
            at <= chars@.len(),
            spelled(found@) + words_from(chars@, at as int) == words(chars@),
        decreases chars@.len() - at,
    {
        let end: usize = find_piece_end(&chars, at);
        let ghost before = spelled(found@);
        let ghost rest = words_from(chars@, end as int);
        if !is_separator(chars[at]) {
            found.push(copy_piece(&chars, at, end));
            assert(spelled(found@) =~= before.push(chars@.subrange(at as int, end as int)));
            assert(spelled(found@) + rest =~= before + (seq![
                chars@.subrange(at as int, end as int),
            ] + rest));
        }
        at = end;
    }
    assert(spelled(found@) + words_from(chars@, at as int) =~= spelled(found@));
    found
}

/// Tells whether a word is spelled like this.
pub fn is_word(word: &Vec<char>, text: &str) -> (r: bool)
    ensures
        r == (word@ == text@),
{
    let mut at: usize = 0;
    for c in iter: text.chars()
        invariant
            iter.seq() == text@,
            at == iter.index(),
            at <= word@.len(),
            word@.take(at as int) == text@.take(at as int),
    {
        if at >= word.len() || word[at] != c {
            return false;
        }
        at = at + 1;
        assert(word@.take(at as int) =~= text@.take(at as int));
    }
    assert(text@.take(at as int) =~= text@);
    if at == word.len() {
        assert(word@.take(at as int) =~= word@);
    }
    at == word.len()
}

} // verus!
