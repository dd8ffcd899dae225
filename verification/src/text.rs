//! Text on which the snippet manager works: characters of a string,
//! substring tests, splitting and joining of tag lists.

use vstd::prelude::*;
use vstd::string::StringExecFns;

verus! {

/// `String::push` appends one character at the end.
pub assume_specification[ String::push ](text: &mut String, ch: char)
    ensures
        final(text)@ == old(text)@.push(ch),
;

/// `String::pop` removes the last character and returns it, or returns
/// `None` and leaves an empty string as it is.
pub assume_specification[ String::pop ](text: &mut String) -> (last: Option<char>)
    ensures
        match last {
            Some(ch) => old(text)@.len() > 0 && ch == old(text)@.last() && final(text)@ == old(
                text,
            )@.drop_last(),
            None => old(text)@.len() == 0 && final(text)@ == old(text)@,
        },
;

/// The characters of a string, in order.
pub fn chars_of(text: &str) -> (chars: Vec<char>)
    ensures
        chars@ == text@,
{
    let mut chars: Vec<char> = Vec::new();
    for ch in it: text.chars()
        invariant
            chars@ == it.seq().take(it.index() as int),
            it.seq() == text@,
    {
        chars.push(ch);
    }
    chars
}

/// What `str::to_lowercase` makes of a text.
pub uninterp spec fn lowercase(text: Seq<char>) -> Seq<char>;

/// `str::to_lowercase` returns the lowercase form of a text as a new
/// string. The form depends on the characters alone, and that of the empty
/// text is empty.
pub assume_specification[ str::to_lowercase ](text: &str) -> (lowered: String)
    ensures
        lowered@ == lowercase(text@),
        text@.len() == 0 ==> lowered@.len() == 0,
;

/// `needle` stands in `hay` from position `at` on.
pub open spec fn occurs_at(needle: Seq<char>, hay: Seq<char>, at: int) -> bool {
    &&& 0 <= at
    &&& at + needle.len() <= hay.len()
    &&& hay.subrange(at, at + needle.len()) == needle
}

/// `needle` stands somewhere in `hay`, as a run of adjacent characters.
pub open spec fn is_substring(needle: Seq<char>, hay: Seq<char>) -> bool {
    exists|at: int| occurs_at(needle, hay, at)
}

fn occurs_here(hay: &Vec<char>, needle: &Vec<char>, at: usize) -> (found: bool)
    requires
        at + needle.len() <= hay.len(),
    ensures
        found == occurs_at(needle@, hay@, at as int),
{
    let mut k: usize = 0;
    while k < needle.len()
        invariant
            k <= needle.len(),
            at + needle.len() <= hay.len(),
            forall|j: int| 0 <= j < k ==> hay@[at + j] == needle@[j],
        decreases needle.len() - k,
    {
        if hay[at + k] != needle[k] {
            return false;
        }
        k += 1;
    }
    assert(hay@.subrange(at as int, at + needle.len()) =~= needle@);
    true
}

fn contains_chars(hay: &Vec<char>, needle: &Vec<char>) -> (found: bool)
    ensures
        found == is_substring(needle@, hay@),
{
    if needle.len() > hay.len() {
        return false;
    }
    let last: usize = hay.len() - needle.len();
    let mut at: usize = 0;
    while at < last
        invariant
            at <= last,
            last == hay.len() - needle.len(),
            needle.len() <= hay.len(),
            forall|j: int| 0 <= j < at ==> !occurs_at(needle@, hay@, j),
        decreases last - at,
    {
        if occurs_here(hay, needle, at) {
            return true;
        }
        at += 1;
    }
    occurs_here(hay, needle, last)
}

/// Whether `needle` occurs in `hay`, character for character. The empty
/// text occurs in every text.
pub fn contains_text(hay: &str, needle: &str) -> (found: bool)
    ensures
        found == is_substring(needle@, hay@),
{
    let hay_chars = chars_of(hay);
    let needle_chars = chars_of(needle);
    contains_chars(&hay_chars, &needle_chars)
}

/// The empty text occurs in every text, at its start.
pub proof fn lemma_empty_is_substring(hay: Seq<char>)
    ensures
        is_substring(Seq::<char>::empty(), hay),
{
    assert(hay.subrange(0, 0) =~= Seq::<char>::empty());
    assert(occurs_at(Seq::<char>::empty(), hay, 0));
}

/// The views of a list of strings.
pub open spec fn texts_of(strings: Seq<String>) -> Seq<Seq<char>> {
    Seq::new(strings.len(), |i: int| strings[i]@)
}

/// The pieces of `text` between occurrences of `sep`. A text without
/// `sep` is one piece; two adjacent separators, or one at either end,
/// give an empty piece.
pub open spec fn split_on(text: Seq<char>, sep: char) -> Seq<Seq<char>>
    decreases text.len(),
{
    if text.len() == 0 {
        seq![Seq::<char>::empty()]
    } else {
        let before = split_on(text.drop_last(), sep);
        if text.last() == sep {
            before.push(Seq::<char>::empty())
        } else {
            before.drop_last().push(before.last().push(text.last()))
        }
    }
}

/// The pieces put together again, with `sep` between neighbours.
pub open spec fn join_with(pieces: Seq<Seq<char>>, sep: char) -> Seq<char>
    decreases pieces.len(),
{
    if pieces.len() == 0 {
        Seq::<char>::empty()
    } else if pieces.len() == 1 {
        pieces[0]
    } else {
        join_with(pieces.drop_last(), sep).push(sep) + pieces.last()
    }
}

/// A split has at least one piece, no piece holds the separator, and the
/// pieces joined by the separator are the text again.
pub proof fn lemma_split_join(text: Seq<char>, sep: char)
    ensures
        split_on(text, sep).len() >= 1,
        forall|i: int, j: int|
            0 <= i < split_on(text, sep).len() && 0 <= j < split_on(text, sep)[i].len()
                ==> split_on(text, sep)[i][j] != sep,
        join_with(split_on(text, sep), sep) == text,
    decreases text.len(),
{
    if text.len() > 0 {
        let shorter = text.drop_last();
        lemma_split_join(shorter, sep);
        let before = split_on(shorter, sep);
        let pieces = split_on(text, sep);
        if text.last() == sep {
            assert(pieces.drop_last() =~= before);
        } else {
            let grown = before.last().push(text.last());
            assert(pieces.drop_last() =~= before.drop_last());
            if before.len() > 1 {
                let head = join_with(before.drop_last(), sep).push(sep);
                assert(head + grown =~= (head + before.last()).push(text.last()));
            }
        }
    }
}

/// Splits `text` at every occurrence of `sep`, keeping empty pieces.
pub fn split_text(text: &str, sep: char) -> (pieces: Vec<String>)
    ensures
        texts_of(pieces@) == split_on(text@, sep),
{
    let mut pieces: Vec<String> = Vec::new();
    let mut current = String::new();
    for ch in it: text.chars()
        invariant
            it.seq() == text@,
            texts_of(pieces@).push(current@) == split_on(it.seq().take(it.index() as int), sep),
    {
        let ghost seen = it.seq().take(it.index() as int);
        let ghost next = it.seq().take(it.index() + 1);
        assert(next.drop_last() =~= seen);
        if ch == sep {
            pieces.push(current);
            current = String::new();
        } else {
            current.push(ch);
        }
    }
    pieces.push(current);
    assert(text@.take(text@.len() as int) =~= text@);
    pieces
}

/// Joins the pieces with `sep` between neighbours.
pub fn join_texts(pieces: &Vec<String>, sep: char) -> (text: String)
    ensures
        text@ == join_with(texts_of(pieces@), sep),
{
    let mut text = String::new();
    let mut i: usize = 0;
    while i < pieces.len()
        invariant
            i <= pieces.len(),
            text@ == join_with(texts_of(pieces@).take(i as int), sep),
        decreases pieces.len() - i,
    {
        let ghost done = texts_of(pieces@).take(i as int);
        let ghost grown = texts_of(pieces@).take(i + 1);
        assert(grown.drop_last() =~= done);
        if i > 0 {
            text.push(sep);
        }
        text.append(pieces[i].as_str());
        i += 1;
    }
    assert(texts_of(pieces@).take(pieces.len() as int) =~= texts_of(pieces@));
    text
}

} // verus!
