//! Indenting and unindenting the last line of an input field.

use crate::text::chars_of;
use vstd::prelude::*;

verus! {

/// One step of indentation: four spaces.
pub open spec fn indent_unit() -> Seq<char> {
    seq![' ', ' ', ' ', ' ']
}

/// The text without one line ending at its very end: a line feed, or a
/// carriage return followed by a line feed.
pub open spec fn without_final_ending(text: Seq<char>) -> Seq<char> {
    if text.len() >= 2 && text[text.len() - 2] == '\r' && text.last() == '\n' {
        text.take(text.len() - 2)
    } else if text.len() >= 1 && text.last() == '\n' {
        text.drop_last()
    } else {
        text
    }
}

/// Where the last line of `body` begins: behind its last line feed, or at
/// the start where it has none.
pub open spec fn last_line_start(body: Seq<char>) -> int
    decreases body.len(),
{
    if body.len() == 0 {
        0
    } else if body.last() == '\n' {
        body.len() as int
    } else {
        last_line_start(body.drop_last())
    }
}

/// The last line of a text, without its line ending. The empty text has
/// no line; a text that ends in a line ending has the line before it.
pub open spec fn last_line(text: Seq<char>) -> Option<Seq<char>> {
    if text.len() == 0 {
        None
    } else {
        let body = without_final_ending(text);
        Some(body.skip(last_line_start(body)))
    }
}

/// The line ends with one step of indentation.
pub open spec fn ends_with_indent(line: Seq<char>) -> bool {
    line.len() >= 4 && line.skip(line.len() - 4) == indent_unit()
}

/// What a back-tab leaves of a field. Where the last line starts with a
/// tab character the field loses its last character; else, where the last
/// line ends with four spaces, the field loses its last four characters;
/// else it stays.
pub open spec fn unindented(text: Seq<char>) -> Seq<char> {
    match last_line(text) {
        None => text,
        Some(line) => if line.len() > 0 && line[0] == '\t' {
            text.drop_last()
        } else if ends_with_indent(line) {
            text.take(text.len() - 4)
        } else {
            text
        },
    }
}

/// Appends one step of indentation to the field.
pub fn indent(field: &mut String)
    ensures
        final(field)@ == old(field)@ + indent_unit(),
{
    let mut n: usize = 0;
    while n < 4
        invariant
            n <= 4,
            field@ == old(field)@ + indent_unit().take(n as int),
        decreases 4 - n,
    {
        field.push(' ');
        n += 1;
    }
}

/// Start and end of the last line within `chars`, for a text that is not
/// empty.
fn last_line_range(chars: &Vec<char>) -> (range: (usize, usize))
    requires
        chars@.len() > 0,
    ensures
        range.0 <= range.1 <= chars@.len(),
        last_line(chars@) == Some(chars@.subrange(range.0 as int, range.1 as int)),
{
    let len: usize = chars.len();
    let end: usize = if len >= 2 && chars[len - 2] == '\r' && chars[len - 1] == '\n' {
        len - 2
    } else if chars[len - 1] == '\n' {
        len - 1
    } else {
        len
    };
    let ghost body = without_final_ending(chars@);
    let mut start: usize = end;
    assert(body.take(start as int) =~= body);
    while start > 0 && chars[start - 1] != '\n'
        invariant
            start <= end <= chars@.len(),
            body == chars@.take(end as int),
            last_line_start(body) == last_line_start(body.take(start as int)),
        decreases start,
    {
        proof {
            let part = body.take(start as int);
            assert(part.drop_last() =~= body.take(start - 1));
        }
        start -= 1;
    }
    (start, end)
}

/// Takes one step of indentation back on the last line of the field.
pub fn unindent(field: &mut String)
    ensures
        final(field)@ == unindented(old(field)@),
{
    let chars = chars_of(field.as_str());
    if chars.len() == 0 {
        return ;
    }
    let (start, end) = last_line_range(&chars);
    let ghost line = chars@.subrange(start as int, end as int);
    if start < end && chars[start] == '\t' {
        let _ = field.pop();
    } else if end - start >= 4 && chars[end - 4] == ' ' && chars[end - 3] == ' ' && chars[end - 2]
        == ' ' && chars[end - 1] == ' ' {
        proof {
            let tail = line.skip(line.len() - 4);
            assert(tail =~= indent_unit());
        }
        let mut n: usize = 0;
        while n < 4
            invariant
                n <= 4,
                old(field)@.len() >= 4,
                field@ == old(field)@.take(old(field)@.len() - n),
            decreases 4 - n,
        {
            let _ = field.pop();
            n += 1;
        }
    }
}

} // verus!
