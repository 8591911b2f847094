//! The blocklist's file format: hosts-file lines of an address and a name.
//!
//! A text is cut into lines at each line feed.  A line that begins with `#`
//! is a comment.  Of every other line the second whitespace-separated token
//! is a name to refuse; a line with fewer than two tokens gives none.

use vstd::prelude::*;
use vstd::string::*;

verus! {

/// Whitespace inside a line: space, tab, carriage return, form feed.
pub open spec fn is_blank(c: char) -> bool {
    c == ' ' || c == '\t' || c == '\r' || c == '\x0c'
}

/// The first position at or after `from` whose character is blank, for
/// `blank` true, or is not blank, for `blank` false; the length of the line
/// where there is none.
pub open spec fn seek(line: Seq<char>, from: int, blank: bool) -> int
    decreases line.len() - from,
{
    if from >= line.len() {
        line.len() as int
    } else if is_blank(line[from]) == blank {
        from
    } else {
        seek(line, from + 1, blank)
    }
}

/// The second whitespace-separated token of `line`, if it has two.
pub open spec fn second_token(line: Seq<char>) -> Option<Seq<char>> {
    let first_start = seek(line, 0, false);
    let first_end = seek(line, first_start, true);
    let start = seek(line, first_end, false);
    let end = seek(line, start, true);
    if start < line.len() {
        Some(line.subrange(start, end))
    } else {
        None
    }
}

/// The name that `line` lists, if any.
pub open spec fn entry(line: Seq<char>) -> Option<Seq<char>> {
    if line.len() > 0 && line[0] == '#' {
        None
    } else {
        second_token(line)
    }
}

/// The end of the line that starts at `from`: the position of the next line
/// feed, or the length of the text.
pub open spec fn line_end(text: Seq<char>, from: int) -> int
    decreases text.len() - from,
{
    if from >= text.len() {
        text.len() as int
    } else if text[from] == '\n' {
        from
    } else {
        line_end(text, from + 1)
    }
}

/// The names listed by the lines of `text` that start at or after `from`,
/// in the order of the lines.
pub open spec fn names_from(text: Seq<char>, from: int) -> Seq<Seq<char>>
    decreases text.len() + 1 - from,
    via names_from_decreases
{
    if from >= text.len() || from < 0 {
        Seq::empty()
    } else {
        let end = line_end(text, from);
        let rest = names_from(text, end + 1);
        match entry(text.subrange(from, end)) {
            Some(name) => seq![name] + rest,
            None => rest,
        }
    }
}

#[via_fn]
proof fn names_from_decreases(text: Seq<char>, from: int) {
    if 0 <= from < text.len() {
        lemma_line_end_bounds(text, from);
    }
}

/// Every name that `text` lists, in the order of the lines.
pub open spec fn listed_names(text: Seq<char>) -> Seq<Seq<char>> {
    names_from(text, 0)
}

/// `line_end` stays inside the text and never goes back.
pub proof fn lemma_line_end_bounds(text: Seq<char>, from: int)
    requires
        0 <= from <= text.len(),
    ensures
        from <= line_end(text, from) <= text.len(),
    decreases text.len() - from,
{
    if from < text.len() && text[from] != '\n' {
        lemma_line_end_bounds(text, from + 1);
    }
}

/// Makes a `String` of the characters, in order, with
/// `String::from_iter`, the standard library's collecting of characters.
#[verifier::external_body]
fn text_of(chars: &[char]) -> (text: String)
    ensures
        text@ == chars@,
{
    String::from_iter(chars)
}

/// The characters of a text.
pub fn chars_of(text: &str) -> (chars: Vec<char>)
    ensures
        chars@ == text@,
{
    let mut chars: Vec<char> = Vec::new();
    for c in it: text.chars()
        invariant
            chars@ == it.seq().take(it.index()),
            it.seq() == text@,
    {
        chars.push(c);
    }
    chars
}

fn blank(c: char) -> (b: bool)
    ensures
        b == is_blank(c),
{
    c == ' ' || c == '\t' || c == '\r' || c == '\x0c'
}

fn seek_in(line: &[char], from: usize, blank_wanted: bool) -> (at: usize)
    requires
        from <= line@.len(),
    ensures
        at == seek(line@, from as int, blank_wanted),
        from <= at <= line@.len(),
{
    let mut at: usize = from;
    while at < line.len() && blank(line[at]) != blank_wanted
        invariant
            from <= at <= line@.len(),
            seek(line@, from as int, blank_wanted) == seek(line@, at as int, blank_wanted),
        decreases line@.len() - at,
    {
        at = at + 1;
    }
    at
}

/// The name that a line lists, if any.
pub fn entry_of(line: &[char]) -> (name: Option<String>)
    ensures
        name.deep_view() == entry(line@),
{
    if line.len() > 0 && line[0] == '#' {
        return None;
    }
    let first_start = seek_in(line, 0, false);
    let first_end = seek_in(line, first_start, true);
    let start = seek_in(line, first_end, false);
    let end = seek_in(line, start, true);
    if start < line.len() {
        Some(text_of(vstd::slice::slice_subrange(line, start, end)))
    } else {
        None
    }
}

fn line_end_in(text: &[char], from: usize) -> (at: usize)
    requires
        from <= text@.len(),
    ensures
        at == line_end(text@, from as int),
        from <= at <= text@.len(),
{
    let mut at: usize = from;
    while at < text.len() && text[at] != '\n'
        invariant
            from <= at <= text@.len(),
            line_end(text@, from as int) == line_end(text@, at as int),
        decreases text@.len() - at,
    {
        at = at + 1;
    }
    at
}

/// The names that `text` lists, in the order of their lines.
pub fn names_of(text: &str) -> (names: Vec<String>)
    ensures
        names.deep_view() == listed_names(text@),
{
    let chars = chars_of(text);
    let mut names: Vec<String> = Vec::new();
    let mut from: usize = 0;
    assert(names.deep_view() =~= Seq::<Seq<char>>::empty());
    while from < chars.len()
        invariant
            from <= chars@.len(),
            chars@ == text@,
            names.deep_view() + names_from(chars@, from as int) == listed_names(text@),
        ensures
            from >= chars@.len(),
        decreases chars@.len() - from,
    {
        let end = line_end_in(chars.as_slice(), from);
        let ghost before = names.deep_view();
        let ghost rest = names_from(chars@, end + 1);
        match entry_of(vstd::slice::slice_subrange(chars.as_slice(), from, end)) {
            Some(name) => {
                let ghost listed = name@;
                names.push(name);
                assert(names.deep_view() =~= before.push(listed));
                assert(names.deep_view() + rest =~= before + (seq![listed] + rest));
            },
            None => {},
        }
        if end == chars.len() {
            assert(rest =~= Seq::<Seq<char>>::empty());
            assert(names.deep_view() + rest =~= names.deep_view());
            from = end;
            break;
        }
        from = end + 1;
    }
    proof {
        if from >= chars@.len() {
            assert(names_from(chars@, from as int) =~= Seq::<Seq<char>>::empty());
            assert(names.deep_view() + names_from(chars@, from as int) =~= names.deep_view());
        }
    }
    names
}

} // verus!
