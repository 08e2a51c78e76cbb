//! Help text taken from doc comments: each `#[doc = "..."]` value is cleaned
//! of comment markers and white space, and the values are merged into one
//! text; a blank line after the first paragraph splits it into a short help
//! and a long help.

use vstd::prelude::*;
use crate::text::{chars_of, join_exec, join_with, split_exec, split_on, string_of, trim_end_matches, trim_end_matches_exec, trim_exec, trim_start_matches, trim_start_matches_exec, trim_ws, views};

verus! {

/// The contents of each string, in order.
pub open spec fn string_views(v: Seq<String>) -> Seq<Seq<char>> {
    v.map_values(|s: String| s@)
}

/// The text of one doc attribute: comment markers removed from the start
/// (`//!`, `///`, `/*!`, `/**`, in that order) and from the end (`*/`), then
/// white space trimmed.
pub open spec fn doc_text(value: Seq<char>) -> Seq<char> {
    let a = trim_start_matches(value, seq!['/', '/', '!']);
    let b = trim_start_matches(a, seq!['/', '/', '/']);
    let c = trim_start_matches(b, seq!['/', '*', '!']);
    let d = trim_start_matches(c, seq!['/', '*', '*']);
    let e = trim_end_matches(d, seq!['*', '/']);
    trim_ws(e)
}

/// The line that one doc attribute contributes: its text, or a paragraph
/// break (`"\n\n"`) when the text is empty.
pub open spec fn doc_line(value: Seq<char>) -> Seq<char> {
    if doc_text(value).len() == 0 {
        seq!['\n', '\n']
    } else {
        doc_text(value)
    }
}

/// The lines of a list of doc attribute values.
pub open spec fn doc_lines(values: Seq<Seq<char>>) -> Seq<Seq<char>> {
    values.map_values(|v: Seq<char>| doc_line(v))
}

/// All lines joined by spaces, then every line of the result trimmed.
pub open spec fn merged_doc(lines: Seq<Seq<char>>) -> Seq<char> {
    join_with(
        split_on(join_with(lines, seq![' ']), '\n').map_values(|l: Seq<char>| trim_ws(l)),
        seq!['\n'],
    )
}

/// Whether the doc comment has a short help and a long help: more than two
/// lines, of which the second is a paragraph break.
pub open spec fn doc_split_expected(lines: Seq<Seq<char>>) -> bool {
    lines.len() > 2 && lines[1] == seq!['\n', '\n']
}

/// The short help: the first line, trimmed, without trailing periods.
pub open spec fn short_doc(first: Seq<char>) -> Seq<char> {
    trim_end_matches(trim_ws(first), seq!['.'])
}

/// The line that one `#[doc = "..."]` value contributes.
pub fn doc_comment_line(value: &str) -> (res: String)
    ensures
        res@ == doc_line(value@),
{
    let v = chars_of(value);
    let p1: [char; 3] = ['/', '/', '!'];
    let p2: [char; 3] = ['/', '/', '/'];
    let p3: [char; 3] = ['/', '*', '!'];
    let p4: [char; 3] = ['/', '*', '*'];
    let p5: [char; 2] = ['*', '/'];
    assert(p1@ == seq!['/', '/', '!']);
    assert(p2@ == seq!['/', '/', '/']);
    assert(p3@ == seq!['/', '*', '!']);
    assert(p4@ == seq!['/', '*', '*']);
    assert(p5@ == seq!['*', '/']);
    let a = trim_start_matches_exec(v.as_slice(), p1.as_slice());
    let b = trim_start_matches_exec(a.as_slice(), p2.as_slice());
    let c = trim_start_matches_exec(b.as_slice(), p3.as_slice());
    let d = trim_start_matches_exec(c.as_slice(), p4.as_slice());
    let e = trim_end_matches_exec(d.as_slice(), p5.as_slice());
    let t = trim_exec(e.as_slice());
    if t.len() == 0 {
        let mut s = String::new();
        s.push('\n');
        s.push('\n');
        assert(s@ =~= seq!['\n', '\n']);
        s
    } else {
        string_of(t.as_slice())
    }
}

/// The lines of a list of doc attribute values.
pub fn doc_comment_lines(values: &Vec<String>) -> (res: Vec<String>)
    ensures
        string_views(res@) == doc_lines(string_views(values@)),
{
    let mut res: Vec<String> = Vec::new();
    let mut i: usize = 0;
    while i < values.len()
        invariant
            i <= values@.len(),
            res@.len() == i,
            string_views(res@) == doc_lines(string_views(values@)).take(i as int),
        decreases values.len() - i,
    {
        let line = doc_comment_line(values[i].as_str());
        let ghost prev = res@;
        res.push(line);
        assert(res@ == prev.push(line));
        assert(string_views(res@)[i as int] == doc_lines(string_views(values@))[i as int]);
        assert(string_views(res@) =~= doc_lines(string_views(values@)).take(i + 1));
        i = i + 1;
    }
    assert(doc_lines(string_views(values@)).take(values@.len() as int) =~= doc_lines(string_views(values@)));
    res
}

/// The lines joined by spaces, then each resulting line trimmed and the
/// lines joined again by newlines.
pub fn merge_doc_lines(lines: &Vec<String>) -> (res: String)
    ensures
        res@ == merged_doc(string_views(lines@)),
{
    let mut parts: Vec<Vec<char>> = Vec::new();
    let mut i: usize = 0;
    while i < lines.len()
        invariant
            i <= lines@.len(),
            parts@.len() == i,
            views(parts@) == string_views(lines@).take(i as int),
        decreases lines.len() - i,
    {
        let c = chars_of(lines[i].as_str());
        let ghost prev = parts@;
        parts.push(c);
        assert(parts@ == prev.push(c));
        assert(views(parts@)[i as int] == string_views(lines@)[i as int]);
        assert(views(parts@) =~= string_views(lines@).take(i + 1));
        i = i + 1;
    }
    assert(string_views(lines@).take(lines@.len() as int) =~= string_views(lines@));
    let space: [char; 1] = [' '];
    assert(space@ == seq![' ']);
    let joined = join_exec(&parts, space.as_slice());
    let pieces = split_exec(joined.as_slice(), '\n');
    let ghost split = split_on(joined@, '\n');
    let mut trimmed: Vec<Vec<char>> = Vec::new();
    let mut k: usize = 0;
    while k < pieces.len()
        invariant
            k <= pieces@.len(),
            views(pieces@) == split,
            trimmed@.len() == k,
            views(trimmed@) == split.map_values(|l: Seq<char>| trim_ws(l)).take(k as int),
        decreases pieces.len() - k,
    {
        let t = trim_exec(pieces[k].as_slice());
        let ghost prev = trimmed@;
        trimmed.push(t);
        assert(trimmed@ == prev.push(t));
        assert(pieces@[k as int]@ == split[k as int]);
        assert(views(trimmed@)[k as int] == split.map_values(|l: Seq<char>| trim_ws(l))[k as int]);
        assert(views(trimmed@) =~= split.map_values(|l: Seq<char>| trim_ws(l)).take(k + 1));
        k = k + 1;
    }
    assert(split.map_values(|l: Seq<char>| trim_ws(l)).take(pieces@.len() as int)
        =~= split.map_values(|l: Seq<char>| trim_ws(l)));
    let newline: [char; 1] = ['\n'];
    assert(newline@ == seq!['\n']);
    let merged = join_exec(&trimmed, newline.as_slice());
    string_of(merged.as_slice())
}

/// The short help taken from the first line.
pub fn short_doc_help(first: &str) -> (res: String)
    ensures
        res@ == short_doc(first@),
{
    let v = chars_of(first);
    let t = trim_exec(v.as_slice());
    let dot: [char; 1] = ['.'];
    assert(dot@ == seq!['.']);
    let s = trim_end_matches_exec(t.as_slice(), dot.as_slice());
    string_of(s.as_slice())
}

} // verus!
