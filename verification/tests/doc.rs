use structopt_derive::doc::{doc_comment_line, doc_comment_lines, merge_doc_lines, short_doc_help};
use structopt_derive::text::{chars_of, join_exec, split_exec, str_eq, string_of, trim_end_matches_exec, trim_exec, trim_start_matches_exec};

fn s(v: &[&str]) -> Vec<String> {
    v.iter().map(|x| x.to_string()).collect()
}

#[test]
fn doc_line_markers_removed() {
    assert_eq!(doc_comment_line(" Hello."), "Hello.");
    assert_eq!(doc_comment_line("/// Hello."), "Hello.");
    assert_eq!(doc_comment_line("//! Inner"), "Inner");
    assert_eq!(doc_comment_line("/** block */"), "block");
    assert_eq!(doc_comment_line("/*! block */"), "block");
    assert_eq!(doc_comment_line("////// many"), "many");
}

#[test]
fn empty_doc_line_is_paragraph_break() {
    assert_eq!(doc_comment_line(""), "\n\n");
    assert_eq!(doc_comment_line("   \t"), "\n\n");
    assert_eq!(doc_comment_line("///"), "\n\n");
}

#[test]
fn merged_lines() {
    let lines = doc_comment_lines(&s(&[" First line.", "", " Long text."]));
    assert_eq!(lines, s(&["First line.", "\n\n", "Long text."]));
    assert_eq!(merge_doc_lines(&lines), "First line.\n\nLong text.");
    assert_eq!(merge_doc_lines(&s(&["a", "b"])), "a b");
    assert_eq!(merge_doc_lines(&s(&[])), "");
}

#[test]
fn short_help_drops_periods() {
    assert_eq!(short_doc_help(" First line.. "), "First line");
    assert_eq!(short_doc_help("No period"), "No period");
    assert_eq!(short_doc_help("..."), "");
}

#[test]
fn text_helpers() {
    assert!(str_eq("abc", "abc"));
    assert!(!str_eq("abc", "abd"));
    assert!(!str_eq("abc", "ab"));
    let v = chars_of("  a b \u{3000}");
    assert_eq!(string_of(&trim_exec(&v)), "a b");
    assert_eq!(string_of(&trim_exec(&chars_of("\u{a0}x\u{85}"))), "x");
    let p = chars_of("ab");
    assert_eq!(string_of(&trim_start_matches_exec(&chars_of("ababc"), &p)), "c");
    assert_eq!(string_of(&trim_end_matches_exec(&chars_of("cabab"), &p)), "c");
    assert_eq!(string_of(&trim_start_matches_exec(&chars_of("abc"), &[])), "abc");
    let parts = split_exec(&chars_of("a\n\nb\n"), '\n');
    let strs: Vec<String> = parts.iter().map(|p| string_of(p)).collect();
    assert_eq!(strs, s(&["a", "", "b", ""]));
    assert_eq!(string_of(&join_exec(&parts, &['\n'])), "a\n\nb\n");
}

#[test]
fn trimming_twice_is_trimming_once() {
    let once = trim_exec(&chars_of(" \t x y \n"));
    let twice = trim_exec(&once);
    assert_eq!(string_of(&once), "x y");
    assert_eq!(once, twice);
}

#[test]
fn join_then_split_gives_pieces_back() {
    let pieces: Vec<Vec<char>> = vec![chars_of("a b"), chars_of(""), chars_of("c")];
    let joined = join_exec(&pieces, &['\n']);
    assert_eq!(split_exec(&joined, '\n'), pieces);
}

#[test]
fn every_help_line_is_trimmed() {
    let lines = doc_comment_lines(&s(&["  Title.  ", "", "   Body line one ", " two  "]));
    let merged = merge_doc_lines(&lines);
    for line in merged.split('\n') {
        assert_eq!(line, line.trim());
    }
    assert_eq!(merged, "Title.\n\nBody line one two");
}
