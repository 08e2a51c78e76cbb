use structopt_derive::author::process_author_str;

#[test]
fn authors_separated_by_colons() {
    assert_eq!(process_author_str("author1:author2:author3"), "author1, author2, author3");
}

#[test]
fn colon_inside_angle_brackets_is_kept() {
    assert_eq!(
        process_author_str("author1 <http://website1.com>:author2"),
        "author1 <http://website1.com>, author2"
    );
}

#[test]
fn author_without_colon_is_unchanged() {
    assert_eq!(process_author_str("Jane Doe <jane@example.com>"), "Jane Doe <jane@example.com>");
    assert_eq!(process_author_str(""), "");
}

#[test]
fn nested_angle_brackets() {
    assert_eq!(process_author_str("a <<x:y>:z>:b"), "a <<x:y>:z>, b");
}

#[test]
fn closing_bracket_at_depth_zero_is_plain_text() {
    assert_eq!(process_author_str("a>:b"), "a>, b");
}

#[test]
fn unclosed_bracket_keeps_following_colons() {
    assert_eq!(process_author_str("a <b:c"), "a <b:c");
}

#[test]
fn author_lists_concatenate() {
    let a = "x <m:n>:y";
    let b = ":z";
    let whole = format!("{}{}", a, b);
    assert_eq!(process_author_str(&whole), format!("{}{}", process_author_str(a), process_author_str(b)));
}

#[test]
fn non_ascii_authors() {
    assert_eq!(process_author_str("Zoë:Jürgen"), "Zoë, Jürgen");
}
