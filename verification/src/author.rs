//! The author list taken from the package manifest: `:` separates authors,
//! except inside `<...>` where it belongs to an address.

use vstd::prelude::*;

verus! {

/// One step over the author string: the text written so far and the depth of
/// `<`...`>` nesting before the character.
pub open spec fn author_step(state: (Seq<char>, nat), ch: char) -> (Seq<char>, nat) {
    let (out, depth) = state;
    if depth > 0 && ch == '>' {
        (out.push(ch), (depth - 1) as nat)
    } else if ch == '<' {
        (out.push(ch), depth + 1)
    } else if depth == 0 && ch == ':' {
        (out + seq![',', ' '], depth)
    } else {
        (out.push(ch), depth)
    }
}

/// The state after reading all of `s` from the start.
pub open spec fn author_scan(s: Seq<char>) -> (Seq<char>, nat)
    decreases s.len(),
{
    if s.len() == 0 {
        (Seq::empty(), 0)
    } else {
        author_step(author_scan(s.drop_last()), s.last())
    }
}

/// The author string with every `:` outside angle brackets replaced by `, `.
pub open spec fn processed_author(s: Seq<char>) -> Seq<char> {
    author_scan(s).0
}

proof fn lemma_depth_bound(s: Seq<char>)
    ensures
        author_scan(s).1 <= s.len(),
    decreases s.len(),
{
    if s.len() > 0 {
        lemma_depth_bound(s.drop_last());
    }
}

/// Replaces all `:` with `, ` when not inside `<>`:
/// `"author1:author2:author3"` gives `"author1, author2, author3"`, and
/// `"author1 <http://website1.com>:author2"` gives
/// `"author1 <http://website1.com>, author2"`.
pub fn process_author_str(author: &str) -> (res: String)
    ensures
        res@ == processed_author(author@),
{
    let mut res = String::new();
    let mut inside_angle_braces: usize = 0;
    let n = author.unicode_len();
    let ghost chars = author@;
    for ch in it: author.chars()
        invariant
            it.seq() == chars,
            chars == author@,
            chars.len() == n,
            (res@, inside_angle_braces as nat) == author_scan(chars.take(it.index() as int)),
    {
        let ghost i = it.index();
        proof {
            assert(chars.take(i + 1).drop_last() =~= chars.take(i as int));
            lemma_depth_bound(chars.take(i as int));
        }
        if inside_angle_braces > 0 && ch == '>' {
            inside_angle_braces -= 1;
            res.push(ch);
        } else if ch == '<' {
            inside_angle_braces += 1;
            res.push(ch);
        } else if inside_angle_braces == 0 && ch == ':' {
            res.push(',');
            res.push(' ');
        } else {
            res.push(ch);
        }
        proof {
            assert(res@ =~= author_scan(chars.take(i + 1)).0);
        }
    }
    assert(chars.take(chars.len() as int) =~= chars);
    res
}

} // verus!
