//! Verified helpers on character sequences.

use vstd::prelude::*;

verus! {

/// Compares two strings character by character.
pub fn str_eq(a: &str, b: &str) -> (res: bool)
    ensures
        res == (a@ == b@),
{
    let n = a.unicode_len();
    let m = b.unicode_len();
    if n != m {
        return false;
    }
    let mut i: usize = 0;
    while i < n
        invariant
            n == a@.len(),
            m == b@.len(),
            n == m,
            i <= n,
            forall|j: int| 0 <= j < i ==> a@[j] == b@[j],
        decreases n - i,
    {
        if a.get_char(i) != b.get_char(i) {
            return false;
        }
        i = i + 1;
    }
    assert(a@ =~= b@);
    true
}

} // verus!

verus! {

/// `String::push`: appends one character at the end.
pub assume_specification[ String::push ](s: &mut String, ch: char)
    ensures
        final(s)@ == old(s)@.push(ch),
;

} // verus!

verus! {

/// The characters of a string, in order.
pub fn chars_of(s: &str) -> (res: Vec<char>)
    ensures
        res@ == s@,
{
    let mut res: Vec<char> = Vec::new();
    let ghost chars = s@;
    for ch in it: s.chars()
        invariant
            it.seq() == chars,
            chars == s@,
            res@ == chars.take(it.index() as int),
    {
        let ghost i = it.index();
        res.push(ch);
        proof {
            assert(res@ =~= chars.take(i + 1));
        }
    }
    assert(chars.take(chars.len() as int) =~= chars);
    res
}

/// The string made of the given characters, in order.
pub fn string_of(v: &[char]) -> (res: String)
    ensures
        res@ == v@,
{
    let mut res = String::new();
    let mut i: usize = 0;
    while i < v.len()
        invariant
            i <= v.len(),
            res@ == v@.take(i as int),
        decreases v.len() - i,
    {
        res.push(v[i]);
        proof {
            assert(res@ =~= v@.take(i + 1));
        }
        i = i + 1;
    }
    assert(v@.take(v.len() as int) =~= v@);
    res
}

/// The characters of `v` from index `lo` up to, not including, `hi`.
pub fn copy_range(v: &[char], lo: usize, hi: usize) -> (res: Vec<char>)
    requires
        lo <= hi <= v@.len(),
    ensures
        res@ == v@.subrange(lo as int, hi as int),
{
    let mut res: Vec<char> = Vec::new();
    let mut i: usize = lo;
    while i < hi
        invariant
            lo <= i <= hi,
            hi <= v@.len(),
            res@ == v@.subrange(lo as int, i as int),
        decreases hi - i,
    {
        res.push(v[i]);
        proof {
            assert(res@ =~= v@.subrange(lo as int, i + 1));
        }
        i = i + 1;
    }
    res
}

/// Characters with the Unicode `White_Space` property.
pub open spec fn is_white_space(c: char) -> bool {
    ||| ('\u{9}' <= c && c <= '\u{d}')
    ||| c == ' '
    ||| c == '\u{85}'
    ||| c == '\u{a0}'
    ||| c == '\u{1680}'
    ||| ('\u{2000}' <= c && c <= '\u{200a}')
    ||| c == '\u{2028}'
    ||| c == '\u{2029}'
    ||| c == '\u{202f}'
    ||| c == '\u{205f}'
    ||| c == '\u{3000}'
}

/// `char::is_whitespace`: true exactly for the characters with the Unicode
/// `White_Space` property, listed in `is_white_space`.
#[verifier::external_body]
pub(crate) fn char_is_whitespace(c: char) -> (res: bool)
    ensures
        res == is_white_space(c),
{
    c.is_whitespace()
}

/// `s` without its leading white space.
pub open spec fn trim_start_ws(s: Seq<char>) -> Seq<char>
    decreases s.len(),
{
    if s.len() > 0 && is_white_space(s[0]) {
        trim_start_ws(s.drop_first())
    } else {
        s
    }
}

/// `s` without its trailing white space.
pub open spec fn trim_end_ws(s: Seq<char>) -> Seq<char>
    decreases s.len(),
{
    if s.len() > 0 && is_white_space(s.last()) {
        trim_end_ws(s.drop_last())
    } else {
        s
    }
}

/// `s` without leading and trailing white space.
pub open spec fn trim_ws(s: Seq<char>) -> Seq<char> {
    trim_start_ws(trim_end_ws(s))
}

/// `s` with every leading copy of `p` removed, one after the other.
pub open spec fn trim_start_matches(s: Seq<char>, p: Seq<char>) -> Seq<char>
    decreases s.len(),
{
    if p.len() > 0 && p.len() <= s.len() && s.take(p.len() as int) == p {
        trim_start_matches(s.skip(p.len() as int), p)
    } else {
        s
    }
}

/// `s` with every trailing copy of `p` removed, one after the other.
pub open spec fn trim_end_matches(s: Seq<char>, p: Seq<char>) -> Seq<char>
    decreases s.len(),
{
    if p.len() > 0 && p.len() <= s.len() && s.skip(s.len() - p.len()) == p {
        trim_end_matches(s.take(s.len() - p.len()), p)
    } else {
        s
    }
}

/// Whether `p` occurs in `s` at index `i`.
fn occurs_at(s: &[char], i: usize, p: &[char]) -> (res: bool)
    requires
        i <= s@.len(),
    ensures
        res == (p@.len() <= s@.len() - i && s@.subrange(i as int, i + p@.len()) == p@),
{
    if p.len() > s.len() - i {
        return false;
    }
    let mut k: usize = 0;
    while k < p.len()
        invariant
            i <= s@.len(),
            s@.len() == s.len(),
            p@.len() <= s@.len() - i,
            k <= p@.len(),
            forall|j: int| 0 <= j < k ==> s@[i + j] == p@[j],
        decreases p.len() - k,
    {
        if s[i + k] != p[k] {
            assert(s@.subrange(i as int, i + p@.len())[k as int] != p@[k as int]);
            return false;
        }
        k = k + 1;
    }
    assert(s@.subrange(i as int, i + p@.len()) =~= p@);
    true
}

/// Removes every leading copy of `p` (Rust's `str::trim_start_matches`).
pub fn trim_start_matches_exec(s: &[char], p: &[char]) -> (res: Vec<char>)
    ensures
        res@ == trim_start_matches(s@, p@),
{
    if p.len() == 0 {
        return copy_range(s, 0, s.len());
    }
    let mut i: usize = 0;
    assert(s@.skip(0) =~= s@);
    let mut found = occurs_at(s, i, p);
    while found
        invariant
            i <= s@.len(),
            s@.len() == s.len(),
            p@.len() > 0,
            found == (p@.len() <= s@.len() - i && s@.subrange(i as int, i + p@.len()) == p@),
            trim_start_matches(s@.skip(i as int), p@) == trim_start_matches(s@, p@),
        decreases s@.len() - i,
    {
        assert(s@.skip(i as int).take(p@.len() as int) =~= s@.subrange(i as int, i + p@.len()));
        assert(s@.skip(i as int).skip(p@.len() as int) =~= s@.skip(i + p@.len()));
        i = i + p.len();
        found = occurs_at(s, i, p);
    }
    assert(!(s@.skip(i as int).take(p@.len() as int) == p@) || p@.len() > s@.skip(i as int).len()) by {
        if p@.len() <= s@.skip(i as int).len() {
            assert(s@.skip(i as int).take(p@.len() as int) =~= s@.subrange(i as int, i + p@.len()));
        }
    }
    let res = copy_range(s, i, s.len());
    assert(res@ =~= s@.skip(i as int));
    res
}

/// Removes every trailing copy of `p` (Rust's `str::trim_end_matches`).
pub fn trim_end_matches_exec(s: &[char], p: &[char]) -> (res: Vec<char>)
    ensures
        res@ == trim_end_matches(s@, p@),
{
    if p.len() == 0 {
        return copy_range(s, 0, s.len());
    }
    let mut j: usize = s.len();
    assert(s@.take(j as int) =~= s@);
    while j >= p.len() && occurs_at(s, j - p.len(), p)
        invariant
            j <= s@.len(),
            p@.len() > 0,
            trim_end_matches(s@.take(j as int), p@) == trim_end_matches(s@, p@),
        decreases j,
    {
        let ghost t = s@.take(j as int);
        assert(t.skip(t.len() - p@.len()) =~= s@.subrange(j - p@.len(), j as int));
        assert(t.take(t.len() - p@.len()) =~= s@.take(j - p@.len()));
        j = j - p.len();
    }
    let ghost t = s@.take(j as int);
    if j >= p.len() {
        assert(t.skip(t.len() - p@.len()) =~= s@.subrange(j - p@.len(), j as int));
    }
    let res = copy_range(s, 0, j);
    assert(res@ =~= t);
    res
}

/// Removes leading and trailing white space (Rust's `str::trim`).
pub fn trim_exec(s: &[char]) -> (res: Vec<char>)
    ensures
        res@ == trim_ws(s@),
{
    let mut j: usize = s.len();
    assert(s@.take(j as int) =~= s@);
    while j > 0 && char_is_whitespace(s[j - 1])
        invariant
            j <= s@.len(),
            trim_end_ws(s@.take(j as int)) == trim_end_ws(s@),
        decreases j,
    {
        assert(s@.take(j as int).drop_last() =~= s@.take(j - 1));
        j = j - 1;
    }
    let ghost e = s@.take(j as int);
    assert(trim_end_ws(e) == e);
    let mut i: usize = 0;
    assert(e.skip(0) =~= e);
    while i < j && char_is_whitespace(s[i])
        invariant
            i <= j <= s@.len(),
            e == s@.take(j as int),
            trim_start_ws(e.skip(i as int)) == trim_start_ws(e),
        decreases j - i,
    {
        assert(e.skip(i as int).drop_first() =~= e.skip(i + 1));
        i = i + 1;
    }
    let res = copy_range(s, i, j);
    assert(res@ =~= e.skip(i as int));
    res
}

} // verus!

verus! {

/// The contents of each vector, in order.
pub open spec fn views(v: Seq<Vec<char>>) -> Seq<Seq<char>> {
    v.map_values(|x: Vec<char>| x@)
}

/// The pieces of `s` between occurrences of `c` (Rust's `str::split` with a
/// character): one more piece than there are occurrences, empty pieces kept.
pub open spec fn split_on(s: Seq<char>, c: char) -> Seq<Seq<char>>
    decreases s.len(),
{
    if s.len() == 0 {
        seq![Seq::empty()]
    } else {
        let r = split_on(s.drop_last(), c);
        if s.last() == c {
            r.push(Seq::empty())
        } else {
            r.update(r.len() - 1, r.last().push(s.last()))
        }
    }
}

/// The pieces written one after the other with `sep` between neighbours
/// (Rust's `join` on a slice of strings).
pub open spec fn join_with(parts: Seq<Seq<char>>, sep: Seq<char>) -> Seq<char>
    decreases parts.len(),
{
    if parts.len() == 0 {
        Seq::empty()
    } else if parts.len() == 1 {
        parts[0]
    } else {
        join_with(parts.drop_last(), sep) + sep + parts.last()
    }
}

pub proof fn lemma_split_nonempty(s: Seq<char>, c: char)
    ensures
        split_on(s, c).len() >= 1,
    decreases s.len(),
{
    if s.len() > 0 {
        lemma_split_nonempty(s.drop_last(), c);
    }
}

/// Splits `s` at every occurrence of `c`.
pub fn split_exec(s: &[char], c: char) -> (res: Vec<Vec<char>>)
    ensures
        views(res@) == split_on(s@, c),
{
    let mut parts: Vec<Vec<char>> = Vec::new();
    let mut cur: Vec<char> = Vec::new();
    let mut i: usize = 0;
    assert(views(parts@).push(cur@) =~= split_on(s@.take(0), c));
    while i < s.len()
        invariant
            i <= s@.len(),
            views(parts@).push(cur@) == split_on(s@.take(i as int), c),
        decreases s.len() - i,
    {
        let ghost t = s@.take(i + 1);
        assert(t.drop_last() =~= s@.take(i as int));
        proof {
            lemma_split_nonempty(s@.take(i as int), c);
        }
        if s[i] == c {
            let done = cur;
            parts.push(done);
            cur = Vec::new();
            assert(views(parts@).push(cur@) =~= split_on(t, c));
        } else {
            cur.push(s[i]);
            assert(views(parts@).push(cur@) =~= split_on(t, c));
        }
        i = i + 1;
    }
    assert(s@.take(s@.len() as int) =~= s@);
    let ghost before = views(parts@).push(cur@);
    parts.push(cur);
    assert(views(parts@) =~= before);
    parts
}

/// Writes the pieces one after the other with `sep` between neighbours.
pub fn join_exec(parts: &Vec<Vec<char>>, sep: &[char]) -> (res: Vec<char>)
    ensures
        res@ == join_with(views(parts@), sep@),
{
    let mut res: Vec<char> = Vec::new();
    let mut i: usize = 0;
    while i < parts.len()
        invariant
            i <= parts@.len(),
            res@ == join_with(views(parts@).take(i as int), sep@),
        decreases parts.len() - i,
    {
        let ghost t = views(parts@).take(i + 1);
        assert(t.drop_last() =~= views(parts@).take(i as int));
        if i > 0 {
            let mut k: usize = 0;
            let ghost r0 = res@;
            while k < sep.len()
                invariant
                    k <= sep@.len(),
                    res@ == r0 + sep@.take(k as int),
                decreases sep.len() - k,
            {
                res.push(sep[k]);
                assert(res@ =~= r0 + sep@.take(k + 1));
                k = k + 1;
            }
            assert(sep@.take(sep@.len() as int) =~= sep@);
        }
        let ghost r1 = res@;
        let piece = &parts[i];
        let mut k: usize = 0;
        while k < piece.len()
            invariant
                k <= piece@.len(),
                res@ == r1 + piece@.take(k as int),
            decreases piece.len() - k,
        {
            res.push(piece[k]);
            assert(res@ =~= r1 + piece@.take(k + 1));
            k = k + 1;
        }
        assert(piece@.take(piece@.len() as int) =~= piece@);
        assert(t.last() == piece@);
        if i == 0 {
            assert(res@ =~= join_with(t, sep@));
        } else {
            assert(res@ =~= join_with(t, sep@));
        }
        i = i + 1;
    }
    assert(views(parts@).take(parts@.len() as int) =~= views(parts@));
    res
}

} // verus!
