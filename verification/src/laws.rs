//! What holds of the attribute rules for every input.

use vstd::prelude::*;
use crate::author::{author_scan, author_step, processed_author};
use crate::text::{
    is_white_space, join_with, lemma_split_nonempty, split_on, trim_end_matches, trim_end_ws, trim_start_matches, trim_start_ws,
    trim_ws,
};
use crate::doc::{doc_line, doc_lines, doc_text, merged_doc};
use crate::parser::{parser_from_spec, parser_kind_named, ParserFunc, ParserKind, ParserSpec};
use crate::casing::{casing_from_lit, casing_named, unraw};
use crate::error::{AttrErrorKindView, AttrErrorView};
use crate::doc::short_doc;
use crate::attrs::{
    apply_attr, apply_attrs, arg_ty, attrs_new, attrs_of_field, attrs_of_struct, check_field,
    doc_comment_methods, doc_methods, explicit_methods, has_named, law_refusal_is_final,
    law_first_named, lit_or_env_method, opt_seq, opt_sp_view, opt_string_view, positional, push_doc, top_level, AttrsView, Kind,
    MethodArgsView, MethodView, PackageEnv, StructOptAttr, Ty,
};
use crate::casing::{translated, CasingStyle, NameView};
use crate::tokens::Sp;
use proc_macro2::Span;

verus! {

/// Every `:` replaced by `, `, everything else kept.
pub open spec fn colons_to_commas(s: Seq<char>) -> Seq<char>
    decreases s.len(),
{
    if s.len() == 0 {
        Seq::empty()
    } else if s.last() == ':' {
        colons_to_commas(s.drop_last()) + seq![',', ' ']
    } else {
        colons_to_commas(s.drop_last()).push(s.last())
    }
}

/// An author string without `:` is kept as it is.
pub proof fn law_author_without_colon_unchanged(s: Seq<char>)
    requires
        !s.contains(':'),
    ensures
        processed_author(s) == s,
    decreases s.len(),
{
    if s.len() > 0 {
        assert(!s.drop_last().contains(':')) by {
            if s.drop_last().contains(':') {
                let k = choose|k: int| 0 <= k < s.drop_last().len() && s.drop_last()[k] == ':';
                assert(s[k] == ':');
            }
        }
        law_author_without_colon_unchanged(s.drop_last());
        assert(s.last() != ':') by {
            assert(s[s.len() - 1] == s.last());
        }
        assert(s.drop_last().push(s.last()) =~= s);
    }
}

proof fn lemma_no_angles_depth_zero(s: Seq<char>)
    requires
        !s.contains('<'),
    ensures
        author_scan(s).1 == 0,
        author_scan(s).0 == colons_to_commas(s),
    decreases s.len(),
{
    if s.len() > 0 {
        assert(!s.drop_last().contains('<')) by {
            if s.drop_last().contains('<') {
                let k = choose|k: int| 0 <= k < s.drop_last().len() && s.drop_last()[k] == '<';
                assert(s[k] == '<');
            }
        }
        lemma_no_angles_depth_zero(s.drop_last());
        assert(s.last() != '<') by {
            assert(s[s.len() - 1] == s.last());
        }
    }
}

/// Without angle brackets, every `:` separates two authors and becomes `, `:
/// `"author1:author2:author3"` gives `"author1, author2, author3"`.
pub proof fn law_author_plain_list(s: Seq<char>)
    requires
        !s.contains('<'),
    ensures
        processed_author(s) == colons_to_commas(s),
{
    lemma_no_angles_depth_zero(s);
}

/// Reading `b` from a state.
pub open spec fn author_scan_from(state: (Seq<char>, nat), b: Seq<char>) -> (Seq<char>, nat)
    decreases b.len(),
{
    if b.len() == 0 {
        state
    } else {
        author_step(author_scan_from(state, b.drop_last()), b.last())
    }
}

proof fn lemma_scan_concat(a: Seq<char>, b: Seq<char>)
    ensures
        author_scan(a + b) == author_scan_from(author_scan(a), b),
    decreases b.len(),
{
    if b.len() == 0 {
        assert(a + b =~= a);
    } else {
        lemma_scan_concat(a, b.drop_last());
        assert((a + b).drop_last() =~= a + b.drop_last());
        assert((a + b).last() == b.last());
    }
}

proof fn lemma_scan_from_prefix(out: Seq<char>, d: nat, b: Seq<char>)
    ensures
        author_scan_from((out, d), b).0 == out + author_scan_from((Seq::empty(), d), b).0,
        author_scan_from((out, d), b).1 == author_scan_from((Seq::empty(), d), b).1,
    decreases b.len(),
{
    if b.len() == 0 {
        assert(out + Seq::<char>::empty() =~= out);
    } else {
        lemma_scan_from_prefix(out, d, b.drop_last());
        let r = author_scan_from((Seq::empty(), d), b.drop_last());
        assert((out + r.0).push(b.last()) =~= out + r.0.push(b.last()));
        assert((out + r.0) + seq![',', ' '] =~= out + (r.0 + seq![',', ' ']));
    }
}

proof fn lemma_scan_from_start(b: Seq<char>)
    ensures
        author_scan_from((Seq::empty(), 0), b) == author_scan(b),
    decreases b.len(),
{
    if b.len() > 0 {
        lemma_scan_from_start(b.drop_last());
    }
}

/// Author lists can be processed piece by piece: when `a` closes every
/// angle bracket it opens, processing `a` followed by `b` is processing `a`,
/// then `b`.
pub proof fn law_author_concat(a: Seq<char>, b: Seq<char>)
    requires
        author_scan(a).1 == 0,
    ensures
        processed_author(a + b) == processed_author(a) + processed_author(b),
{
    lemma_scan_concat(a, b);
    lemma_scan_from_prefix(author_scan(a).0, 0, b);
    lemma_scan_from_start(b);
}

/// Splitting at a character and joining the pieces with it gives the string
/// back, and no piece holds the character.
pub proof fn law_split_join(s: Seq<char>, c: char)
    ensures
        join_with(split_on(s, c), seq![c]) == s,
        forall|i: int| 0 <= i < split_on(s, c).len() ==> !(#[trigger] split_on(s, c)[i]).contains(c),
    decreases s.len(),
{
    if s.len() > 0 {
        let t = s.drop_last();
        law_split_join(t, c);
        lemma_split_nonempty(t, c);
        let r = split_on(t, c);
        if s.last() == c {
            assert(r.push(Seq::empty()).drop_last() =~= r);
            assert(join_with(r, seq![c]) + seq![c] + Seq::<char>::empty() =~= s);
            assert forall|i: int| 0 <= i < split_on(s, c).len() implies !(#[trigger] split_on(s, c)[i]).contains(c) by {
                if i < r.len() {
                    assert(split_on(s, c)[i] == r[i]);
                }
            }
        } else {
            let u = r.update(r.len() - 1, r.last().push(s.last()));
            assert(u.drop_last() =~= r.drop_last());
            if r.len() == 1 {
                assert(join_with(r, seq![c]) == r[0]);
                assert(join_with(u, seq![c]) =~= s);
            } else {
                assert(join_with(r, seq![c]) == join_with(r.drop_last(), seq![c]) + seq![c] + r.last());
                assert(u.len() == r.len());
                assert(u.last() == r.last().push(s.last()));
                assert(join_with(u, seq![c]) == join_with(u.drop_last(), seq![c]) + seq![c] + u.last());
                assert(t.push(s.last()) =~= s);
                assert(join_with(u, seq![c]) =~= s);
            }
            assert forall|i: int| 0 <= i < split_on(s, c).len() implies !(#[trigger] split_on(s, c)[i]).contains(c) by {
                if i < r.len() - 1 {
                    assert(split_on(s, c)[i] == r[i]);
                } else {
                    let p = r.last().push(s.last());
                    assert(split_on(s, c)[i] == p);
                    assert(!r[r.len() - 1].contains(c));
                    if p.contains(c) {
                        let k = choose|k: int| 0 <= k < p.len() && p[k] == c;
                        if k < p.len() - 1 {
                            assert(r.last()[k] == c);
                        }
                    }
                }
            }
        }
    }
}

proof fn lemma_trim_end_matches_dot(s: Seq<char>)
    ensures
        trim_end_matches(s, seq!['.']).len() == 0 || trim_end_matches(s, seq!['.']).last() != '.',
    decreases s.len(),
{
    let p = seq!['.'];
    if p.len() <= s.len() && s.skip(s.len() - p.len()) == p {
        lemma_trim_end_matches_dot(s.take(s.len() - p.len()));
    } else if s.len() > 0 {
        assert(s.skip(s.len() - 1) =~= seq![s.last()]);
    }
}

/// The short help taken from a doc comment never ends with a period.
pub proof fn law_short_help_no_trailing_period(first: Seq<char>)
    ensures
        short_doc(first).len() == 0 || short_doc(first).last() != '.',
{
    lemma_trim_end_matches_dot(trim_ws(first));
}

} // verus!

verus! {

/// The attributes that choose what kind of entry a field is.
pub open spec fn sets_kind(attr: StructOptAttr) -> bool {
    ||| attr is Subcommand
    ||| attr is Flatten
    ||| attr is Skip
}

proof fn lemma_attr_kind(
    a: AttrsView,
    attr: StructOptAttr,
    env: PackageEnv,
    cs: Span,
)
    ensures
        apply_attr(a, attr, env, cs) matches Ok(b) ==> {
            &&& !sets_kind(attr) ==> b.kind == a.kind
            &&& sets_kind(attr) ==> (a.kind.value is Arg && !(b.kind.value is Arg))
        },
{
}

proof fn lemma_kind_stays(
    a: AttrsView,
    s: Seq<StructOptAttr>,
    env: PackageEnv,
    cs: Span,
    k: int,
    n: int,
)
    requires
        0 <= k <= n <= s.len(),
        apply_attrs(a, s.take(k), env, cs) matches Ok(b) && !(b.kind.value is Arg),
        apply_attrs(a, s.take(n), env, cs) is Ok,
    ensures
        !(apply_attrs(a, s.take(n), env, cs)->Ok_0.kind.value is Arg),
    decreases n - k,
{
    if n > k {
        assert(s.take(n).drop_last() =~= s.take(n - 1));
        assert(s.take(n).last() == s[n - 1]);
        if apply_attrs(a, s.take(n - 1), env, cs) is Err {
            assert(apply_attrs(a, s.take(n), env, cs) is Err);
        } else {
            lemma_kind_stays(a, s, env, cs, k, n - 1);
            let prev = apply_attrs(a, s.take(n - 1), env, cs)->Ok_0;
            lemma_attr_kind(prev, s[n - 1], env, cs);
        }
    }
}

/// `subcommand`, `flatten` and `skip` cannot be used together: attributes
/// that hold two of them (or one twice) are refused.
pub proof fn law_kind_attributes_exclusive(
    a: AttrsView,
    attrs: Seq<StructOptAttr>,
    env: PackageEnv,
    cs: Span,
    i: int,
    j: int,
)
    requires
        0 <= i < j < attrs.len(),
        sets_kind(attrs[i]),
        sets_kind(attrs[j]),
    ensures
        apply_attrs(a, attrs, env, cs) is Err,
{
    if apply_attrs(a, attrs.take(j + 1), env, cs) is Err {
        law_refusal_is_final(a, attrs, env, cs, j + 1);
        return;
    }
    let t = attrs.take(j + 1);
    assert(t.drop_last() =~= attrs.take(j));
    assert(t.last() == attrs[j]);
    assert(apply_attrs(a, attrs.take(j), env, cs) is Ok);
    assert(attrs.take(j).take(i + 1) =~= attrs.take(i + 1));
    assert(attrs.take(j).take(i) =~= attrs.take(i));
    if apply_attrs(a, attrs.take(i + 1), env, cs) is Err {
        law_refusal_is_final(a, attrs.take(j), env, cs, i + 1);
        assert(false);
    }
    let t2 = attrs.take(i + 1);
    assert(t2.drop_last() =~= attrs.take(i));
    assert(t2.last() == attrs[i]);
    if apply_attrs(a, attrs.take(i), env, cs) is Err {
        assert(false);
    }
    let before_i = apply_attrs(a, attrs.take(i), env, cs)->Ok_0;
    lemma_attr_kind(before_i, attrs[i], env, cs);
    lemma_kind_stays(a, attrs, env, cs, i + 1, j);
    let before_j = apply_attrs(a, attrs.take(j), env, cs)->Ok_0;
    assert(apply_attr(before_j, attrs[j], env, cs) is Err);
}

/// Attributes only ever append methods: the methods read so far stay, in
/// the same order, at the front.
pub proof fn law_methods_only_appended(
    a: AttrsView,
    attrs: Seq<StructOptAttr>,
    env: PackageEnv,
    cs: Span,
)
    ensures
        apply_attrs(a, attrs, env, cs) matches Ok(b) ==> {
            &&& a.methods.len() <= b.methods.len()
            &&& b.methods.take(a.methods.len() as int) == a.methods
        },
    decreases attrs.len(),
{
    if attrs.len() > 0 {
        law_methods_only_appended(a, attrs.drop_last(), env, cs);
        if let Ok(mid) = apply_attrs(a, attrs.drop_last(), env, cs) {
            if let Ok(b) = apply_attr(mid, attrs.last(), env, cs) {
                assert(mid.methods.len() <= b.methods.len());
                assert(b.methods.take(mid.methods.len() as int) == mid.methods);
                assert(b.methods.take(a.methods.len() as int) =~= mid.methods.take(a.methods.len() as int));
            }
        }
    }
}

/// A struct or enum is only accepted as a plain argument holder: `parse`,
/// `subcommand`, `flatten` and `skip` belong on fields.
pub proof fn law_struct_attributes(
    span: Span,
    attrs: Seq<StructOptAttr>,
    docs: Seq<Seq<char>>,
    name: NameView,
    casing: Sp<CasingStyle>,
    env: PackageEnv,
    cs: Span,
)
    ensures
        attrs_of_struct(span, attrs, docs, name, casing, env, cs) matches Ok(a) ==> {
            &&& a.kind.value is Arg
            &&& !a.has_custom_parser
        },
{
}

/// What an accepted field satisfies: a flattened field has no methods and
/// no parser; a subcommand has no parser, no explicit methods and is neither
/// `Option<Option<T>>` nor `Option<Vec<T>>`; a skipped field has no explicit
/// methods; a `bool` argument is a flag unless it has its own parser and
/// takes neither `default_value` nor `required`, nor does an `Option`; an
/// `Option<Option<T>>` or `Option<Vec<T>>` argument is never positional.
pub proof fn law_field_rules(
    span: Span,
    ident: (Seq<char>, Span),
    ty: Sp<Ty>,
    attrs: Seq<StructOptAttr>,
    docs: Seq<Seq<char>>,
    casing: Sp<CasingStyle>,
    env: PackageEnv,
    cs: Span,
)
    ensures
        attrs_of_field(span, ident, ty, attrs, docs, casing, env, cs) matches Ok(a) ==> {
            &&& a.kind.value is FlattenStruct ==> (a.methods.len() == 0 && !a.has_custom_parser)
            &&& a.kind.value matches Kind::Subcommand(t) ==> {
                &&& !a.has_custom_parser
                &&& !explicit_methods(a.methods)
                &&& t == ty
                &&& t.value != Ty::OptionOption
                &&& t.value != Ty::OptionVec
            }
            &&& a.kind.value is Skip ==> !explicit_methods(a.methods)
            &&& a.kind.value matches Kind::Arg(t) ==> {
                &&& t == arg_ty(a.has_custom_parser, ty)
                &&& t.value == Ty::Bool ==> {
                    &&& (a.has_custom_parser || !positional(a.methods))
                    &&& !has_named(a.methods, "default_value"@)
                    &&& !has_named(a.methods, "required"@)
                }
                &&& t.value == Ty::Option ==> {
                    &&& !has_named(a.methods, "default_value"@)
                    &&& !has_named(a.methods, "required"@)
                }
                &&& (t.value == Ty::OptionOption || t.value == Ty::OptionVec)
                    ==> !positional(a.methods)
            }
        },
{
    let a0 = push_doc(attrs_new(span, NameView::Derived(ident), casing), docs, "help"@, cs);
    if let Ok(a) = apply_attrs(a0, attrs, env, cs) {
        law_first_named(a.methods, "default_value"@);
        law_first_named(a.methods, "required"@);
        if let Ok(b) = check_field(a, ty) {
            if a.kind.value is FlattenStruct {
                if a.methods.len() > 0 {
                    assert(explicit_methods(a.methods) || doc_methods(a.methods)) by {
                        let m = a.methods[0];
                        if m.name.0 == "help"@ || m.name.0 == "long_help"@ {
                            assert(doc_methods(a.methods));
                        } else {
                            assert(explicit_methods(a.methods));
                        }
                    }
                }
            }
        }
    }
}

/// `name = "..."` sets the argument's name: from then on it is that string
/// whatever the casing style, and no method is added.
pub proof fn law_name_attribute_renames(
    a: AttrsView,
    n: Sp<String>,
    lit: Sp<String>,
    env: PackageEnv,
    cs: Span,
    style: CasingStyle,
)
    requires
        n.value@ == "name"@,
    ensures
        apply_attr(a, StructOptAttr::NameLitStr(n, lit), env, cs) matches Ok(b) && {
            &&& translated(b.name, style) == lit@
            &&& b.methods == a.methods
        },
{
}

/// The top-level methods are refused exactly when both `no_version` and
/// `version = "..."` are given.
pub proof fn law_version_conflict(
    a: AttrsView,
    pkg_version: Option<Seq<char>>,
    cs: Span,
)
    ensures
        top_level(a, pkg_version, cs) is Err <==> (a.no_version is Some && a.version is Some),
{
}

/// A non-empty doc comment gives one method called `name`, preceded by one
/// called `long_name` when it has a short and a long part; an empty one
/// gives none.
pub proof fn law_doc_comment_methods(values: Seq<Seq<char>>, name: Seq<char>, cs: Span)
    ensures
        values.len() == 0 ==> doc_comment_methods(values, name, cs).len() == 0,
        values.len() > 0 ==> {
            let ms = doc_comment_methods(values, name, cs);
            &&& 1 <= ms.len() <= 2
            &&& ms.last().name.0 == name
            &&& ms.len() == 2 ==> ms[0].name.0 == "long_"@ + name
        },
{
}

} // verus!

verus! {

proof fn lemma_split_concat(x: Seq<char>, y: Seq<char>, c: char)
    ensures
        split_on(x + seq![c] + y, c) == split_on(x, c) + split_on(y, c),
    decreases y.len(),
{
    lemma_split_nonempty(x, c);
    if y.len() == 0 {
        assert(x + seq![c] + y =~= x + seq![c]);
        assert((x + seq![c]).drop_last() =~= x);
        assert(split_on(x, c).push(Seq::empty()) =~= split_on(x, c) + seq![Seq::<char>::empty()]);
    } else {
        let y1 = y.drop_last();
        lemma_split_concat(x, y1, c);
        lemma_split_nonempty(y1, c);
        assert((x + seq![c] + y).drop_last() =~= x + seq![c] + y1);
        assert((x + seq![c] + y).last() == y.last());
        let l = split_on(x, c);
        let r = split_on(y1, c);
        if y.last() == c {
            assert((l + r).push(Seq::empty()) =~= l + r.push(Seq::empty()));
        } else {
            assert((l + r).update((l + r).len() - 1, (l + r).last().push(y.last()))
                =~= l + r.update(r.len() - 1, r.last().push(y.last())));
        }
    }
}

proof fn lemma_split_without_sep(s: Seq<char>, c: char)
    requires
        !s.contains(c),
    ensures
        split_on(s, c) == seq![s],
    decreases s.len(),
{
    if s.len() > 0 {
        assert(!s.drop_last().contains(c)) by {
            if s.drop_last().contains(c) {
                let k = choose|k: int| 0 <= k < s.drop_last().len() && s.drop_last()[k] == c;
                assert(s[k] == c);
            }
        }
        lemma_split_without_sep(s.drop_last(), c);
        assert(s.last() != c) by {
            assert(s[s.len() - 1] == s.last());
        }
        assert(s.drop_last().push(s.last()) =~= s);
        assert(seq![s.drop_last()].update(0, s.drop_last().push(s.last())) =~= seq![s]);
    } else {
        assert(s =~= Seq::<char>::empty());
    }
}

/// Joining pieces with a character and splitting at it gives the pieces
/// back, when no piece holds the character.
pub proof fn law_join_split(ps: Seq<Seq<char>>, c: char)
    requires
        ps.len() >= 1,
        forall|i: int| 0 <= i < ps.len() ==> !(#[trigger] ps[i]).contains(c),
    ensures
        split_on(join_with(ps, seq![c]), c) == ps,
    decreases ps.len(),
{
    if ps.len() == 1 {
        lemma_split_without_sep(ps[0], c);
        assert(seq![ps[0]] =~= ps);
    } else {
        let init = ps.drop_last();
        assert forall|i: int| 0 <= i < init.len() implies !(#[trigger] init[i]).contains(c) by {
            assert(init[i] == ps[i]);
        }
        law_join_split(init, c);
        lemma_split_concat(join_with(init, seq![c]), ps.last(), c);
        assert(!ps[ps.len() - 1].contains(c));
        lemma_split_without_sep(ps.last(), c);
        assert(init + seq![ps.last()] =~= ps);
    }
}

proof fn lemma_trim_start_suffix(s: Seq<char>)
    ensures
        trim_start_ws(s).len() <= s.len(),
        trim_start_ws(s) == s.skip(s.len() - trim_start_ws(s).len()),
        trim_start_ws(s).len() > 0 ==> !is_white_space(trim_start_ws(s)[0]),
    decreases s.len(),
{
    if s.len() > 0 && is_white_space(s[0]) {
        lemma_trim_start_suffix(s.drop_first());
        let t = trim_start_ws(s.drop_first());
        assert(s.drop_first().skip(s.drop_first().len() - t.len()) =~= s.skip(s.len() - t.len()));
    } else {
        assert(s.skip(0) =~= s);
    }
}

proof fn lemma_trim_end_prefix(s: Seq<char>)
    ensures
        trim_end_ws(s).len() <= s.len(),
        trim_end_ws(s) == s.take(trim_end_ws(s).len() as int),
        trim_end_ws(s).len() > 0 ==> !is_white_space(trim_end_ws(s).last()),
    decreases s.len(),
{
    if s.len() > 0 && is_white_space(s.last()) {
        lemma_trim_end_prefix(s.drop_last());
        let t = trim_end_ws(s.drop_last());
        assert(s.drop_last().take(t.len() as int) =~= s.take(t.len() as int));
    } else {
        assert(s.take(s.len() as int) =~= s);
    }
}

/// Trimming twice is trimming once, and trimming keeps out a character that
/// was not there.
pub proof fn law_trim(s: Seq<char>, c: char)
    ensures
        trim_ws(trim_ws(s)) == trim_ws(s),
        !s.contains(c) ==> !trim_ws(s).contains(c),
{
    let y = trim_end_ws(s);
    lemma_trim_end_prefix(s);
    lemma_trim_start_suffix(y);
    let z = trim_start_ws(y);
    if z.len() > 0 {
        assert(z.last() == y.last());
        assert(trim_end_ws(z) == z);
    } else {
        assert(trim_end_ws(z) == z);
    }
    lemma_trim_start_suffix(z);
    assert(trim_start_ws(z) == z);
    if !s.contains(c) && z.contains(c) {
        let k = choose|k: int| 0 <= k < z.len() && z[k] == c;
        assert(y[y.len() - z.len() + k] == c);
        assert(s[y.len() - z.len() + k] == c);
    }
}

/// Every line of a help text taken from doc comments is trimmed.
pub proof fn law_help_lines_trimmed(lines: Seq<Seq<char>>)
    ensures
        forall|i: int| 0 <= i < split_on(merged_doc(lines), '\n').len()
            ==> trim_ws(#[trigger] split_on(merged_doc(lines), '\n')[i])
                == split_on(merged_doc(lines), '\n')[i],
{
    let pieces = split_on(join_with(lines, seq![' ']), '\n');
    let ts = pieces.map_values(|l: Seq<char>| trim_ws(l));
    law_split_join(join_with(lines, seq![' ']), '\n');
    lemma_split_nonempty(join_with(lines, seq![' ']), '\n');
    assert forall|i: int| 0 <= i < ts.len() implies !(#[trigger] ts[i]).contains('\n') by {
        law_trim(pieces[i], '\n');
    }
    law_join_split(ts, '\n');
    assert forall|i: int| 0 <= i < ts.len() implies trim_ws(#[trigger] ts[i]) == ts[i] by {
        law_trim(pieces[i], '\n');
    }
}

} // verus!

verus! {

/// `about = "..."` and `author = "..."` use the literal that was written,
/// whatever the environment holds (an author list with its `:` turned into
/// `, `); the environment's value is used, at the attribute's position, only
/// when no literal is given; with neither, the attribute is refused.
pub proof fn law_literal_before_environment(
    ident: (Seq<char>, Span),
    lit: Option<(Seq<char>, Span)>,
    env_var: Seq<char>,
    env_value: Option<Seq<char>>,
)
    ensures
        lit matches Some(l) ==> lit_or_env_method(ident, lit, env_var, env_value) == Ok::<_, AttrErrorView>(
            MethodView {
                name: ident,
                args: MethodArgsView::Lit(if ident.0 == "author"@ { (processed_author(l.0), l.1) } else { l }),
            },
        ),
        lit is None ==> (env_value matches Some(v) ==> lit_or_env_method(ident, lit, env_var, env_value)
            == Ok::<_, AttrErrorView>(
            MethodView {
                name: ident,
                args: MethodArgsView::Lit(if ident.0 == "author"@ { (processed_author(v), ident.1) } else { (v, ident.1) }),
            },
        )),
        lit is None && env_value is None ==> lit_or_env_method(ident, lit, env_var, env_value)
            == Err::<MethodView, _>(AttrErrorView {
            kind: AttrErrorKindView::CannotDeriveFromCargo { attr: ident.0, env_var },
            span: ident.1,
        }),
{
}

/// Two environments give the same `about`/`author` method when a literal is
/// written.
pub proof fn law_literal_ignores_environment(
    ident: (Seq<char>, Span),
    l: (Seq<char>, Span),
    env_var: Seq<char>,
    env1: Option<Seq<char>>,
    env2: Option<Seq<char>>,
)
    ensures
        lit_or_env_method(ident, Some(l), env_var, env1) == lit_or_env_method(ident, Some(l), env_var, env2),
{
}

/// When a field's attributes are read, the checks accept exactly what they
/// should: a flattened field without methods or parser; a subcommand
/// without parser and explicit methods whose type is neither
/// `Option<Option<T>>` nor `Option<Vec<T>>`, which becomes a subcommand of
/// that type; a skipped field without explicit methods; an argument whose
/// type (plain unless it is `Option`, `Vec` or `Option<Vec>` when a parser is
/// given) is a `bool` flag or `bool` with its own parser without
/// `default_value`/`required`, an `Option` without them, a non-positional
/// `Option<Option<T>>` or `Option<Vec<T>>`, or anything else. Accepted, only
/// the kind may change.
pub proof fn law_field_checks(a: AttrsView, ty: Sp<Ty>)
    ensures
        check_field(a, ty) is Ok <==> match a.kind.value {
            Kind::FlattenStruct => !a.has_custom_parser && a.methods.len() == 0,
            Kind::Subcommand(_) => !a.has_custom_parser && !explicit_methods(a.methods)
                && ty.value != Ty::OptionOption && ty.value != Ty::OptionVec,
            Kind::Skip(_) => !explicit_methods(a.methods),
            Kind::Arg(_) => {
                let t = if a.has_custom_parser && ty.value != Ty::Option && ty.value != Ty::Vec
                    && ty.value != Ty::OptionVec { Ty::Other } else { ty.value };
                &&& t == Ty::Bool ==> (a.has_custom_parser || !positional(a.methods))
                &&& (t == Ty::Bool || t == Ty::Option) ==> (!has_named(a.methods, "default_value"@)
                    && !has_named(a.methods, "required"@))
                &&& (t == Ty::OptionOption || t == Ty::OptionVec) ==> !positional(a.methods)
            },
        },
        check_field(a, ty) matches Ok(b) ==> {
            &&& b.methods == a.methods
            &&& b.name == a.name
            &&& b.casing == a.casing
            &&& b.parser == a.parser
            &&& b.has_custom_parser == a.has_custom_parser
            &&& b.author == a.author
            &&& b.about == a.about
            &&& b.version == a.version
            &&& b.no_version == a.no_version
            &&& b.kind.span == a.kind.span || (a.kind.value matches Kind::Arg(o) && b.kind.span == o.span)
            &&& a.kind.value is Subcommand ==> b.kind.value == Kind::Subcommand(ty)
            &&& a.kind.value is Arg ==> b.kind.value == Kind::Arg(Sp {
                value: if a.has_custom_parser && ty.value != Ty::Option && ty.value != Ty::Vec
                    && ty.value != Ty::OptionVec { Ty::Other } else { ty.value },
                span: ty.span,
            })
            &&& a.kind.value is FlattenStruct ==> b.kind == a.kind
            &&& a.kind.value is Skip ==> b.kind == a.kind
        },
{
    law_first_named(a.methods, "default_value"@);
    law_first_named(a.methods, "required"@);
    if a.kind.value is FlattenStruct && a.methods.len() > 0 {
        let m = a.methods[0];
        if m.name.0 == "help"@ || m.name.0 == "long_help"@ {
            assert(doc_methods(a.methods));
        } else {
            assert(explicit_methods(a.methods));
        }
    }
    if a.kind.value is FlattenStruct && (explicit_methods(a.methods) || doc_methods(a.methods)) {
        assert(a.methods.len() > 0);
    }
}

/// The text of a doc line is never a paragraph break: a non-empty text does
/// not start with white space.
proof fn lemma_text_not_break(v: Seq<char>)
    ensures
        doc_line(v) == seq!['\n', '\n'] <==> doc_text(v).len() == 0,
{
    let e = trim_start_matches(
        trim_start_matches(trim_start_matches(trim_start_matches(v, seq!['/', '/', '!']), seq!['/', '/', '/']),
            seq!['/', '*', '!']),
        seq!['/', '*', '*'],
    );
    let y = trim_end_ws(trim_end_matches(e, seq!['*', '/']));
    lemma_trim_start_suffix(y);
    if doc_text(v).len() > 0 {
        assert(!is_white_space(doc_text(v)[0]));
        assert(is_white_space(seq!['\n', '\n'][0]));
    }
}

/// A doc comment becomes a short help and a long help only when it has more
/// than two lines and its second line is empty (a paragraph break);
/// otherwise a non-empty doc comment gives a single method, called `name`,
/// holding all its lines merged.
pub proof fn law_doc_split_only_at_break(values: Seq<Seq<char>>, name: Seq<char>, cs: Span)
    ensures
        values.len() > 0 && !(values.len() > 2 && doc_text(values[1]).len() == 0)
            ==> doc_comment_methods(values, name, cs) == seq![
            MethodView { name: (name, cs), args: MethodArgsView::Text(merged_doc(doc_lines(values))) },
        ],
        values.len() > 2 && doc_text(values[1]).len() == 0 ==> doc_comment_methods(values, name, cs) == seq![
            MethodView { name: ("long_"@ + name, cs), args: MethodArgsView::Text(merged_doc(doc_lines(values))) },
            MethodView { name: (name, cs), args: MethodArgsView::Text(short_doc(doc_line(values[0]))) },
        ],
{
    if values.len() > 1 {
        lemma_text_not_break(values[1]);
        assert(doc_lines(values)[1] == doc_line(values[1]));
    }
    if values.len() > 0 {
        assert(doc_lines(values)[0] == doc_line(values[0]));
    }
}

/// `parse(kind = f)` with a function path `f` uses `f`, for every parser
/// kind; `parse(kind)` uses the kind's default function, and
/// `try_from_os_str` has none.
pub proof fn law_parser_function(parse_ident: Span, spec: ParserSpec)
    ensures
        parser_kind_named(spec.kind.value@) matches Some(k) ==> (spec.parse_func matches Some(f) ==> (f.is_path
            ==> (parser_from_spec(parse_ident, spec) matches Ok(p) && {
            &&& p.value.kind.value == k
            &&& p.value.func.value == ParserFunc::Custom(f.tokens)
            &&& p.span == parse_ident
        }))),
        parser_kind_named(spec.kind.value@) matches Some(k) ==> (spec.parse_func is None && k != ParserKind::TryFromOsStr
            ==> (parser_from_spec(parse_ident, spec) matches Ok(p) && {
            &&& p.value.kind.value == k
            &&& p.value.func.value == match k {
                ParserKind::TryFromStr => ParserFunc::StdFromStr,
                ParserKind::FromOccurrences => ParserFunc::OccurrencesCast,
                _ => ParserFunc::StdFrom,
            }
        })),
        parser_kind_named(spec.kind.value@) is None ==> parser_from_spec(parse_ident, spec) is Err,
{
}

/// The names of the parser kinds.
pub proof fn law_parser_kind_names()
    ensures
        parser_kind_named("from_str"@) == Some(ParserKind::FromStr),
        parser_kind_named("try_from_str"@) == Some(ParserKind::TryFromStr),
        parser_kind_named("from_os_str"@) == Some(ParserKind::FromOsStr),
        parser_kind_named("try_from_os_str"@) == Some(ParserKind::TryFromOsStr),
        parser_kind_named("from_occurrences"@) == Some(ParserKind::FromOccurrences),
        parser_kind_named("from_flag"@) == Some(ParserKind::FromFlag),
{
    reveal_strlit("from_str");
    assert("from_str"@.len() == 8 && "from_str"@[0] == 'f');
    reveal_strlit("try_from_str");
    assert("try_from_str"@.len() == 12 && "try_from_str"@[0] == 't');
    reveal_strlit("from_os_str");
    assert("from_os_str"@.len() == 11 && "from_os_str"@[0] == 'f');
    reveal_strlit("try_from_os_str");
    assert("try_from_os_str"@.len() == 15 && "try_from_os_str"@[0] == 't');
    reveal_strlit("from_occurrences");
    assert("from_occurrences"@.len() == 16 && "from_occurrences"@[0] == 'f');
    reveal_strlit("from_flag");
    assert("from_flag"@.len() == 9 && "from_flag"@[0] == 'f');
}

/// The names of the casing styles, short and long.
pub proof fn law_casing_names()
    ensures
        casing_named("camel"@) == Some(CasingStyle::Camel),
        casing_named("camelcase"@) == Some(CasingStyle::Camel),
        casing_named("kebab"@) == Some(CasingStyle::Kebab),
        casing_named("kebabcase"@) == Some(CasingStyle::Kebab),
        casing_named("pascal"@) == Some(CasingStyle::Pascal),
        casing_named("pascalcase"@) == Some(CasingStyle::Pascal),
        casing_named("screamingsnake"@) == Some(CasingStyle::ScreamingSnake),
        casing_named("screamingsnakecase"@) == Some(CasingStyle::ScreamingSnake),
        casing_named("snake"@) == Some(CasingStyle::Snake),
        casing_named("snakecase"@) == Some(CasingStyle::Snake),
        casing_named("verbatim"@) == Some(CasingStyle::Verbatim),
        casing_named("verbatimcase"@) == Some(CasingStyle::Verbatim),
{
    reveal_strlit("camel");
    assert("camel"@.len() == 5 && "camel"@[0] == 'c');
    reveal_strlit("camelcase");
    assert("camelcase"@.len() == 9 && "camelcase"@[0] == 'c');
    reveal_strlit("kebab");
    assert("kebab"@.len() == 5 && "kebab"@[0] == 'k');
    reveal_strlit("kebabcase");
    assert("kebabcase"@.len() == 9 && "kebabcase"@[0] == 'k');
    reveal_strlit("pascal");
    assert("pascal"@.len() == 6 && "pascal"@[0] == 'p');
    reveal_strlit("pascalcase");
    assert("pascalcase"@.len() == 10 && "pascalcase"@[0] == 'p');
    reveal_strlit("screamingsnake");
    assert("screamingsnake"@.len() == 14 && "screamingsnake"@[0] == 's');
    reveal_strlit("screamingsnakecase");
    assert("screamingsnakecase"@.len() == 18 && "screamingsnakecase"@[0] == 's');
    reveal_strlit("snake");
    assert("snake"@.len() == 5 && "snake"@[0] == 's');
    reveal_strlit("snakecase");
    assert("snakecase"@.len() == 9 && "snakecase"@[0] == 's');
    reveal_strlit("verbatim");
    assert("verbatim"@.len() == 8 && "verbatim"@[0] == 'v');
    reveal_strlit("verbatimcase");
    assert("verbatimcase"@.len() == 12 && "verbatimcase"@[0] == 'v');
}

/// The top-level methods, when produced, are the author (if any), then the
/// version part, then all the struct's methods in order, then about (if
/// any). The version part is the given version; else nothing under
/// `no_version`; else the package version, if known. `no_version` changes
/// only the version part.
pub proof fn law_top_level_order(a: AttrsView, pkg_version: Option<Seq<char>>, cs: Span)
    ensures
        !(a.no_version is Some && a.version is Some) ==> top_level(a, pkg_version, cs) == Ok::<_, AttrErrorView>(
            opt_seq(a.author) + (if a.version is Some {
                seq![a.version->Some_0]
            } else if a.no_version is Some {
                Seq::<MethodView>::empty()
            } else if pkg_version is Some {
                seq![MethodView { name: ("version"@, cs), args: MethodArgsView::Text(pkg_version->Some_0) }]
            } else {
                Seq::<MethodView>::empty()
            }) + a.methods + opt_seq(a.about),
        ),
        top_level(a, pkg_version, cs) matches Ok(ms) ==> (a.author matches Some(m) ==> ms[0] == m),
        top_level(a, pkg_version, cs) matches Ok(ms) ==> (a.about matches Some(m) ==> ms.last() == m),
{
    if let Ok(ms) = top_level(a, pkg_version, cs) {
        let vs: Seq<MethodView> = if a.version is Some {
            seq![a.version->Some_0]
        } else if a.no_version is Some {
            Seq::<MethodView>::empty()
        } else if pkg_version is Some {
            seq![MethodView { name: ("version"@, cs), args: MethodArgsView::Text(pkg_version->Some_0) }]
        } else {
            Seq::<MethodView>::empty()
        };
        let rest = vs + a.methods + opt_seq(a.about);
        assert(ms == opt_seq(a.author) + rest);
        if let Some(m) = a.author {
            assert((seq![m] + rest)[0] == m);
        }
        if let Some(m) = a.about {
            let front = opt_seq(a.author) + vs + a.methods;
            assert(ms == front + seq![m]);
            assert((front + seq![m]).last() == m);
        }
    }
}

/// Setting `no_version` without a version removes only the package
/// version: the other top-level methods stay as they were.
pub proof fn law_no_version_keeps_the_rest(a: AttrsView, pkg_version: Option<Seq<char>>, cs: Span, nv: (Seq<char>, Span))
    requires
        a.version is None,
        a.no_version is None,
    ensures
        top_level(AttrsView { no_version: Some(nv), ..a }, pkg_version, cs)
            == top_level(a, None, cs),
{
}

} // verus!

verus! {

/// What each attribute does to the attributes read so far, and what it
/// leaves alone: `short`/`long` add a method carrying the argument's name in
/// its casing; `name = "..."` renames; another `method = "..."` adds that
/// method with the string; expressions and calls add that method with the
/// tokens; `version`, `no_version`, `about`, `author`, `rename_all` and
/// `parse` set their own part only; `subcommand`, `flatten` and `skip` set
/// the kind of a plain argument and are refused otherwise.
pub proof fn law_attribute_effects(a: AttrsView, attr: StructOptAttr, env: PackageEnv, cs: Span)
    ensures
        match attr {
            StructOptAttr::Short(id) | StructOptAttr::Long(id) => apply_attr(a, attr, env, cs) == Ok::<_, AttrErrorView>(
                if id.value@ == "name"@ {
                    AttrsView { name: NameView::Assigned(translated(a.name, a.casing.value)), ..a }
                } else {
                    AttrsView {
                        methods: a.methods.push(MethodView {
                            name: id@,
                            args: MethodArgsView::Lit(translated(a.name, a.casing.value)),
                        }),
                        ..a
                    }
                }),
            StructOptAttr::NameLitStr(n, l) => apply_attr(a, attr, env, cs) == Ok::<_, AttrErrorView>(
                if n.value@ == "name"@ {
                    AttrsView { name: NameView::Assigned(l@), ..a }
                } else {
                    AttrsView { methods: a.methods.push(MethodView { name: n@, args: MethodArgsView::Lit(l@) }), ..a }
                }),
            StructOptAttr::NameExpr(n, e) | StructOptAttr::MethodCall(n, e) =>
                apply_attr(a, attr, env, cs) == Ok::<_, AttrErrorView>(
                    AttrsView { methods: a.methods.push(MethodView { name: n@, args: MethodArgsView::Tokens(e) }), ..a },
                ),
            StructOptAttr::Version(id, v) => apply_attr(a, attr, env, cs) == Ok::<_, AttrErrorView>(
                AttrsView { version: Some(MethodView { name: id@, args: MethodArgsView::Lit(v@) }), ..a },
            ),
            StructOptAttr::NoVersion(id) => apply_attr(a, attr, env, cs) == Ok::<_, AttrErrorView>(
                AttrsView { no_version: Some(id@), ..a },
            ),
            StructOptAttr::About(id, l) => apply_attr(a, attr, env, cs) == match lit_or_env_method(
                id@,
                opt_sp_view(l),
                "CARGO_PKG_DESCRIPTION"@,
                opt_string_view(env.description),
            ) {
                Ok(m) => Ok::<_, AttrErrorView>(AttrsView { about: Some(m), ..a }),
                Err(e) => Err(e),
            },
            StructOptAttr::Author(id, l) => apply_attr(a, attr, env, cs) == match lit_or_env_method(
                id@,
                opt_sp_view(l),
                "CARGO_PKG_AUTHORS"@,
                opt_string_view(env.authors),
            ) {
                Ok(m) => Ok::<_, AttrErrorView>(AttrsView { author: Some(m), ..a }),
                Err(e) => Err(e),
            },
            StructOptAttr::RenameAll(_id, l) => apply_attr(a, attr, env, cs) == match casing_from_lit(l@) {
                Ok((c, sp)) => Ok::<_, AttrErrorView>(AttrsView { casing: Sp { value: c, span: sp }, ..a }),
                Err(e) => Err(e),
            },
            StructOptAttr::Parse(id, spec) => apply_attr(a, attr, env, cs) == match parser_from_spec(id.span, spec) {
                Ok(p) => Ok::<_, AttrErrorView>(AttrsView { parser: p, has_custom_parser: true, ..a }),
                Err(e) => Err(e),
            },
            StructOptAttr::Subcommand(id) => apply_attr(a, attr, env, cs) == if a.kind.value is Arg {
                Ok::<_, AttrErrorView>(AttrsView {
                    kind: Sp { value: Kind::Subcommand(Sp { value: Ty::Other, span: cs }), span: id.span },
                    ..a
                })
            } else {
                Err(AttrErrorView { kind: AttrErrorKindView::KindConflict, span: id.span })
            },
            StructOptAttr::Flatten(id) => apply_attr(a, attr, env, cs) == if a.kind.value is Arg {
                Ok::<_, AttrErrorView>(AttrsView { kind: Sp { value: Kind::FlattenStruct, span: id.span }, ..a })
            } else {
                Err(AttrErrorView { kind: AttrErrorKindView::KindConflict, span: id.span })
            },
            StructOptAttr::Skip(id, e) => apply_attr(a, attr, env, cs) == if a.kind.value is Arg {
                Ok::<_, AttrErrorView>(AttrsView { kind: Sp { value: Kind::Skip(e), span: id.span }, ..a })
            } else {
                Err(AttrErrorView { kind: AttrErrorKindView::KindConflict, span: id.span })
            },
        },
{
    reveal_strlit("name");
    reveal_strlit("long");
    reveal_strlit("short");
}

/// The name of an argument: a name set by `name = "..."` stays as written in
/// every style; a field's own name is used as written (without `r#`) in the
/// verbatim style, at the identifier's position.
pub proof fn law_translate(l: (Seq<char>, Span), ident: (Seq<char>, Span), style: CasingStyle, x: Seq<char>)
    ensures
        translated(NameView::Assigned(l), style) == l,
        translated(NameView::Derived(ident), CasingStyle::Verbatim) == (unraw(ident.0), ident.1),
        translated(NameView::Derived(ident), style).1 == ident.1,
        unraw(seq!['r', '#'] + x) == x,
        !(ident.0.len() >= 2 && ident.0[0] == 'r' && ident.0[1] == '#') ==> unraw(ident.0) == ident.0,
{
    assert((seq!['r', '#'] + x).skip(2) =~= x);
}

/// A field's doc comment methods come first, before the methods from its
/// attributes; a struct's come last, after them.
pub proof fn law_doc_methods_position(
    span: Span,
    ident: (Seq<char>, Span),
    ty: Sp<Ty>,
    attrs: Seq<StructOptAttr>,
    docs: Seq<Seq<char>>,
    name: NameView,
    casing: Sp<CasingStyle>,
    env: PackageEnv,
    cs: Span,
)
    ensures
        attrs_of_field(span, ident, ty, attrs, docs, casing, env, cs) matches Ok(a) ==> {
            let d = doc_comment_methods(docs, "help"@, cs);
            &&& d.len() <= a.methods.len()
            &&& a.methods.take(d.len() as int) == d
        },
        attrs_of_struct(span, attrs, docs, name, casing, env, cs) matches Ok(a) ==> {
            let d = doc_comment_methods(docs, "about"@, cs);
            &&& d.len() <= a.methods.len()
            &&& a.methods.skip(a.methods.len() - d.len()) == d
        },
{
    let a0 = push_doc(attrs_new(span, NameView::Derived(ident), casing), docs, "help"@, cs);
    law_methods_only_appended(a0, attrs, env, cs);
    assert(a0.methods =~= doc_comment_methods(docs, "help"@, cs));
    if let Ok(a) = apply_attrs(attrs_new(span, name, casing), attrs, env, cs) {
        let d = doc_comment_methods(docs, "about"@, cs);
        assert((a.methods + d).skip(a.methods.len() as int) =~= d);
    }
}

} // verus!
