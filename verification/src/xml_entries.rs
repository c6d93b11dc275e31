//! Why rewriting one entry of the settings document leaves every other entry as it was:
//! a `<tag>` or `</tag>` of a plain tag name can only start at a `<`, and holds `>`
//! only as its last character, so it can neither start inside text free of `<` nor
//! reach across a `>`.
use vstd::prelude::*;
use crate::text;
use crate::settings::apply_entries;
use crate::settings_xml::{open_tag, close_tag, root_end, content_start, content_end, has_entry, after_open, spec_tag_value, spec_replace_or_insert_tag, inserted_line};

verus! {

/// A tag name without `<`, `>` or `/`.
pub open spec fn plain_tag(t: Seq<char>) -> bool {
    forall|k: int| 0 <= k < t.len() ==> t[k] != '<' && t[k] != '>' && t[k] != '/'
}

/// Text without `<`.
pub open spec fn lt_free(s: Seq<char>) -> bool {
    forall|k: int| 0 <= k < s.len() ==> s[k] != '<'
}

/// The shape of `<tag>` and `</tag>`: a `<`, then no `<` or `>`, then a final `>`.
pub open spec fn tag_pattern(p: Seq<char>) -> bool {
    &&& p.len() >= 2
    &&& p[0] == '<'
    &&& p[p.len() - 1] == '>'
    &&& forall|k: int| 1 <= k < p.len() - 1 ==> p[k] != '<' && p[k] != '>'
}

/// `<t>` and `</t>` of a plain tag have the shape of a tag.
pub proof fn lemma_tags_are_patterns(t: Seq<char>)
    requires
        plain_tag(t),
    ensures
        tag_pattern(open_tag(t)),
        tag_pattern(close_tag(t)),
{
    let o = open_tag(t);
    let c = close_tag(t);
    assert forall|k: int| 1 <= k < o.len() - 1 implies o[k] != '<' && o[k] != '>' by {
        assert(o[k] == t[k - 1]);
    }
    assert forall|k: int| 1 <= k < c.len() - 1 implies c[k] != '<' && c[k] != '>' by {
        if k >= 2 {
            assert(c[k] == t[k - 2]);
        }
    }
}

/// A match starts at a `<`, and no position inside it but the last holds `>`.
pub proof fn lemma_match_shape(s: Seq<char>, p: Seq<char>, i: int, j: int)
    requires
        tag_pattern(p),
        text::matches_at(s, p, i),
        i <= j < i + p.len(),
    ensures
        j == i ==> s[j] == '<',
        j > i ==> s[j] != '<',
        j < i + p.len() - 1 ==> s[j] != '>',
{
    assert(s.subrange(i, i + p.len())[j - i] == s[j]);
}

/// Replacing `<`-free text right after a `>` by other `<`-free text moves the matches
/// after it and keeps those before it; none starts inside either text.
proof fn lemma_replace_match(a: Seq<char>, x: Seq<char>, y: Seq<char>, b: Seq<char>, p: Seq<char>, i: int)
    requires
        tag_pattern(p),
        a.len() == 0 || a[a.len() - 1] == '>',
        lt_free(x),
        lt_free(y),
    ensures
        i < a.len() ==> (text::matches_at(a + x + b, p, i) <==> text::matches_at(a + y + b, p, i)),
        i < a.len() && text::matches_at(a + x + b, p, i) ==> i + p.len() <= a.len(),
        a.len() <= i < a.len() + x.len() ==> !text::matches_at(a + x + b, p, i),
        a.len() <= i < a.len() + y.len() ==> !text::matches_at(a + y + b, p, i),
        i >= a.len() + x.len() ==> (text::matches_at(a + x + b, p, i) <==> text::matches_at(
            a + y + b,
            p,
            i - x.len() + y.len(),
        )),
{
    let s = a + x + b;
    let t = a + y + b;
    if 0 <= i < a.len() {
        if text::matches_at(s, p, i) && i + p.len() > a.len() {
            lemma_match_shape(s, p, i, a.len() - 1);
        }
        if text::matches_at(t, p, i) && i + p.len() > a.len() {
            lemma_match_shape(t, p, i, a.len() - 1);
        }
        if i + p.len() <= a.len() {
            assert(s.subrange(i, i + p.len()) =~= a.subrange(i, i + p.len()));
            assert(t.subrange(i, i + p.len()) =~= a.subrange(i, i + p.len()));
        }
    }
    if a.len() <= i < a.len() + x.len() && text::matches_at(s, p, i) {
        lemma_match_shape(s, p, i, i);
    }
    if a.len() <= i < a.len() + y.len() && text::matches_at(t, p, i) {
        lemma_match_shape(t, p, i, i);
    }
    if i >= a.len() + x.len() {
        let k = i - a.len() - x.len();
        let i2 = i - x.len() + y.len();
        if i + p.len() <= s.len() {
            assert(s.subrange(i, i + p.len()) =~= b.subrange(k, k + p.len()));
            assert(t.subrange(i2, i2 + p.len()) =~= b.subrange(k, k + p.len()));
        }
    }
}

/// The first match in `a + x + b` reappears as the first match in `a + y + b`, moved when
/// it lies after `x`.
proof fn lemma_replace_first_one_way(a: Seq<char>, x: Seq<char>, y: Seq<char>, b: Seq<char>, p: Seq<char>)
    requires
        tag_pattern(p),
        a.len() == 0 || a[a.len() - 1] == '>',
        lt_free(x),
        lt_free(y),
        text::has_match(a + x + b, p),
    ensures
        text::has_match(a + y + b, p),
        text::first_match(a + x + b, p) < a.len() ==> text::first_match(a + x + b, p) + p.len() <= a.len()
            && text::first_match(a + y + b, p) == text::first_match(a + x + b, p),
        text::first_match(a + x + b, p) >= a.len() ==> text::first_match(a + x + b, p) >= a.len() + x.len()
            && text::first_match(a + y + b, p) == text::first_match(a + x + b, p) - x.len() + y.len(),
{
    let s = a + x + b;
    let t = a + y + b;
    text::lemma_first_match_exists(s, p);
    let f = text::first_match(s, p);
    lemma_replace_match(a, x, y, b, p, f);
    if f < a.len() {
        assert forall|j: int| 0 <= j < f implies !text::matches_at(t, p, j) by {
            lemma_replace_match(a, x, y, b, p, j);
        }
        text::lemma_first_match_unique(t, p, f);
    } else {
        let f2 = f - x.len() + y.len();
        assert forall|j: int| 0 <= j < f2 implies !text::matches_at(t, p, j) by {
            if j < a.len() {
                lemma_replace_match(a, x, y, b, p, j);
            } else if j >= a.len() + y.len() {
                lemma_replace_match(a, x, y, b, p, j - y.len() + x.len());
            } else {
                lemma_replace_match(a, x, y, b, p, j);
            }
        }
        text::lemma_first_match_unique(t, p, f2);
    }
}

/// Replacing `<`-free text right after a `>` keeps whether a tag occurs, and where its
/// first occurrence is relative to the text around the replacement.
pub proof fn lemma_replace_first(a: Seq<char>, x: Seq<char>, y: Seq<char>, b: Seq<char>, p: Seq<char>)
    requires
        tag_pattern(p),
        a.len() == 0 || a[a.len() - 1] == '>',
        lt_free(x),
        lt_free(y),
    ensures
        text::has_match(a + x + b, p) <==> text::has_match(a + y + b, p),
        text::has_match(a + x + b, p) ==> {
            let f = text::first_match(a + x + b, p);
            &&& f < a.len() ==> f + p.len() <= a.len() && text::first_match(a + y + b, p) == f
            &&& f >= a.len() ==> f >= a.len() + x.len() && text::first_match(a + y + b, p) == f - x.len()
                + y.len()
        },
{
    if text::has_match(a + x + b, p) {
        lemma_replace_first_one_way(a, x, y, b, p);
    }
    if text::has_match(a + y + b, p) {
        lemma_replace_first_one_way(a, y, x, b, p);
    }
}

/// The raw text of a tag's first entry, untrimmed.
pub open spec fn raw_entry(xml: Seq<char>, tag: Seq<char>) -> Option<Seq<char>> {
    if has_entry(xml, tag) {
        Some(xml.subrange(content_start(xml, tag), content_end(xml, tag)))
    } else {
        None
    }
}

/// The tag's first entry, if it has one, holds no `<`.
pub open spec fn clean_entry(xml: Seq<char>, tag: Seq<char>) -> bool {
    raw_entry(xml, tag) matches Some(c) ==> lt_free(c)
}

/// Two `<tag>` matches of different plain tags never overlap: the one that starts first
/// ends before the other starts.
proof fn lemma_open_tags_apart(s: Seq<char>, t: Seq<char>, u: Seq<char>, st: int, f: int)
    requires
        plain_tag(t),
        plain_tag(u),
        u != t,
        text::matches_at(s, open_tag(t), st),
        text::matches_at(s, open_tag(u), f),
        f < st + open_tag(t).len(),
    ensures
        f + open_tag(u).len() <= st,
{
    let ot = open_tag(t);
    let ou = open_tag(u);
    lemma_tags_are_patterns(t);
    lemma_tags_are_patterns(u);
    if f + ou.len() > st {
        if f < st {
            lemma_match_shape(s, ou, f, st);
            lemma_match_shape(s, ot, st, st);
        } else if f == st {
            if ou.len() == ot.len() {
                assert(s.subrange(f, f + ou.len()) =~= s.subrange(st, st + ot.len()));
                assert(u =~= ou.subrange(1, ou.len() - 1));
                assert(t =~= ot.subrange(1, ot.len() - 1));
            } else if ou.len() < ot.len() {
                lemma_match_shape(s, ou, f, f + ou.len() - 1);
                lemma_match_shape(s, ot, st, f + ou.len() - 1);
                assert(s.subrange(f, f + ou.len())[ou.len() - 1] == s[f + ou.len() - 1]);
            } else {
                lemma_match_shape(s, ot, st, st + ot.len() - 1);
                assert(s.subrange(st, st + ot.len())[ot.len() - 1] == s[st + ot.len() - 1]);
                lemma_match_shape(s, ou, f, st + ot.len() - 1);
            }
        } else {
            lemma_match_shape(s, ou, f, f);
            lemma_match_shape(s, ot, st, f);
        }
    }
}

/// The entry of `u`, whose `<u>` comes first in `a` (ending before `t`'s `<t>` at `st`),
/// is the same in `a + x + b` and `a + y + b` when `x`, `y` and its content hold no `<`.
proof fn lemma_entry_before_kept(
    s: Seq<char>,
    s2: Seq<char>,
    a: Seq<char>,
    x: Seq<char>,
    y: Seq<char>,
    b: Seq<char>,
    u: Seq<char>,
    st: int,
)
    requires
        plain_tag(u),
        s == a + x + b,
        s2 == a + y + b,
        lt_free(x),
        lt_free(y),
        a.len() > 0 && a[a.len() - 1] == '>',
        0 <= st < a.len() && s[st] == '<',
        text::has_match(s, open_tag(u)),
        text::first_match(s, open_tag(u)) + open_tag(u).len() <= st,
        text::first_match(s2, open_tag(u)) == text::first_match(s, open_tag(u)),
        text::has_match(s2, open_tag(u)),
        clean_entry(s, u),
    ensures
        raw_entry(s2, u) == raw_entry(s, u),
{
    let ou = open_tag(u);
    let cu = close_tag(u);
    lemma_tags_are_patterns(u);
    let f = text::first_match(s, ou);
    text::lemma_first_match_exists(s, ou);
    let cs_u = f + ou.len();
    let a2 = a.subrange(cs_u, a.len() as int);
    assert(after_open(s, u) =~= a2 + x + b);
    assert(after_open(s2, u) =~= a2 + y + b);
    assert(a2[a2.len() - 1] == a[a.len() - 1]);
    lemma_replace_first(a2, x, y, b, cu);
    if text::has_match(after_open(s, u), cu) {
        let g = text::first_match(after_open(s, u), cu);
        text::lemma_first_match_exists(after_open(s, u), cu);
        if g < a2.len() {
            assert(s.subrange(cs_u, cs_u + g) =~= a2.subrange(0, g));
            assert(s2.subrange(cs_u, cs_u + g) =~= a2.subrange(0, g));
        } else {
            let c = s.subrange(cs_u, cs_u + g);
            assert(c[st - cs_u] == s[st]);
        }
    }
}

/// The entry of `u`, whose `<u>` comes first in `b`, is the same in `a + x + b` and
/// `a + y + b`.
proof fn lemma_entry_after_kept(s: Seq<char>, s2: Seq<char>, a: Seq<char>, x: Seq<char>, y: Seq<char>, b: Seq<char>, u: Seq<char>)
    requires
        s == a + x + b,
        s2 == a + y + b,
        text::has_match(s, open_tag(u)),
        text::has_match(s2, open_tag(u)),
        text::first_match(s, open_tag(u)) >= a.len() + x.len(),
        text::first_match(s2, open_tag(u)) == text::first_match(s, open_tag(u)) - x.len() + y.len(),
    ensures
        raw_entry(s2, u) == raw_entry(s, u),
{
    let ou = open_tag(u);
    let cu = close_tag(u);
    let f = text::first_match(s, ou);
    text::lemma_first_match_exists(s, ou);
    text::lemma_first_match_exists(s2, ou);
    let f2 = f - x.len() + y.len();
    let k = f - a.len() - x.len() + ou.len();
    assert(after_open(s, u) =~= b.subrange(k, b.len() as int));
    assert(after_open(s2, u) =~= b.subrange(k, b.len() as int));
    if text::has_match(after_open(s, u), cu) {
        let g = text::first_match(after_open(s, u), cu);
        text::lemma_first_match_exists(after_open(s, u), cu);
        assert(s.subrange(f + ou.len(), f + ou.len() + g) =~= after_open(s, u).subrange(0, g));
        assert(s2.subrange(f2 + ou.len(), f2 + ou.len() + g) =~= after_open(s2, u).subrange(0, g));
    }
}

/// How setting an existing entry splits the document: `a` ends with the `<t>` that opens
/// the entry, `x` is its old content and `b` the rest.
#[verifier::rlimit(40)]
proof fn lemma_replace_shape(s: Seq<char>, t: Seq<char>, v: Seq<char>) -> (r: (int, int))
    requires
        plain_tag(t),
        has_entry(s, t),
        clean_entry(s, t),
    ensures
        r.0 == content_start(s, t),
        r.1 == content_end(s, t),
        0 < r.0 <= r.1 <= s.len(),
        s == s.subrange(0, r.0) + s.subrange(r.0, r.1) + s.subrange(r.1, s.len() as int),
        spec_replace_or_insert_tag(s, t, v) == s.subrange(0, r.0) + v + s.subrange(r.1, s.len() as int),
        s.subrange(0, r.0)[r.0 - 1] == '>',
        lt_free(s.subrange(r.0, r.1)),
        text::has_match(s, open_tag(t)),
        text::matches_at(s, open_tag(t), text::first_match(s, open_tag(t))),
        0 <= text::first_match(s, open_tag(t)),
        text::first_match(s, open_tag(t)) + open_tag(t).len() == r.0,
        s[text::first_match(s, open_tag(t))] == '<',
        text::has_match(after_open(s, t), close_tag(t)),
        text::first_match(after_open(s, t), close_tag(t)) == r.1 - r.0,
{
    let ot = open_tag(t);
    lemma_tags_are_patterns(t);
    text::lemma_first_match_exists(s, ot);
    let st = text::first_match(s, ot);
    let cs = content_start(s, t);
    let ce = content_end(s, t);
    text::lemma_first_match_exists(after_open(s, t), close_tag(t));
    let a = s.subrange(0, cs);
    let x = s.subrange(cs, ce);
    let b = s.subrange(ce, s.len() as int);
    assert(s =~= a + x + b);
    assert(spec_replace_or_insert_tag(s, t, v) =~= a + v + b);
    assert(a[a.len() - 1] == s[cs - 1]);
    assert(s.subrange(st, st + ot.len())[ot.len() - 1] == s[cs - 1]);
    assert(s.subrange(st, st + ot.len())[0] == s[st]);
    (cs, ce)
}

/// How inserting an entry splits the document: the line goes right before the last
/// `</UserSettings>`, at `r`.
#[verifier::rlimit(40)]
proof fn lemma_insert_shape(s: Seq<char>, t: Seq<char>, v: Seq<char>) -> (r: int)
    requires
        !has_entry(s, t),
        text::has_match(s, root_end()),
    ensures
        0 <= r < s.len(),
        text::matches_at(s, root_end(), r),
        s == s.subrange(0, r) + s.subrange(r, s.len() as int),
        spec_replace_or_insert_tag(s, t, v) == s.subrange(0, r) + inserted_line(t, v) + s.subrange(
            r,
            s.len() as int,
        ),
        s.subrange(r, s.len() as int)[0] == '<',
{
    text::lemma_last_match_exists(s, root_end());
    let r = text::last_match(s, root_end());
    let pre = s.subrange(0, r);
    let post = s.subrange(r, s.len() as int);
    assert(s =~= pre + post);
    assert(spec_replace_or_insert_tag(s, t, v) =~= pre + inserted_line(t, v) + post);
    assert(s.subrange(r, r + root_end().len())[0] == s[r]);
    assert(post[0] == s[r]);
    r
}

/// Setting the content of `t`'s entry leaves the entry of every other plain tag `u`
/// as it was, and keeps whether `<u>` occurs, when the old and new contents and `u`'s
/// content hold no `<`.
pub proof fn lemma_replace_keeps_other_entry(s: Seq<char>, t: Seq<char>, v: Seq<char>, u: Seq<char>)
    requires
        plain_tag(t),
        plain_tag(u),
        u != t,
        has_entry(s, t),
        clean_entry(s, t),
        lt_free(v),
        clean_entry(s, u),
    ensures
        raw_entry(spec_replace_or_insert_tag(s, t, v), u) == raw_entry(s, u),
        text::has_match(spec_replace_or_insert_tag(s, t, v), open_tag(u)) == text::has_match(s, open_tag(u)),
{
    let ou = open_tag(u);
    lemma_tags_are_patterns(u);
    let (cs, ce) = lemma_replace_shape(s, t, v);
    let st = text::first_match(s, open_tag(t));
    let a = s.subrange(0, cs);
    let x = s.subrange(cs, ce);
    let b = s.subrange(ce, s.len() as int);
    let s2 = spec_replace_or_insert_tag(s, t, v);
    lemma_replace_first(a, x, v, b, ou);
    if text::has_match(s, ou) {
        let f = text::first_match(s, ou);
        text::lemma_first_match_exists(s, ou);
        if f < a.len() {
            lemma_open_tags_apart(s, t, u, st, f);
            lemma_entry_before_kept(s, s2, a, x, v, b, u, st);
        } else {
            lemma_entry_after_kept(s, s2, a, x, v, b, u);
        }
    }
}

/// Two tag patterns that match at the same place are the same pattern.
pub proof fn lemma_patterns_same_start(s: Seq<char>, p: Seq<char>, q: Seq<char>, i: int)
    requires
        tag_pattern(p),
        tag_pattern(q),
        text::matches_at(s, p, i),
        text::matches_at(s, q, i),
    ensures
        p == q,
{
    if p.len() < q.len() {
        lemma_match_shape(s, p, i, i + p.len() - 1);
        assert(s.subrange(i, i + p.len())[p.len() - 1] == s[i + p.len() - 1]);
        lemma_match_shape(s, q, i, i + p.len() - 1);
    } else if q.len() < p.len() {
        lemma_match_shape(s, q, i, i + q.len() - 1);
        assert(s.subrange(i, i + q.len())[q.len() - 1] == s[i + q.len() - 1]);
        lemma_match_shape(s, p, i, i + q.len() - 1);
    } else {
        assert(p =~= s.subrange(i, i + p.len()));
        assert(q =~= s.subrange(i, i + q.len()));
    }
}

/// Inserting an entry line for `t` right before text that starts with `<` moves the
/// matches of another plain tag's `<u>` or `</u>` after it, keeps those before it, and
/// adds none.
#[verifier::rlimit(40)]
proof fn lemma_insert_match(pre: Seq<char>, post: Seq<char>, t: Seq<char>, v: Seq<char>, u: Seq<char>, p: Seq<char>, i: int)
    requires
        plain_tag(t),
        plain_tag(u),
        u != t,
        lt_free(v),
        p == open_tag(u) || p == close_tag(u),
        post.len() > 0 && post[0] == '<',
    ensures
        i < pre.len() ==> (text::matches_at(pre + post, p, i) <==> text::matches_at(
            pre + inserted_line(t, v) + post,
            p,
            i,
        )),
        i < pre.len() && text::matches_at(pre + post, p, i) ==> i + p.len() <= pre.len(),
        pre.len() <= i < pre.len() + inserted_line(t, v).len() ==> !text::matches_at(
            pre + inserted_line(t, v) + post,
            p,
            i,
        ),
        i >= pre.len() ==> (text::matches_at(pre + post, p, i) <==> text::matches_at(
            pre + inserted_line(t, v) + post,
            p,
            i + inserted_line(t, v).len(),
        )),
{
    let ins = inserted_line(t, v);
    let s = pre + post;
    let s2 = pre + ins + post;
    let ot = open_tag(t);
    let ct = close_tag(t);
    lemma_tags_are_patterns(t);
    lemma_tags_are_patterns(u);
    let n = pre.len() as int;
    let i0 = n + 2;
    let i1 = n + 2 + ot.len() + v.len();
    assert(s2.subrange(i0, i0 + ot.len()) =~= ot);
    assert(s2.subrange(i1, i1 + ct.len()) =~= ct);
    if 0 <= i < n {
        if text::matches_at(s, p, i) && i + p.len() > n {
            assert(s[n] == post[0]);
            lemma_match_shape(s, p, i, n);
        }
        if text::matches_at(s2, p, i) && i + p.len() > n {
            if i + p.len() > i0 {
                assert(s2[i0] == ot[0]);
                lemma_match_shape(s2, p, i, i0);
            } else {
                let e = i + p.len() - 1;
                assert(s2.subrange(i, i + p.len())[p.len() - 1] == s2[e]);
                assert(s2[e] == ' ');
            }
        }
        if i + p.len() <= n {
            assert(s.subrange(i, i + p.len()) =~= pre.subrange(i, i + p.len()));
            assert(s2.subrange(i, i + p.len()) =~= pre.subrange(i, i + p.len()));
        }
    }
    if n <= i < n + ins.len() && text::matches_at(s2, p, i) {
        lemma_match_shape(s2, p, i, i);
        if i == i0 {
            assert(text::matches_at(s2, ot, i0));
            lemma_patterns_same_start(s2, p, ot, i0);
            if p == open_tag(u) {
                assert(u =~= p.subrange(1, p.len() - 1));
                assert(t =~= ot.subrange(1, ot.len() - 1));
            } else {
                assert(p[1] == '/');
                assert(ot[1] != '/');
            }
        } else if i == i1 {
            assert(text::matches_at(s2, ct, i1));
            lemma_patterns_same_start(s2, p, ct, i1);
            if p == close_tag(u) {
                assert(u =~= p.subrange(2, p.len() - 1));
                assert(t =~= ct.subrange(2, ct.len() - 1));
            } else {
                assert(ct[1] == '/');
                assert(p[1] != '/');
            }
        } else if i < i0 {
            assert(s2[i] == ' ');
        } else if i < i0 + ot.len() {
            assert(s2[i] == ot[i - i0]);
        } else if i < i1 {
            assert(s2[i] == v[i - i0 - ot.len()]);
        } else if i < i1 + ct.len() {
            assert(s2[i] == ct[i - i1]);
        } else {
            assert(s2[i] == '\n');
        }
    }
    if i >= n && i + p.len() <= s.len() {
        assert(s.subrange(i, i + p.len()) =~= post.subrange(i - n, i - n + p.len()));
        assert(s2.subrange(i + ins.len(), i + ins.len() + p.len()) =~= post.subrange(i - n, i - n + p.len()));
    }
}

/// The first `<u>` or `</u>` in `pre + post` reappears as the first in `pre + line + post`
/// for an inserted entry line of another tag, moved when it lies in `post`.
proof fn lemma_insert_first(pre: Seq<char>, post: Seq<char>, t: Seq<char>, v: Seq<char>, u: Seq<char>, p: Seq<char>)
    requires
        plain_tag(t),
        plain_tag(u),
        u != t,
        lt_free(v),
        p == open_tag(u) || p == close_tag(u),
        post.len() > 0 && post[0] == '<',
    ensures
        text::has_match(pre + post, p) <==> text::has_match(pre + inserted_line(t, v) + post, p),
        text::has_match(pre + post, p) ==> {
            let f = text::first_match(pre + post, p);
            &&& f < pre.len() ==> f + p.len() <= pre.len() && text::first_match(
                pre + inserted_line(t, v) + post,
                p,
            ) == f
            &&& f >= pre.len() ==> text::first_match(pre + inserted_line(t, v) + post, p) == f
                + inserted_line(t, v).len()
        },
{
    let ins = inserted_line(t, v);
    let s = pre + post;
    let s2 = pre + ins + post;
    let n = pre.len() as int;
    let l = ins.len() as int;
    if text::has_match(s2, p) {
        text::lemma_first_match_exists(s2, p);
        let g = text::first_match(s2, p);
        if g < n {
            lemma_insert_match(pre, post, t, v, u, p, g);
        } else if g < n + l {
            lemma_insert_match(pre, post, t, v, u, p, g);
        } else {
            lemma_insert_match(pre, post, t, v, u, p, g - l);
        }
    }
    if text::has_match(s, p) {
        text::lemma_first_match_exists(s, p);
        let f = text::first_match(s, p);
        lemma_insert_match(pre, post, t, v, u, p, f);
        let f2 = if f < n { f } else { f + l };
        assert forall|j: int| 0 <= j < f2 implies !text::matches_at(s2, p, j) by {
            if j < n {
                lemma_insert_match(pre, post, t, v, u, p, j);
            } else if j < n + l {
                lemma_insert_match(pre, post, t, v, u, p, j);
            } else {
                lemma_insert_match(pre, post, t, v, u, p, j - l);
            }
        }
        text::lemma_first_match_unique(s2, p, f2);
    }
}

/// `UserSettings`, the name of the settings document's root element.
pub open spec fn root_name() -> Seq<char> {
    seq!['U', 's', 'e', 'r', 'S', 'e', 't', 't', 'i', 'n', 'g', 's']
}

proof fn lemma_root_end_is_close_tag()
    ensures
        root_end() == close_tag(root_name()),
        plain_tag(root_name()),
        tag_pattern(root_end()),
{
    assert(root_end() =~= close_tag(root_name()));
    lemma_tags_are_patterns(root_name());
}

/// The entry of `u`, whose `<u>` ends inside `pre`, is the same in `pre + post` and
/// `pre + line + post` when `post` starts with `</UserSettings>` and the content holds no `<`.
proof fn lemma_entry_before_insert_kept(pre: Seq<char>, post: Seq<char>, t: Seq<char>, v: Seq<char>, u: Seq<char>)
    requires
        plain_tag(t),
        plain_tag(u),
        u != t,
        u != root_name(),
        lt_free(v),
        text::matches_at(pre + post, root_end(), pre.len() as int),
        text::has_match(pre + post, open_tag(u)),
        text::first_match(pre + post, open_tag(u)) + open_tag(u).len() <= pre.len(),
        text::first_match(pre + inserted_line(t, v) + post, open_tag(u)) == text::first_match(
            pre + post,
            open_tag(u),
        ),
        text::has_match(pre + inserted_line(t, v) + post, open_tag(u)),
        clean_entry(pre + post, u),
    ensures
        raw_entry(pre + inserted_line(t, v) + post, u) == raw_entry(pre + post, u),
{
    let s = pre + post;
    let s2 = pre + inserted_line(t, v) + post;
    let ou = open_tag(u);
    let cu = close_tag(u);
    let n = pre.len() as int;
    lemma_tags_are_patterns(u);
    lemma_root_end_is_close_tag();
    assert(s.subrange(n, n + root_end().len())[0] == s[n]);
    assert(post[0] == s[n]);
    let f = text::first_match(s, ou);
    text::lemma_first_match_exists(s, ou);
    let cs_u = f + ou.len();
    let a2 = pre.subrange(cs_u, n);
    assert(after_open(s, u) =~= a2 + post);
    assert(after_open(s2, u) =~= a2 + inserted_line(t, v) + post);
    lemma_insert_first(a2, post, t, v, u, cu);
    if text::has_match(after_open(s, u), cu) {
        let g = text::first_match(after_open(s, u), cu);
        text::lemma_first_match_exists(after_open(s, u), cu);
        if g < a2.len() {
            assert(s.subrange(cs_u, cs_u + g) =~= a2.subrange(0, g));
            assert(s2.subrange(cs_u, cs_u + g) =~= a2.subrange(0, g));
        } else if g == a2.len() {
            assert(after_open(s, u).subrange(g, g + cu.len()) =~= s.subrange(n, n + cu.len()));
            assert(text::matches_at(s, cu, n));
            lemma_patterns_same_start(s, cu, root_end(), n);
            assert(u =~= cu.subrange(2, cu.len() - 1));
            assert(root_name() =~= root_end().subrange(2, root_end().len() - 1));
        } else {
            let c = s.subrange(cs_u, cs_u + g);
            assert(c[n - cs_u] == s[n]);
        }
    }
}

/// Inserting an entry line for `t` before the last `</UserSettings>` leaves the entry of
/// every other plain tag `u` as it was, and keeps whether `<u>` occurs, when `u`'s content
/// holds no `<`.
pub proof fn lemma_insert_keeps_other_entry(s: Seq<char>, t: Seq<char>, v: Seq<char>, u: Seq<char>)
    requires
        plain_tag(t),
        plain_tag(u),
        u != t,
        u != root_name(),
        lt_free(v),
        !has_entry(s, t),
        text::has_match(s, root_end()),
        clean_entry(s, u),
    ensures
        raw_entry(spec_replace_or_insert_tag(s, t, v), u) == raw_entry(s, u),
        text::has_match(spec_replace_or_insert_tag(s, t, v), open_tag(u)) == text::has_match(s, open_tag(u)),
{
    let ou = open_tag(u);
    let r = lemma_insert_shape(s, t, v);
    let pre = s.subrange(0, r);
    let post = s.subrange(r, s.len() as int);
    let ins = inserted_line(t, v);
    let s2 = spec_replace_or_insert_tag(s, t, v);
    lemma_insert_first(pre, post, t, v, u, ou);
    if text::has_match(s, ou) {
        text::lemma_first_match_exists(s, ou);
        let f = text::first_match(s, ou);
        if f >= r {
            assert(s =~= pre + Seq::<char>::empty() + post);
            lemma_entry_after_kept(s, s2, pre, Seq::<char>::empty(), ins, post, u);
        } else {
            lemma_entry_before_insert_kept(pre, post, t, v, u);
        }
    }
}

/// Setting an existing entry whose content holds no `<` makes its content exactly the
/// new text.
#[verifier::rlimit(40)]
pub proof fn lemma_replace_sets_entry(s: Seq<char>, t: Seq<char>, v: Seq<char>)
    requires
        plain_tag(t),
        has_entry(s, t),
        clean_entry(s, t),
        lt_free(v),
    ensures
        raw_entry(spec_replace_or_insert_tag(s, t, v), t) == Some(v),
{
    let ot = open_tag(t);
    let ct = close_tag(t);
    lemma_tags_are_patterns(t);
    let (cs, ce) = lemma_replace_shape(s, t, v);
    let a = s.subrange(0, cs);
    let x = s.subrange(cs, ce);
    let b = s.subrange(ce, s.len() as int);
    let s2 = spec_replace_or_insert_tag(s, t, v);
    lemma_replace_first(a, x, v, b, ot);
    let e = Seq::<char>::empty();
    assert(after_open(s, t) =~= e + x + b);
    assert(after_open(s2, t) =~= e + v + b);
    lemma_replace_first(e, x, v, b, ct);
    assert(s2.subrange(cs, cs + v.len()) =~= v);
}

/// In `pre + line + post`, where `pre + post` has no `<t>`, the first `<t>` is the one of
/// the inserted line.
proof fn lemma_inserted_open_first(pre: Seq<char>, post: Seq<char>, t: Seq<char>, v: Seq<char>)
    requires
        plain_tag(t),
        !text::has_match(pre + post, open_tag(t)),
    ensures
        text::has_match(pre + inserted_line(t, v) + post, open_tag(t)),
        text::first_match(pre + inserted_line(t, v) + post, open_tag(t)) == pre.len() + 2,
{
    let ot = open_tag(t);
    lemma_tags_are_patterns(t);
    let s = pre + post;
    let s2 = pre + inserted_line(t, v) + post;
    let n = pre.len() as int;
    let i0 = n + 2;
    assert(s2.subrange(i0, i0 + ot.len()) =~= ot);
    assert forall|j: int| 0 <= j < i0 implies !text::matches_at(s2, ot, j) by {
        if text::matches_at(s2, ot, j) {
            if j >= n {
                lemma_match_shape(s2, ot, j, j);
            } else if j + ot.len() <= n {
                assert(s2.subrange(j, j + ot.len()) =~= s.subrange(j, j + ot.len()));
                assert(text::matches_at(s, ot, j));
            } else if j + ot.len() - 1 >= i0 {
                assert(s2[i0] == '<');
                lemma_match_shape(s2, ot, j, i0);
            } else {
                let e = j + ot.len() - 1;
                assert(s2.subrange(j, j + ot.len())[ot.len() - 1] == s2[e]);
                assert(s2[e] == ' ');
            }
        }
    }
    text::lemma_first_match_unique(s2, ot, i0);
}

/// After `<`-free text, the first `</t>` is the one that follows it.
pub proof fn lemma_close_after_text(v: Seq<char>, t: Seq<char>, tail: Seq<char>)
    requires
        lt_free(v),
    ensures
        text::has_match(v + close_tag(t) + tail, close_tag(t)),
        text::first_match(v + close_tag(t) + tail, close_tag(t)) == v.len(),
{
    let ct = close_tag(t);
    let rest = v + ct + tail;
    assert(rest.subrange(v.len() as int, (v.len() + ct.len()) as int) =~= ct);
    assert forall|j: int| 0 <= j < v.len() implies !text::matches_at(rest, ct, j) by {
        if text::matches_at(rest, ct, j) {
            assert(rest.subrange(j, j + ct.len())[0] == rest[j]);
            assert(rest[j] == v[j]);
        }
    }
    text::lemma_first_match_unique(rest, ct, v.len() as int);
}

/// The entry line inserted for `t` into text without `<t>` holds exactly the new text.
proof fn lemma_inserted_entry(pre: Seq<char>, post: Seq<char>, t: Seq<char>, v: Seq<char>)
    requires
        plain_tag(t),
        !text::has_match(pre + post, open_tag(t)),
        lt_free(v),
    ensures
        raw_entry(pre + inserted_line(t, v) + post, t) == Some(v),
{
    let ot = open_tag(t);
    let ct = close_tag(t);
    let s2 = pre + inserted_line(t, v) + post;
    lemma_inserted_open_first(pre, post, t, v);
    let cs = pre.len() + 2 + ot.len();
    let tail = seq!['\n'] + post;
    assert(after_open(s2, t) =~= v + ct + tail);
    lemma_close_after_text(v, t, tail);
    assert(s2.subrange(cs as int, (cs + v.len()) as int) =~= v);
}

/// Inserting an entry for a tag that does not occur yet gives it exactly the new text.
pub proof fn lemma_insert_sets_entry(s: Seq<char>, t: Seq<char>, v: Seq<char>)
    requires
        plain_tag(t),
        !text::has_match(s, open_tag(t)),
        text::has_match(s, root_end()),
        lt_free(v),
    ensures
        raw_entry(spec_replace_or_insert_tag(s, t, v), t) == Some(v),
{
    let r = lemma_insert_shape(s, t, v);
    lemma_inserted_entry(s.subrange(0, r), s.subrange(r, s.len() as int), t, v);
}

/// A tag that occurs has a whole entry whose content holds no `<`.
pub open spec fn entry_ok(xml: Seq<char>, tag: Seq<char>) -> bool {
    text::has_match(xml, open_tag(tag)) ==> has_entry(xml, tag) && clean_entry(xml, tag)
}

/// Setting an entry keeps the document's `</UserSettings>`.
proof fn lemma_set_keeps_root(s: Seq<char>, t: Seq<char>, v: Seq<char>)
    requires
        plain_tag(t),
        t != root_name(),
        lt_free(v),
        entry_ok(s, t),
        text::has_match(s, root_end()),
    ensures
        text::has_match(spec_replace_or_insert_tag(s, t, v), root_end()),
{
    lemma_root_end_is_close_tag();
    if has_entry(s, t) {
        let (cs, ce) = lemma_replace_shape(s, t, v);
        lemma_replace_first(
            s.subrange(0, cs),
            s.subrange(cs, ce),
            v,
            s.subrange(ce, s.len() as int),
            root_end(),
        );
    } else {
        let r = lemma_insert_shape(s, t, v);
        lemma_insert_first(s.subrange(0, r), s.subrange(r, s.len() as int), t, v, root_name(), root_end());
    }
}

/// Setting `t` keeps the entry of every other plain tag, and keeps it well formed.
proof fn lemma_set_keeps_other(s: Seq<char>, t: Seq<char>, v: Seq<char>, w: Seq<char>)
    requires
        plain_tag(t),
        plain_tag(w),
        w != t,
        w != root_name(),
        lt_free(v),
        entry_ok(s, t),
        entry_ok(s, w),
    ensures
        raw_entry(spec_replace_or_insert_tag(s, t, v), w) == raw_entry(s, w),
        entry_ok(spec_replace_or_insert_tag(s, t, v), w),
{
    if has_entry(s, t) {
        lemma_replace_keeps_other_entry(s, t, v, w);
    } else if text::has_match(s, root_end()) {
        lemma_insert_keeps_other_entry(s, t, v, w);
    }
}

/// Setting `t` gives it exactly the new text whenever the document has an entry for it or
/// a `</UserSettings>`, and keeps it well formed.
proof fn lemma_set_same(s: Seq<char>, t: Seq<char>, v: Seq<char>)
    requires
        plain_tag(t),
        lt_free(v),
        entry_ok(s, t),
    ensures
        has_entry(s, t) || text::has_match(s, root_end()) ==> raw_entry(
            spec_replace_or_insert_tag(s, t, v),
            t,
        ) == Some(v),
        entry_ok(spec_replace_or_insert_tag(s, t, v), t),
{
    if has_entry(s, t) {
        lemma_replace_sets_entry(s, t, v);
    } else if text::has_match(s, root_end()) {
        lemma_insert_sets_entry(s, t, v);
    }
}

/// Every entry names a plain tag other than `UserSettings` and holds text without `<`.
pub open spec fn plain_entries(entries: Seq<(Seq<char>, Seq<char>)>) -> bool {
    forall|i: int|
        0 <= i < entries.len() ==> {
            &&& plain_tag(#[trigger] entries[i].0)
            &&& entries[i].0 != root_name()
            &&& lt_free(entries[i].1)
        }
}

/// Every tag named by the entries is well formed in the document.
pub open spec fn entries_ok(xml: Seq<char>, entries: Seq<(Seq<char>, Seq<char>)>) -> bool {
    forall|i: int| 0 <= i < entries.len() ==> entry_ok(xml, #[trigger] entries[i].0)
}

/// The text of the last entry for `tag`, if any entry names it.
pub open spec fn last_value(entries: Seq<(Seq<char>, Seq<char>)>, tag: Seq<char>) -> Option<Seq<char>>
    decreases entries.len(),
{
    if entries.len() == 0 {
        None
    } else if entries.last().0 == tag {
        Some(entries.last().1)
    } else {
        last_value(entries.drop_last(), tag)
    }
}

proof fn lemma_drop_last_entries(xml: Seq<char>, entries: Seq<(Seq<char>, Seq<char>)>)
    requires
        entries.len() > 0,
        plain_entries(entries),
        entries_ok(xml, entries),
    ensures
        plain_entries(entries.drop_last()),
        entries_ok(xml, entries.drop_last()),
        plain_tag(entries.last().0),
        entries.last().0 != root_name(),
        lt_free(entries.last().1),
        entry_ok(xml, entries.last().0),
{
    let init = entries.drop_last();
    assert forall|i: int| 0 <= i < init.len() implies init[i] == entries[i] by {}
    assert(entries.last() == entries[entries.len() - 1]);
}

/// Writing entries keeps every tag that was well formed well formed.
proof fn lemma_apply_entry_ok(xml: Seq<char>, entries: Seq<(Seq<char>, Seq<char>)>, w: Seq<char>)
    requires
        plain_entries(entries),
        entries_ok(xml, entries),
        plain_tag(w),
        w != root_name(),
        entry_ok(xml, w),
    ensures
        entry_ok(apply_entries(xml, entries), w),
    decreases entries.len(),
{
    if entries.len() > 0 {
        let init = entries.drop_last();
        let t = entries.last().0;
        let v = entries.last().1;
        lemma_drop_last_entries(xml, entries);
        lemma_apply_entry_ok(xml, init, w);
        lemma_apply_entry_ok(xml, init, t);
        let d = apply_entries(xml, init);
        if w == t {
            lemma_set_same(d, t, v);
        } else {
            lemma_set_keeps_other(d, t, v, w);
        }
    }
}

/// Writing entries keeps the document's `</UserSettings>`.
proof fn lemma_apply_keeps_root(xml: Seq<char>, entries: Seq<(Seq<char>, Seq<char>)>)
    requires
        plain_entries(entries),
        entries_ok(xml, entries),
        text::has_match(xml, root_end()),
    ensures
        text::has_match(apply_entries(xml, entries), root_end()),
    decreases entries.len(),
{
    if entries.len() > 0 {
        let init = entries.drop_last();
        let t = entries.last().0;
        lemma_drop_last_entries(xml, entries);
        lemma_apply_keeps_root(xml, init);
        lemma_apply_entry_ok(xml, init, t);
        lemma_set_keeps_root(apply_entries(xml, init), t, entries.last().1);
    }
}

/// Writing entries in turn leaves the entry of every tag that none of them names exactly
/// as it was, when the document's entries hold no `<`.
pub proof fn lemma_apply_keeps_other_entry(xml: Seq<char>, entries: Seq<(Seq<char>, Seq<char>)>, u: Seq<char>)
    requires
        plain_entries(entries),
        entries_ok(xml, entries),
        plain_tag(u),
        u != root_name(),
        entry_ok(xml, u),
        forall|i: int| 0 <= i < entries.len() ==> #[trigger] entries[i].0 != u,
    ensures
        raw_entry(apply_entries(xml, entries), u) == raw_entry(xml, u),
    decreases entries.len(),
{
    if entries.len() > 0 {
        let init = entries.drop_last();
        let t = entries.last().0;
        lemma_drop_last_entries(xml, entries);
        assert forall|i: int| 0 <= i < init.len() implies #[trigger] init[i].0 != u by {
            assert(init[i] == entries[i]);
        }
        assert(entries[entries.len() - 1].0 != u);
        lemma_apply_keeps_other_entry(xml, init, u);
        lemma_apply_entry_ok(xml, init, u);
        lemma_apply_entry_ok(xml, init, t);
        lemma_set_keeps_other(apply_entries(xml, init), t, entries.last().1, u);
    }
}

/// Writing entries in turn into a document with a `</UserSettings>` leaves each named tag
/// with exactly the text of its last entry, when the document's entries hold no `<`.
pub proof fn lemma_apply_reads_back(xml: Seq<char>, entries: Seq<(Seq<char>, Seq<char>)>, t: Seq<char>)
    requires
        plain_entries(entries),
        entries_ok(xml, entries),
        text::has_match(xml, root_end()),
        plain_tag(t),
        t != root_name(),
        entry_ok(xml, t),
        last_value(entries, t) is Some,
    ensures
        raw_entry(apply_entries(xml, entries), t) == last_value(entries, t),
    decreases entries.len(),
{
    let init = entries.drop_last();
    let w = entries.last().0;
    let v = entries.last().1;
    lemma_drop_last_entries(xml, entries);
    let d = apply_entries(xml, init);
    lemma_apply_entry_ok(xml, init, t);
    lemma_apply_entry_ok(xml, init, w);
    lemma_apply_keeps_root(xml, init);
    if w == t {
        lemma_set_same(d, t, v);
    } else {
        lemma_apply_reads_back(xml, init, t);
        lemma_set_keeps_other(d, w, v, t);
    }
}

} // verus!
