//! Reading and rewriting single `<Tag>value</Tag>` entries of the settings XML file
//! in place, leaving everything else in the file untouched.
use vstd::prelude::*;
use crate::text;

verus! {

/// `<tag>`
pub open spec fn open_tag(tag: Seq<char>) -> Seq<char> {
    seq!['<'] + tag + seq!['>']
}

/// `</tag>`
pub open spec fn close_tag(tag: Seq<char>) -> Seq<char> {
    seq!['<', '/'] + tag + seq!['>']
}

/// `</UserSettings>`, the end of the settings document's root element.
pub open spec fn root_end() -> Seq<char> {
    seq!['<', '/', 'U', 's', 'e', 'r', 'S', 'e', 't', 't', 'i', 'n', 'g', 's', '>']
}

/// Where the content of the first `<tag>` starts.
pub open spec fn content_start(xml: Seq<char>, tag: Seq<char>) -> int {
    text::first_match(xml, open_tag(tag)) + open_tag(tag).len()
}

/// Everything after the first `<tag>`.
pub open spec fn after_open(xml: Seq<char>, tag: Seq<char>) -> Seq<char> {
    xml.subrange(content_start(xml, tag), xml.len() as int)
}

/// The document holds a first `<tag>` followed somewhere later by `</tag>`.
pub open spec fn has_entry(xml: Seq<char>, tag: Seq<char>) -> bool {
    text::has_match(xml, open_tag(tag)) && text::has_match(after_open(xml, tag), close_tag(tag))
}

/// Where the content of the first `<tag>` entry ends (the first `</tag>` after it).
pub open spec fn content_end(xml: Seq<char>, tag: Seq<char>) -> int {
    content_start(xml, tag) + text::first_match(after_open(xml, tag), close_tag(tag))
}

/// The trimmed text between the first `<tag>` and the first `</tag>` after it, if both exist.
pub open spec fn spec_tag_value(xml: Seq<char>, tag: Seq<char>) -> Option<Seq<char>> {
    if has_entry(xml, tag) {
        Some(text::trim(xml.subrange(content_start(xml, tag), content_end(xml, tag))))
    } else {
        None
    }
}

/// The indented `<tag>value</tag>` line that setting a missing tag adds.
pub open spec fn inserted_line(tag: Seq<char>, value: Seq<char>) -> Seq<char> {
    seq![' ', ' '] + open_tag(tag) + value + close_tag(tag) + seq!['\n']
}

/// The document after setting `tag` to `value`: the content of an existing entry is
/// replaced; otherwise a new indented entry line goes right before the last
/// `</UserSettings>`; a document with neither is left as it is.
pub open spec fn spec_replace_or_insert_tag(xml: Seq<char>, tag: Seq<char>, value: Seq<char>) -> Seq<
    char,
> {
    if has_entry(xml, tag) {
        xml.subrange(0, content_start(xml, tag)) + value + xml.subrange(
            content_end(xml, tag),
            xml.len() as int,
        )
    } else if text::has_match(xml, root_end()) {
        let r = text::last_match(xml, root_end());
        xml.subrange(0, r) + inserted_line(tag, value) + xml.subrange(r, xml.len() as int)
    } else {
        xml
    }
}

fn open_tag_chars(tag: &str) -> (v: Vec<char>)
    ensures
        v@ == open_tag(tag@),
{
    let mut v: Vec<char> = Vec::new();
    v.push('<');
    text::push_str_chars(&mut v, tag);
    v.push('>');
    assert(v@ =~= open_tag(tag@));
    v
}

fn close_tag_chars(tag: &str) -> (v: Vec<char>)
    ensures
        v@ == close_tag(tag@),
{
    let mut v: Vec<char> = Vec::new();
    v.push('<');
    v.push('/');
    text::push_str_chars(&mut v, tag);
    v.push('>');
    assert(v@ =~= close_tag(tag@));
    v
}

fn root_end_chars() -> (v: Vec<char>)
    ensures
        v@ == root_end(),
{
    let v = text::chars_of("</UserSettings>");
    proof {
        reveal_strlit("</UserSettings>");
    }
    assert(v@ =~= root_end());
    v
}

/// `h[from..to]` as a new vector.
pub fn slice_chars(h: &Vec<char>, from: usize, to: usize) -> (v: Vec<char>)
    requires
        from <= to <= h@.len(),
    ensures
        v@ == h@.subrange(from as int, to as int),
{
    let mut v: Vec<char> = Vec::new();
    push_range(&mut v, h, from, to);
    assert(v@ =~= h@.subrange(from as int, to as int));
    v
}

/// Appends `h[from..to]` to `out`.
pub fn push_range(out: &mut Vec<char>, h: &Vec<char>, from: usize, to: usize)
    requires
        from <= to <= h@.len(),
    ensures
        final(out)@ == old(out)@ + h@.subrange(from as int, to as int),
{
    let mut i = from;
    while i < to
        invariant
            from <= i <= to <= h@.len(),
            out@ == old(out)@ + h@.subrange(from as int, i as int),
        decreases to - i,
    {
        out.push(h[i]);
        i = i + 1;
        assert(out@ =~= old(out)@ + h@.subrange(from as int, i as int));
    }
}

/// Locates the first `<tag>` entry: the start and end of its content.
fn find_entry(h: &Vec<char>, tag: &str) -> (r: Option<(usize, usize)>)
    ensures
        r is Some <==> has_entry(h@, tag@),
        r matches Some((s, e)) ==> s == content_start(h@, tag@) && e == content_end(h@, tag@)
            && s <= e <= h@.len(),
{
    let hl = h.len();
    let open = open_tag_chars(tag);
    let close = close_tag_chars(tag);
    match text::find_first(h, &open) {
        None => None,
        Some(start) => {
            proof {
                text::lemma_first_match_unique(h@, open@, start as int);
            }
            let cs = start + open.len();
            let rest = slice_chars(h, cs, h.len());
            match text::find_first(&rest, &close) {
                None => None,
                Some(e) => {
                    proof {
                        text::lemma_first_match_unique(rest@, close@, e as int);
                    }
                    Some((cs, cs + e))
                },
            }
        },
    }
}

/// The trimmed text of the first `<tag>…</tag>` entry of `xml`, if there is one.
pub fn tag_value(xml: &str, tag: &str) -> (r: Option<String>)
    ensures
        match r {
            Some(v) => spec_tag_value(xml@, tag@) == Some(v@),
            None => spec_tag_value(xml@, tag@) is None,
        },
{
    let h = text::chars_of(xml);
    match find_entry(&h, tag) {
        None => None,
        Some((s, e)) => {
            let v = text::trimmed_range(&h, s, e);
            Some(text::string_from_chars(&v))
        },
    }
}

/// Sets `tag` to `value` in the settings document `xml` (see `spec_replace_or_insert_tag`).
pub fn replace_or_insert_tag(xml: &mut String, tag: &str, value: &str)
    ensures
        final(xml)@ == spec_replace_or_insert_tag(old(xml)@, tag@, value@),
{
    let h = text::chars_of(xml.as_str());
    if let Some((s, e)) = find_entry(&h, tag) {
        let mut out: Vec<char> = Vec::new();
        push_range(&mut out, &h, 0, s);
        text::push_str_chars(&mut out, value);
        push_range(&mut out, &h, e, h.len());
        *xml = text::string_from_chars(&out);
        return;
    }
    let root = root_end_chars();
    if let Some(r) = text::find_last(&h, &root) {
        proof {
            text::lemma_last_match_unique(h@, root@, r as int);
        }
        let mut out: Vec<char> = Vec::new();
        push_range(&mut out, &h, 0, r);
        out.push(' ');
        out.push(' ');
        let open = open_tag_chars(tag);
        text::push_chars(&mut out, &open);
        text::push_str_chars(&mut out, value);
        let close = close_tag_chars(tag);
        text::push_chars(&mut out, &close);
        out.push('\n');
        push_range(&mut out, &h, r, h.len());
        assert(out@ =~= spec_replace_or_insert_tag(h@, tag@, value@));
        *xml = text::string_from_chars(&out);
    }
}


/// A document `a + <tag>value</tag>...` where `a` holds no `<tag>` reads `value` back for `tag`.
proof fn lemma_tag_value_of_joined(a: Seq<char>, value: Seq<char>, tail: Seq<char>, tag: Seq<char>)
    requires
        forall|k: int| 1 <= k < open_tag(tag).len() ==> #[trigger] open_tag(tag)[k] != open_tag(tag)[0],
        forall|k: int| 1 <= k < close_tag(tag).len() ==> #[trigger] close_tag(tag)[k] != close_tag(tag)[0],
        !text::has_match(value, close_tag(tag)),
        !text::has_match(a, open_tag(tag)),
        text::matches_at(tail, close_tag(tag), 0),
    ensures
        spec_tag_value(a + (open_tag(tag) + value + tail), tag) == Some(text::trim(value)),
{
    let o = open_tag(tag);
    let c = close_tag(tag);
    let b = o + value + tail;
    let new = a + b;
    assert(b.subrange(0, o.len() as int) =~= o);
    text::lemma_first_match_at_join(a, b, o);
    text::lemma_first_match_unique(new, o, a.len() as int);
    let cs = (a.len() + o.len()) as int;
    let rest2 = after_open(new, tag);
    assert(rest2 =~= value + tail);
    text::lemma_first_match_at_join(value, tail, c);
    text::lemma_first_match_unique(rest2, c, value.len() as int);
    assert(new.subrange(cs, cs + value.len()) =~= value);
}

/// The replacing half of `lemma_tag_value_after_replace_or_insert`.
proof fn lemma_tag_value_after_replace(xml: Seq<char>, tag: Seq<char>, value: Seq<char>)
    requires
        forall|k: int| 1 <= k < open_tag(tag).len() ==> #[trigger] open_tag(tag)[k] != open_tag(tag)[0],
        forall|k: int| 1 <= k < close_tag(tag).len() ==> #[trigger] close_tag(tag)[k] != close_tag(tag)[0],
        !text::has_match(value, close_tag(tag)),
        has_entry(xml, tag),
    ensures
        spec_tag_value(spec_replace_or_insert_tag(xml, tag, value), tag) == Some(text::trim(value)),
{
    let o = open_tag(tag);
    let c = close_tag(tag);
    let new = spec_replace_or_insert_tag(xml, tag, value);
    let start = text::first_match(xml, o);
    let cs = content_start(xml, tag);
    let ce = content_end(xml, tag);
    let rest = after_open(xml, tag);
    let e = text::first_match(rest, c);
    text::lemma_first_match_exists(xml, o);
    text::lemma_first_match_exists(rest, c);
    let a = xml.subrange(0, start);
    let tail = xml.subrange(ce, xml.len() as int);
    assert(xml.subrange(start, cs) =~= o);
    assert(xml.subrange(0, cs) =~= a + o);
    assert(rest.subrange(e, e + c.len()) =~= tail.subrange(0, c.len() as int));
    assert(text::matches_at(tail, c, 0));
    text::lemma_prefix_no_match(xml, o, start);
    assert(new =~= a + (o + value + tail));
    lemma_tag_value_of_joined(a, value, tail, tag);
}

/// The inserting half of `lemma_tag_value_after_replace_or_insert`.
proof fn lemma_tag_value_after_insert(xml: Seq<char>, tag: Seq<char>, value: Seq<char>)
    requires
        forall|k: int| 1 <= k < open_tag(tag).len() ==> #[trigger] open_tag(tag)[k] != open_tag(tag)[0],
        forall|k: int| 1 <= k < close_tag(tag).len() ==> #[trigger] close_tag(tag)[k] != close_tag(tag)[0],
        !text::has_match(value, close_tag(tag)),
        !text::has_match(xml, open_tag(tag)),
        text::has_match(xml, root_end()),
    ensures
        spec_tag_value(spec_replace_or_insert_tag(xml, tag, value), tag) == Some(text::trim(value)),
{
    let o = open_tag(tag);
    let c = close_tag(tag);
    let new = spec_replace_or_insert_tag(xml, tag, value);
    let root = root_end();
    let r = text::last_match(xml, root);
    text::lemma_last_match_exists(xml, root);
    let p = xml.subrange(0, r);
    let rr = xml.subrange(r, xml.len() as int);
    let sp = seq![' ', ' '];
    text::lemma_prefix_no_match(xml, o, r);
    text::lemma_no_match_append(p, sp, o);
    let tail = c + seq!['\n'] + rr;
    assert(tail.subrange(0, c.len() as int) =~= c);
    let line = inserted_line(tag, value);
    assert(new == p + line + rr);
    assert(new =~= (p + sp) + (o + value + tail));
    lemma_tag_value_of_joined(p + sp, value, tail, tag);
}

/// Reading a tag back after writing it: once `tag` is set to `value`, the entry's
/// value is `value` (trimmed, as every read trims). This holds when the tag name holds
/// no `<`, the value holds no `</tag>`, and the document either already has a complete
/// `<tag>` entry or has no `<tag>` at all but has a `</UserSettings>` to insert before.
pub proof fn lemma_tag_value_after_replace_or_insert(xml: Seq<char>, tag: Seq<char>, value: Seq<char>)
    requires
        forall|k: int| 0 <= k < tag.len() ==> tag[k] != '<',
        !text::has_match(value, close_tag(tag)),
        has_entry(xml, tag) || (!text::has_match(xml, open_tag(tag)) && text::has_match(
            xml,
            root_end(),
        )),
    ensures
        spec_tag_value(spec_replace_or_insert_tag(xml, tag, value), tag) == Some(text::trim(value)),
{
    let o = open_tag(tag);
    let c = close_tag(tag);
    assert forall|k: int| 1 <= k < o.len() implies #[trigger] o[k] != o[0] by {
        if k < o.len() - 1 {
            assert(o[k] == tag[k - 1]);
        }
    }
    assert forall|k: int| 1 <= k < c.len() implies #[trigger] c[k] != c[0] by {
        if 2 <= k < c.len() - 1 {
            assert(c[k] == tag[k - 2]);
        }
    }
    if has_entry(xml, tag) {
        lemma_tag_value_after_replace(xml, tag, value);
    } else {
        lemma_tag_value_after_insert(xml, tag, value);
    }
}

} // verus!
