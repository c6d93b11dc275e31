//! Character-sequence primitives shared by the settings and media modules:
//! searching, trimming, decimal rendering and parsing.
use vstd::prelude::*;

verus! {

/// The characters of `s`, in order.
pub fn chars_of(s: &str) -> (v: Vec<char>)
    ensures
        v@ == s@,
{
    let mut v: Vec<char> = Vec::new();
    for c in it: s.chars()
        invariant
            v@ == it.seq().take(it.index()),
    {
        v.push(c);
    }
    v
}

/// Collects characters into a `String` (std's `FromIterator<char>` for `String`):
/// the string holds exactly these characters, in order.
#[verifier::external_body]
pub(crate) fn string_from_chars(v: &Vec<char>) -> (s: String)
    ensures
        s@ == v@,
{
    v.iter().collect()
}

/// Appends the characters of `s` to `out`.
pub fn push_str_chars(out: &mut Vec<char>, s: &str)
    ensures
        final(out)@ == old(out)@ + s@,
{
    let mut cs = chars_of(s);
    out.append(&mut cs);
}

/// Appends the characters of `other` to `out`.
pub fn push_chars(out: &mut Vec<char>, other: &Vec<char>)
    ensures
        final(out)@ == old(out)@ + other@,
{
    let mut i: usize = 0;
    while i < other.len()
        invariant
            i <= other@.len(),
            out@ == old(out)@ + other@.take(i as int),
        decreases other@.len() - i,
    {
        out.push(other[i]);
        i = i + 1;
        assert(other@.take(i as int) =~= other@.take(i - 1).push(other@[i - 1]));
    }
    assert(other@.take(other@.len() as int) =~= other@);
}

/// Whether two character vectors are equal.
pub fn chars_eq(a: &Vec<char>, b: &Vec<char>) -> (r: bool)
    ensures
        r == (a@ == b@),
{
    if a.len() != b.len() {
        return false;
    }
    let mut i: usize = 0;
    while i < a.len()
        invariant
            a@.len() == b@.len(),
            i <= a@.len(),
            forall|k: int| 0 <= k < i ==> a@[k] == b@[k],
        decreases a@.len() - i,
    {
        if a[i] != b[i] {
            return false;
        }
        i = i + 1;
    }
    assert(a@ =~= b@);
    true
}

/// Whether two strings are equal.
pub fn str_eq(a: &str, b: &str) -> (r: bool)
    ensures
        r == (a@ == b@),
{
    let x = chars_of(a);
    let y = chars_of(b);
    chars_eq(&x, &y)
}

/// Whether `needle` occurs in `hay` (`str::contains`).
pub fn str_contains(hay: &str, needle: &str) -> (r: bool)
    ensures
        r == has_match(hay@, needle@),
{
    let h = chars_of(hay);
    let n = chars_of(needle);
    find_first(&h, &n).is_some()
}

/// `s` holds nothing but white space (`s.trim().is_empty()`).
pub open spec fn is_blank(s: Seq<char>) -> bool {
    trim(s).len() == 0
}

/// Whether `s` holds nothing but white space.
pub fn str_is_blank(s: &str) -> (r: bool)
    ensures
        r == is_blank(s@),
{
    let cs = chars_of(s);
    let t = trimmed_range(&cs, 0, cs.len());
    assert(cs@.subrange(0, cs@.len() as int) =~= cs@);
    t.len() == 0
}

/// `p` occurs in `h` starting at index `i`.
pub open spec fn matches_at(h: Seq<char>, p: Seq<char>, i: int) -> bool {
    0 <= i && i + p.len() <= h.len() && h.subrange(i, i + p.len()) == p
}

/// `p` occurs somewhere in `h`.
pub open spec fn has_match(h: Seq<char>, p: Seq<char>) -> bool {
    exists|i: int| matches_at(h, p, i)
}

/// `i` is where the first occurrence of `p` in `h` starts.
pub open spec fn is_first_match(h: Seq<char>, p: Seq<char>, i: int) -> bool {
    &&& matches_at(h, p, i)
    &&& forall|j: int| 0 <= j < i ==> !matches_at(h, p, j)
}

/// `i` is where the last occurrence of `p` in `h` starts.
pub open spec fn is_last_match(h: Seq<char>, p: Seq<char>, i: int) -> bool {
    &&& matches_at(h, p, i)
    &&& forall|j: int| i < j ==> !matches_at(h, p, j)
}

/// Start of the first occurrence of `p` in `h` (meaningful when `has_match(h, p)`).
pub open spec fn first_match(h: Seq<char>, p: Seq<char>) -> int {
    choose|i: int| is_first_match(h, p, i)
}

/// Start of the last occurrence of `p` in `h` (meaningful when `has_match(h, p)`).
pub open spec fn last_match(h: Seq<char>, p: Seq<char>) -> int {
    choose|i: int| is_last_match(h, p, i)
}

/// Whether `p` occurs at index `i` of `h`.
pub fn match_at(h: &Vec<char>, p: &Vec<char>, i: usize) -> (r: bool)
    ensures
        r == matches_at(h@, p@, i as int),
{
    if i > h.len() || p.len() > h.len() - i {
        return false;
    }
    let hl = h.len();
    let mut k: usize = 0;
    while k < p.len()
        invariant
            hl == h@.len(),
            i + p@.len() <= h@.len(),
            k <= p@.len(),
            forall|m: int| 0 <= m < k ==> h@[i + m] == p@[m],
        decreases p@.len() - k,
    {
        if h[i + k] != p[k] {
            assert(h@.subrange(i as int, i + p@.len())[k as int] != p@[k as int]);
            return false;
        }
        k = k + 1;
    }
    assert(h@.subrange(i as int, i + p@.len()) =~= p@);
    true
}

/// Index of the first occurrence of `p` in `h` (like `str::find`).
pub fn find_first(h: &Vec<char>, p: &Vec<char>) -> (r: Option<usize>)
    ensures
        r matches Some(i) ==> is_first_match(h@, p@, i as int),
        r is None ==> !has_match(h@, p@),
{
    let hl = h.len();
    let mut i: usize = 0;
    loop
        invariant
            hl == h@.len(),
            i <= hl,
            forall|j: int| 0 <= j < i ==> !matches_at(h@, p@, j),
        decreases hl - i,
    {
        if match_at(h, p, i) {
            return Some(i);
        }
        if i == hl {
            return None;
        }
        i = i + 1;
    }
}

/// Index of the last occurrence of `p` in `h` (like `str::rfind`).
pub fn find_last(h: &Vec<char>, p: &Vec<char>) -> (r: Option<usize>)
    ensures
        r matches Some(i) ==> is_last_match(h@, p@, i as int),
        r is None ==> !has_match(h@, p@),
{
    let mut i: usize = h.len();
    loop
        invariant
            i <= h@.len(),
            forall|j: int| i < j ==> !matches_at(h@, p@, j),
        decreases i,
    {
        if match_at(h, p, i) {
            return Some(i);
        }
        if i == 0 {
            return None;
        }
        i = i - 1;
    }
}

proof fn lemma_first_match_below(h: Seq<char>, p: Seq<char>, i: int)
    requires
        matches_at(h, p, i),
    ensures
        exists|m: int| is_first_match(h, p, m),
    decreases i,
{
    if exists|j: int| 0 <= j < i && matches_at(h, p, j) {
        let j = choose|j: int| 0 <= j < i && matches_at(h, p, j);
        lemma_first_match_below(h, p, j);
    } else {
        assert(is_first_match(h, p, i));
    }
}

/// Every text that holds `p` has a first occurrence of it, and `first_match` names it.
pub proof fn lemma_first_match_exists(h: Seq<char>, p: Seq<char>)
    requires
        has_match(h, p),
    ensures
        is_first_match(h, p, first_match(h, p)),
{
    let i = choose|i: int| matches_at(h, p, i);
    lemma_first_match_below(h, p, i);
}

proof fn lemma_last_match_above(h: Seq<char>, p: Seq<char>, i: int)
    requires
        matches_at(h, p, i),
    ensures
        exists|m: int| is_last_match(h, p, m),
    decreases h.len() - i,
{
    if exists|j: int| i < j && matches_at(h, p, j) {
        let j = choose|j: int| i < j && matches_at(h, p, j);
        lemma_last_match_above(h, p, j);
    } else {
        assert(is_last_match(h, p, i));
    }
}

/// Every text that holds `p` has a last occurrence of it, and `last_match` names it.
pub proof fn lemma_last_match_exists(h: Seq<char>, p: Seq<char>)
    requires
        has_match(h, p),
    ensures
        is_last_match(h, p, last_match(h, p)),
{
    let i = choose|i: int| matches_at(h, p, i);
    lemma_last_match_above(h, p, i);
}

/// A first occurrence found by search is the one `first_match` names.
pub proof fn lemma_first_match_unique(h: Seq<char>, p: Seq<char>, i: int)
    requires
        is_first_match(h, p, i),
    ensures
        has_match(h, p),
        first_match(h, p) == i,
{
    let k = first_match(h, p);
    assert(is_first_match(h, p, k));
    if k < i {
        assert(!matches_at(h, p, k));
    }
    if i < k {
        assert(!matches_at(h, p, i));
    }
}

/// A last occurrence found by search is the one `last_match` names.
pub proof fn lemma_last_match_unique(h: Seq<char>, p: Seq<char>, i: int)
    requires
        is_last_match(h, p, i),
    ensures
        has_match(h, p),
        last_match(h, p) == i,
{
    let k = last_match(h, p);
    assert(is_last_match(h, p, k));
    if k < i {
        assert(!matches_at(h, p, i));
    }
    if i < k {
        assert(!matches_at(h, p, k));
    }
}


/// An occurrence inside a prefix of `h` is an occurrence in `h`: a prefix of a text
/// without `p` holds no `p`.
pub proof fn lemma_prefix_no_match(h: Seq<char>, p: Seq<char>, i: int)
    requires
        0 <= i <= h.len(),
        forall|j: int| 0 <= j && j + p.len() <= i ==> !matches_at(h, p, j),
    ensures
        !has_match(h.subrange(0, i), p),
{
    let a = h.subrange(0, i);
    assert forall|j: int| !matches_at(a, p, j) by {
        if matches_at(a, p, j) {
            assert(a.subrange(j, j + p.len()) =~= h.subrange(j, j + p.len()));
            assert(matches_at(h, p, j));
        }
    }
}

/// When `p`'s first character occurs nowhere else in `p`, and `b` starts with `p`, the
/// first `p` in `a + b` is the one that starts `b` (provided `a` holds none).
pub proof fn lemma_first_match_at_join(a: Seq<char>, b: Seq<char>, p: Seq<char>)
    requires
        !has_match(a, p),
        p.len() >= 1,
        forall|k: int| 1 <= k < p.len() ==> #[trigger] p[k] != p[0],
        matches_at(b, p, 0),
    ensures
        is_first_match(a + b, p, a.len() as int),
{
    let ab = a + b;
    assert(ab.subrange(a.len() as int, (a.len() + p.len()) as int) =~= b.subrange(0, p.len() as int));
    assert forall|j: int| 0 <= j < a.len() implies !matches_at(ab, p, j) by {
        if matches_at(ab, p, j) {
            if j + p.len() <= a.len() {
                assert(ab.subrange(j, j + p.len()) =~= a.subrange(j, j + p.len()));
                assert(matches_at(a, p, j));
            } else {
                let k = a.len() - j;
                assert(ab.subrange(j, j + p.len())[k] == ab[a.len() as int]);
                assert(b.subrange(0, p.len() as int)[0] == b[0]);
            }
        }
    }
}

/// Appending text that lacks `p`'s last character creates no occurrence of `p`.
pub proof fn lemma_no_match_append(a: Seq<char>, s: Seq<char>, p: Seq<char>)
    requires
        !has_match(a, p),
        p.len() >= 1,
        forall|k: int| 0 <= k < s.len() ==> s[k] != p.last(),
    ensures
        !has_match(a + s, p),
{
    let as_ = a + s;
    assert forall|j: int| !matches_at(as_, p, j) by {
        if matches_at(as_, p, j) {
            let e = j + p.len() - 1;
            if e < a.len() {
                assert(as_.subrange(j, j + p.len()) =~= a.subrange(j, j + p.len()));
                assert(matches_at(a, p, j));
            } else {
                assert(as_.subrange(j, j + p.len())[p.len() - 1] == as_[e]);
                assert(as_[e] == s[e - a.len()]);
            }
        }
    }
}

/// Unicode `White_Space`, the set that `char::is_whitespace` and `str::trim` use.
pub open spec fn is_white_space(c: char) -> bool {
    ||| ('\u{9}' <= c && c <= '\u{d}')
    ||| c == ' '
    ||| c == '\u{85}'
    ||| c == '\u{a0}'
    ||| c == '\u{1680}'
    ||| ('\u{2000}' <= c && c <= '\u{200a}')
    ||| c == '\u{2028}'
    ||| c == '\u{2029}'
    ||| c == '\u{202f}'
    ||| c == '\u{205f}'
    ||| c == '\u{3000}'
}

/// `c` is Unicode white space.
pub fn white_space(c: char) -> (r: bool)
    ensures
        r == is_white_space(c),
{
    ('\u{9}' <= c && c <= '\u{d}') || c == ' ' || c == '\u{85}' || c == '\u{a0}' || c == '\u{1680}'
        || ('\u{2000}' <= c && c <= '\u{200a}') || c == '\u{2028}' || c == '\u{2029}' || c
        == '\u{202f}' || c == '\u{205f}' || c == '\u{3000}'
}

/// `s` without its leading white space.
pub open spec fn trim_start(s: Seq<char>) -> Seq<char>
    decreases s.len(),
{
    if s.len() > 0 && is_white_space(s[0]) {
        trim_start(s.drop_first())
    } else {
        s
    }
}

/// `s` without its trailing white space.
pub open spec fn trim_end(s: Seq<char>) -> Seq<char>
    decreases s.len(),
{
    if s.len() > 0 && is_white_space(s.last()) {
        trim_end(s.drop_last())
    } else {
        s
    }
}

/// `s` without leading and trailing white space (what `str::trim` returns).
pub open spec fn trim(s: Seq<char>) -> Seq<char> {
    trim_end(trim_start(s))
}

proof fn lemma_trim_start_skip(s: Seq<char>, i: int)
    requires
        0 <= i <= s.len(),
        forall|k: int| 0 <= k < i ==> is_white_space(s[k]),
    ensures
        trim_start(s) == trim_start(s.subrange(i, s.len() as int)),
    decreases i,
{
    if i > 0 {
        assert(s.drop_first() =~= s.subrange(1, s.len() as int));
        lemma_trim_start_skip(s.drop_first(), i - 1);
        assert(s.drop_first().subrange(i - 1, s.drop_first().len() as int) =~= s.subrange(
            i,
            s.len() as int,
        ));
    } else {
        assert(s.subrange(0, s.len() as int) =~= s);
    }
}

proof fn lemma_trim_end_skip(s: Seq<char>, e: int)
    requires
        0 <= e <= s.len(),
        forall|k: int| e <= k < s.len() ==> is_white_space(s[k]),
    ensures
        trim_end(s) == trim_end(s.subrange(0, e)),
    decreases s.len() - e,
{
    if e < s.len() {
        lemma_trim_end_skip(s.drop_last(), e);
        assert(s.drop_last().subrange(0, e) =~= s.subrange(0, e));
    } else {
        assert(s.subrange(0, e) =~= s);
    }
}

/// The characters of `s[from..to]` with surrounding white space removed.
pub fn trimmed_range(s: &Vec<char>, from: usize, to: usize) -> (r: Vec<char>)
    requires
        from <= to <= s@.len(),
    ensures
        r@ == trim(s@.subrange(from as int, to as int)),
{
    let ghost whole = s@.subrange(from as int, to as int);
    let mut a = from;
    while a < to && white_space(s[a])
        invariant
            from <= a <= to <= s@.len(),
            forall|k: int| from <= k < a ==> is_white_space(s@[k]),
        decreases to - a,
    {
        a = a + 1;
    }
    proof {
        lemma_trim_start_skip(whole, a - from);
        assert(whole.subrange(a - from, whole.len() as int) =~= s@.subrange(a as int, to as int));
        let t = s@.subrange(a as int, to as int);
        assert(t.len() == 0 || !is_white_space(t[0]));
        reveal_with_fuel(trim_start, 2);
        assert(trim_start(t) == t);
    }
    let mut b = to;
    while b > a && white_space(s[b - 1])
        invariant
            a <= b <= to <= s@.len(),
            forall|k: int| b <= k < to ==> is_white_space(s@[k]),
        decreases b - a,
    {
        b = b - 1;
    }
    proof {
        let t = s@.subrange(a as int, to as int);
        lemma_trim_end_skip(t, b - a);
        assert(t.subrange(0, b - a) =~= s@.subrange(a as int, b as int));
        let u = s@.subrange(a as int, b as int);
        assert(u.len() == 0 || !is_white_space(u.last()));
        reveal_with_fuel(trim_end, 2);
        assert(trim_end(u) == u);
    }
    let mut r: Vec<char> = Vec::new();
    let mut i = a;
    while i < b
        invariant
            a <= i <= b <= s@.len(),
            r@ == s@.subrange(a as int, i as int),
        decreases b - i,
    {
        r.push(s[i]);
        i = i + 1;
        assert(r@ =~= s@.subrange(a as int, i as int));
    }
    r
}

/// The decimal digit character for `d` (`0 <= d < 10`).
pub open spec fn digit_char(d: int) -> char {
    if d == 0 { '0' } else if d == 1 { '1' } else if d == 2 { '2' } else if d == 3 { '3' }
    else if d == 4 { '4' } else if d == 5 { '5' } else if d == 6 { '6' } else if d == 7 { '7' }
    else if d == 8 { '8' } else { '9' }
}

/// Decimal digits of `n`, most significant first, without leading zeros.
pub open spec fn nat_text(n: nat) -> Seq<char>
    decreases n,
{
    if n < 10 {
        seq![digit_char(n as int)]
    } else {
        nat_text(n / 10).push(digit_char((n % 10) as int))
    }
}

/// How `{}` renders an integer: an optional minus sign, then its decimal digits.
pub open spec fn int_text(i: int) -> Seq<char> {
    if i < 0 {
        seq!['-'] + nat_text((-i) as nat)
    } else {
        nat_text(i as nat)
    }
}

/// How `{:02}` renders a non-negative integer: at least two digits, zero-padded.
pub open spec fn pad2_text(n: nat) -> Seq<char> {
    if n < 10 {
        seq!['0'] + nat_text(n)
    } else {
        nat_text(n)
    }
}

fn digit(d: u64) -> (c: char)
    requires
        d < 10,
    ensures
        c == digit_char(d as int),
{
    if d == 0 { '0' } else if d == 1 { '1' } else if d == 2 { '2' } else if d == 3 { '3' }
    else if d == 4 { '4' } else if d == 5 { '5' } else if d == 6 { '6' } else if d == 7 { '7' }
    else if d == 8 { '8' } else { '9' }
}

/// Appends the decimal digits of `n`.
pub fn push_nat_text(out: &mut Vec<char>, n: u64)
    ensures
        final(out)@ == old(out)@ + nat_text(n as nat),
    decreases n,
{
    if n >= 10 {
        push_nat_text(out, n / 10);
    }
    out.push(digit(n % 10));
    proof {
        reveal_with_fuel(nat_text, 2);
        if n >= 10 {
            assert(final(out)@ =~= old(out)@ + nat_text(n as nat));
        } else {
            assert(final(out)@ =~= old(out)@ + nat_text(n as nat));
        }
    }
}

/// Appends `n` as `{}` renders it.
pub fn push_int_text(out: &mut Vec<char>, n: i64)
    ensures
        final(out)@ == old(out)@ + int_text(n as int),
{
    if n < 0 {
        out.push('-');
        let m: u64 = if n == i64::MIN { 9223372036854775808u64 } else { (-n) as u64 };
        push_nat_text(out, m);
        assert(final(out)@ =~= old(out)@ + int_text(n as int));
    } else {
        push_nat_text(out, n as u64);
    }
}

/// Appends `n` as `{:02}` renders it.
pub fn push_pad2_text(out: &mut Vec<char>, n: u64)
    ensures
        final(out)@ == old(out)@ + pad2_text(n as nat),
{
    if n < 10 {
        out.push('0');
    }
    push_nat_text(out, n);
    assert(final(out)@ =~= old(out)@ + pad2_text(n as nat));
}

/// `n` rendered as `{}` does (`i32::to_string`).
pub fn i32_text(n: i32) -> (s: String)
    ensures
        s@ == int_text(n as int),
{
    let mut v: Vec<char> = Vec::new();
    push_int_text(&mut v, n as i64);
    assert(v@ =~= int_text(n as int));
    string_from_chars(&v)
}

/// `"true"` or `"false"`, as `bool::to_string` renders it.
pub open spec fn bool_chars(b: bool) -> Seq<char> {
    if b { seq!['t', 'r', 'u', 'e'] } else { seq!['f', 'a', 'l', 's', 'e'] }
}

/// Appends `"true"` or `"false"`.
pub fn push_bool_text(out: &mut Vec<char>, b: bool)
    ensures
        final(out)@ == old(out)@ + bool_chars(b),
{
    if b {
        out.push('t');
        out.push('r');
        out.push('u');
        out.push('e');
    } else {
        out.push('f');
        out.push('a');
        out.push('l');
        out.push('s');
        out.push('e');
    }
    assert(final(out)@ =~= old(out)@ + bool_chars(b));
}

/// The value of a decimal digit character.
pub open spec fn digit_value(c: char) -> int {
    (c as int) - ('0' as int)
}

/// `c` is one of `0`..`9`.
pub open spec fn is_digit(c: char) -> bool {
    '0' <= c && c <= '9'
}

/// The number that a string of decimal digits denotes.
pub open spec fn digits_value(s: Seq<char>) -> int
    decreases s.len(),
{
    if s.len() == 0 {
        0
    } else {
        10 * digits_value(s.drop_last()) + digit_value(s.last())
    }
}

/// `s` starts with a `+` or `-` sign.
pub open spec fn has_sign(s: Seq<char>) -> bool {
    s.len() > 0 && (s[0] == '-' || s[0] == '+')
}

/// `s` without its leading sign, if it has one.
pub open spec fn unsigned_part(s: Seq<char>) -> Seq<char> {
    if has_sign(s) {
        s.drop_first()
    } else {
        s
    }
}

/// Every character of `s` is a decimal digit.
pub open spec fn all_digits(s: Seq<char>) -> bool {
    forall|k: int| 0 <= k < s.len() ==> is_digit(#[trigger] s[k])
}

/// The integer that a signed run of digits denotes.
pub open spec fn signed_value(s: Seq<char>) -> int {
    if s.len() > 0 && s[0] == '-' {
        -digits_value(unsigned_part(s))
    } else {
        digits_value(unsigned_part(s))
    }
}

/// What `str::parse::<i32>` accepts: an optional `+` or `-`, then one or more decimal
/// digits, denoting a value in `i32`'s range.
pub open spec fn parse_i32_spec(s: Seq<char>) -> Option<i32> {
    if unsigned_part(s).len() > 0 && all_digits(unsigned_part(s)) && i32::MIN <= signed_value(s)
        <= i32::MAX {
        Some(signed_value(s) as i32)
    } else {
        None
    }
}

/// What `str::parse::<bool>` accepts: exactly `true` or `false`.
pub open spec fn parse_bool_spec(s: Seq<char>) -> Option<bool> {
    if s == bool_chars(true) {
        Some(true)
    } else if s == bool_chars(false) {
        Some(false)
    } else {
        None
    }
}

proof fn lemma_digits_value_nonneg(s: Seq<char>)
    requires
        all_digits(s),
    ensures
        digits_value(s) >= 0,
    decreases s.len(),
{
    if s.len() > 0 {
        assert(is_digit(s[s.len() - 1]));
        lemma_digits_value_nonneg(s.drop_last());
    }
}

proof fn lemma_digits_value_grows(s: Seq<char>, i: int)
    requires
        0 <= i <= s.len(),
        all_digits(s),
    ensures
        digits_value(s.subrange(0, i)) <= digits_value(s),
    decreases s.len() - i,
{
    if i < s.len() {
        lemma_digits_value_grows(s.drop_last(), i);
        assert(s.drop_last().subrange(0, i) =~= s.subrange(0, i));
        assert(is_digit(s[s.len() - 1]));
        lemma_digits_value_nonneg(s.drop_last());
    } else {
        assert(s.subrange(0, i) =~= s);
    }
}

/// Parses `s[from..to]` as `str::parse::<i32>` does.
pub fn parse_i32_range(s: &Vec<char>, from: usize, to: usize) -> (r: Option<i32>)
    requires
        from <= to <= s@.len(),
    ensures
        r == parse_i32_spec(s@.subrange(from as int, to as int)),
{
    let ghost t = s@.subrange(from as int, to as int);
    let neg = from < to && s[from] == '-';
    let signed = from < to && (s[from] == '-' || s[from] == '+');
    let start = if signed { from + 1 } else { from };
    let ghost digits = s@.subrange(start as int, to as int);
    proof {
        if from < to {
            assert(t[0] == s@[from as int]);
        }
        assert(has_sign(t) == signed);
        assert(digits =~= unsigned_part(t));
    }
    if start == to {
        return None;
    }
    let mut acc: i64 = 0;
    let mut i = start;
    while i < to
        invariant
            start <= i <= to <= s@.len(),
            from <= start < to,
            digits == s@.subrange(start as int, to as int),
            digits == unsigned_part(s@.subrange(from as int, to as int)),
            neg == (to > from && s@[from as int] == '-'),
            forall|k: int| start <= k < i ==> is_digit(#[trigger] s@[k]),
            acc == digits_value(s@.subrange(start as int, i as int)),
            0 <= acc <= 2147483648,
        decreases to - i,
    {
        let c = s[i];
        if !('0' <= c && c <= '9') {
            proof {
                assert(digits[i - start] == c);
                assert(!all_digits(digits));
            }
            return None;
        }
        let d = (c as u32 - '0' as u32) as i64;
        let next = acc * 10 + d;
        proof {
            let pre = s@.subrange(start as int, (i + 1) as int);
            assert(pre.drop_last() =~= s@.subrange(start as int, i as int));
        }
        if next > 2147483648 {
            proof {
                if all_digits(digits) {
                    lemma_digits_value_grows(digits, i + 1 - start);
                    assert(digits.subrange(0, i + 1 - start) =~= s@.subrange(
                        start as int,
                        (i + 1) as int,
                    ));
                }
            }
            return None;
        }
        acc = next;
        i = i + 1;
    }
    proof {
        assert(s@.subrange(start as int, to as int) =~= digits);
        assert forall|k: int| 0 <= k < digits.len() implies is_digit(#[trigger] digits[k]) by {
            assert(digits[k] == s@[start + k]);
        }
        assert(neg == (t.len() > 0 && t[0] == '-'));
    }
    if neg {
        let v = -acc;
        if v < -2147483648 {
            return None;
        }
        Some(v as i32)
    } else {
        if acc > 2147483647 {
            return None;
        }
        Some(acc as i32)
    }
}

/// Parses `s[from..to]` as `str::parse::<bool>` does.
pub fn parse_bool_range(s: &Vec<char>, from: usize, to: usize) -> (r: Option<bool>)
    requires
        from <= to <= s@.len(),
    ensures
        r == parse_bool_spec(s@.subrange(from as int, to as int)),
{
    let ghost t = s@.subrange(from as int, to as int);
    let n = to - from;
    if n == 4 {
        let (a, b, c, d) = (s[from], s[from + 1], s[from + 2], s[from + 3]);
        assert(t =~= seq![a, b, c, d]);
        if a == 't' && b == 'r' && c == 'u' && d == 'e' {
            assert(t =~= bool_chars(true));
            return Some(true);
        }
        assert(t != bool_chars(true) && t != bool_chars(false));
        return None;
    }
    if n == 5 {
        let (a, b, c, d, e) = (s[from], s[from + 1], s[from + 2], s[from + 3], s[from + 4]);
        assert(t =~= seq![a, b, c, d, e]);
        if a == 'f' && b == 'a' && c == 'l' && d == 's' && e == 'e' {
            assert(t =~= bool_chars(false));
            return Some(false);
        }
        assert(t != bool_chars(true) && t != bool_chars(false));
        return None;
    }
    assert(bool_chars(true).len() == 4 && bool_chars(false).len() == 5);
    None
}

/// The digits of `n` are decimal digits, at least one, and denote `n`.
pub proof fn lemma_nat_text_digits(n: nat)
    ensures
        nat_text(n).len() >= 1,
        all_digits(nat_text(n)),
        digits_value(nat_text(n)) == n,
    decreases n,
{
    assert(is_digit(digit_char((n % 10) as int)));
    assert(digit_value(digit_char((n % 10) as int)) == n % 10);
    if n < 10 {
        assert(is_digit(nat_text(n)[0]));
        assert(nat_text(n).drop_last() =~= Seq::<char>::empty());
        assert(digits_value(Seq::<char>::empty()) == 0);
    } else {
        lemma_nat_text_digits(n / 10);
        let s = nat_text(n);
        assert(s.drop_last() =~= nat_text(n / 10));
        assert forall|k: int| 0 <= k < s.len() implies is_digit(#[trigger] s[k]) by {
            if k < s.len() - 1 {
                assert(s[k] == nat_text(n / 10)[k]);
            }
        }
        assert(digits_value(s) == 10 * digits_value(s.drop_last()) + digit_value(s.last()));
        assert(10 * (n / 10) + n % 10 == n);
    }
}

/// Printing an integer and parsing the text back gives the integer.
pub proof fn lemma_parse_int_text(x: i32)
    ensures
        trim(int_text(x as int)) == int_text(x as int),
        parse_i32_spec(trim(int_text(x as int))) == Some(x),
{
    let s = int_text(x as int);
    if x < 0 {
        let m = (-(x as int)) as nat;
        lemma_nat_text_digits(m);
        assert(unsigned_part(s) =~= nat_text(m));
        assert(s.last() == nat_text(m).last());
        assert(is_digit(nat_text(m)[nat_text(m).len() - 1]));
    } else {
        lemma_nat_text_digits(x as nat);
        assert(is_digit(s[0]));
        assert(is_digit(s[s.len() - 1]));
        assert(unsigned_part(s) == s);
    }
    assert(trim_start(s) == s);
    assert(trim_end(s) == s);
}

/// Printing a `bool` and parsing the text back gives the `bool`.
pub proof fn lemma_parse_bool_chars(b: bool)
    ensures
        trim(bool_chars(b)) == bool_chars(b),
        parse_bool_spec(trim(bool_chars(b))) == Some(b),
{
    let s = bool_chars(b);
    assert(trim_start(s) == s);
    assert(trim_end(s) == s);
}

/// `c` is a hexadecimal digit, in either case.
pub open spec fn is_hex_digit(c: char) -> bool {
    ('0' <= c && c <= '9') || ('a' <= c && c <= 'f') || ('A' <= c && c <= 'F')
}

/// The value of a hexadecimal digit.
pub open spec fn hex_digit_value(c: char) -> int {
    if '0' <= c && c <= '9' {
        (c as int) - ('0' as int)
    } else if 'a' <= c && c <= 'f' {
        (c as int) - ('a' as int) + 10
    } else {
        (c as int) - ('A' as int) + 10
    }
}

/// Every character of `s` is a hexadecimal digit.
pub open spec fn all_hex_digits(s: Seq<char>) -> bool {
    forall|k: int| 0 <= k < s.len() ==> is_hex_digit(#[trigger] s[k])
}

/// The number that a string of hexadecimal digits denotes.
pub open spec fn hex_value(s: Seq<char>) -> int
    decreases s.len(),
{
    if s.len() == 0 {
        0
    } else {
        16 * hex_value(s.drop_last()) + hex_digit_value(s.last())
    }
}

proof fn lemma_hex_value_nonneg(s: Seq<char>)
    requires
        all_hex_digits(s),
    ensures
        hex_value(s) >= 0,
    decreases s.len(),
{
    if s.len() > 0 {
        assert(is_hex_digit(s[s.len() - 1]));
        lemma_hex_value_nonneg(s.drop_last());
    }
}

proof fn lemma_hex_value_grows(s: Seq<char>, i: int)
    requires
        0 <= i <= s.len(),
        all_hex_digits(s),
    ensures
        hex_value(s.subrange(0, i)) <= hex_value(s),
    decreases s.len() - i,
{
    if i < s.len() {
        lemma_hex_value_grows(s.drop_last(), i);
        assert(s.drop_last().subrange(0, i) =~= s.subrange(0, i));
        assert(is_hex_digit(s[s.len() - 1]));
        lemma_hex_value_nonneg(s.drop_last());
    } else {
        assert(s.subrange(0, i) =~= s);
    }
}

/// What `isize::from_str_radix(s, 16)` accepts: an optional `+` or `-`, then one or more
/// hexadecimal digits, denoting a value in `isize`'s range.
pub open spec fn parse_isize_hex_spec(s: Seq<char>) -> Option<int> {
    let u = unsigned_part(s);
    let v = if s.len() > 0 && s[0] == '-' { -hex_value(u) } else { hex_value(u) };
    if u.len() > 0 && all_hex_digits(u) && isize::MIN <= v <= isize::MAX {
        Some(v)
    } else {
        None
    }
}

/// Parses `s[from..to]` as `isize::from_str_radix(_, 16)` does.
pub fn parse_isize_hex_range(s: &Vec<char>, from: usize, to: usize) -> (r: Option<isize>)
    requires
        from <= to <= s@.len(),
    ensures
        r matches Some(v) ==> parse_isize_hex_spec(s@.subrange(from as int, to as int)) == Some(v as int),
        r is None ==> parse_isize_hex_spec(s@.subrange(from as int, to as int)) is None,
{
    let ghost t = s@.subrange(from as int, to as int);
    let neg = from < to && s[from] == '-';
    let signed = from < to && (s[from] == '-' || s[from] == '+');
    let start = if signed { from + 1 } else { from };
    let ghost digits = s@.subrange(start as int, to as int);
    proof {
        if from < to {
            assert(t[0] == s@[from as int]);
        }
        assert(has_sign(t) == signed);
        assert(digits =~= unsigned_part(t));
    }
    if start == to {
        return None;
    }
    let mut acc: i128 = 0;
    let mut i = start;
    while i < to
        invariant
            start <= i <= to <= s@.len(),
            from <= start < to,
            digits == s@.subrange(start as int, to as int),
            digits == unsigned_part(s@.subrange(from as int, to as int)),
            neg == (to > from && s@[from as int] == '-'),
            forall|k: int| start <= k < i ==> is_hex_digit(#[trigger] s@[k]),
            acc == hex_value(s@.subrange(start as int, i as int)),
            0 <= acc <= 0x1_0000_0000_0000_0000i128,
        decreases to - i,
    {
        let c = s[i];
        let d: i128 = if '0' <= c && c <= '9' {
            (c as u32 - '0' as u32) as i128
        } else if 'a' <= c && c <= 'f' {
            (c as u32 - 'a' as u32) as i128 + 10
        } else if 'A' <= c && c <= 'F' {
            (c as u32 - 'A' as u32) as i128 + 10
        } else {
            proof {
                assert(digits[i - start] == c);
                assert(!all_hex_digits(digits));
            }
            return None;
        };
        let next = acc * 16 + d;
        proof {
            let pre = s@.subrange(start as int, (i + 1) as int);
            assert(pre.drop_last() =~= s@.subrange(start as int, i as int));
        }
        if next > 0x1_0000_0000_0000_0000i128 {
            proof {
                if all_hex_digits(digits) {
                    lemma_hex_value_grows(digits, i + 1 - start);
                    assert(digits.subrange(0, i + 1 - start) =~= s@.subrange(
                        start as int,
                        (i + 1) as int,
                    ));
                }
            }
            return None;
        }
        acc = next;
        i = i + 1;
    }
    proof {
        assert(s@.subrange(start as int, to as int) =~= digits);
        assert forall|k: int| 0 <= k < digits.len() implies is_hex_digit(#[trigger] digits[k]) by {
            assert(digits[k] == s@[start + k]);
        }
        assert(neg == (t.len() > 0 && t[0] == '-'));
    }
    let v = if neg { -acc } else { acc };
    if v < isize::MIN as i128 || v > isize::MAX as i128 {
        return None;
    }
    Some(v as isize)
}

/// Printed integers carry no surrounding white space.
pub proof fn lemma_trim_int_text(i: int)
    ensures
        trim(int_text(i)) == int_text(i),
{
    let s = int_text(i);
    if i < 0 {
        let m = (-i) as nat;
        lemma_nat_text_digits(m);
        assert(s.last() == nat_text(m).last());
        assert(is_digit(nat_text(m)[nat_text(m).len() - 1]));
    } else {
        lemma_nat_text_digits(i as nat);
        assert(is_digit(s[0]));
        assert(is_digit(s[s.len() - 1]));
    }
    assert(trim_start(s) == s);
    assert(trim_end(s) == s);
}

} // verus!
