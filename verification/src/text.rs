//! Character-level building blocks shared by the rest of the crate.

use vstd::prelude::*;

verus! {

broadcast use vstd::string::group_string_axioms;

/// Appends one character to a `String` (std's `String::push`).
#[verifier::external_body]
pub(crate) fn push_char(s: &mut String, c: char)
    ensures
        final(s)@ == old(s)@.push(c),
{
    s.push(c);
}

/// The characters of a string slice, in order.
pub fn chars_of(s: &str) -> (v: Vec<char>)
    ensures
        v@ == s@,
{
    let mut v: Vec<char> = Vec::new();
    let chars = s.chars();
    for c in it: chars
        invariant
            it.seq() == s@,
            v@ == it.seq().take(it.index() as int),
    {
        v.push(c);
    }
    v
}

/// Appends the characters `v[from..to]` to `out`.
pub fn push_chars(out: &mut String, v: &Vec<char>, from: usize, to: usize)
    requires
        from <= to <= v@.len(),
    ensures
        final(out)@ == old(out)@ + v@.subrange(from as int, to as int),
{
    let mut i = from;
    while i < to
        invariant
            from <= i <= to <= v@.len(),
            out@ == old(out)@ + v@.subrange(from as int, i as int),
        decreases to - i,
    {
        push_char(out, v[i]);
        assert(v@.subrange(from as int, i + 1) == v@.subrange(from as int, i as int).push(v@[i as int]));
        i += 1;
    }
}

/// A string made of the given characters.
pub fn string_of(v: &Vec<char>) -> (s: String)
    ensures
        s@ == v@,
{
    let mut s = String::new();
    push_chars(&mut s, v, 0, v.len());
    assert(v@.subrange(0, v@.len() as int) == v@);
    s
}

/// A fresh `String` holding the text of a literal or slice.
pub fn owned(s: &str) -> (r: String)
    ensures
        r@ == s@,
{
    String::from_str(s)
}

/// `a` followed by `b`.
pub fn concat2(a: &str, b: &str) -> (r: String)
    ensures
        r@ == a@ + b@,
{
    let mut r = String::from_str(a);
    r.append(b);
    r
}

/// Unicode `White_Space`, the set that `char::is_whitespace` tests.
pub open spec fn is_ws(c: char) -> bool {
    ||| ('\u{9}' <= c && c <= '\u{d}')
    ||| c == ' '
    ||| c == '\u{85}'
    ||| c == '\u{a0}'
    ||| c == '\u{1680}'
    ||| ('\u{2000}' <= c && c <= '\u{200a}')
    ||| c == '\u{2028}'
    ||| c == '\u{2029}'
    ||| c == '\u{202f}'
    ||| c == '\u{205f}'
    ||| c == '\u{3000}'
}

/// Whether `c` is Unicode white space.
pub fn is_whitespace(c: char) -> (b: bool)
    ensures
        b == is_ws(c),
{
    ('\u{9}' <= c && c <= '\u{d}') || c == ' ' || c == '\u{85}' || c == '\u{a0}' || c
        == '\u{1680}' || ('\u{2000}' <= c && c <= '\u{200a}') || c == '\u{2028}' || c
        == '\u{2029}' || c == '\u{202f}' || c == '\u{205f}' || c == '\u{3000}'
}

/// `s` without its leading white space.
pub open spec fn trim_start_ws(s: Seq<char>) -> Seq<char>
    decreases s.len(),
{
    if s.len() > 0 && is_ws(s[0]) {
        trim_start_ws(s.drop_first())
    } else {
        s
    }
}

/// `s` without its trailing white space.
pub open spec fn trim_end_ws(s: Seq<char>) -> Seq<char>
    decreases s.len(),
{
    if s.len() > 0 && is_ws(s.last()) {
        trim_end_ws(s.drop_last())
    } else {
        s
    }
}

/// `s` without leading and trailing white space (what `str::trim` returns).
pub open spec fn trim_ws(s: Seq<char>) -> Seq<char> {
    trim_end_ws(trim_start_ws(s))
}

proof fn lemma_trim_start_skip(s: Seq<char>, i: int)
    requires
        0 <= i <= s.len(),
        forall|j: int| 0 <= j < i ==> is_ws(#[trigger] s[j]),
    ensures
        trim_start_ws(s) == trim_start_ws(s.subrange(i, s.len() as int)),
    decreases i,
{
    if i > 0 {
        assert(s.drop_first().subrange(i - 1, s.drop_first().len() as int) == s.subrange(
            i,
            s.len() as int,
        ));
        lemma_trim_start_skip(s.drop_first(), i - 1);
    } else {
        assert(s.subrange(0, s.len() as int) == s);
    }
}

proof fn lemma_trim_end_skip(s: Seq<char>, k: int)
    requires
        0 <= k <= s.len(),
        forall|j: int| k <= j < s.len() ==> is_ws(#[trigger] s[j]),
    ensures
        trim_end_ws(s) == trim_end_ws(s.subrange(0, k)),
    decreases s.len() - k,
{
    if k < s.len() {
        assert(s.drop_last().subrange(0, k) == s.subrange(0, k));
        lemma_trim_end_skip(s.drop_last(), k);
    } else {
        assert(s.subrange(0, k) == s);
    }
}

/// Positions `[start, end)` of `v` that remain after trimming white space.
pub fn trim_bounds(v: &Vec<char>) -> (r: (usize, usize))
    ensures
        r.0 <= r.1 <= v@.len(),
        v@.subrange(r.0 as int, r.1 as int) == trim_ws(v@),
{
    let n = v.len();
    let mut i: usize = 0;
    while i < n && is_whitespace(v[i])
        invariant
            i <= n == v@.len(),
            forall|j: int| 0 <= j < i ==> is_ws(#[trigger] v@[j]),
        decreases n - i,
    {
        i += 1;
    }
    proof {
        lemma_trim_start_skip(v@, i as int);
    }
    let ghost rest = v@.subrange(i as int, n as int);
    assert(i == n || !is_ws(rest[0]));
    assert(trim_start_ws(rest) == rest);
    let mut k: usize = n;
    while k > i && is_whitespace(v[k - 1])
        invariant
            i <= k <= n == v@.len(),
            rest == v@.subrange(i as int, n as int),
            forall|j: int| k <= j < n ==> is_ws(#[trigger] v@[j]),
        decreases k,
    {
        k -= 1;
    }
    proof {
        assert forall|j: int| k - i <= j < rest.len() implies is_ws(#[trigger] rest[j]) by {
            assert(rest[j] == v@[j + i]);
        }
        lemma_trim_end_skip(rest, k - i);
        assert(rest.subrange(0, k - i) == v@.subrange(i as int, k as int));
        let t = v@.subrange(i as int, k as int);
        if t.len() > 0 {
            assert(t.last() == v@[k - 1]);
        }
    }
    (i, k)
}

/// `s` with leading and trailing white space removed (`str::trim`).
pub fn trim(s: &str) -> (r: String)
    ensures
        r@ == trim_ws(s@),
{
    let v = chars_of(s);
    let (a, b) = trim_bounds(&v);
    let mut r = String::new();
    push_chars(&mut r, &v, a, b);
    r
}


proof fn lemma_trim_start_suffix(s: Seq<char>)
    ensures
        trim_start_ws(s).len() <= s.len(),
        trim_start_ws(s) == s.skip(s.len() - trim_start_ws(s).len()),
        trim_start_ws(s).len() > 0 ==> !is_ws(trim_start_ws(s)[0]),
    decreases s.len(),
{
    if s.len() > 0 && is_ws(s[0]) {
        lemma_trim_start_suffix(s.drop_first());
        let r = trim_start_ws(s.drop_first());
        assert(s.drop_first().skip(s.drop_first().len() - r.len()) =~= s.skip(s.len() - r.len()));
    } else {
        assert(s.skip(0) =~= s);
    }
}

proof fn lemma_trim_end_prefix(s: Seq<char>)
    ensures
        trim_end_ws(s).len() <= s.len(),
        trim_end_ws(s) == s.take(trim_end_ws(s).len() as int),
        trim_end_ws(s).len() > 0 ==> !is_ws(trim_end_ws(s).last()),
    decreases s.len(),
{
    if s.len() > 0 && is_ws(s.last()) {
        lemma_trim_end_prefix(s.drop_last());
        let r = trim_end_ws(s.drop_last());
        assert(s.drop_last().take(r.len() as int) =~= s.take(r.len() as int));
    } else {
        assert(s.take(s.len() as int) =~= s);
    }
}

/// Trimmed text is a piece of the text, and begins and ends with other
/// characters than white space.
pub proof fn lemma_trim_shape(s: Seq<char>)
    ensures
        forall|c: char| #[trigger] trim_ws(s).contains(c) ==> s.contains(c),
        trim_ws(s).len() > 0 ==> !is_ws(trim_ws(s)[0]) && !is_ws(trim_ws(s).last()),
{
    let a = trim_start_ws(s);
    lemma_trim_start_suffix(s);
    lemma_trim_end_prefix(a);
    let r = trim_ws(s);
    assert forall|c: char| #[trigger] r.contains(c) implies s.contains(c) by {
        let i = choose|i: int| 0 <= i < r.len() && r[i] == c;
        assert(r[i] == a[i]);
        assert(a[i] == s[s.len() - a.len() + i]);
    }
    if r.len() > 0 {
        assert(r[0] == a[0]);
    }
}

/// Folding step for [`join_words`]: the text so far and whether white space
/// has been seen since the last word character.
pub open spec fn join_words_state(s: Seq<char>, sep: char) -> (Seq<char>, bool)
    decreases s.len(),
{
    if s.len() == 0 {
        (Seq::empty(), false)
    } else {
        let prev = join_words_state(s.drop_last(), sep);
        let c = s.last();
        if is_ws(c) {
            (prev.0, true)
        } else if prev.1 && prev.0.len() > 0 {
            (prev.0.push(sep).push(c), false)
        } else {
            (prev.0.push(c), false)
        }
    }
}

/// The white-space separated words of `s`, joined by `sep`
/// (`s.split_whitespace().collect::<Vec<_>>().join(sep)`).
pub open spec fn join_words(s: Seq<char>, sep: char) -> Seq<char> {
    join_words_state(s, sep).0
}

/// The words of `v` joined by the separator `sep`.
pub fn join_words_exec(v: &Vec<char>, sep: char) -> (r: String)
    ensures
        r@ == join_words(v@, sep),
{
    let mut out = String::new();
    let mut gap = false;
    let mut i: usize = 0;
    while i < v.len()
        invariant
            i <= v@.len(),
            (out@, gap) == join_words_state(v@.take(i as int), sep),
        decreases v.len() - i,
    {
        let c = v[i];
        assert(v@.take(i + 1).drop_last() == v@.take(i as int));
        assert(v@.take(i + 1).last() == c);
        if is_whitespace(c) {
            gap = true;
        } else {
            if gap && out.unicode_len() > 0 {
                push_char(&mut out, sep);
            }
            push_char(&mut out, c);
            gap = false;
        }
        i += 1;
    }
    assert(v@.take(v@.len() as int) == v@);
    out
}

/// `p` occurs in `s` starting at index `i`.
pub open spec fn occurs_at(s: Seq<char>, p: Seq<char>, i: int) -> bool {
    0 <= i && i + p.len() <= s.len() && s.subrange(i, i + p.len()) == p
}

/// The first index at or after `i` where `p` occurs in `s`.
pub open spec fn first_occurrence_from(s: Seq<char>, p: Seq<char>, i: nat) -> Option<nat>
    decreases s.len() + 1 - i,
{
    if i + p.len() > s.len() {
        None
    } else if occurs_at(s, p, i as int) {
        Some(i)
    } else {
        first_occurrence_from(s, p, i + 1)
    }
}

/// The first index where `p` occurs in `s` (what `str::find` locates).
pub open spec fn first_occurrence(s: Seq<char>, p: Seq<char>) -> Option<nat> {
    first_occurrence_from(s, p, 0)
}

/// What [`first_occurrence_from`] finds: an occurrence, with none before it.
pub proof fn lemma_first_occurrence_from(s: Seq<char>, p: Seq<char>, i: nat)
    ensures
        first_occurrence_from(s, p, i) matches Some(k) ==> i <= k && occurs_at(s, p, k as int)
            && forall|j: int| i <= j < k ==> !occurs_at(s, p, j),
        first_occurrence_from(s, p, i) is None ==> forall|j: int| i <= j ==> !occurs_at(s, p, j),
    decreases s.len() + 1 - i,
{
    if i + p.len() > s.len() {
    } else if occurs_at(s, p, i as int) {
    } else {
        lemma_first_occurrence_from(s, p, i + 1);
    }
}

/// `p` occurs somewhere in `s` (`str::contains`).
pub open spec fn has_substr(s: Seq<char>, p: Seq<char>) -> bool {
    first_occurrence(s, p) is Some
}

/// `s` begins with `p` (`str::starts_with`).
pub open spec fn has_prefix(s: Seq<char>, p: Seq<char>) -> bool {
    p.len() <= s.len() && s.take(p.len() as int) == p
}

/// `s` ends with `p` (`str::ends_with`).
pub open spec fn has_suffix(s: Seq<char>, p: Seq<char>) -> bool {
    p.len() <= s.len() && s.skip(s.len() - p.len()) == p
}

/// Whether `p` occurs in `s` at index `i`.
pub fn matches_at(s: &Vec<char>, p: &Vec<char>, i: usize) -> (b: bool)
    ensures
        b == occurs_at(s@, p@, i as int),
{
    if i > s.len() || p.len() > s.len() - i {
        return false;
    }
    let mut j: usize = 0;
    while j < p.len()
        invariant
            j <= p@.len(),
            i + p@.len() <= s@.len(),
            i + p.len() <= s.len(),
            forall|k: int| 0 <= k < j ==> s@[i + k] == p@[k],
        decreases p.len() - j,
    {
        if s[i + j] != p[j] {
            assert(s@.subrange(i as int, i + p@.len())[j as int] != p@[j as int]);
            return false;
        }
        j += 1;
    }
    assert(s@.subrange(i as int, i + p@.len()) == p@);
    true
}

/// The first index where `p` occurs in `s`.
pub fn find_seq(s: &Vec<char>, p: &Vec<char>) -> (r: Option<usize>)
    ensures
        r matches Some(k) ==> first_occurrence(s@, p@) == Some(k as nat),
        r matches Some(k) ==> k + p@.len() <= s@.len(),
        r is None ==> first_occurrence(s@, p@) is None,
{
    proof {
        lemma_first_occurrence_from(s@, p@, 0);
    }
    if p.len() > s.len() {
        return None;
    }
    let last = s.len() - p.len();
    let mut i: usize = 0;
    loop
        invariant
            i <= last,
            last + p@.len() == s@.len(),
            first_occurrence(s@, p@) == first_occurrence_from(s@, p@, i as nat),
        decreases last - i,
    {
        if matches_at(s, p, i) {
            return Some(i);
        }
        if i == last {
            assert(first_occurrence_from(s@, p@, (i + 1) as nat) is None);
            return None;
        }
        i += 1;
    }
}

/// Whether `pat` occurs in `s`.
pub fn str_contains(s: &str, pat: &str) -> (b: bool)
    ensures
        b == has_substr(s@, pat@),
{
    let sv = chars_of(s);
    let pv = chars_of(pat);
    find_seq(&sv, &pv).is_some()
}

/// Whether `s` begins with `p`.
pub fn vec_has_prefix(s: &Vec<char>, p: &Vec<char>) -> (b: bool)
    ensures
        b == has_prefix(s@, p@),
{
    let r = matches_at(s, p, 0);
    proof {
        if p@.len() <= s@.len() {
            assert(s@.subrange(0, p@.len() as int) == s@.take(p@.len() as int));
        }
    }
    r
}

/// Whether `s` ends with `p`.
pub fn vec_has_suffix(s: &Vec<char>, p: &Vec<char>) -> (b: bool)
    ensures
        b == has_suffix(s@, p@),
{
    if p.len() > s.len() {
        return false;
    }
    let r = matches_at(s, p, s.len() - p.len());
    assert(s@.subrange(s@.len() - p@.len(), s@.len() as int) == s@.skip(s@.len() - p@.len()));
    r
}

/// Whether `s` begins with `p`.
pub fn str_starts_with(s: &str, p: &str) -> (b: bool)
    ensures
        b == has_prefix(s@, p@),
{
    vec_has_prefix(&chars_of(s), &chars_of(p))
}


/// The decimal digit character for `d < 10`.
pub open spec fn digit_char(d: nat) -> char {
    ((d + 48) as u32) as char
}

/// The decimal representation of `n`, without leading zeros.
pub open spec fn decimal(n: nat) -> Seq<char>
    decreases n,
{
    if n < 10 {
        seq![digit_char(n)]
    } else {
        decimal(n / 10).push(digit_char(n % 10))
    }
}

fn digit(d: u64) -> (c: char)
    requires
        d < 10,
    ensures
        c == digit_char(d as nat),
{
    ((d as u8) + 48) as char
}

/// Appends the decimal representation of `n` to `out`.
pub fn push_decimal(out: &mut String, n: u64)
    ensures
        final(out)@ == old(out)@ + decimal(n as nat),
{
    let mut rev: Vec<char> = Vec::new();
    let mut m = n;
    while m >= 10
        invariant
            decimal(n as nat) == decimal(m as nat) + rev@.reverse(),
        decreases m,
    {
        let d = digit(m % 10);
        assert(decimal(m as nat) == decimal((m / 10) as nat).push(d));
        assert(rev@.push(d).reverse() == seq![d] + rev@.reverse());
        rev.push(d);
        m = m / 10;
    }
    push_char(out, digit(m));
    let ghost base = out@;
    let mut k = rev.len();
    while k > 0
        invariant
            k <= rev@.len(),
            out@ == base + rev@.subrange(k as int, rev@.len() as int).reverse(),
        decreases k,
    {
        k -= 1;
        push_char(out, rev[k]);
        assert(rev@.subrange(k as int, rev@.len() as int).reverse() == rev@.subrange(
            k + 1,
            rev@.len() as int,
        ).reverse().push(rev@[k as int]));
    }
    assert(rev@.subrange(0, rev@.len() as int) == rev@);
    assert(base == old(out)@ + seq![digit_char(m as nat)]);
}

/// The decimal representation of `n` (`n.to_string()`).
pub fn decimal_string(n: u64) -> (r: String)
    ensures
        r@ == decimal(n as nat),
{
    let mut r = String::new();
    push_decimal(&mut r, n);
    r
}

/// ASCII upper-case letters mapped to lower case; every other character kept.
pub open spec fn ascii_lower(c: char) -> char {
    if 'A' <= c && c <= 'Z' {
        ((c as u32) + 32) as char
    } else {
        c
    }
}

/// The ASCII lower-case form of `c`.
pub fn ascii_lower_char(c: char) -> (r: char)
    ensures
        r == ascii_lower(c),
{
    if 'A' <= c && c <= 'Z' {
        ((c as u8) + 32) as char
    } else {
        c
    }
}

/// Number of bytes in the UTF-8 encoding of `c` (`char::len_utf8`).
pub open spec fn utf8_width(c: char) -> nat {
    if (c as u32) < 0x80 {
        1
    } else if (c as u32) < 0x800 {
        2
    } else if (c as u32) < 0x10000 {
        3
    } else {
        4
    }
}

/// Number of bytes in the UTF-8 encoding of `s` (`str::len`).
pub open spec fn utf8_len(s: Seq<char>) -> nat
    decreases s.len(),
{
    if s.len() == 0 {
        0
    } else {
        utf8_len(s.drop_last()) + utf8_width(s.last())
    }
}

/// Bytes in the UTF-8 encoding of `c`.
pub fn char_width(c: char) -> (w: usize)
    ensures
        w == utf8_width(c),
{
    let u = c as u32;
    if u < 0x80 {
        1
    } else if u < 0x800 {
        2
    } else if u < 0x10000 {
        3
    } else {
        4
    }
}


/// Whether two character vectors are equal.
pub fn vec_eq(a: &Vec<char>, b: &Vec<char>) -> (r: bool)
    ensures
        r == (a@ == b@),
{
    if a.len() != b.len() {
        return false;
    }
    let mut i: usize = 0;
    while i < a.len()
        invariant
            i <= a@.len() == b@.len(),
            forall|k: int| 0 <= k < i ==> a@[k] == b@[k],
        decreases a.len() - i,
    {
        if a[i] != b[i] {
            return false;
        }
        i += 1;
    }
    assert(a@ == b@);
    true
}

/// Whether two strings hold the same characters.
pub fn str_eq(a: &str, b: &str) -> (r: bool)
    ensures
        r == (a@ == b@),
{
    vec_eq(&chars_of(a), &chars_of(b))
}

/// The texts of a sequence of strings.
pub open spec fn texts(v: Seq<String>) -> Seq<Seq<char>> {
    v.map_values(|s: String| s@)
}

/// A vector of owned copies of the given literals.
pub fn owned_all(items: &[&str]) -> (r: Vec<String>)
    ensures
        texts(r@) == items@.map_values(|s: &str| s@),
{
    let mut r: Vec<String> = Vec::new();
    let mut i: usize = 0;
    while i < items.len()
        invariant
            i <= items@.len(),
            texts(r@) == items@.take(i as int).map_values(|s: &str| s@),
        decreases items.len() - i,
    {
        r.push(String::from_str(items[i]));
        assert(items@.take(i + 1).map_values(|s: &str| s@) == items@.take(i as int).map_values(
            |s: &str| s@,
        ).push(items@[i as int]@));
        i += 1;
    }
    assert(items@.take(items@.len() as int) == items@);
    r
}


/// The text of an optional string.
pub open spec fn opt_text(o: Option<String>) -> Option<Seq<char>> {
    match o {
        Some(s) => Some(s@),
        None => None,
    }
}


/// The characters `v[from..to]`.
pub fn sub_vec(v: &Vec<char>, from: usize, to: usize) -> (r: Vec<char>)
    requires
        from <= to <= v@.len(),
    ensures
        r@ == v@.subrange(from as int, to as int),
{
    let mut r: Vec<char> = Vec::new();
    let mut i = from;
    while i < to
        invariant
            from <= i <= to <= v@.len(),
            r@ == v@.subrange(from as int, i as int),
        decreases to - i,
    {
        r.push(v[i]);
        assert(v@.subrange(from as int, i + 1) == v@.subrange(from as int, i as int).push(v@[i as int]));
        i += 1;
    }
    r
}


/// Adding one character adds its width to the byte length of a prefix.
pub proof fn lemma_utf8_len_step(s: Seq<char>, k: int)
    requires
        0 <= k < s.len(),
    ensures
        utf8_len(s.take(k + 1)) == utf8_len(s.take(k)) + utf8_width(s[k]),
{
    assert(s.take(k + 1).drop_last() == s.take(k));
}

/// Byte lengths of prefixes grow by at least one byte per character.
pub proof fn lemma_utf8_len_mono(s: Seq<char>, i: int, j: int)
    requires
        0 <= i <= j <= s.len(),
    ensures
        utf8_len(s.take(i)) + (j - i) <= utf8_len(s.take(j)),
    decreases j - i,
{
    if i < j {
        lemma_utf8_len_mono(s, i, j - 1);
        lemma_utf8_len_step(s, j - 1);
    }
}

/// The longest prefix of `v` whose UTF-8 encoding fits in `limit` bytes:
/// its length in characters and in bytes.
pub fn fitting_prefix(v: &Vec<char>, limit: usize) -> (r: (usize, usize))
    ensures
        r.0 <= v@.len(),
        r.1 == utf8_len(v@.take(r.0 as int)),
        r.1 <= limit,
        r.0 < v@.len() ==> utf8_len(v@.take(r.0 + 1)) > limit,
{
    let mut i: usize = 0;
    let mut bytes: usize = 0;
    assert(v@.take(0) == Seq::<char>::empty());
    while i < v.len() && char_width(v[i]) <= limit - bytes
        invariant
            i <= v@.len(),
            bytes == utf8_len(v@.take(i as int)),
            bytes <= limit,
        decreases v.len() - i,
    {
        proof {
            lemma_utf8_len_step(v@, i as int);
        }
        bytes = bytes + char_width(v[i]);
        i += 1;
    }
    proof {
        if i < v@.len() {
            lemma_utf8_len_step(v@, i as int);
        }
    }
    (i, bytes)
}


/// Shape of a text made of words joined by `sep`: every character is `sep`
/// or a non-white-space character satisfying `ok`, and `sep` never starts,
/// ends or doubles.
pub open spec fn words_shape(out: Seq<char>, sep: char, ok: spec_fn(char) -> bool) -> bool {
    &&& forall|i: int| 0 <= i < out.len() ==> #[trigger] out[i] == sep || (!is_ws(out[i]) && ok(out[i]))
    &&& out.len() > 0 ==> out[0] != sep && out.last() != sep
    &&& forall|i: int| 0 <= i < out.len() - 1 ==> !(#[trigger] out[i] == sep && out[i + 1] == sep)
}

/// Joining the words of `s` by a separator that is not itself a word
/// character yields [`words_shape`], when every word character of `s`
/// satisfies `ok`.
pub proof fn lemma_join_words_shape(s: Seq<char>, sep: char, ok: spec_fn(char) -> bool)
    requires
        forall|i: int| 0 <= i < s.len() && !is_ws(#[trigger] s[i]) ==> s[i] != sep && ok(s[i]),
    ensures
        words_shape(join_words(s, sep), sep, ok),
    decreases s.len(),
{
    if s.len() > 0 {
        let p = s.drop_last();
        assert forall|i: int| 0 <= i < p.len() && !is_ws(#[trigger] p[i]) implies p[i] != sep && ok(
            p[i],
        ) by {
            assert(p[i] == s[i]);
        }
        lemma_join_words_shape(p, sep, ok);
        let prev = join_words_state(p, sep);
        let c = s.last();
        assert(!is_ws(c) ==> c != sep && ok(c));
        let out = join_words_state(s, sep).0;
        if is_ws(c) {
        } else if prev.1 && prev.0.len() > 0 {
            assert(out == prev.0.push(sep).push(c));
            assert forall|i: int| 0 <= i < out.len() implies #[trigger] out[i] == sep || (!is_ws(
                out[i],
            ) && ok(out[i])) by {
                if i < prev.0.len() {
                    assert(out[i] == prev.0[i]);
                }
            }
            assert forall|i: int| 0 <= i < out.len() - 1 implies !(#[trigger] out[i] == sep && out[i
                + 1] == sep) by {
                if i < prev.0.len() - 1 {
                    assert(out[i] == prev.0[i] && out[i + 1] == prev.0[i + 1]);
                } else if i == prev.0.len() - 1 {
                    assert(out[i] == prev.0.last());
                }
            }
            assert(out[0] == prev.0[0]);
        } else {
            assert(out == prev.0.push(c));
            assert forall|i: int| 0 <= i < out.len() implies #[trigger] out[i] == sep || (!is_ws(
                out[i],
            ) && ok(out[i])) by {
                if i < prev.0.len() {
                    assert(out[i] == prev.0[i]);
                }
            }
            assert forall|i: int| 0 <= i < out.len() - 1 implies !(#[trigger] out[i] == sep && out[i
                + 1] == sep) by {
                if i < prev.0.len() - 1 {
                    assert(out[i] == prev.0[i] && out[i + 1] == prev.0[i + 1]);
                }
            }
            if prev.0.len() > 0 {
                assert(out[0] == prev.0[0]);
            }
        }
    }
}


proof fn lemma_join_words_fixed_prefix(t: Seq<char>, sep: char, ok: spec_fn(char) -> bool, i: int)
    requires
        words_shape(t, sep, ok),
        is_ws(sep),
        0 <= i <= t.len(),
    ensures
        join_words_state(t.take(i), sep) == (if i > 0 && t[i - 1] == sep {
            (t.take(i - 1), true)
        } else {
            (t.take(i), false)
        }),
    decreases i,
{
    if i > 0 {
        lemma_join_words_fixed_prefix(t, sep, ok, i - 1);
        let p = t.take(i);
        assert(p.drop_last() == t.take(i - 1));
        assert(p.last() == t[i - 1]);
        let c = t[i - 1];
        assert(c == sep || (!is_ws(c) && ok(c)));
        if c == sep {
            assert(i - 1 > 0);
            assert(!(t[i - 2] == sep && t[i - 1] == sep));
        } else if i - 1 > 0 && t[i - 2] == sep {
            assert(t.take(i - 2).push(sep).push(c) == t.take(i));
            assert(t.take(i - 2).len() > 0 && t[0] != sep);
        } else {
            assert(t.take(i - 1).push(c) == t.take(i));
        }
    }
}

/// Text already in [`words_shape`] with a white-space separator is left
/// unchanged by [`join_words`].
pub proof fn lemma_join_words_fixed(t: Seq<char>, sep: char, ok: spec_fn(char) -> bool)
    requires
        words_shape(t, sep, ok),
        is_ws(sep),
    ensures
        join_words(t, sep) == t,
{
    lemma_join_words_fixed_prefix(t, sep, ok, t.len() as int);
    assert(t.take(t.len() as int) == t);
}


/// Appends a copy of `s` to the argument list `v`.
pub fn push_arg(v: &mut Vec<String>, s: &str)
    ensures
        texts(final(v)@) == texts(old(v)@).push(s@),
{
    v.push(String::from_str(s));
    assert(texts(v@) =~= texts(old(v)@).push(s@));
}

/// Appends copies of all of `items` to the argument list `v`.
pub fn push_all_args(v: &mut Vec<String>, items: &Vec<String>)
    ensures
        texts(final(v)@) == texts(old(v)@) + texts(items@),
{
    let mut i: usize = 0;
    while i < items.len()
        invariant
            i <= items@.len(),
            texts(v@) == texts(old(v)@) + texts(items@.take(i as int)),
        decreases items.len() - i,
    {
        push_arg(v, items[i].as_str());
        assert(texts(items@.take(i + 1)) =~= texts(items@.take(i as int)).push(items@[i as int]@));
        i += 1;
    }
    assert(items@.take(items@.len() as int) == items@);
}

/// `s` split at every `sep`, empty pieces kept: the pieces finished so
/// far and the piece being read.
pub open spec fn split_state(s: Seq<char>, sep: char) -> (Seq<Seq<char>>, Seq<char>)
    decreases s.len(),
{
    if s.len() == 0 {
        (Seq::empty(), Seq::empty())
    } else {
        let (done, cur) = split_state(s.drop_last(), sep);
        if s.last() == sep {
            (done.push(cur), Seq::empty())
        } else {
            (done, cur.push(s.last()))
        }
    }
}

/// The pieces of `s` between occurrences of `sep`, as `str::split` gives
/// them.
pub open spec fn split_pieces(s: Seq<char>, sep: char) -> Seq<Seq<char>> {
    let (done, cur) = split_state(s, sep);
    done.push(cur)
}

/// The pieces of `s` between occurrences of `sep`, empty ones included.
pub fn split_on(s: &str, sep: char) -> (r: Vec<String>)
    ensures
        texts(r@) == split_pieces(s@, sep),
        r@.len() >= 1,
{
    let v = chars_of(s);
    let mut done: Vec<String> = Vec::new();
    let mut cur: Vec<char> = Vec::new();
    let mut i: usize = 0;
    while i < v.len()
        invariant
            i <= v@.len(),
            (texts(done@), cur@) == split_state(v@.take(i as int), sep),
        decreases v.len() - i,
    {
        let c = v[i];
        assert(v@.take(i + 1).drop_last() == v@.take(i as int));
        assert(v@.take(i + 1).last() == c);
        if c == sep {
            let ghost prev = done@;
            done.push(string_of(&cur));
            assert(texts(done@) =~= texts(prev).push(cur@));
            cur = Vec::new();
        } else {
            cur.push(c);
        }
        i += 1;
    }
    assert(v@.take(v@.len() as int) == v@);
    let ghost prev = done@;
    done.push(string_of(&cur));
    assert(texts(done@) =~= texts(prev).push(cur@));
    done
}

/// Whether the character `c` occurs in `s`.
pub fn str_has_char(s: &str, c: char) -> (b: bool)
    ensures
        b == s@.contains(c),
{
    let v = chars_of(s);
    let mut i: usize = 0;
    while i < v.len()
        invariant
            i <= v@.len(),
            v@ == s@,
            forall|j: int| 0 <= j < i ==> v@[j] != c,
        decreases v.len() - i,
    {
        if v[i] == c {
            return true;
        }
        i += 1;
    }
    false
}

} // verus!
