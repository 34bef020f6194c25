//! Character-level text utilities shared by the parsers and renderers.
//!
//! Strings are modelled by their view, a `Seq<char>`. Every operation here is
//! stated over that view: trimming, splitting into fields and lines, searching
//! for a substring, decimal rendering and parsing, and lexicographic order.

use vstd::prelude::*;

verus! {

broadcast use vstd::string::group_string_axioms;

// ---------------------------------------------------------------------------
// Conversions between `str`/`String` and `Vec<char>`
// ---------------------------------------------------------------------------

/// Appends one character to a `String` (std's `String::push`).
#[verifier::external_body]
pub(crate) fn push_char(s: &mut String, c: char)
    ensures
        final(s)@ == old(s)@.push(c),
{
    s.push(c);
}

/// The characters of `s`, in order.
pub fn chars_of(s: &str) -> (v: Vec<char>)
    ensures
        v@ == s@,
{
    let mut v: Vec<char> = Vec::new();
    for c in it: s.chars()
        invariant
            it.seq() == s@,
            v@ == it.seq().take(it.index() as int),
    {
        v.push(c);
    }
    v
}

/// A `String` holding exactly the characters of `v`.
pub fn string_of(v: &Vec<char>) -> (s: String)
    ensures
        s@ == v@,
{
    let mut s = String::new();
    let mut i: usize = 0;
    while i < v.len()
        invariant
            i <= v.len(),
            s@ == v@.take(i as int),
        decreases v.len() - i,
    {
        push_char(&mut s, v[i]);
        assert(v@.take(i as int + 1) =~= v@.take(i as int).push(v@[i as int]));
        i += 1;
    }
    assert(v@.take(v.len() as int) =~= v@);
    s
}

/// Appends the characters of `v` to `s`.
pub fn push_chars(s: &mut String, v: &Vec<char>)
    ensures
        final(s)@ == old(s)@ + v@,
{
    let ghost start = s@;
    let mut i: usize = 0;
    while i < v.len()
        invariant
            i <= v.len(),
            s@ == start + v@.take(i as int),
        decreases v.len() - i,
    {
        push_char(s, v[i]);
        assert(v@.take(i as int + 1) =~= v@.take(i as int).push(v@[i as int]));
        assert(start + v@.take(i as int + 1) =~= (start + v@.take(i as int)).push(v@[i as int]));
        i += 1;
    }
    assert(v@.take(v.len() as int) =~= v@);
}

/// The elements `v[a..b]`.
pub fn subvec(v: &Vec<char>, a: usize, b: usize) -> (r: Vec<char>)
    requires
        a <= b <= v.len(),
    ensures
        r@ == v@.subrange(a as int, b as int),
{
    let mut r: Vec<char> = Vec::new();
    let mut i: usize = a;
    while i < b
        invariant
            a <= i <= b <= v.len(),
            r@ == v@.subrange(a as int, i as int),
        decreases b - i,
    {
        r.push(v[i]);
        assert(v@.subrange(a as int, i as int + 1) =~= v@.subrange(a as int, i as int).push(
            v@[i as int],
        ));
        i += 1;
    }
    r
}

/// The sequence `a` followed by `b`.
pub fn concat_vec(a: &Vec<char>, b: &Vec<char>) -> (r: Vec<char>)
    ensures
        r@ == a@ + b@,
{
    let mut r = subvec(a, 0, a.len());
    assert(a@.subrange(0, a@.len() as int) =~= a@);
    let mut i: usize = 0;
    while i < b.len()
        invariant
            i <= b.len(),
            r@ == a@ + b@.take(i as int),
        decreases b.len() - i,
    {
        r.push(b[i]);
        assert(a@ + b@.take(i as int + 1) =~= (a@ + b@.take(i as int)).push(b@[i as int]));
        i += 1;
    }
    assert(b@.take(b.len() as int) =~= b@);
    r
}

/// Whether two character sequences are equal.
pub fn vec_eq(a: &Vec<char>, b: &Vec<char>) -> (r: bool)
    ensures
        r == (a@ == b@),
{
    if a.len() != b.len() {
        return false;
    }
    let mut i: usize = 0;
    while i < a.len()
        invariant
            a.len() == b.len(),
            i <= a.len(),
            forall|j: int| 0 <= j < i ==> a@[j] == b@[j],
        decreases a.len() - i,
    {
        if a[i] != b[i] {
            return false;
        }
        i += 1;
    }
    assert(a@ =~= b@);
    true
}

/// Whether two strings are equal.
pub fn str_eq(a: &str, b: &str) -> (r: bool)
    ensures
        r == (a@ == b@),
{
    let va = chars_of(a);
    let vb = chars_of(b);
    vec_eq(&va, &vb)
}

// ---------------------------------------------------------------------------
// Character classes
// ---------------------------------------------------------------------------

/// Characters with the Unicode `White_Space` property (what `char::is_whitespace`
/// tests).
pub open spec fn is_ws(c: char) -> bool {
    ||| ('\u{9}' <= c && c <= '\u{d}')
    ||| c == ' '
    ||| c == '\u{85}'
    ||| c == '\u{a0}'
    ||| c == '\u{1680}'
    ||| ('\u{2000}' <= c && c <= '\u{200a}')
    ||| c == '\u{2028}'
    ||| c == '\u{2029}'
    ||| c == '\u{202f}'
    ||| c == '\u{205f}'
    ||| c == '\u{3000}'
}

/// `char::is_whitespace`.
pub fn is_whitespace(c: char) -> (r: bool)
    ensures
        r == is_ws(c),
{
    ('\u{9}' <= c && c <= '\u{d}') || c == ' ' || c == '\u{85}' || c == '\u{a0}' || c
        == '\u{1680}' || ('\u{2000}' <= c && c <= '\u{200a}') || c == '\u{2028}' || c
        == '\u{2029}' || c == '\u{202f}' || c == '\u{205f}' || c == '\u{3000}'
}

/// ASCII letters and digits (`char::is_ascii_alphanumeric`).
pub open spec fn is_ascii_alnum(c: char) -> bool {
    ('a' <= c && c <= 'z') || ('A' <= c && c <= 'Z') || ('0' <= c && c <= '9')
}

pub fn is_ascii_alphanumeric(c: char) -> (r: bool)
    ensures
        r == is_ascii_alnum(c),
{
    ('a' <= c && c <= 'z') || ('A' <= c && c <= 'Z') || ('0' <= c && c <= '9')
}

/// `char::to_ascii_lowercase`: `A`..`Z` become `a`..`z`, everything else stays.
pub open spec fn ascii_lower(c: char) -> char {
    if 'A' <= c && c <= 'Z' {
        ((c as u32) + 32) as char
    } else {
        c
    }
}

pub fn to_ascii_lowercase(c: char) -> (r: char)
    ensures
        r == ascii_lower(c),
{
    if 'A' <= c && c <= 'Z' {
        let u: u32 = (c as u32) + 32;
        assert(0x61 <= u <= 0x7a);
        char_from_ascii(u)
    } else {
        c
    }
}

/// The character with code point `u`, for an ASCII `u`.
fn char_from_ascii(u: u32) -> (c: char)
    requires
        u < 128,
    ensures
        c == u as char,
        c as u32 == u,
{
    let b: u8 = u as u8;
    b as char
}

/// A set of characters that a trim or a split works on.
#[derive(Clone, Copy)]
pub enum CharClass {
    /// Characters with the `White_Space` property.
    Whitespace,
    /// Whitespace or `|`.
    WhitespaceOrBar,
    /// The quote characters `"` and `'`.
    Quote,
    /// One given character.
    Is(char),
    /// Characters git refuses in a branch name that the panel checks for:
    /// `~ ^ : ? * [ \\ " '`.
    RefForbidden,
}

pub open spec fn in_class(cls: CharClass, c: char) -> bool {
    match cls {
        CharClass::Whitespace => is_ws(c),
        CharClass::WhitespaceOrBar => is_ws(c) || c == '|',
        CharClass::Quote => c == '"' || c == '\'',
        CharClass::Is(d) => c == d,
        CharClass::RefForbidden => c == '~' || c == '^' || c == ':' || c == '?' || c == '*' || c
            == '[' || c == '\\' || c == '"' || c == '\'',
    }
}

pub fn class_contains(cls: CharClass, c: char) -> (r: bool)
    ensures
        r == in_class(cls, c),
{
    match cls {
        CharClass::Whitespace => is_whitespace(c),
        CharClass::WhitespaceOrBar => is_whitespace(c) || c == '|',
        CharClass::Quote => c == '"' || c == '\'',
        CharClass::Is(d) => c == d,
        CharClass::RefForbidden => c == '~' || c == '^' || c == ':' || c == '?' || c == '*' || c
            == '[' || c == '\\' || c == '"' || c == '\'',
    }
}

/// Whether some character of `s` is in `cls`.
pub open spec fn has_class(s: Seq<char>, cls: CharClass) -> bool {
    exists|i: int| 0 <= i < s.len() && in_class(cls, #[trigger] s[i])
}

pub fn vec_has_class(v: &Vec<char>, cls: CharClass) -> (r: bool)
    ensures
        r == has_class(v@, cls),
{
    let mut i: usize = 0;
    while i < v.len()
        invariant
            i <= v.len(),
            forall|j: int| 0 <= j < i ==> !in_class(cls, #[trigger] v@[j]),
        decreases v.len() - i,
    {
        if class_contains(cls, v[i]) {
            return true;
        }
        i += 1;
    }
    false
}

// ---------------------------------------------------------------------------
// Trimming
// ---------------------------------------------------------------------------

/// First index at or after `i` whose character is not in `cls` (or `s.len()`).
pub open spec fn skip_from(s: Seq<char>, cls: CharClass, i: int) -> int
    decreases s.len() - i,
{
    if 0 <= i < s.len() && in_class(cls, s[i]) {
        skip_from(s, cls, i + 1)
    } else {
        i
    }
}

/// Walking back from `j` (exclusive end) towards `lo`, the end of the part that
/// is left once the trailing characters in `cls` are dropped.
pub open spec fn back_from(s: Seq<char>, cls: CharClass, lo: int, j: int) -> int
    decreases j - lo,
{
    if lo < j && j <= s.len() && in_class(cls, s[j - 1]) {
        back_from(s, cls, lo, j - 1)
    } else {
        j
    }
}

/// `s` without its leading characters in `cls` (`trim_start_matches`).
pub open spec fn trim_start(s: Seq<char>, cls: CharClass) -> Seq<char> {
    s.subrange(skip_from(s, cls, 0), s.len() as int)
}

/// `s` without its trailing characters in `cls` (`trim_end_matches`).
pub open spec fn trim_end(s: Seq<char>, cls: CharClass) -> Seq<char> {
    s.subrange(0, back_from(s, cls, 0, s.len() as int))
}

/// `s` without its leading and trailing characters in `cls` (`trim_matches`;
/// with `Whitespace`, `trim`).
pub open spec fn trim(s: Seq<char>, cls: CharClass) -> Seq<char> {
    let a = skip_from(s, cls, 0);
    s.subrange(a, back_from(s, cls, a, s.len() as int))
}

pub proof fn lemma_skip_from_bounds(s: Seq<char>, cls: CharClass, i: int)
    requires
        0 <= i <= s.len(),
    ensures
        i <= skip_from(s, cls, i) <= s.len(),
        forall|j: int| i <= j < skip_from(s, cls, i) ==> in_class(cls, #[trigger] s[j]),
        skip_from(s, cls, i) < s.len() ==> !in_class(cls, s[skip_from(s, cls, i)]),
    decreases s.len() - i,
{
    if i < s.len() && in_class(cls, s[i]) {
        lemma_skip_from_bounds(s, cls, i + 1);
    }
}

pub proof fn lemma_back_from_bounds(s: Seq<char>, cls: CharClass, lo: int, j: int)
    requires
        0 <= lo <= j <= s.len(),
    ensures
        lo <= back_from(s, cls, lo, j) <= j,
        forall|k: int| back_from(s, cls, lo, j) <= k < j ==> in_class(cls, #[trigger] s[k]),
        back_from(s, cls, lo, j) > lo ==> !in_class(cls, s[back_from(s, cls, lo, j) - 1]),
    decreases j - lo,
{
    if lo < j && in_class(cls, s[j - 1]) {
        lemma_back_from_bounds(s, cls, lo, j - 1);
    }
}

/// The index `skip_from(v, cls, start)`.
pub fn skip_class(v: &Vec<char>, cls: CharClass, start: usize) -> (r: usize)
    requires
        start <= v.len(),
    ensures
        r as int == skip_from(v@, cls, start as int),
        start <= r <= v.len(),
{
    let mut i = start;
    while i < v.len() && class_contains(cls, v[i])
        invariant
            start <= i <= v.len(),
            skip_from(v@, cls, start as int) == skip_from(v@, cls, i as int),
        decreases v.len() - i,
    {
        i += 1;
    }
    i
}

/// The index `back_from(v, cls, lo, hi)`.
pub fn back_class(v: &Vec<char>, cls: CharClass, lo: usize, hi: usize) -> (r: usize)
    requires
        lo <= hi <= v.len(),
    ensures
        r as int == back_from(v@, cls, lo as int, hi as int),
        lo <= r <= hi,
{
    let mut j = hi;
    while j > lo && class_contains(cls, v[j - 1])
        invariant
            lo <= j <= hi <= v.len(),
            back_from(v@, cls, lo as int, hi as int) == back_from(v@, cls, lo as int, j as int),
        decreases j - lo,
    {
        j -= 1;
    }
    j
}

pub fn trim_vec(v: &Vec<char>, cls: CharClass) -> (r: Vec<char>)
    ensures
        r@ == trim(v@, cls),
{
    let a = skip_class(v, cls, 0);
    let b = back_class(v, cls, a, v.len());
    subvec(v, a, b)
}

pub fn trim_start_vec(v: &Vec<char>, cls: CharClass) -> (r: Vec<char>)
    ensures
        r@ == trim_start(v@, cls),
{
    let a = skip_class(v, cls, 0);
    subvec(v, a, v.len())
}

pub fn trim_end_vec(v: &Vec<char>, cls: CharClass) -> (r: Vec<char>)
    ensures
        r@ == trim_end(v@, cls),
{
    let b = back_class(v, cls, 0, v.len());
    subvec(v, 0, b)
}

// ---------------------------------------------------------------------------
// Prefixes, suffixes and substrings
// ---------------------------------------------------------------------------

pub open spec fn has_prefix(s: Seq<char>, p: Seq<char>) -> bool {
    p.len() <= s.len() && s.subrange(0, p.len() as int) == p
}

pub open spec fn has_suffix(s: Seq<char>, p: Seq<char>) -> bool {
    p.len() <= s.len() && s.subrange(s.len() - p.len(), s.len() as int) == p
}

/// `p` occurs in `s` starting at index `i`.
pub open spec fn occurs_at(s: Seq<char>, p: Seq<char>, i: int) -> bool {
    0 <= i && i + p.len() <= s.len() && s.subrange(i, i + p.len()) == p
}

pub open spec fn contains_seq(s: Seq<char>, p: Seq<char>) -> bool {
    exists|i: int| occurs_at(s, p, i)
}

/// Whether `p` occurs in `v` at index `i`.
pub fn matches_at(v: &Vec<char>, p: &Vec<char>, i: usize) -> (r: bool)
    ensures
        r == occurs_at(v@, p@, i as int),
{
    if i > v.len() || p.len() > v.len() - i {
        return false;
    }
    let mut k: usize = 0;
    while k < p.len()
        invariant
            i + p.len() <= v.len(),
            k <= p.len(),
            forall|j: int| 0 <= j < k ==> v@[i + j] == p@[j],
        decreases p.len() - k,
    {
        if v[i + k] != p[k] {
            assert(v@.subrange(i as int, i + p.len())[k as int] != p@[k as int]);
            return false;
        }
        k += 1;
    }
    assert(v@.subrange(i as int, i + p.len()) =~= p@);
    true
}

pub fn vec_starts_with(v: &Vec<char>, p: &Vec<char>) -> (r: bool)
    ensures
        r == has_prefix(v@, p@),
{
    matches_at(v, p, 0)
}

pub fn vec_ends_with(v: &Vec<char>, p: &Vec<char>) -> (r: bool)
    ensures
        r == has_suffix(v@, p@),
{
    if p.len() > v.len() {
        return false;
    }
    matches_at(v, p, v.len() - p.len())
}

/// First index at or after `start` where `p` occurs in `s`.
pub open spec fn is_first_occurrence_from(s: Seq<char>, p: Seq<char>, start: int, i: int) -> bool {
    &&& start <= i
    &&& occurs_at(s, p, i)
    &&& forall|j: int| start <= j < i ==> !occurs_at(s, p, j)
}

/// `str::find` from `start`: the first occurrence of `p` at or after `start`.
pub fn find_from(v: &Vec<char>, p: &Vec<char>, start: usize) -> (r: Option<usize>)
    ensures
        match r {
            Some(i) => is_first_occurrence_from(v@, p@, start as int, i as int),
            None => forall|j: int| start <= j ==> !occurs_at(v@, p@, j),
        },
{
    if start > v.len() {
        return None;
    }
    let mut i = start;
    while i < v.len()
        invariant
            start <= i <= v.len(),
            forall|j: int| start <= j < i ==> !occurs_at(v@, p@, j),
        decreases v.len() - i,
    {
        if matches_at(v, p, i) {
            return Some(i);
        }
        i += 1;
    }
    if matches_at(v, p, i) {
        return Some(i);
    }
    None
}

pub fn vec_contains(v: &Vec<char>, p: &Vec<char>) -> (r: bool)
    ensures
        r == contains_seq(v@, p@),
{
    match find_from(v, p, 0) {
        Some(i) => true,
        None => {
            assert forall|j: int| !occurs_at(v@, p@, j) by {
                if j >= 0 {
                }
            }
            false
        },
    }
}

// ---------------------------------------------------------------------------
// Splitting
// ---------------------------------------------------------------------------

/// The fields of `s` separated by characters of `cls` (`str::split` with a
/// character predicate): `n` separators give `n + 1` fields, empty ones
/// included.
pub open spec fn split_seq(s: Seq<char>, cls: CharClass) -> Seq<Seq<char>>
    decreases s.len(),
{
    if s.len() == 0 {
        seq![Seq::<char>::empty()]
    } else {
        let rest = split_seq(s.drop_last(), cls);
        if in_class(cls, s.last()) {
            rest.push(Seq::<char>::empty())
        } else {
            rest.update(rest.len() - 1, rest.last().push(s.last()))
        }
    }
}

pub proof fn lemma_split_seq_nonempty(s: Seq<char>, cls: CharClass)
    ensures
        split_seq(s, cls).len() >= 1,
    decreases s.len(),
{
    if s.len() > 0 {
        lemma_split_seq_nonempty(s.drop_last(), cls);
    }
}

/// The deep view of a vector of character vectors.
pub open spec fn vv(v: Seq<Vec<char>>) -> Seq<Seq<char>> {
    v.map_values(|t: Vec<char>| t@)
}

/// `str::split` with the characters of `cls` as separators.
pub fn split_vec(v: &Vec<char>, cls: CharClass) -> (r: Vec<Vec<char>>)
    ensures
        vv(r@) == split_seq(v@, cls),
        r@.len() >= 1,
{
    let mut tokens: Vec<Vec<char>> = Vec::new();
    let mut cur: Vec<char> = Vec::new();
    let mut i: usize = 0;
    assert(v@.take(0) =~= Seq::<char>::empty());
    assert(vv(tokens@).push(cur@) =~= seq![Seq::<char>::empty()]);
    while i < v.len()
        invariant
            i <= v.len(),
            vv(tokens@).push(cur@) == split_seq(v@.take(i as int), cls),
        decreases v.len() - i,
    {
        let c = v[i];
        let ghost prev = v@.take(i as int);
        let ghost next = v@.take(i as int + 1);
        assert(next.drop_last() =~= prev);
        assert(next.last() == c);
        proof {
            lemma_split_seq_nonempty(prev, cls);
        }
        let ghost before = vv(tokens@).push(cur@);
        if class_contains(cls, c) {
            let done = cur;
            tokens.push(done);
            cur = Vec::new();
            assert(vv(tokens@).push(cur@) =~= before.push(Seq::<char>::empty()));
        } else {
            let ghost old_cur = cur@;
            cur.push(c);
            assert(vv(tokens@).push(cur@) =~= before.update(
                before.len() - 1,
                before.last().push(c),
            ));
        }
        i += 1;
    }
    assert(v@.take(v.len() as int) =~= v@);
    tokens.push(cur);
    assert(vv(tokens@).len() >= 1);
    tokens
}


/// Removes one trailing carriage return.
pub open spec fn strip_cr(t: Seq<char>) -> Seq<char> {
    if t.len() > 0 && t.last() == '\r' {
        t.drop_last()
    } else {
        t
    }
}

/// `str::lines`: the fields between `\n`s, each with one trailing `\r`
/// removed; a final empty field (text ending in `\n`, or empty text) is not a
/// line, and the final field keeps a bare trailing `\r`.
pub open spec fn lines_seq(s: Seq<char>) -> Seq<Seq<char>> {
    let parts = split_seq(s, CharClass::Is('\n'));
    let body = parts.drop_last().map_values(|t: Seq<char>| strip_cr(t));
    if parts.last().len() == 0 {
        body
    } else {
        body.push(parts.last())
    }
}

pub fn strip_cr_vec(t: Vec<char>) -> (r: Vec<char>)
    ensures
        r@ == strip_cr(t@),
{
    let mut t = t;
    if t.len() > 0 && t[t.len() - 1] == '\r' {
        t.pop();
    }
    t
}

/// `str::lines`.
pub fn lines_vec(v: &Vec<char>) -> (r: Vec<Vec<char>>)
    ensures
        vv(r@) == lines_seq(v@),
{
    let mut parts = split_vec(v, CharClass::Is('\n'));
    let last = parts.pop().unwrap();
    let ghost parts_all = split_seq(v@, CharClass::Is('\n'));
    assert(vv(parts@) =~= parts_all.drop_last());
    let mut out: Vec<Vec<char>> = Vec::new();
    let mut i: usize = 0;
    while i < parts.len()
        invariant
            i <= parts.len(),
            vv(parts@) == parts_all.drop_last(),
            out@.len() == i,
            forall|j: int| 0 <= j < i ==> (#[trigger] out@[j])@ == strip_cr(parts@[j]@),
        decreases parts.len() - i,
    {
        let t = subvec(&parts[i], 0, parts[i].len());
        assert(parts[i as int]@.subrange(0, parts[i as int]@.len() as int) =~= parts[i as int]@);
        let t2 = strip_cr_vec(t);
        out.push(t2);
        i += 1;
    }
    let ghost body = parts_all.drop_last().map_values(|t: Seq<char>| strip_cr(t));
    assert(vv(out@) =~= body) by {
        assert forall|j: int| 0 <= j < out@.len() implies vv(out@)[j] == body[j] by {
            assert(vv(parts@)[j] == parts@[j]@);
        }
    }
    if last.len() > 0 {
        out.push(last);
        assert(vv(out@) =~= body.push(parts_all.last()));
    }
    out
}

// ---------------------------------------------------------------------------
// Decimal rendering
// ---------------------------------------------------------------------------

pub open spec fn digit_char(d: nat) -> char {
    (('0' as u32) + d) as char
}

/// The decimal rendering of `n`, without leading zeros (`n.to_string()`).
pub open spec fn dec_seq(n: nat) -> Seq<char>
    decreases n,
{
    if n < 10 {
        seq![digit_char(n)]
    } else {
        dec_seq(n / 10).push(digit_char(n % 10))
    }
}

fn digit(d: u64) -> (c: char)
    requires
        d < 10,
    ensures
        c == digit_char(d as nat),
{
    let u: u32 = 48 + d as u32;
    char_from_ascii(u)
}

/// Appends the decimal rendering of `n` to `s`.
pub fn push_dec(s: &mut String, n: u64)
    ensures
        final(s)@ == old(s)@ + dec_seq(n as nat),
    decreases n,
{
    if n < 10 {
        push_char(s, digit(n));
        assert(old(s)@.push(digit_char(n as nat)) =~= old(s)@ + seq![digit_char(n as nat)]);
    } else {
        push_dec(s, n / 10);
        push_char(s, digit(n % 10));
        assert(old(s)@ + dec_seq((n / 10) as nat).push(digit_char((n % 10) as nat)) =~= (old(s)@
            + dec_seq((n / 10) as nat)).push(digit_char((n % 10) as nat)));
    }
}

/// `n.to_string()`.
pub fn dec_string(n: u64) -> (s: String)
    ensures
        s@ == dec_seq(n as nat),
{
    let mut s = String::new();
    push_dec(&mut s, n);
    assert(Seq::<char>::empty() + dec_seq(n as nat) =~= dec_seq(n as nat));
    s
}

// ---------------------------------------------------------------------------
// Parsing unsigned integers
// ---------------------------------------------------------------------------

/// Value of `c` as a digit in base `radix` (2..=36), letters in either case.
pub open spec fn digit_value(c: char, radix: nat) -> Option<nat> {
    let v: int = if '0' <= c && c <= '9' {
        c as int - '0' as int
    } else if 'a' <= c && c <= 'z' {
        c as int - 'a' as int + 10
    } else if 'A' <= c && c <= 'Z' {
        c as int - 'A' as int + 10
    } else {
        100
    };
    if v < radix {
        Some(v as nat)
    } else {
        None
    }
}

pub open spec fn all_digits(s: Seq<char>, radix: nat) -> bool {
    forall|i: int| 0 <= i < s.len() ==> (#[trigger] digit_value(s[i], radix)) is Some
}

pub open spec fn digits_value(s: Seq<char>, radix: nat) -> nat
    decreases s.len(),
{
    if s.len() == 0 {
        0
    } else {
        digits_value(s.drop_last(), radix) * radix + digit_value(s.last(), radix).unwrap()
    }
}

/// What `u64::from_str_radix(s, radix)` (and `str::parse` in base 10) gives
/// for a type whose largest value is `max`: an optional `+`, then at least one
/// digit, and a value no larger than `max`.
pub open spec fn parse_uint_spec(s: Seq<char>, radix: nat, max: nat) -> Option<nat> {
    let d = if s.len() > 1 && s[0] == '+' {
        s.drop_first()
    } else {
        s
    };
    if d.len() > 0 && all_digits(d, radix) && digits_value(d, radix) <= max {
        Some(digits_value(d, radix))
    } else {
        None
    }
}

fn digit_val(c: char, radix: u32) -> (r: Option<u32>)
    requires
        2 <= radix <= 36,
    ensures
        match r {
            Some(x) => digit_value(c, radix as nat) == Some(x as nat),
            None => digit_value(c, radix as nat) is None,
        },
{
    let v: u32 = if '0' <= c && c <= '9' {
        (c as u32) - 48
    } else if 'a' <= c && c <= 'z' {
        (c as u32) - 97 + 10
    } else if 'A' <= c && c <= 'Z' {
        (c as u32) - 65 + 10
    } else {
        100
    };
    if v < radix {
        Some(v)
    } else {
        None
    }
}

proof fn lemma_digits_value_prefix(s: Seq<char>, radix: nat, k: int)
    requires
        radix >= 1,
        0 <= k <= s.len(),
        all_digits(s, radix),
    ensures
        digits_value(s.take(k), radix) <= digits_value(s, radix),
    decreases s.len(),
{
    if k < s.len() {
        assert(all_digits(s.drop_last(), radix)) by {
            assert forall|i: int| 0 <= i < s.drop_last().len() implies (#[trigger] digit_value(
                s.drop_last()[i],
                radix,
            )) is Some by {
                assert(s.drop_last()[i] == s[i]);
            }
        }
        lemma_digits_value_prefix(s.drop_last(), radix, k);
        assert(s.drop_last().take(k) =~= s.take(k));
        let a = digits_value(s.drop_last(), radix);
        assert(a * radix >= a) by (nonlinear_arith)
            requires
                radix >= 1,
        ;
    } else {
        assert(s.take(k) =~= s);
    }
}

/// `from_str_radix` for an unsigned type whose largest value is `max`.
pub fn parse_uint(v: &Vec<char>, radix: u32, max: u64) -> (r: Option<u64>)
    requires
        2 <= radix <= 36,
    ensures
        match r {
            Some(x) => parse_uint_spec(v@, radix as nat, max as nat) == Some(x as nat),
            None => parse_uint_spec(v@, radix as nat, max as nat) is None,
        },
{
    let start: usize = if v.len() > 1 && v[0] == '+' {
        1
    } else {
        0
    };
    let ghost d = if v@.len() > 1 && v@[0] == '+' {
        v@.drop_first()
    } else {
        v@
    };
    assert(d =~= v@.subrange(start as int, v@.len() as int));
    if start >= v.len() {
        return None;
    }
    let mut acc: u64 = 0;
    let mut i: usize = start;
    while i < v.len()
        invariant
            start <= i <= v.len(),
            d == v@.subrange(start as int, v@.len() as int),
            d == (if v@.len() > 1 && v@[0] == '+' {
                v@.drop_first()
            } else {
                v@
            }),
            2 <= radix <= 36,
            all_digits(d.take(i - start), radix as nat),
            acc as nat == digits_value(d.take(i - start), radix as nat),
            acc <= max,
        decreases v.len() - i,
    {
        let ghost pre = d.take(i - start);
        let ghost nxt = d.take(i - start + 1);
        assert(nxt.drop_last() =~= pre);
        assert(nxt.last() == v@[i as int]);
        match digit_val(v[i], radix) {
            None => {
                assert(!all_digits(d, radix as nat)) by {
                    assert(d[i - start] == v@[i as int]);
                    assert(digit_value(d[i - start], radix as nat) is None);
                }
                assert(parse_uint_spec(v@, radix as nat, max as nat) is None);
                return None;
            },
            Some(dv) => {
                assert(all_digits(nxt, radix as nat)) by {
                    assert forall|j: int| 0 <= j < nxt.len() implies (#[trigger] digit_value(
                        nxt[j],
                        radix as nat,
                    )) is Some by {
                        if j < pre.len() {
                            assert(nxt[j] == pre[j]);
                        }
                    }
                }
                assert((acc as u128) * (radix as u128) <= 0xffff_ffff_ffff_ffff * 36)
                    by (nonlinear_arith)
                    requires
                        acc <= 0xffff_ffff_ffff_ffffu64,
                        radix <= 36,
                ;
                let wide: u128 = (acc as u128) * (radix as u128) + (dv as u128);
                assert(wide == digits_value(nxt, radix as nat));
                if wide > max as u128 {
                    proof {
                        if all_digits(d, radix as nat) {
                            lemma_digits_value_prefix(d, radix as nat, i - start + 1);
                        }
                    }
                    return None;
                }
                acc = wide as u64;
            },
        }
        i += 1;
    }
    assert(d.take(v.len() - start) =~= d);
    Some(acc)
}

/// `s.parse::<u64>()`-style decimal parse bounded by `max`.
pub fn parse_dec(v: &Vec<char>, max: u64) -> (r: Option<u64>)
    ensures
        match r {
            Some(x) => parse_uint_spec(v@, 10, max as nat) == Some(x as nat),
            None => parse_uint_spec(v@, 10, max as nat) is None,
        },
{
    parse_uint(v, 10, max)
}

// ---------------------------------------------------------------------------
// Lexicographic order
// ---------------------------------------------------------------------------

/// `a < b` for `str` (byte order of UTF-8, which is code-point order).
pub open spec fn seq_lt(a: Seq<char>, b: Seq<char>) -> bool
    decreases a.len(),
{
    if a.len() == 0 {
        b.len() > 0
    } else if b.len() == 0 {
        false
    } else if a[0] != b[0] {
        (a[0] as u32) < (b[0] as u32)
    } else {
        seq_lt(a.drop_first(), b.drop_first())
    }
}

pub fn vec_lt(a: &Vec<char>, b: &Vec<char>) -> (r: bool)
    ensures
        r == seq_lt(a@, b@),
{
    let mut i: usize = 0;
    assert(a@.skip(0) =~= a@);
    assert(b@.skip(0) =~= b@);
    while i < a.len() && i < b.len() && a[i] == b[i]
        invariant
            i <= a.len(),
            i <= b.len(),
            seq_lt(a@, b@) == seq_lt(a@.skip(i as int), b@.skip(i as int)),
        decreases a.len() - i,
    {
        assert(a@.skip(i as int).drop_first() =~= a@.skip(i as int + 1));
        assert(b@.skip(i as int).drop_first() =~= b@.skip(i as int + 1));
        i += 1;
    }
    if i == a.len() {
        i < b.len()
    } else if i == b.len() {
        false
    } else {
        (a[i] as u32) < (b[i] as u32)
    }
}


// ---------------------------------------------------------------------------
// Searching for characters of a class
// ---------------------------------------------------------------------------

/// First index at or after `i` whose character is in `cls` (or `s.len()`).
pub open spec fn find_class_from(s: Seq<char>, cls: CharClass, i: int) -> int
    decreases s.len() - i,
{
    if 0 <= i < s.len() && !in_class(cls, s[i]) {
        find_class_from(s, cls, i + 1)
    } else {
        i
    }
}

pub proof fn lemma_find_class_from_bounds(s: Seq<char>, cls: CharClass, i: int)
    requires
        0 <= i <= s.len(),
    ensures
        i <= find_class_from(s, cls, i) <= s.len(),
        forall|j: int| i <= j < find_class_from(s, cls, i) ==> !in_class(cls, #[trigger] s[j]),
        find_class_from(s, cls, i) < s.len() ==> in_class(cls, s[find_class_from(s, cls, i)]),
    decreases s.len() - i,
{
    if i < s.len() && !in_class(cls, s[i]) {
        lemma_find_class_from_bounds(s, cls, i + 1);
    }
}

/// The index `find_class_from(v, cls, start)`.
pub fn find_class(v: &Vec<char>, cls: CharClass, start: usize) -> (r: usize)
    requires
        start <= v.len(),
    ensures
        r as int == find_class_from(v@, cls, start as int),
        start <= r <= v.len(),
{
    let mut i = start;
    while i < v.len() && !class_contains(cls, v[i])
        invariant
            start <= i <= v.len(),
            find_class_from(v@, cls, start as int) == find_class_from(v@, cls, i as int),
        decreases v.len() - i,
    {
        i += 1;
    }
    i
}

/// Whether the string literal or text `lit` equals `v`.
pub fn vec_eq_str(v: &Vec<char>, lit: &str) -> (r: bool)
    ensures
        r == (v@ == lit@),
{
    let w = chars_of(lit);
    vec_eq(v, &w)
}


// ---------------------------------------------------------------------------
// Whitespace-separated fields
// ---------------------------------------------------------------------------

/// `str::split_whitespace`: the maximal runs of non-whitespace characters.
pub open spec fn ws_fields_seq(s: Seq<char>) -> Seq<Seq<char>>
    decreases s.len(),
{
    if s.len() == 0 {
        Seq::<Seq<char>>::empty()
    } else {
        let rest = ws_fields_seq(s.drop_last());
        if is_ws(s.last()) {
            rest
        } else if s.len() >= 2 && !is_ws(s[s.len() - 2]) {
            rest.update(rest.len() - 1, rest.last().push(s.last()))
        } else {
            rest.push(seq![s.last()])
        }
    }
}

pub proof fn lemma_ws_fields_last(s: Seq<char>)
    requires
        s.len() >= 1,
        !is_ws(s.last()),
    ensures
        ws_fields_seq(s).len() >= 1,
    decreases s.len(),
{
    if s.len() >= 2 && !is_ws(s[s.len() - 2]) {
        assert(s.drop_last().last() == s[s.len() - 2]);
        lemma_ws_fields_last(s.drop_last());
    }
}

/// Start and end of each field of `split_whitespace`, in order.
pub open spec fn ranges_match(s: Seq<char>, ranges: Seq<(usize, usize)>, fields: Seq<Seq<char>>) -> bool {
    &&& ranges.len() == fields.len()
    &&& forall|j: int|
        0 <= j < ranges.len() ==> {
            &&& (#[trigger] ranges[j]).0 <= ranges[j].1 <= s.len()
            &&& s.subrange(ranges[j].0 as int, ranges[j].1 as int) == fields[j]
        }
}

/// `split_whitespace`, as the index ranges of the fields.
pub fn ws_fields(v: &Vec<char>) -> (r: Vec<(usize, usize)>)
    ensures
        ranges_match(v@, r@, ws_fields_seq(v@)),
{
    let mut ranges: Vec<(usize, usize)> = Vec::new();
    let mut in_field = false;
    let mut start: usize = 0;
    let mut i: usize = 0;
    assert(v@.take(0) =~= Seq::<char>::empty());
    while i < v.len()
        invariant
            i <= v.len(),
            start <= i,
            in_field == (i > 0 && !is_ws(v@[i - 1])),
            in_field ==> ranges_match(
                v@,
                ranges@.push((start, i)),
                ws_fields_seq(v@.take(i as int)),
            ),
            !in_field ==> ranges_match(v@, ranges@, ws_fields_seq(v@.take(i as int))),
        decreases v.len() - i,
    {
        let c = v[i];
        let ghost pre = v@.take(i as int);
        let ghost nxt = v@.take(i as int + 1);
        assert(nxt.drop_last() =~= pre);
        assert(nxt.last() == c);
        if is_whitespace(c) {
            if in_field {
                ranges.push((start, i));
            }
            in_field = false;
        } else {
            if in_field {
                let ghost fs = ws_fields_seq(pre);
                assert(nxt[nxt.len() - 2] == v@[i - 1]);
                assert(pre.last() == v@[i - 1]);
                proof {
                    lemma_ws_fields_last(pre);
                }
                let ghost old_rs = ranges@.push((start, i));
                assert(old_rs[ranges@.len() as int] == (start, i));
                assert(v@.subrange(start as int, i as int) == fs[ranges@.len() as int]);
                assert(fs.len() == ranges@.len() + 1);
                assert(v@.subrange(start as int, i as int + 1) =~= v@.subrange(
                    start as int,
                    i as int,
                ).push(c));
                assert(ranges_match(
                    v@,
                    ranges@.push((start, (i + 1) as usize)),
                    ws_fields_seq(nxt),
                )) by {
                    let rs = ranges@.push((start, (i + 1) as usize));
                    let fs2 = ws_fields_seq(nxt);
                    assert forall|j: int| 0 <= j < rs.len() implies {
                        &&& (#[trigger] rs[j]).0 <= rs[j].1 <= v@.len()
                        &&& v@.subrange(rs[j].0 as int, rs[j].1 as int) == fs2[j]
                    } by {
                        if j < ranges@.len() {
                            assert(rs[j] == old_rs[j]);
                            assert(fs2[j] == fs[j]);
                        }
                    }
                }
            } else {
                start = i;
                in_field = true;
                assert(v@.subrange(i as int, i as int + 1) =~= seq![c]);
                assert(ranges_match(
                    v@,
                    ranges@.push((start, (i + 1) as usize)),
                    ws_fields_seq(nxt),
                )) by {
                    let rs = ranges@.push((start, (i + 1) as usize));
                    let fs2 = ws_fields_seq(nxt);
                    assert forall|j: int| 0 <= j < rs.len() implies {
                        &&& (#[trigger] rs[j]).0 <= rs[j].1 <= v@.len()
                        &&& v@.subrange(rs[j].0 as int, rs[j].1 as int) == fs2[j]
                    } by {
                        if j < ranges@.len() {
                            assert(rs[j] == ranges@[j]);
                        }
                    }
                }
            }
        }
        i += 1;
    }
    if in_field {
        ranges.push((start, i));
    }
    assert(v@.take(v.len() as int) =~= v@);
    ranges
}

// ---------------------------------------------------------------------------
// DNS-safe slugs
// ---------------------------------------------------------------------------

/// Lowercases ASCII letters, keeps ASCII letters and digits, and turns every
/// run of other characters into a single `-`.
pub open spec fn ascii_slug_raw(s: Seq<char>) -> Seq<char>
    decreases s.len(),
{
    if s.len() == 0 {
        Seq::<char>::empty()
    } else {
        let r = ascii_slug_raw(s.drop_last());
        let c = ascii_lower(s.last());
        if is_ascii_alnum(c) {
            r.push(c)
        } else if r.len() > 0 && r.last() == '-' {
            r
        } else {
            r.push('-')
        }
    }
}

/// The slug of `s` before the fallback for an empty one: the raw slug without
/// leading or trailing `-`.
pub open spec fn ascii_slug(s: Seq<char>) -> Seq<char> {
    trim(ascii_slug_raw(s), CharClass::Is('-'))
}

/// A DNS-safe label: non-empty, only `a`-`z`, `0`-`9` and `-`, no `-` at
/// either end, no two `-` in a row.
pub open spec fn dns_safe(s: Seq<char>) -> bool {
    &&& s.len() > 0
    &&& forall|i: int|
        0 <= i < s.len() ==> (('a' <= #[trigger] s[i] && s[i] <= 'z') || ('0' <= s[i] && s[i]
            <= '9') || s[i] == '-')
    &&& s[0] != '-'
    &&& s.last() != '-'
    &&& forall|i: int| 0 <= i < s.len() - 1 ==> !(#[trigger] s[i] == '-' && s[i + 1] == '-')
}

/// The characters of a raw slug are lowercase alphanumerics or `-`, never two
/// `-` in a row.
pub proof fn lemma_ascii_slug_raw_shape(s: Seq<char>)
    ensures
        forall|i: int|
            0 <= i < ascii_slug_raw(s).len() ==> (('a' <= #[trigger] ascii_slug_raw(s)[i]
                && ascii_slug_raw(s)[i] <= 'z') || ('0' <= ascii_slug_raw(s)[i]
                && ascii_slug_raw(s)[i] <= '9') || ascii_slug_raw(s)[i] == '-'),
        forall|i: int|
            0 <= i < ascii_slug_raw(s).len() - 1 ==> !(#[trigger] ascii_slug_raw(s)[i] == '-'
                && ascii_slug_raw(s)[i + 1] == '-'),
    decreases s.len(),
{
    if s.len() > 0 {
        lemma_ascii_slug_raw_shape(s.drop_last());
        let r = ascii_slug_raw(s.drop_last());
        let c = ascii_lower(s.last());
        if is_ascii_alnum(c) {
            assert(ascii_slug_raw(s) == r.push(c));
        } else if r.len() > 0 && r.last() == '-' {
        } else {
            assert(ascii_slug_raw(s) == r.push('-'));
        }
    }
}

/// Trimming the `-` off both ends of a raw slug leaves a DNS-safe label, unless
/// nothing is left.
pub proof fn lemma_ascii_slug_dns_safe(s: Seq<char>)
    ensures
        ascii_slug(s).len() > 0 ==> dns_safe(ascii_slug(s)),
{
    let raw = ascii_slug_raw(s);
    lemma_ascii_slug_raw_shape(s);
    let a = skip_from(raw, CharClass::Is('-'), 0);
    lemma_skip_from_bounds(raw, CharClass::Is('-'), 0);
    lemma_back_from_bounds(raw, CharClass::Is('-'), a, raw.len() as int);
    let b = back_from(raw, CharClass::Is('-'), a, raw.len() as int);
    let t = ascii_slug(s);
    assert(t == raw.subrange(a, b));
    if t.len() > 0 {
        assert forall|i: int| 0 <= i < t.len() implies (('a' <= #[trigger] t[i] && t[i] <= 'z')
            || ('0' <= t[i] && t[i] <= '9') || t[i] == '-') by {
            assert(t[i] == raw[a + i]);
        }
        assert forall|i: int| 0 <= i < t.len() - 1 implies !(#[trigger] t[i] == '-' && t[i + 1]
            == '-') by {
            assert(t[i] == raw[a + i]);
            assert(t[i + 1] == raw[a + i + 1]);
        }
        assert(t[0] == raw[a]);
        assert(t.last() == raw[b - 1]);
    }
}

/// `ascii_slug(label)` as characters.
pub fn ascii_slug_vec(label: &str) -> (r: Vec<char>)
    ensures
        r@ == ascii_slug(label@),
{
    let v = chars_of(label);
    let mut out: Vec<char> = Vec::new();
    let mut prev_dash = false;
    let mut i: usize = 0;
    assert(v@.take(0) =~= Seq::<char>::empty());
    while i < v.len()
        invariant
            i <= v.len(),
            out@ == ascii_slug_raw(v@.take(i as int)),
            prev_dash == (out@.len() > 0 && out@.last() == '-'),
        decreases v.len() - i,
    {
        let ghost pre = v@.take(i as int);
        assert(v@.take(i as int + 1).drop_last() =~= pre);
        let c = to_ascii_lowercase(v[i]);
        if is_ascii_alphanumeric(c) {
            out.push(c);
            prev_dash = false;
        } else if !prev_dash {
            out.push('-');
            prev_dash = true;
        }
        i += 1;
    }
    assert(v@.take(v.len() as int) =~= v@);
    trim_vec(&out, CharClass::Is('-'))
}


/// `s` with every `from` replaced by `to` (`str::replace` of one character).
pub open spec fn replace_char(s: Seq<char>, from: char, to: char) -> Seq<char> {
    s.map_values(|c: char| if c == from { to } else { c })
}

pub fn replace_char_vec(v: &Vec<char>, from: char, to: char) -> (r: Vec<char>)
    ensures
        r@ == replace_char(v@, from, to),
{
    let mut r: Vec<char> = Vec::new();
    let mut i: usize = 0;
    while i < v.len()
        invariant
            i <= v.len(),
            r@ == replace_char(v@.take(i as int), from, to),
        decreases v.len() - i,
    {
        let c = v[i];
        r.push(if c == from { to } else { c });
        assert(replace_char(v@.take(i as int + 1), from, to) =~= replace_char(
            v@.take(i as int),
            from,
            to,
        ).push(if c == from { to } else { c }));
        i += 1;
    }
    assert(v@.take(v.len() as int) =~= v@);
    r
}

/// `s` without any `c` (`str::replace(c, "")`).
pub open spec fn remove_char(s: Seq<char>, c: char) -> Seq<char>
    decreases s.len(),
{
    if s.len() == 0 {
        s
    } else if s.last() == c {
        remove_char(s.drop_last(), c)
    } else {
        remove_char(s.drop_last(), c).push(s.last())
    }
}

pub fn remove_char_vec(v: &Vec<char>, c: char) -> (r: Vec<char>)
    ensures
        r@ == remove_char(v@, c),
{
    let mut r: Vec<char> = Vec::new();
    let mut i: usize = 0;
    assert(v@.take(0) =~= Seq::<char>::empty());
    while i < v.len()
        invariant
            i <= v.len(),
            r@ == remove_char(v@.take(i as int), c),
        decreases v.len() - i,
    {
        assert(v@.take(i as int + 1).drop_last() =~= v@.take(i as int));
        if v[i] != c {
            r.push(v[i]);
        }
        i += 1;
    }
    assert(v@.take(v.len() as int) =~= v@);
    r
}

/// Whether one of the texts of `list` equals `t`.
pub fn list_contains(list: &Vec<String>, t: &Vec<char>) -> (r: bool)
    ensures
        r == (exists|i: int| 0 <= i < list@.len() && (#[trigger] list@[i])@ == t@),
{
    let mut i: usize = 0;
    while i < list.len()
        invariant
            i <= list.len(),
            forall|j: int| 0 <= j < i ==> (#[trigger] list@[j])@ != t@,
        decreases list.len() - i,
    {
        if vec_eq_str(t, list[i].as_str()) {
            return true;
        }
        i += 1;
    }
    false
}


/// Index of the first occurrence of `p` in `s` (`str::find`).
pub open spec fn find_seq(s: Seq<char>, p: Seq<char>) -> Option<int> {
    if exists|i: int| is_first_occurrence_from(s, p, 0, i) {
        Some(choose|i: int| is_first_occurrence_from(s, p, 0, i))
    } else {
        None
    }
}

pub proof fn lemma_first_occurrence_unique(s: Seq<char>, p: Seq<char>, start: int, i: int, j: int)
    requires
        is_first_occurrence_from(s, p, start, i),
        is_first_occurrence_from(s, p, start, j),
    ensures
        i == j,
{
    if i < j {
        assert(!occurs_at(s, p, i));
    } else if j < i {
        assert(!occurs_at(s, p, j));
    }
}

/// `str::find`.
pub fn find(v: &Vec<char>, p: &Vec<char>) -> (r: Option<usize>)
    ensures
        match r {
            Some(i) => find_seq(v@, p@) == Some(i as int) && is_first_occurrence_from(
                v@,
                p@,
                0,
                i as int,
            ),
            None => find_seq(v@, p@) is None,
        },
{
    match find_from(v, p, 0) {
        Some(i) => {
            proof {
                let j = choose|j: int| is_first_occurrence_from(v@, p@, 0, j);
                lemma_first_occurrence_unique(v@, p@, 0, i as int, j);
            }
            Some(i)
        },
        None => {
            assert(!exists|i: int| is_first_occurrence_from(v@, p@, 0, i));
            None
        },
    }
}

/// The leading run of non-whitespace characters (`take_while(!is_whitespace)`).
pub open spec fn leading_word(s: Seq<char>) -> Seq<char> {
    s.subrange(0, find_class_from(s, CharClass::Whitespace, 0))
}

pub fn leading_word_vec(v: &Vec<char>, start: usize) -> (r: Vec<char>)
    requires
        start <= v.len(),
    ensures
        r@ == leading_word(v@.skip(start as int)),
{
    let ghost s = v@.skip(start as int);
    let mut i = start;
    assert(find_class_from(s, CharClass::Whitespace, 0) == find_class_from(
        s,
        CharClass::Whitespace,
        (i - start) as int,
    ));
    while i < v.len() && !is_whitespace(v[i])
        invariant
            start <= i <= v.len(),
            s == v@.skip(start as int),
            find_class_from(s, CharClass::Whitespace, 0) == find_class_from(
                s,
                CharClass::Whitespace,
                (i - start) as int,
            ),
        decreases v.len() - i,
    {
        assert(s[(i - start) as int] == v@[i as int]);
        i += 1;
    }
    if i < v.len() {
        assert(s[(i - start) as int] == v@[i as int]);
    }
    let r = subvec(v, start, i);
    assert(r@ =~= s.subrange(0, (i - start) as int));
    r
}

/// The last field of `s` split at `c` (`rsplit(c).next()`).
pub open spec fn last_field(s: Seq<char>, c: char) -> Seq<char> {
    split_seq(s, CharClass::Is(c)).last()
}

pub fn last_field_vec(v: &Vec<char>, c: char) -> (r: Vec<char>)
    ensures
        r@ == last_field(v@, c),
{
    let parts = split_vec(v, CharClass::Is(c));
    let k = parts.len() - 1;
    let r = subvec(&parts[k], 0, parts[k].len());
    assert(r@ =~= parts@[k as int]@);
    assert(vv(parts@).last() == parts@[k as int]@);
    r
}

/// `s.strip_suffix(p).unwrap_or(s)`.
pub open spec fn strip_suffix_or_keep(s: Seq<char>, p: Seq<char>) -> Seq<char> {
    if has_suffix(s, p) {
        s.subrange(0, s.len() - p.len())
    } else {
        s
    }
}

/// Decimal text of an integer, with `-` when negative.
pub open spec fn int_text(n: int) -> Seq<char> {
    if n < 0 {
        "-"@ + dec_seq((-n) as nat)
    } else {
        dec_seq(n as nat)
    }
}

pub fn int_string(n: i64) -> (r: String)
    ensures
        r@ == int_text(n as int),
{
    if n < 0 {
        let m: u64 = if n == i64::MIN {
            9223372036854775808u64
        } else {
            (-n) as u64
        };
        String::from_str("-").concat(dec_string(m).as_str())
    } else {
        dec_string(n as u64)
    }
}

/// `s.replace(pat, rep)` from index `i` on: each occurrence of `pat`, left to
/// right and without overlap, replaced by `rep`.
pub open spec fn replace_from(s: Seq<char>, pat: Seq<char>, rep: Seq<char>, i: int) -> Seq<char>
    decreases s.len() - i,
{
    if i < 0 || i >= s.len() || pat.len() == 0 {
        if 0 <= i <= s.len() {
            s.subrange(i, s.len() as int)
        } else {
            Seq::<char>::empty()
        }
    } else if occurs_at(s, pat, i) {
        rep + replace_from(s, pat, rep, i + pat.len())
    } else {
        seq![s[i]] + replace_from(s, pat, rep, i + 1)
    }
}

/// `str::replace` with a non-empty pattern.
pub open spec fn replace_seq(s: Seq<char>, pat: Seq<char>, rep: Seq<char>) -> Seq<char> {
    replace_from(s, pat, rep, 0)
}

pub fn replace_str(s: &str, pat: &str, rep: &str) -> (r: String)
    requires
        pat@.len() > 0,
    ensures
        r@ == replace_seq(s@, pat@, rep@),
{
    let v = chars_of(s);
    let p = chars_of(pat);
    let rv = chars_of(rep);
    let mut out: Vec<char> = Vec::new();
    let mut i: usize = 0;
    while i < v.len()
        invariant
            i <= v.len(),
            v@ == s@,
            p@ == pat@,
            rv@ == rep@,
            p@.len() > 0,
            out@ + replace_from(v@, p@, rv@, i as int) == replace_from(v@, p@, rv@, 0),
        decreases v.len() - i,
    {
        let ghost before = out@;
        if matches_at(&v, &p, i) {
            let mut k: usize = 0;
            while k < rv.len()
                invariant
                    k <= rv.len(),
                    out@ == before + rv@.take(k as int),
                decreases rv.len() - k,
            {
                out.push(rv[k]);
                assert(out@ =~= before + rv@.take(k as int + 1));
                k += 1;
            }
            assert(rv@.take(rv.len() as int) =~= rv@);
            assert(before + (rv@ + replace_from(v@, p@, rv@, i + p@.len())) =~= out@ + replace_from(
                v@,
                p@,
                rv@,
                i + p@.len(),
            ));
            i = i + p.len();
        } else {
            out.push(v[i]);
            assert(before + (seq![v@[i as int]] + replace_from(v@, p@, rv@, i + 1)) =~= out@
                + replace_from(v@, p@, rv@, i + 1));
            i = i + 1;
        }
    }
    assert(replace_from(v@, p@, rv@, i as int) =~= Seq::<char>::empty());
    assert(out@ + Seq::<char>::empty() =~= out@);
    let mut r = String::new();
    push_chars(&mut r, &out);
    assert(Seq::<char>::empty() + out@ =~= out@);
    r
}

pub proof fn lemma_seq_lt_asym(a: Seq<char>, b: Seq<char>)
    ensures
        seq_lt(a, b) ==> !seq_lt(b, a),
    decreases a.len(),
{
    if a.len() > 0 && b.len() > 0 && a[0] == b[0] {
        lemma_seq_lt_asym(a.drop_first(), b.drop_first());
    }
}

pub proof fn lemma_seq_lt_trans(a: Seq<char>, b: Seq<char>, c: Seq<char>)
    ensures
        seq_lt(a, b) && seq_lt(b, c) ==> seq_lt(a, c),
    decreases a.len(),
{
    if a.len() > 0 && b.len() > 0 && c.len() > 0 && a[0] == b[0] && b[0] == c[0] {
        lemma_seq_lt_trans(a.drop_first(), b.drop_first(), c.drop_first());
    }
}

pub proof fn lemma_seq_lt_total(a: Seq<char>, b: Seq<char>)
    ensures
        a != b ==> seq_lt(a, b) || seq_lt(b, a),
    decreases a.len(),
{
    if a.len() > 0 && b.len() > 0 && a[0] == b[0] {
        lemma_seq_lt_total(a.drop_first(), b.drop_first());
        if a.drop_first() == b.drop_first() {
            assert(a =~= seq![a[0]] + a.drop_first());
            assert(b =~= seq![b[0]] + b.drop_first());
        }
    } else if a.len() > 0 && b.len() > 0 {
        let x = a[0];
        let y = b[0];
        vstd::utf8::char_u32_cast(x, x as u32);
        vstd::utf8::char_u32_cast(y, y as u32);
        assert(x as u32 != y as u32);
    } else if a.len() == 0 && b.len() == 0 {
        assert(a =~= b);
    }
}

/// "Not before" is transitive for the text order.
pub proof fn lemma_seq_not_lt_trans(a: Seq<char>, b: Seq<char>, c: Seq<char>)
    ensures
        !seq_lt(a, b) && !seq_lt(b, c) ==> !seq_lt(a, c),
{
    lemma_seq_lt_total(a, b);
    lemma_seq_lt_trans(b, a, c);
}

} // verus!
