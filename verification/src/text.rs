//! Character-level text model shared by the command parsers.
//!
//! Every operation here is stated over `Seq<char>`, the view of `str` and
//! `String`, and mirrors the behaviour of the corresponding `str` method.
use vstd::prelude::*;
use vstd::string::*;

verus! {

broadcast use vstd::string::group_string_axioms;

// ---------------------------------------------------------------------------
// Character classes
// ---------------------------------------------------------------------------
/// Unicode `White_Space`, the class used by `char::is_whitespace`, `str::trim`
/// and `str::split_whitespace`.
pub open spec fn is_ws(c: char) -> bool {
    let u: u32 = c as u32;
    ||| 0x09 <= u <= 0x0D
    ||| u == 0x20
    ||| u == 0x85
    ||| u == 0xA0
    ||| u == 0x1680
    ||| 0x2000 <= u <= 0x200A
    ||| u == 0x2028
    ||| u == 0x2029
    ||| u == 0x202F
    ||| u == 0x205F
    ||| u == 0x3000
}

pub fn char_is_ws(c: char) -> (b: bool)
    ensures
        b == is_ws(c),
{
    let u: u32 = c as u32;
    (0x09 <= u && u <= 0x0D) || u == 0x20 || u == 0x85 || u == 0xA0 || u == 0x1680 || (0x2000
        <= u && u <= 0x200A) || u == 0x2028 || u == 0x2029 || u == 0x202F || u == 0x205F || u
        == 0x3000
}

pub open spec fn is_ascii_upper(c: char) -> bool {
    'A' <= c <= 'Z'
}

pub open spec fn lower_char(c: char) -> char {
    if is_ascii_upper(c) {
        ((c as u32) + 32) as char
    } else {
        c
    }
}

/// `str::to_ascii_lowercase`.
pub open spec fn ascii_lower(s: Seq<char>) -> Seq<char> {
    s.map_values(|c: char| lower_char(c))
}

pub fn lower_char_exec(c: char) -> (r: char)
    ensures
        r == lower_char(c),
{
    if 'A' <= c && c <= 'Z' {
        let u: u32 = (c as u32) + 32;
        assert(0x61 <= u <= 0x7A);
        char_from_ascii_u32(u)
    } else {
        c
    }
}

fn char_from_ascii_u32(u: u32) -> (c: char)
    requires
        u < 0x80,
    ensures
        c as u32 == u,
        c == u as char,
{
    let b: u8 = u as u8;
    b as char
}

// ---------------------------------------------------------------------------
// Conversions between `str`/`String` and character vectors
// ---------------------------------------------------------------------------
/// The characters of `s`, one per element.
pub fn chars_of(s: &str) -> (v: Vec<char>)
    ensures
        v@ == s@,
{
    let mut v: Vec<char> = Vec::new();
    for c in it: s.chars()
        invariant
            it.seq() == s@,
            v@ == it.seq().take(it.index() as int),
    {
        v.push(c);
    }
    v
}

/// `String::push`: appends `c` to `s`. The contract claims exactly that
/// the characters of `s` afterwards are its characters before followed by
/// `c`.
#[verifier::external_body]
pub(crate) fn push_char(s: &mut String, c: char)
    ensures
        final(s)@ == old(s)@.push(c),
{
    s.push(c);
}

/// Appends `v[lo..hi]` to `out`.
pub fn push_range(out: &mut String, v: &Vec<char>, lo: usize, hi: usize)
    requires
        lo <= hi <= v.len(),
    ensures
        final(out)@ == old(out)@ + v@.subrange(lo as int, hi as int),
{
    let mut i: usize = lo;
    while i < hi
        invariant
            lo <= i <= hi <= v.len(),
            out@ == old(out)@ + v@.subrange(lo as int, i as int),
        decreases hi - i,
    {
        push_char(out, v[i]);
        assert(v@.subrange(lo as int, (i + 1) as int) == v@.subrange(lo as int, i as int).push(
            v@[i as int],
        ));
        i = i + 1;
    }
}

/// A new `String` holding `v[lo..hi]`.
pub fn string_of_range(v: &Vec<char>, lo: usize, hi: usize) -> (s: String)
    requires
        lo <= hi <= v.len(),
    ensures
        s@ == v@.subrange(lo as int, hi as int),
{
    let mut s = String::new();
    push_range(&mut s, v, lo, hi);
    s
}

/// A new `String` holding all of `v`.
pub fn string_of(v: &Vec<char>) -> (s: String)
    ensures
        s@ == v@,
{
    let s = string_of_range(v, 0, v.len());
    assert(v@.subrange(0, v@.len() as int) == v@);
    s
}

/// A new `String` holding the literal or slice `s`.
pub fn owned(s: &str) -> (r: String)
    ensures
        r@ == s@,
{
    s.to_owned()
}

/// `lit` followed by `v[lo..hi]`, the shape of `format!("{lit}{x}")`.
pub fn concat_lit_range(lit: &str, v: &Vec<char>, lo: usize, hi: usize) -> (s: String)
    requires
        lo <= hi <= v.len(),
    ensures
        s@ == lit@ + v@.subrange(lo as int, hi as int),
{
    let mut s = owned(lit);
    push_range(&mut s, v, lo, hi);
    s
}

/// Equality of `v` with the characters of `lit`.
pub fn eq_lit(v: &Vec<char>, lit: &str) -> (b: bool)
    ensures
        b == (v@ == lit@),
{
    let l = chars_of(lit);
    eq_chars(v, &l)
}

/// Equality of two character sequences.
pub fn eq_chars(a: &Vec<char>, b: &Vec<char>) -> (r: bool)
    ensures
        r == (a@ == b@),
{
    if a.len() != b.len() {
        return false;
    }
    let mut i: usize = 0;
    while i < a.len()
        invariant
            a.len() == b.len(),
            0 <= i <= a.len(),
            forall|j: int| 0 <= j < i ==> a@[j] == b@[j],
        decreases a.len() - i,
    {
        if a[i] != b[i] {
            return false;
        }
        i = i + 1;
    }
    assert(a@ =~= b@);
    true
}

/// Equality of `a[lo..hi]` with `b`.
pub fn range_eq(a: &Vec<char>, lo: usize, hi: usize, b: &Vec<char>) -> (r: bool)
    requires
        lo <= hi <= a.len(),
    ensures
        r == (a@.subrange(lo as int, hi as int) == b@),
{
    if hi - lo != b.len() {
        return false;
    }
    let mut i: usize = 0;
    while i < b.len()
        invariant
            hi - lo == b.len(),
            lo <= hi <= a.len(),
            0 <= i <= b.len(),
            forall|j: int| 0 <= j < i ==> a@[lo + j] == b@[j],
        decreases b.len() - i,
    {
        if a[lo + i] != b[i] {
            return false;
        }
        i = i + 1;
    }
    assert(a@.subrange(lo as int, hi as int) =~= b@);
    true
}

/// `v[lo..hi]` as a new vector.
pub fn sub_chars(v: &Vec<char>, lo: usize, hi: usize) -> (r: Vec<char>)
    requires
        lo <= hi <= v.len(),
    ensures
        r@ == v@.subrange(lo as int, hi as int),
{
    let mut r: Vec<char> = Vec::new();
    let mut i: usize = lo;
    while i < hi
        invariant
            lo <= i <= hi <= v.len(),
            r@ == v@.subrange(lo as int, i as int),
        decreases hi - i,
    {
        r.push(v[i]);
        assert(v@.subrange(lo as int, (i + 1) as int) == v@.subrange(lo as int, i as int).push(
            v@[i as int],
        ));
        i = i + 1;
    }
    r
}

/// `str::to_ascii_lowercase` on a character vector.
pub fn lower_chars(v: &Vec<char>) -> (r: Vec<char>)
    ensures
        r@ == ascii_lower(v@),
{
    let mut r: Vec<char> = Vec::new();
    let mut i: usize = 0;
    while i < v.len()
        invariant
            0 <= i <= v.len(),
            r@ == ascii_lower(v@.take(i as int)),
        decreases v.len() - i,
    {
        let c = lower_char_exec(v[i]);
        r.push(c);
        assert(ascii_lower(v@.take((i + 1) as int)) =~= ascii_lower(v@.take(i as int)).push(
            lower_char(v@[i as int]),
        ));
        i = i + 1;
    }
    assert(v@.take(v.len() as int) =~= v@);
    r
}

// ---------------------------------------------------------------------------
// Trimming
// ---------------------------------------------------------------------------
/// Number of leading whitespace characters.
pub open spec fn lead_ws(s: Seq<char>) -> nat
    decreases s.len(),
{
    if s.len() > 0 && is_ws(s[0]) {
        1 + lead_ws(s.drop_first())
    } else {
        0
    }
}

/// Number of trailing whitespace characters.
pub open spec fn trail_ws(s: Seq<char>) -> nat
    decreases s.len(),
{
    if s.len() > 0 && is_ws(s.last()) {
        1 + trail_ws(s.drop_last())
    } else {
        0
    }
}

/// `str::trim_start`.
pub open spec fn trim_start(s: Seq<char>) -> Seq<char> {
    s.skip(lead_ws(s) as int)
}

/// `str::trim_end`.
pub open spec fn trim_end(s: Seq<char>) -> Seq<char> {
    s.take(s.len() - trail_ws(s))
}

/// `str::trim`.
pub open spec fn trim(s: Seq<char>) -> Seq<char> {
    trim_end(trim_start(s))
}

pub proof fn lemma_lead_ws_bound(s: Seq<char>)
    ensures
        lead_ws(s) <= s.len(),
        forall|j: int| 0 <= j < lead_ws(s) ==> is_ws(#[trigger] s[j]),
        lead_ws(s) < s.len() ==> !is_ws(s[lead_ws(s) as int]),
    decreases s.len(),
{
    if s.len() > 0 && is_ws(s[0]) {
        lemma_lead_ws_bound(s.drop_first());
        assert forall|j: int| 0 <= j < lead_ws(s) implies is_ws(#[trigger] s[j]) by {
            if j > 0 {
                assert(s[j] == s.drop_first()[j - 1]);
            }
        }
    }
}

/// `lead_ws` is the index of the first non-whitespace character.
pub proof fn lemma_lead_ws_is(s: Seq<char>, i: int)
    requires
        0 <= i <= s.len(),
        forall|j: int| 0 <= j < i ==> is_ws(#[trigger] s[j]),
        i == s.len() || !is_ws(s[i]),
    ensures
        lead_ws(s) == i,
    decreases i,
{
    if i > 0 {
        let t = s.drop_first();
        assert forall|j: int| 0 <= j < i - 1 implies is_ws(#[trigger] t[j]) by {
            assert(t[j] == s[j + 1]);
        }
        if i - 1 < t.len() {
            assert(t[i - 1] == s[i]);
        }
        lemma_lead_ws_is(t, i - 1);
    }
}

/// `trail_ws` counts the whitespace run that ends the sequence.
pub proof fn lemma_trail_ws_is(s: Seq<char>, k: int)
    requires
        0 <= k <= s.len(),
        forall|j: int| s.len() - k <= j < s.len() ==> is_ws(#[trigger] s[j]),
        k == s.len() || !is_ws(s[s.len() - k - 1]),
    ensures
        trail_ws(s) == k,
    decreases k,
{
    if k > 0 {
        let t = s.drop_last();
        assert forall|j: int| t.len() - (k - 1) <= j < t.len() implies is_ws(#[trigger] t[j]) by {
            assert(t[j] == s[j]);
        }
        if k - 1 < t.len() {
            assert(t[t.len() - (k - 1) - 1] == s[s.len() - k - 1]);
        }
        assert(is_ws(s[s.len() - 1]));
        lemma_trail_ws_is(t, k - 1);
    }
}

pub proof fn lemma_trail_ws_bound(s: Seq<char>)
    ensures
        trail_ws(s) <= s.len(),
        trail_ws(s) < s.len() ==> !is_ws(s[s.len() - trail_ws(s) - 1]),
    decreases s.len(),
{
    if s.len() > 0 && is_ws(s.last()) {
        let t = s.drop_last();
        lemma_trail_ws_bound(t);
        if trail_ws(s) < s.len() {
            assert(s[s.len() - trail_ws(s) - 1] == t[t.len() - trail_ws(t) - 1]);
        }
    }
}

/// The trailing whitespace run is whitespace.
pub proof fn lemma_trail_ws_all(s: Seq<char>)
    ensures
        trail_ws(s) <= s.len(),
        forall|j: int| s.len() - trail_ws(s) <= j < s.len() ==> is_ws(#[trigger] s[j]),
    decreases s.len(),
{
    if s.len() > 0 && is_ws(s.last()) {
        let t = s.drop_last();
        lemma_trail_ws_all(t);
        assert forall|j: int| s.len() - trail_ws(s) <= j < s.len() implies is_ws(#[trigger] s[j]) by {
            if j < s.len() - 1 {
                assert(s[j] == t[j]);
            }
        }
    }
}

/// A text that is not blank trims to the part between its leading and its
/// trailing whitespace, which starts and ends with a non-space.
pub proof fn lemma_trim_nonblank(s: Seq<char>)
    requires
        trim(s).len() > 0,
    ensures
        lead_ws(s) + trail_ws(s) < s.len(),
        trim(s) == s.subrange(lead_ws(s) as int, s.len() - trail_ws(s)),
        !is_ws(s[lead_ws(s) as int]),
        !is_ws(s[s.len() - trail_ws(s) - 1]),
{
    let a = lead_ws(s);
    let k = trail_ws(s);
    lemma_lead_ws_bound(s);
    lemma_trail_ws_all(s);
    lemma_trail_ws_bound(s);
    assert(a < s.len());
    assert(a < s.len() - k) by {
        if a >= s.len() - k {
            assert(is_ws(s[a as int]));
        }
    }
    let u = s.skip(a as int);
    assert forall|j: int| u.len() - k <= j < u.len() implies is_ws(#[trigger] u[j]) by {
        assert(u[j] == s[a + j]);
    }
    if k < u.len() {
        assert(u[u.len() - k - 1] == s[s.len() - k - 1]);
    }
    lemma_trail_ws_is(u, k as int);
    assert(trim(s) =~= s.subrange(a as int, s.len() - k));
}

/// Trimming after cutting off the trailing whitespace is trimming.
pub proof fn lemma_trim_trim_end(s: Seq<char>)
    requires
        trim(s).len() > 0,
    ensures
        trim(s.take(s.len() - trail_ws(s))) == trim(s),
{
    lemma_trim_nonblank(s);
    let a = lead_ws(s);
    let k = trail_ws(s);
    let e = s.take(s.len() - k);
    lemma_lead_ws_bound(s);
    assert forall|j: int| 0 <= j < a implies is_ws(#[trigger] e[j]) by {
        assert(e[j] == s[j]);
    }
    assert(e[a as int] == s[a as int]);
    lemma_lead_ws_is(e, a as int);
    let u = e.skip(a as int);
    assert(u[u.len() - 1] == s[s.len() - k - 1]);
    lemma_trail_ws_is(u, 0);
    assert(trim(e) =~= s.subrange(a as int, s.len() - k));
}

/// A text that starts with a non-space, followed by a text that is not
/// blank, trims to itself without the trailing whitespace.
pub proof fn lemma_trim_prefixed(x: Seq<char>, y: Seq<char>)
    requires
        x.len() > 0,
        !is_ws(x[0]),
        trim(y).len() > 0,
    ensures
        trim(x + y) == x + y.take(y.len() - trail_ws(y)),
        trail_ws(x + y) == trail_ws(y),
{
    let t = x + y;
    lemma_trim_nonblank(y);
    lemma_trail_ws_all(y);
    lemma_lead_ws_is(t, 0);
    assert(trim_start(t) =~= t);
    let k = trail_ws(y);
    assert forall|j: int| t.len() - k <= j < t.len() implies is_ws(#[trigger] t[j]) by {
        assert(t[j] == y[j - x.len()]);
    }
    assert(t[t.len() - k - 1] == y[y.len() - k - 1]);
    lemma_trail_ws_is(t, k as int);
    assert(trim(t) =~= x + y.take(y.len() - k));
}

/// Trimming twice is trimming once.
pub proof fn lemma_trim_idempotent(s: Seq<char>)
    ensures
        trim(trim(s)) == trim(s),
{
    let a = trim_start(s);
    let t = trim(s);
    lemma_lead_ws_bound(s);
    lemma_trail_ws_bound(a);
    if t.len() > 0 {
        assert(t[0] == a[0]);
        assert(a[0] == s[lead_ws(s) as int]);
        assert(t[t.len() - 1] == a[a.len() - trail_ws(a) - 1]);
    }
    lemma_lead_ws_is(t, 0);
    assert(trim_start(t) =~= t);
    lemma_trail_ws_is(t, 0);
    assert(trim_end(t) =~= t);
}

/// Index of the first character of `v[lo..hi]` that is not whitespace.
pub fn skip_ws(v: &Vec<char>, lo: usize, hi: usize) -> (i: usize)
    requires
        lo <= hi <= v.len(),
    ensures
        lo <= i <= hi,
        i - lo == lead_ws(v@.subrange(lo as int, hi as int)),
{
    let mut i: usize = lo;
    while i < hi && char_is_ws(v[i])
        invariant
            lo <= i <= hi <= v.len(),
            forall|j: int| lo <= j < i ==> is_ws(#[trigger] v@[j]),
        decreases hi - i,
    {
        i = i + 1;
    }
    proof {
        let s = v@.subrange(lo as int, hi as int);
        assert forall|j: int| 0 <= j < i - lo implies is_ws(#[trigger] s[j]) by {
            assert(s[j] == v@[lo + j]);
        }
        if i < hi {
            assert(s[i - lo] == v@[i as int]);
        }
        lemma_lead_ws_is(s, i - lo);
    }
    i
}

/// One past the last character of `v[lo..hi]` that is not whitespace.
pub fn skip_ws_back(v: &Vec<char>, lo: usize, hi: usize) -> (k: usize)
    requires
        lo <= hi <= v.len(),
    ensures
        lo <= k <= hi,
        hi - k == trail_ws(v@.subrange(lo as int, hi as int)),
{
    let mut k: usize = hi;
    while k > lo && char_is_ws(v[k - 1])
        invariant
            lo <= k <= hi <= v.len(),
            forall|j: int| k <= j < hi ==> is_ws(#[trigger] v@[j]),
        decreases k - lo,
    {
        k = k - 1;
    }
    proof {
        let s = v@.subrange(lo as int, hi as int);
        assert forall|j: int| s.len() - (hi - k) <= j < s.len() implies is_ws(#[trigger] s[j]) by {
            assert(s[j] == v@[lo + j]);
        }
        if k > lo {
            assert(s[s.len() - (hi - k) - 1] == v@[k - 1]);
        }
        lemma_trail_ws_is(s, (hi - k) as int);
    }
    k
}

/// Bounds of `trim(v[lo..hi])` inside `v`.
pub fn trim_range(v: &Vec<char>, lo: usize, hi: usize) -> (r: (usize, usize))
    requires
        lo <= hi <= v.len(),
    ensures
        lo <= r.0 <= r.1 <= hi,
        v@.subrange(r.0 as int, r.1 as int) == trim(v@.subrange(lo as int, hi as int)),
{
    let a: usize = skip_ws(v, lo, hi);
    let b: usize = skip_ws_back(v, a, hi);
    proof {
        let s = v@.subrange(lo as int, hi as int);
        assert(trim_start(s) =~= v@.subrange(a as int, hi as int));
        assert(trim_end(v@.subrange(a as int, hi as int)) =~= v@.subrange(a as int, b as int));
    }
    (a, b)
}

/// `trim(v)` as a new vector.
pub fn trim_chars(v: &Vec<char>) -> (r: Vec<char>)
    ensures
        r@ == trim(v@),
{
    let (a, b) = trim_range(v, 0, v.len());
    assert(v@.subrange(0, v.len() as int) == v@);
    sub_chars(v, a, b)
}

/// `trim_start(v)` as a new vector.
pub fn trim_start_chars(v: &Vec<char>) -> (r: Vec<char>)
    ensures
        r@ == trim_start(v@),
{
    let a: usize = skip_ws(v, 0, v.len());
    assert(v@.subrange(0, v.len() as int) == v@);
    sub_chars(v, a, v.len())
}

// ---------------------------------------------------------------------------
// Prefixes and searching
// ---------------------------------------------------------------------------
/// `str::starts_with`.
pub open spec fn starts_with(s: Seq<char>, p: Seq<char>) -> bool {
    p.len() <= s.len() && s.take(p.len() as int) == p
}

/// `str::strip_prefix`.
pub open spec fn strip_prefix(s: Seq<char>, p: Seq<char>) -> Option<Seq<char>> {
    if starts_with(s, p) {
        Some(s.skip(p.len() as int))
    } else {
        None
    }
}

/// `p` occurs in `s` at index `i`.
pub open spec fn occurs_at(s: Seq<char>, p: Seq<char>, i: int) -> bool {
    0 <= i && i + p.len() <= s.len() && s.subrange(i, i + p.len()) == p
}

/// First occurrence of `p` in `s` at or after `i`.
pub open spec fn find_from(s: Seq<char>, p: Seq<char>, i: int) -> Option<int>
    decreases s.len() + 1 - i,
{
    if i < 0 || i + p.len() > s.len() {
        None
    } else if occurs_at(s, p, i) {
        Some(i)
    } else {
        find_from(s, p, i + 1)
    }
}

/// `str::find` with a string pattern (as a character index).
pub open spec fn find(s: Seq<char>, p: Seq<char>) -> Option<int> {
    find_from(s, p, 0)
}

/// `str::contains` with a string pattern.
pub open spec fn contains(s: Seq<char>, p: Seq<char>) -> bool {
    find(s, p) is Some
}

pub proof fn lemma_find_from_facts(s: Seq<char>, p: Seq<char>, i: int)
    requires
        0 <= i,
    ensures
        find_from(s, p, i) matches Some(k) ==> i <= k && occurs_at(s, p, k) && forall|j: int|
            i <= j < k ==> !occurs_at(s, p, j),
        find_from(s, p, i) is None ==> forall|j: int| i <= j ==> !occurs_at(s, p, j),
    decreases s.len() + 1 - i,
{
    if i + p.len() > s.len() {
    } else if occurs_at(s, p, i) {
    } else {
        lemma_find_from_facts(s, p, i + 1);
    }
}

/// Whether `v[lo..hi]` starts with `p`.
pub fn range_starts_with(v: &Vec<char>, lo: usize, hi: usize, p: &Vec<char>) -> (b: bool)
    requires
        lo <= hi <= v.len(),
    ensures
        b == starts_with(v@.subrange(lo as int, hi as int), p@),
{
    if p.len() > hi - lo {
        return false;
    }
    let r = range_eq(v, lo, lo + p.len(), p);
    assert(v@.subrange(lo as int, hi as int).take(p.len() as int) =~= v@.subrange(
        lo as int,
        lo + p.len(),
    ));
    r
}

/// Character index of the first occurrence of `p` in `v[lo..hi]`, relative to `lo`.
pub fn find_in(v: &Vec<char>, lo: usize, hi: usize, p: &Vec<char>) -> (r: Option<usize>)
    requires
        lo <= hi <= v.len(),
    ensures
        r matches Some(k) ==> find(v@.subrange(lo as int, hi as int), p@) == Some(k as int) && k
            + p.len() <= hi - lo,
        r is None ==> find(v@.subrange(lo as int, hi as int), p@) is None,
{
    let ghost s = v@.subrange(lo as int, hi as int);
    if p.len() > hi - lo {
        return None;
    }
    let n: usize = hi - lo;
    let m: usize = n - p.len();
    let mut i: usize = 0;
    loop
        invariant
            s == v@.subrange(lo as int, hi as int),
            n == hi - lo,
            lo <= hi <= v.len(),
            p.len() <= n,
            m == n - p.len(),
            i <= m,
            find(s, p@) == find_from(s, p@, i as int),
        decreases m - i,
    {
        let hit = range_eq(v, lo + i, lo + i + p.len(), p);
        assert(s.subrange(i as int, i + p.len()) =~= v@.subrange(lo + i, lo + i + p.len()));
        if hit {
            return Some(i);
        }
        if i == m {
            assert(find_from(s, p@, i + 1) is None);
            return None;
        }
        i = i + 1;
    }
}

/// Index of the first occurrence of character `c` in `v[lo..hi]`.
pub open spec fn find_char(s: Seq<char>, c: char) -> Option<int> {
    find(s, seq![c])
}

pub fn find_char_in(v: &Vec<char>, lo: usize, hi: usize, c: char) -> (r: Option<usize>)
    requires
        lo <= hi <= v.len(),
    ensures
        r matches Some(k) ==> find_char(v@.subrange(lo as int, hi as int), c) == Some(k as int)
            && lo + k < hi,
        r is None ==> find_char(v@.subrange(lo as int, hi as int), c) is None,
{
    let mut p: Vec<char> = Vec::new();
    p.push(c);
    assert(p@ =~= seq![c]);
    find_in(v, lo, hi, &p)
}

/// First whitespace character of `s` at or after `i`.
pub open spec fn find_ws_from(s: Seq<char>, i: int) -> Option<int>
    decreases s.len() - i,
{
    if i < 0 || i >= s.len() {
        None
    } else if is_ws(s[i]) {
        Some(i)
    } else {
        find_ws_from(s, i + 1)
    }
}

/// Index of the first whitespace character (`str::find(char::is_whitespace)`).
pub open spec fn find_ws(s: Seq<char>) -> Option<int> {
    find_ws_from(s, 0)
}

pub proof fn lemma_find_ws_from_facts(s: Seq<char>, i: int)
    requires
        0 <= i,
    ensures
        find_ws_from(s, i) matches Some(k) ==> i <= k < s.len() && is_ws(s[k]) && forall|j: int|
            i <= j < k ==> !is_ws(#[trigger] s[j]),
        find_ws_from(s, i) is None ==> forall|j: int| i <= j < s.len() ==> !is_ws(#[trigger] s[j]),
    decreases s.len() - i,
{
    if i < s.len() && !is_ws(s[i]) {
        lemma_find_ws_from_facts(s, i + 1);
    }
}

pub fn find_ws_in(v: &Vec<char>, lo: usize, hi: usize) -> (r: Option<usize>)
    requires
        lo <= hi <= v.len(),
    ensures
        r matches Some(k) ==> find_ws(v@.subrange(lo as int, hi as int)) == Some(k as int) && lo
            + k < hi,
        r is None ==> find_ws(v@.subrange(lo as int, hi as int)) is None,
{
    let ghost s = v@.subrange(lo as int, hi as int);
    let mut i: usize = 0;
    while i < hi - lo
        invariant
            s == v@.subrange(lo as int, hi as int),
            lo <= hi <= v.len(),
            i <= hi - lo,
            find_ws(s) == find_ws_from(s, i as int),
        decreases hi - lo - i,
    {
        assert(s[i as int] == v@[lo + i]);
        if char_is_ws(v[lo + i]) {
            return Some(i);
        }
        i = i + 1;
    }
    None
}

// ---------------------------------------------------------------------------
// Splitting
// ---------------------------------------------------------------------------
/// `str::split_once(c)`.
pub open spec fn split_once_char(s: Seq<char>, c: char) -> Option<(Seq<char>, Seq<char>)> {
    match find_char(s, c) {
        Some(k) => Some((s.take(k), s.skip(k + 1))),
        None => None,
    }
}

/// `str::split_once(pat)` with a string pattern.
pub open spec fn split_once_str(s: Seq<char>, p: Seq<char>) -> Option<(Seq<char>, Seq<char>)> {
    match find(s, p) {
        Some(k) => Some((s.take(k), s.skip(k + p.len()))),
        None => None,
    }
}

/// `str::split_once(char::is_whitespace)`.
pub open spec fn split_once_ws(s: Seq<char>) -> Option<(Seq<char>, Seq<char>)> {
    match find_ws(s) {
        Some(k) => Some((s.take(k), s.skip(k + 1))),
        None => None,
    }
}

/// Number of leading characters that are not whitespace.
pub open spec fn word_len(s: Seq<char>) -> int {
    match find_ws(s) {
        Some(k) => k,
        None => s.len() as int,
    }
}

/// `str::split_whitespace`, collected.
pub open spec fn words(s: Seq<char>) -> Seq<Seq<char>>
    decreases s.len(),
{
    let t = trim_start(s);
    if t.len() == 0 {
        Seq::empty()
    } else {
        let n = word_len(t);
        if 0 < n <= t.len() && t.len() <= s.len() {
            seq![t.take(n)] + words(t.skip(n))
        } else {
            Seq::empty()
        }
    }
}

pub proof fn lemma_word_len(s: Seq<char>)
    requires
        s.len() > 0,
        !is_ws(s[0]),
    ensures
        0 < word_len(s) <= s.len(),
{
    lemma_find_ws_from_facts(s, 0);
}

/// The views of a vector of character vectors.
pub open spec fn views(r: Seq<Vec<char>>) -> Seq<Seq<char>> {
    r.map_values(|w: Vec<char>| w@)
}

/// `v[lo..hi].split_whitespace().collect()`.
pub fn words_in(v: &Vec<char>, lo: usize, hi: usize) -> (r: Vec<Vec<char>>)
    requires
        lo <= hi <= v.len(),
    ensures
        views(r@) == words(v@.subrange(lo as int, hi as int)),
{
    let mut r: Vec<Vec<char>> = Vec::new();
    let mut i: usize = lo;
    while i < hi
        invariant
            lo <= i <= hi <= v.len(),
            views(r@) + words(v@.subrange(i as int, hi as int)) == words(
                v@.subrange(lo as int, hi as int),
            ),
        decreases hi - i,
    {
        let ghost s = v@.subrange(i as int, hi as int);
        let a: usize = skip_ws(v, i, hi);
        proof {
            lemma_lead_ws_bound(s);
        }
        assert(trim_start(s) =~= v@.subrange(a as int, hi as int));
        if a == hi {
            assert(words(s) == Seq::<Seq<char>>::empty());
            assert(views(r@) + words(s) =~= views(r@));
            assert(v@.subrange(hi as int, hi as int) =~= Seq::<char>::empty());
            assert(words(v@.subrange(hi as int, hi as int)) == Seq::<Seq<char>>::empty());
            assert(views(r@) + words(v@.subrange(hi as int, hi as int)) =~= views(r@));
            i = hi;
        } else {
            let ghost t = v@.subrange(a as int, hi as int);
            let e: usize = match find_ws_in(v, a, hi) {
                Some(k) => a + k,
                None => hi,
            };
            proof {
                assert(t[0] == v@[a as int]);
                lemma_lead_ws_bound(s);
                assert(s[lead_ws(s) as int] == v@[a as int]);
                lemma_word_len(t);
            }
            assert(word_len(t) == e - a);
            let w = sub_chars(v, a, e);
            assert(t.take(e - a) =~= w@);
            assert(t.skip(e - a) =~= v@.subrange(e as int, hi as int));
            let ghost old_r = views(r@);
            r.push(w);
            proof {
                assert(views(r@) =~= old_r.push(w@));
                assert(words(s) == seq![w@] + words(v@.subrange(e as int, hi as int)));
                assert(views(r@) + words(v@.subrange(e as int, hi as int)) =~= old_r + words(s));
            }
            i = e;
        }
    }
    proof {
        assert(v@.subrange(hi as int, hi as int) =~= Seq::<char>::empty());
        assert(views(r@) + Seq::<Seq<char>>::empty() =~= views(r@));
    }
    r
}

/// `words.join(sep)`.
pub open spec fn join(ws: Seq<Seq<char>>, sep: Seq<char>) -> Seq<char>
    decreases ws.len(),
{
    if ws.len() == 0 {
        Seq::empty()
    } else if ws.len() == 1 {
        ws[0]
    } else {
        join(ws.drop_last(), sep) + sep + ws.last()
    }
}

/// `ws[from..].join(sep)`.
pub fn join_words(ws: &Vec<Vec<char>>, from: usize, sep: &Vec<char>) -> (r: Vec<char>)
    requires
        from <= ws.len(),
    ensures
        r@ == join(views(ws@).skip(from as int), sep@),
{
    let mut r: Vec<char> = Vec::new();
    let mut j: usize = from;
    while j < ws.len()
        invariant
            from <= j <= ws.len(),
            r@ == join(views(ws@).subrange(from as int, j as int), sep@),
        decreases ws.len() - j,
    {
        let ghost part = views(ws@).subrange(from as int, j as int + 1);
        assert(part.drop_last() =~= views(ws@).subrange(from as int, j as int));
        assert(part.last() == ws@[j as int]@);
        if j > from {
            let mut k: usize = 0;
            while k < sep.len()
                invariant
                    k <= sep.len(),
                    r@ == join(views(ws@).subrange(from as int, j as int), sep@) + sep@.take(k as int),
                decreases sep.len() - k,
            {
                r.push(sep[k]);
                assert(sep@.take(k as int + 1) =~= sep@.take(k as int).push(sep@[k as int]));
                k = k + 1;
            }
            assert(sep@.take(sep.len() as int) =~= sep@);
        }
        let ghost before = r@;
        let w = &ws[j];
        let mut k: usize = 0;
        while k < w.len()
            invariant
                k <= w.len(),
                r@ == before + w@.take(k as int),
            decreases w.len() - k,
        {
            r.push(w[k]);
            assert(w@.take(k as int + 1) =~= w@.take(k as int).push(w@[k as int]));
            k = k + 1;
        }
        assert(w@.take(w.len() as int) =~= w@);
        if j == from {
            assert(part.len() == 1);
            assert(r@ =~= part[0]);
        } else {
            assert(r@ =~= join(part.drop_last(), sep@) + sep@ + part.last());
        }
        j = j + 1;
    }
    assert(views(ws@).subrange(from as int, ws.len() as int) =~= views(ws@).skip(from as int));
    r
}

/// Whether `v[lo..hi]` equals the literal `lit`.
pub fn range_is(v: &Vec<char>, lo: usize, hi: usize, lit: &str) -> (b: bool)
    requires
        lo <= hi <= v.len(),
    ensures
        b == (v@.subrange(lo as int, hi as int) == lit@),
{
    let l = chars_of(lit);
    range_eq(v, lo, hi, &l)
}

/// `v[lo..hi].strip_prefix(lit)`, as the start index of the remainder.
pub fn range_strip(v: &Vec<char>, lo: usize, hi: usize, lit: &str) -> (r: Option<usize>)
    requires
        lo <= hi <= v.len(),
    ensures
        r matches Some(k) ==> lo <= k <= hi && strip_prefix(v@.subrange(lo as int, hi as int), lit@)
            == Some(v@.subrange(k as int, hi as int)),
        r is None ==> strip_prefix(v@.subrange(lo as int, hi as int), lit@) is None,
{
    let l = chars_of(lit);
    if range_starts_with(v, lo, hi, &l) {
        assert(v@.subrange(lo as int, hi as int).skip(l.len() as int) =~= v@.subrange(
            lo + l.len(),
            hi as int,
        ));
        Some(lo + l.len())
    } else {
        None
    }
}

/// The characters of an optional string.
pub open spec fn opt_view(s: Option<String>) -> Option<Seq<char>> {
    match s {
        Some(x) => Some(x@),
        None => None,
    }
}

/// `String::push_str`.
pub fn append(out: &mut String, s: &str)
    ensures
        final(out)@ == old(out)@ + s@,
{
    let v = chars_of(s);
    push_range(out, &v, 0, v.len());
    assert(v@.subrange(0, v.len() as int) =~= v@);
}

/// `a == b` on string slices.
pub fn str_eq(a: &str, b: &str) -> (r: bool)
    ensures
        r == (a@ == b@),
{
    let x = owned(a);
    let y = owned(b);
    x == y
}

} // verus!
