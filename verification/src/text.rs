//! Character-level string helpers shared by the parsers and editors.
//!
//! Strings are modelled by their character sequences (`Seq<char>`). Executable
//! helpers work on a `Vec<char>` and a half-open index range `[lo, hi)` of it, so
//! that trimming and searching return sub-ranges instead of copies.
use vstd::prelude::*;

verus! {

/// The classes of characters that the scanners below skip over.
#[derive(Clone, Copy)]
pub enum CharClass {
    /// Unicode `White_Space` characters, as `char::is_whitespace` defines them.
    Whitespace,
    /// A double or a single quote.
    Quote,
    /// Every character except the given one.
    NotChar(char),
    /// Every character that is not a path separator (`/` or `\`).
    NotSeparator,
}

/// The Unicode `White_Space` property, which `char::is_whitespace` and `str::trim` use.
pub open spec fn is_ws(c: char) -> bool {
    ||| ('\u{9}' <= c && c <= '\u{d}')
    ||| c == ' '
    ||| c == '\u{85}'
    ||| c == '\u{a0}'
    ||| c == '\u{1680}'
    ||| ('\u{2000}' <= c && c <= '\u{200a}')
    ||| c == '\u{2028}'
    ||| c == '\u{2029}'
    ||| c == '\u{202f}'
    ||| c == '\u{205f}'
    ||| c == '\u{3000}'
}

pub open spec fn is_quote(c: char) -> bool {
    c == '"' || c == '\''
}

pub open spec fn is_separator(c: char) -> bool {
    c == '/' || c == '\\'
}

pub open spec fn in_class(k: CharClass, c: char) -> bool {
    match k {
        CharClass::Whitespace => is_ws(c),
        CharClass::Quote => is_quote(c),
        CharClass::NotChar(x) => c != x,
        CharClass::NotSeparator => !is_separator(c),
    }
}

/// Whether `c` is a Unicode whitespace character.
pub fn is_whitespace(c: char) -> (b: bool)
    ensures
        b == is_ws(c),
{
    ('\u{9}' <= c && c <= '\u{d}') || c == ' ' || c == '\u{85}' || c == '\u{a0}' || c
        == '\u{1680}' || ('\u{2000}' <= c && c <= '\u{200a}') || c == '\u{2028}' || c
        == '\u{2029}' || c == '\u{202f}' || c == '\u{205f}' || c == '\u{3000}'
}

pub fn class_contains(k: CharClass, c: char) -> (b: bool)
    ensures
        b == in_class(k, c),
{
    match k {
        CharClass::Whitespace => is_whitespace(c),
        CharClass::Quote => c == '"' || c == '\'',
        CharClass::NotChar(x) => c != x,
        CharClass::NotSeparator => !(c == '/' || c == '\\'),
    }
}

/// Number of leading characters of `s` that belong to class `k`.
pub open spec fn lead_count(s: Seq<char>, k: CharClass) -> nat
    decreases s.len(),
{
    if s.len() > 0 && in_class(k, s[0]) {
        1 + lead_count(s.drop_first(), k)
    } else {
        0
    }
}

/// Number of trailing characters of `s` that belong to class `k`.
pub open spec fn trail_count(s: Seq<char>, k: CharClass) -> nat
    decreases s.len(),
{
    if s.len() > 0 && in_class(k, s.last()) {
        1 + trail_count(s.drop_last(), k)
    } else {
        0
    }
}

/// `s` without its leading characters of class `k`.
pub open spec fn strip_start(s: Seq<char>, k: CharClass) -> Seq<char> {
    s.skip(lead_count(s, k) as int)
}

/// `s` without its trailing characters of class `k`.
pub open spec fn strip_end(s: Seq<char>, k: CharClass) -> Seq<char> {
    s.take(s.len() - trail_count(s, k))
}

/// `s` without leading and trailing characters of class `k` (`str::trim_matches`).
pub open spec fn strip(s: Seq<char>, k: CharClass) -> Seq<char> {
    strip_end(strip_start(s, k), k)
}

/// `str::trim`.
pub open spec fn trim(s: Seq<char>) -> Seq<char> {
    strip(s, CharClass::Whitespace)
}

/// Index of the first occurrence of `c` in `s`, or `s.len()` when there is none.
pub open spec fn index_of(s: Seq<char>, c: char) -> nat {
    lead_count(s, CharClass::NotChar(c))
}

pub proof fn lemma_lead_count_bound(s: Seq<char>, k: CharClass)
    ensures
        lead_count(s, k) <= s.len(),
        forall|i: int| 0 <= i < lead_count(s, k) ==> in_class(k, #[trigger] s[i]),
        lead_count(s, k) < s.len() ==> !in_class(k, s[lead_count(s, k) as int]),
    decreases s.len(),
{
    if s.len() > 0 && in_class(k, s[0]) {
        lemma_lead_count_bound(s.drop_first(), k);
        assert forall|i: int| 0 <= i < lead_count(s, k) implies in_class(k, #[trigger] s[i]) by {
            if i > 0 {
                assert(s[i] == s.drop_first()[i - 1]);
            }
        }
        if lead_count(s, k) < s.len() {
            assert(s[lead_count(s, k) as int] == s.drop_first()[lead_count(s.drop_first(), k) as int]);
        }
    }
}

/// A count `n` whose first `n` characters are in the class and whose next one is
/// not (or is the end) is the leading count.
pub proof fn lemma_lead_count_unique(s: Seq<char>, k: CharClass, n: nat)
    requires
        n <= s.len(),
        forall|i: int| 0 <= i < n ==> in_class(k, #[trigger] s[i]),
        n < s.len() ==> !in_class(k, s[n as int]),
    ensures
        lead_count(s, k) == n,
    decreases s.len(),
{
    if n > 0 {
        assert(in_class(k, s[0]));
        let t = s.drop_first();
        assert forall|i: int| 0 <= i < n - 1 implies in_class(k, #[trigger] t[i]) by {
            assert(t[i] == s[i + 1]);
        }
        if n - 1 < t.len() {
            assert(t[n - 1] == s[n as int]);
        }
        lemma_lead_count_unique(t, k, (n - 1) as nat);
    }
}

pub proof fn lemma_trail_count_bound(s: Seq<char>, k: CharClass)
    ensures
        trail_count(s, k) <= s.len(),
        forall|i: int|
            s.len() - trail_count(s, k) <= i < s.len() ==> in_class(k, #[trigger] s[i]),
        trail_count(s, k) < s.len() ==> !in_class(k, s[s.len() - trail_count(s, k) - 1]),
    decreases s.len(),
{
    if s.len() > 0 && in_class(k, s.last()) {
        let t = s.drop_last();
        lemma_trail_count_bound(t, k);
        assert forall|i: int|
            s.len() - trail_count(s, k) <= i < s.len() implies in_class(k, #[trigger] s[i]) by {
            if i < s.len() - 1 {
                assert(s[i] == t[i]);
            }
        }
        if trail_count(s, k) < s.len() {
            assert(s[s.len() - trail_count(s, k) - 1] == t[t.len() - trail_count(t, k) - 1]);
        }
    }
}

pub proof fn lemma_trail_count_unique(s: Seq<char>, k: CharClass, n: nat)
    requires
        n <= s.len(),
        forall|i: int| s.len() - n <= i < s.len() ==> in_class(k, #[trigger] s[i]),
        n < s.len() ==> !in_class(k, s[s.len() - n - 1]),
    ensures
        trail_count(s, k) == n,
    decreases s.len(),
{
    if n > 0 {
        assert(in_class(k, s[s.len() - 1]));
        let t = s.drop_last();
        assert forall|i: int| t.len() - (n - 1) <= i < t.len() implies in_class(k, #[trigger] t[i]) by {
            assert(t[i] == s[i]);
        }
        if n - 1 < t.len() {
            assert(t[t.len() - (n - 1) - 1] == s[s.len() - n - 1]);
        }
        lemma_trail_count_unique(t, k, (n - 1) as nat);
    }
}

/// End of the run of class-`k` characters that starts at `lo`.
pub fn scan_forward(v: &Vec<char>, lo: usize, hi: usize, k: CharClass) -> (r: usize)
    requires
        lo <= hi <= v.len(),
    ensures
        lo <= r <= hi,
        r == lo + lead_count(v@.subrange(lo as int, hi as int), k),
{
    let ghost s = v@.subrange(lo as int, hi as int);
    let mut i = lo;
    while i < hi && class_contains(k, v[i])
        invariant
            lo <= i <= hi <= v.len(),
            s == v@.subrange(lo as int, hi as int),
            forall|j: int| 0 <= j < i - lo ==> in_class(k, #[trigger] s[j]),
        decreases hi - i,
    {
        i += 1;
    }
    proof {
        lemma_lead_count_unique(s, k, (i - lo) as nat);
    }
    i
}

/// Start of the run of class-`k` characters that ends at `hi`.
pub fn scan_backward(v: &Vec<char>, lo: usize, hi: usize, k: CharClass) -> (r: usize)
    requires
        lo <= hi <= v.len(),
    ensures
        lo <= r <= hi,
        r == hi - trail_count(v@.subrange(lo as int, hi as int), k),
{
    let ghost s = v@.subrange(lo as int, hi as int);
    let mut j = hi;
    while j > lo && class_contains(k, v[j - 1])
        invariant
            lo <= j <= hi <= v.len(),
            s == v@.subrange(lo as int, hi as int),
            forall|i: int| s.len() - (hi - j) <= i < s.len() ==> in_class(k, #[trigger] s[i]),
        decreases j - lo,
    {
        j -= 1;
    }
    proof {
        lemma_trail_count_unique(s, k, (hi - j) as nat);
    }
    j
}

/// The sub-range of `[lo, hi)` that remains once leading and trailing
/// class-`k` characters are removed.
pub fn strip_range(v: &Vec<char>, lo: usize, hi: usize, k: CharClass) -> (r: (usize, usize))
    requires
        lo <= hi <= v.len(),
    ensures
        lo <= r.0 <= r.1 <= hi,
        v@.subrange(r.0 as int, r.1 as int) == strip(v@.subrange(lo as int, hi as int), k),
{
    let ghost s = v@.subrange(lo as int, hi as int);
    let a = scan_forward(v, lo, hi, k);
    proof {
        lemma_lead_count_bound(s, k);
        assert(strip_start(s, k) == v@.subrange(a as int, hi as int));
    }
    let b = scan_backward(v, a, hi, k);
    proof {
        let t = v@.subrange(a as int, hi as int);
        lemma_trail_count_bound(t, k);
        assert(strip_end(t, k) == v@.subrange(a as int, b as int));
    }
    (a, b)
}

/// `trim` on a sub-range.
pub fn trim_range(v: &Vec<char>, lo: usize, hi: usize) -> (r: (usize, usize))
    requires
        lo <= hi <= v.len(),
    ensures
        lo <= r.0 <= r.1 <= hi,
        v@.subrange(r.0 as int, r.1 as int) == trim(v@.subrange(lo as int, hi as int)),
{
    strip_range(v, lo, hi, CharClass::Whitespace)
}


/// `strip` keeps a contiguous run of `s`, starting after the leading class characters.
pub proof fn lemma_strip_subrange(s: Seq<char>, k: CharClass)
    ensures
        lead_count(s, k) + strip(s, k).len() <= s.len(),
        strip(s, k) == s.subrange(
            lead_count(s, k) as int,
            (lead_count(s, k) + strip(s, k).len()) as int,
        ),
        strip(s, k).len() == 0 || (!in_class(k, strip(s, k)[0]) && !in_class(
            k,
            strip(s, k).last(),
        )),
{
    lemma_lead_count_bound(s, k);
    let a = strip_start(s, k);
    lemma_trail_count_bound(a, k);
    let t = strip(s, k);
    assert(t =~= s.subrange(lead_count(s, k) as int, (lead_count(s, k) + t.len()) as int));
    if t.len() > 0 {
        assert(t[0] == a[0]);
        assert(t.last() == a[a.len() - trail_count(a, k) - 1]);
        if trail_count(a, k) == a.len() {
            assert(false);
        }
    }
}

/// A sequence whose ends are outside the class is its own `strip`.
pub proof fn lemma_strip_fixed(s: Seq<char>, k: CharClass)
    requires
        s.len() == 0 || (!in_class(k, s[0]) && !in_class(k, s.last())),
    ensures
        strip(s, k) == s,
{
    lemma_lead_count_unique(s, k, 0);
    assert(strip_start(s, k) =~= s);
    lemma_trail_count_unique(s, k, 0);
    assert(strip_end(s, k) =~= s);
}


/// A sequence that starts with a character outside the class keeps a non-empty `strip`.
pub proof fn lemma_strip_nonempty(s: Seq<char>, k: CharClass)
    requires
        s.len() > 0,
        !in_class(k, s[0]),
    ensures
        strip(s, k).len() > 0,
{
    lemma_lead_count_unique(s, k, 0);
    assert(strip_start(s, k) =~= s);
    lemma_trail_count_bound(s, k);
    if trail_count(s, k) == s.len() {
        assert(in_class(k, s[0]));
    }
}

/// `strip` is idempotent.
pub proof fn lemma_strip_idempotent(s: Seq<char>, k: CharClass)
    ensures
        strip(strip(s, k), k) == strip(s, k),
{
    lemma_strip_subrange(s, k);
    lemma_strip_fixed(strip(s, k), k);
}

/// A character of `strip(s, k)` is a character of `s`.
pub proof fn lemma_strip_chars(s: Seq<char>, k: CharClass, c: char)
    requires
        !s.contains(c),
    ensures
        !strip(s, k).contains(c),
{
    lemma_strip_subrange(s, k);
    let t = strip(s, k);
    let l = lead_count(s, k) as int;
    if t.contains(c) {
        let i = choose|i: int| 0 <= i < t.len() && t[i] == c;
        assert(s[l + i] == c);
    }
}

/// Index of the first `c` in `[lo, hi)`, or `hi` when there is none.
pub fn find_char(v: &Vec<char>, lo: usize, hi: usize, c: char) -> (r: usize)
    requires
        lo <= hi <= v.len(),
    ensures
        lo <= r <= hi,
        r == lo + index_of(v@.subrange(lo as int, hi as int), c),
{
    scan_forward(v, lo, hi, CharClass::NotChar(c))
}


/// Whether `p` occurs in `s` at index `i`.
pub open spec fn occurs_at(s: Seq<char>, p: Seq<char>, i: int) -> bool {
    0 <= i && i + p.len() <= s.len() && s.subrange(i, i + p.len()) == p
}

/// Index of the first occurrence of `p` in `s` at or after `i`.
pub open spec fn find_from(s: Seq<char>, p: Seq<char>, i: nat) -> Option<nat>
    decreases s.len() + 1 - i,
{
    if i + p.len() > s.len() {
        None
    } else if occurs_at(s, p, i as int) {
        Some(i)
    } else {
        find_from(s, p, i + 1)
    }
}

/// Index of the first occurrence of `p` in `s` (`str::find`).
pub open spec fn find(s: Seq<char>, p: Seq<char>) -> Option<nat> {
    find_from(s, p, 0)
}

/// `str::contains` with a string pattern.
pub open spec fn contains(s: Seq<char>, p: Seq<char>) -> bool {
    find(s, p) is Some
}

/// The first item of `s.split(p)`: the text before the first occurrence of `p`.
pub open spec fn split_first(s: Seq<char>, p: Seq<char>) -> Seq<char> {
    match find(s, p) {
        Some(i) => s.take(i as int),
        None => s,
    }
}

/// The second item of `s.split(p)`, when there is one: the text between the first
/// and the second occurrence of `p`, or up to the end.
pub open spec fn split_second(s: Seq<char>, p: Seq<char>) -> Option<Seq<char>> {
    match find(s, p) {
        Some(i) => Some(split_first(s.skip((i + p.len()) as int), p)),
        None => None,
    }
}

pub proof fn lemma_find_from_bound(s: Seq<char>, p: Seq<char>, i: nat)
    ensures
        find_from(s, p, i) matches Some(j) ==> i <= j && occurs_at(s, p, j as int),
    decreases s.len() + 1 - i,
{
    if i + p.len() <= s.len() && !occurs_at(s, p, i as int) {
        lemma_find_from_bound(s, p, i + 1);
    }
}

/// Index of the first occurrence of `p` in `v[lo..hi]`, relative to `lo`.
pub fn find_sub(v: &Vec<char>, lo: usize, hi: usize, p: &Vec<char>) -> (r: Option<usize>)
    requires
        lo <= hi <= v.len(),
    ensures
        match r {
            Some(i) => find(v@.subrange(lo as int, hi as int), p@) == Some(i as nat),
            None => find(v@.subrange(lo as int, hi as int), p@) is None,
        },
{
    let ghost s = v@.subrange(lo as int, hi as int);
    let n = hi - lo;
    if p.len() > n {
        return None;
    }
    if p.len() == 0 {
        assert(s.subrange(0, 0) =~= p@);
        return Some(0);
    }
    let mut i: usize = 0;
    while i <= n - p.len()
        invariant
            lo <= hi <= v.len(),
            n == hi - lo,
            1 <= p.len() <= n,
            s == v@.subrange(lo as int, hi as int),
            i <= n - p.len() + 1,
            find(s, p@) == find_from(s, p@, i as nat),
        decreases n - p.len() + 1 - i,
    {
        let hit = range_eq(v, lo + i, lo + i + p.len(), p);
        assert(v@.subrange(lo + i, lo + i + p.len()) == s.subrange(i as int, i + p.len()));
        if hit {
            return Some(i);
        }
        i += 1;
    }
    None
}


/// The sub-range of `v[lo..hi]` that `split_first` gives.
pub fn split_first_range(v: &Vec<char>, lo: usize, hi: usize, p: &Vec<char>) -> (r: usize)
    requires
        lo <= hi <= v.len(),
    ensures
        lo <= r <= hi,
        v@.subrange(lo as int, r as int) == split_first(v@.subrange(lo as int, hi as int), p@),
{
    let ghost s = v@.subrange(lo as int, hi as int);
    match find_sub(v, lo, hi, p) {
        Some(i) => {
            proof {
                lemma_find_from_bound(s, p@, 0);
            }
            assert(v@.subrange(lo as int, lo + i) == s.take(i as int));
            lo + i
        },
        None => hi,
    }
}

/// The sub-range of `v[lo..hi]` that `split_second` gives, if any.
pub fn split_second_range(v: &Vec<char>, lo: usize, hi: usize, p: &Vec<char>) -> (r: Option<(usize, usize)>)
    requires
        lo <= hi <= v.len(),
    ensures
        match r {
            Some((a, b)) => lo <= a <= b <= hi && split_second(v@.subrange(lo as int, hi as int), p@)
                == Some(v@.subrange(a as int, b as int)),
            None => split_second(v@.subrange(lo as int, hi as int), p@) is None,
        },
{
    let ghost s = v@.subrange(lo as int, hi as int);
    match find_sub(v, lo, hi, p) {
        Some(i) => {
            proof {
                lemma_find_from_bound(s, p@, 0);
            }
            let a = lo + i + p.len();
            assert(v@.subrange(a as int, hi as int) == s.skip(i + p.len()));
            let b = split_first_range(v, a, hi, p);
            Some((a, b))
        },
        None => None,
    }
}

/// `s` with every leading repetition of `p` removed (`str::trim_start_matches`).
pub open spec fn strip_prefix_all(s: Seq<char>, p: Seq<char>) -> Seq<char>
    decreases s.len(),
{
    if 0 < p.len() <= s.len() && s.take(p.len() as int) == p {
        strip_prefix_all(s.skip(p.len() as int), p)
    } else {
        s
    }
}

/// The start of `strip_prefix_all` on `v[lo..hi]`.
pub fn strip_prefix_all_range(v: &Vec<char>, lo: usize, hi: usize, p: &Vec<char>) -> (r: usize)
    requires
        lo <= hi <= v.len(),
    ensures
        lo <= r <= hi,
        v@.subrange(r as int, hi as int) == strip_prefix_all(v@.subrange(lo as int, hi as int), p@),
{
    if p.len() == 0 {
        return lo;
    }
    let mut i = lo;
    while p.len() <= hi - i && range_eq(v, i, i + p.len(), p)
        invariant
            lo <= i <= hi <= v.len(),
            p.len() > 0,
            strip_prefix_all(v@.subrange(lo as int, hi as int), p@) == strip_prefix_all(
                v@.subrange(i as int, hi as int),
                p@,
            ),
        decreases hi - i,
    {
        let ghost cur = v@.subrange(i as int, hi as int);
        assert(cur.take(p.len() as int) == v@.subrange(i as int, i + p.len()));
        assert(cur.skip(p.len() as int) == v@.subrange(i + p.len(), hi as int));
        i = i + p.len();
    }
    proof {
        let cur = v@.subrange(i as int, hi as int);
        if p.len() <= hi - i {
            assert(cur.take(p.len() as int) == v@.subrange(i as int, i + p.len()));
        }
    }
    i
}

/// Returns the characters of `s` as a vector.
pub fn chars_of(s: &str) -> (v: Vec<char>)
    ensures
        v@ == s@,
{
    let mut v: Vec<char> = Vec::new();
    for c in it: s.chars()
        invariant
            v@ == it.seq().take(it.index() as int),
            it.seq() == s@,
    {
        v.push(c);
    }
    v
}

/// Appends one character to a string with `String::push`, which (as its
/// documentation says) appends the character to the end of the string.
#[verifier::external_body]
fn push_char(s: &mut String, c: char)
    ensures
        final(s)@ == old(s)@.push(c),
{
    s.push(c);
}

/// Builds a string from the characters `v[lo..hi]`.
pub fn string_of_range(v: &Vec<char>, lo: usize, hi: usize) -> (s: String)
    requires
        lo <= hi <= v.len(),
    ensures
        s@ == v@.subrange(lo as int, hi as int),
{
    let mut s = String::new();
    let mut i: usize = lo;
    while i < hi
        invariant
            lo <= i <= hi <= v.len(),
            s@ == v@.subrange(lo as int, i as int),
        decreases hi - i,
    {
        push_char(&mut s, v[i]);
        i += 1;
        assert(v@.subrange(lo as int, i as int) == v@.subrange(lo as int, i - 1).push(v@[i - 1]));
    }
    s
}

/// Builds a string from a vector of characters.
pub fn string_of(v: &Vec<char>) -> (s: String)
    ensures
        s@ == v@,
{
    let s = string_of_range(v, 0, v.len());
    assert(v@.subrange(0, v.len() as int) == v@);
    s
}

/// Appends `src[lo..hi]` to `dst`.
pub fn extend_range(dst: &mut Vec<char>, src: &Vec<char>, lo: usize, hi: usize)
    requires
        lo <= hi <= src.len(),
    ensures
        final(dst)@ == old(dst)@ + src@.subrange(lo as int, hi as int),
{
    let ghost d0 = dst@;
    let mut i = lo;
    while i < hi
        invariant
            lo <= i <= hi <= src.len(),
            dst@ == d0 + src@.subrange(lo as int, i as int),
        decreases hi - i,
    {
        dst.push(src[i]);
        i += 1;
        assert(src@.subrange(lo as int, i as int) == src@.subrange(lo as int, i - 1).push(
            src@[i - 1],
        ));
    }
}

/// Appends the characters of `s` to `dst`.
pub fn extend_str(dst: &mut Vec<char>, s: &str)
    ensures
        final(dst)@ == old(dst)@ + s@,
{
    let v = chars_of(s);
    extend_range(dst, &v, 0, v.len());
    assert(v@.subrange(0, v.len() as int) == v@);
}


/// The concatenation of two strings.
pub fn concat_str(a: &str, b: &str) -> (r: String)
    ensures
        r@ == a@ + b@,
{
    let mut v = chars_of(a);
    extend_str(&mut v, b);
    string_of(&v)
}

/// A string with the characters of a literal or other `&str`.
pub fn owned(a: &str) -> (r: String)
    ensures
        r@ == a@,
{
    let v = chars_of(a);
    string_of(&v)
}

/// Whether `v[lo..hi]` equals `p`.
pub fn range_eq(v: &Vec<char>, lo: usize, hi: usize, p: &Vec<char>) -> (b: bool)
    requires
        lo <= hi <= v.len(),
    ensures
        b == (v@.subrange(lo as int, hi as int) == p@),
{
    if hi - lo != p.len() {
        return false;
    }
    let mut i: usize = 0;
    while i < p.len()
        invariant
            hi - lo == p.len(),
            lo <= hi <= v.len(),
            i <= p.len(),
            forall|j: int| 0 <= j < i ==> v@[lo + j] == p@[j],
        decreases p.len() - i,
    {
        if v[lo + i] != p[i] {
            assert(v@.subrange(lo as int, hi as int)[i as int] != p@[i as int]);
            return false;
        }
        i += 1;
    }
    assert(v@.subrange(lo as int, hi as int) =~= p@);
    true
}

/// Whether two strings have the same characters.
pub fn str_eq(a: &str, b: &str) -> (r: bool)
    ensures
        r == (a@ == b@),
{
    let va = chars_of(a);
    let vb = chars_of(b);
    let r = range_eq(&va, 0, va.len(), &vb);
    assert(va@.subrange(0, va.len() as int) == va@);
    r
}

/// The number of characters of `s`.
pub fn char_count(s: &str) -> (n: usize)
    ensures
        n == s@.len(),
{
    let v = chars_of(s);
    v.len()
}

/// `s` with the characters of `t` inserted before its character at index `at`.
pub fn insert_str_at(s: &str, at: usize, t: &str) -> (r: String)
    requires
        at <= s@.len(),
    ensures
        r@ == s@.take(at as int) + t@ + s@.skip(at as int),
{
    let v = chars_of(s);
    let mut out: Vec<char> = Vec::new();
    extend_range(&mut out, &v, 0, at);
    extend_str(&mut out, t);
    extend_range(&mut out, &v, at, v.len());
    assert(v@.subrange(0, at as int) == s@.take(at as int));
    assert(v@.subrange(at as int, v.len() as int) == s@.skip(at as int));
    string_of(&out)
}

/// `s` without its character at index `at`.
pub fn remove_char_at(s: &str, at: usize) -> (r: String)
    requires
        at < s@.len(),
    ensures
        r@ == s@.remove(at as int),
{
    let v = chars_of(s);
    let mut out: Vec<char> = Vec::new();
    let n = v.len();
    assert(at < n);
    extend_range(&mut out, &v, 0, at);
    extend_range(&mut out, &v, at + 1, n);
    assert(out@ =~= s@.remove(at as int));
    string_of(&out)
}

/// A string of the one character `c`.
pub fn string_of_char(c: char) -> (r: String)
    ensures
        r@ == seq![c],
{
    let mut r = String::new();
    push_char(&mut r, c);
    r
}

/// Whether `p` occurs in `s`.
pub fn str_contains(s: &str, p: &str) -> (b: bool)
    ensures
        b == contains(s@, p@),
{
    let v = chars_of(s);
    let w = chars_of(p);
    assert(v@.subrange(0, v.len() as int) == v@);
    find_sub(&v, 0, v.len(), &w).is_some()
}

/// Whether `s` ends with `p`.
pub fn str_ends_with(s: &str, p: &str) -> (b: bool)
    ensures
        b == (p@.len() <= s@.len() && s@.skip(s@.len() - p@.len()) == p@),
{
    let v = chars_of(s);
    let w = chars_of(p);
    if w.len() > v.len() {
        return false;
    }
    let start = v.len() - w.len();
    assert(v@.subrange(start as int, v.len() as int) == s@.skip(s@.len() - p@.len()));
    range_eq(&v, start, v.len(), &w)
}

/// Whether `s` starts with `c`.
pub fn str_starts_with_char(s: &str, c: char) -> (b: bool)
    ensures
        b == (s@.len() > 0 && s@[0] == c),
{
    let v = chars_of(s);
    v.len() > 0 && v[0] == c
}

/// The code of a character with ASCII upper-case letters made lower-case.
pub open spec fn lower_code(c: char) -> int {
    if 'A' <= c && c <= 'Z' {
        c as int + 32
    } else {
        c as int
    }
}

/// Whether two texts are equal when ASCII letters are compared without case, as
/// `str::eq_ignore_ascii_case` compares them.
pub open spec fn eq_ignore_ascii_case(a: Seq<char>, b: Seq<char>) -> bool {
    a.len() == b.len() && forall|i: int| 0 <= i < a.len() ==> lower_code(#[trigger] a[i]) == lower_code(b[i])
}

fn lower_u32(c: char) -> (r: u32)
    ensures
        r == lower_code(c),
{
    if 'A' <= c && c <= 'Z' {
        c as u32 + 32
    } else {
        c as u32
    }
}

/// Whether two strings are equal when ASCII letters are compared without case.
pub fn str_eq_ignore_ascii_case(a: &str, b: &str) -> (r: bool)
    ensures
        r == eq_ignore_ascii_case(a@, b@),
{
    let va = chars_of(a);
    let vb = chars_of(b);
    if va.len() != vb.len() {
        return false;
    }
    let mut i: usize = 0;
    while i < va.len()
        invariant
            va@ == a@,
            vb@ == b@,
            va@.len() == vb@.len(),
            i <= va@.len(),
            forall|j: int| 0 <= j < i ==> lower_code(#[trigger] a@[j]) == lower_code(b@[j]),
        decreases va@.len() - i,
    {
        if lower_u32(va[i]) != lower_u32(vb[i]) {
            return false;
        }
        i += 1;
    }
    true
}

/// `s` with every `c` replaced by `rep`.
pub open spec fn replace_char(s: Seq<char>, c: char, rep: Seq<char>) -> Seq<char>
    decreases s.len(),
{
    if s.len() == 0 {
        Seq::empty()
    } else {
        replace_char(s.drop_last(), c, rep) + if s.last() == c {
            rep
        } else {
            seq![s.last()]
        }
    }
}

/// `s` with every `c` replaced by `rep`, as `str::replace` does with a character
/// pattern.
pub fn replace_char_str(s: &str, c: char, rep: &str) -> (r: String)
    ensures
        r@ == replace_char(s@, c, rep@),
{
    let v = chars_of(s);
    let mut out: Vec<char> = Vec::new();
    let mut i: usize = 0;
    while i < v.len()
        invariant
            v@ == s@,
            i <= v@.len(),
            out@ == replace_char(s@.take(i as int), c, rep@),
        decreases v@.len() - i,
    {
        assert(s@.take(i + 1).drop_last() == s@.take(i as int));
        if v[i] == c {
            extend_str(&mut out, rep);
        } else {
            out.push(v[i]);
        }
        i += 1;
    }
    assert(s@.take(v@.len() as int) == s@);
    string_of(&out)
}

/// `c` does not occur in `replace_char(s, c, rep)` when it does not occur in `rep`.
pub proof fn lemma_replace_char_removes(s: Seq<char>, c: char, rep: Seq<char>)
    requires
        !rep.contains(c),
    ensures
        !replace_char(s, c, rep).contains(c),
    decreases s.len(),
{
    if s.len() > 0 {
        lemma_replace_char_removes(s.drop_last(), c, rep);
        let a = replace_char(s.drop_last(), c, rep);
        let b = if s.last() == c {
            rep
        } else {
            seq![s.last()]
        };
        assert forall|i: int| 0 <= i < (a + b).len() implies (a + b)[i] != c by {
            if i < a.len() {
                assert((a + b)[i] == a[i]);
            } else {
                assert((a + b)[i] == b[i - a.len()]);
            }
        }
    }
}

/// Whether `p` occurs in `s` when ASCII letters are compared without case.
pub open spec fn contains_ignore_ascii_case(s: Seq<char>, p: Seq<char>) -> bool {
    exists|i: int|
        0 <= i && i + p.len() <= s.len() && eq_ignore_ascii_case(
            #[trigger] s.subrange(i, i + p.len()),
            p,
        )
}

/// Whether `v[lo..lo + p.len()]` equals `p` when ASCII letters are compared without case.
fn range_eq_ignore_ascii_case(v: &Vec<char>, lo: usize, p: &Vec<char>) -> (b: bool)
    requires
        lo + p.len() <= v.len(),
    ensures
        b == eq_ignore_ascii_case(v@.subrange(lo as int, lo + p.len()), p@),
{
    let mut j: usize = 0;
    while j < p.len()
        invariant
            lo + p.len() <= v.len(),
            j <= p.len(),
            forall|k: int| 0 <= k < j ==> lower_code(#[trigger] v@[lo + k]) == lower_code(p@[k]),
        decreases p.len() - j,
    {
        if lower_u32(v[lo + j]) != lower_u32(p[j]) {
            assert(v@.subrange(lo as int, lo + p.len())[j as int] == v@[lo + j]);
            return false;
        }
        j += 1;
    }
    assert forall|k: int| 0 <= k < p@.len() implies lower_code(
        #[trigger] v@.subrange(lo as int, lo + p.len())[k],
    ) == lower_code(p@[k]) by {
        assert(v@.subrange(lo as int, lo + p.len())[k] == v@[lo + k]);
    }
    true
}

/// Whether `p` occurs in `s` when ASCII letters are compared without case.
pub fn str_contains_ignore_ascii_case(s: &str, p: &str) -> (b: bool)
    ensures
        b == contains_ignore_ascii_case(s@, p@),
{
    let v = chars_of(s);
    let w = chars_of(p);
    if w.len() > v.len() {
        return false;
    }
    let last = v.len() - w.len();
    let mut i: usize = 0;
    while i <= last
        invariant
            v@ == s@,
            w@ == p@,
            last == v@.len() - w@.len(),
            i <= last + 1,
            forall|k: int|
                0 <= k < i ==> !eq_ignore_ascii_case(#[trigger] s@.subrange(k, k + p@.len()), p@),
        decreases last + 1 - i,
    {
        if range_eq_ignore_ascii_case(&v, i, &w) {
            return true;
        }
        if i == last {
            return false;
        }
        i += 1;
    }
    false
}

} // verus!
