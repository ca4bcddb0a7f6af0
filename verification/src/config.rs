//! The `config.toml` format: reading and writing `output_dir` and `history_limit`.
use vstd::prelude::*;
use crate::history::opt_view;
use crate::text::{
    chars_of, contains, extend_str, find_char, str_contains, index_of, lemma_lead_count_bound, owned, string_of,
    string_of_range, strip, strip_range, trail_count, trim, trim_range, CharClass,
};

verus! {

/// Default maximum number of download history entries kept in the persisted history list.
pub const DEFAULT_HISTORY_LIMIT: usize = 50;

// ---------------------------------------------------------------------------
// Decimal numbers
// ---------------------------------------------------------------------------

pub open spec fn is_digit(c: char) -> bool {
    '0' <= c && c <= '9'
}

pub open spec fn digit_value(c: char) -> nat {
    (c as int - '0' as int) as nat
}

pub open spec fn digit_char(d: nat) -> char {
    if d == 0 { '0' }
    else if d == 1 { '1' }
    else if d == 2 { '2' }
    else if d == 3 { '3' }
    else if d == 4 { '4' }
    else if d == 5 { '5' }
    else if d == 6 { '6' }
    else if d == 7 { '7' }
    else if d == 8 { '8' }
    else { '9' }
}

pub open spec fn all_digits(s: Seq<char>) -> bool {
    forall|i: int| 0 <= i < s.len() ==> is_digit(#[trigger] s[i])
}

/// The number that a sequence of decimal digits denotes.
pub open spec fn digits_value(s: Seq<char>) -> nat
    decreases s.len(),
{
    if s.len() == 0 {
        0
    } else {
        digits_value(s.drop_last()) * 10 + digit_value(s.last())
    }
}

/// The decimal representation of `n`, as `format!("{}", n)` writes it.
pub open spec fn decimal(n: nat) -> Seq<char>
    decreases n,
{
    if n < 10 {
        seq![digit_char(n)]
    } else {
        decimal(n / 10).push(digit_char(n % 10))
    }
}

/// What `str::parse::<usize>` gives: an optional `+` followed by at least one
/// decimal digit, denoting a number that fits in a `usize`.
pub open spec fn spec_parse_usize(s: Seq<char>) -> Option<usize> {
    let d = if s.len() > 0 && s[0] == '+' {
        s.skip(1)
    } else {
        s
    };
    if d.len() > 0 && all_digits(d) && digits_value(d) <= usize::MAX {
        Some(digits_value(d) as usize)
    } else {
        None
    }
}

proof fn lemma_digits_value_prefix(s: Seq<char>, j: int)
    requires
        0 <= j <= s.len(),
    ensures
        digits_value(s.take(j)) <= digits_value(s),
    decreases s.len(),
{
    if j < s.len() {
        assert(s.drop_last().take(j) == s.take(j));
        lemma_digits_value_prefix(s.drop_last(), j);
    } else {
        assert(s.take(j) == s);
    }
}

/// Parses `v[lo..hi]` as `str::parse::<usize>` does.
pub fn parse_usize_range(v: &Vec<char>, lo: usize, hi: usize) -> (r: Option<usize>)
    requires
        lo <= hi <= v.len(),
    ensures
        r == spec_parse_usize(v@.subrange(lo as int, hi as int)),
{
    let ghost s = v@.subrange(lo as int, hi as int);
    let start = if lo < hi && v[lo] == '+' {
        lo + 1
    } else {
        lo
    };
    let ghost d = v@.subrange(start as int, hi as int);
    assert(d == (if s.len() > 0 && s[0] == '+' {
        s.skip(1)
    } else {
        s
    }));
    if start == hi {
        return None;
    }
    let mut acc: usize = 0;
    let mut i = start;
    while i < hi
        invariant
            lo <= start <= i <= hi <= v.len(),
            start < hi,
            s == v@.subrange(lo as int, hi as int),
            d == (if s.len() > 0 && s[0] == '+' {
                s.skip(1)
            } else {
                s
            }),
            d == v@.subrange(start as int, hi as int),
            all_digits(d.take(i - start)),
            acc == digits_value(d.take(i - start)),
        decreases hi - i,
    {
        let c = v[i];
        if !('0' <= c && c <= '9') {
            assert(d[i - start] == c);
            assert(!is_digit(d[(i - start) as int]));
            return None;
        }
        let ghost k = i - start;
        assert(d.take(k + 1).drop_last() == d.take(k));
        assert(d.take(k + 1).last() == c);
        let dv = (c as u32 - '0' as u32) as usize;
        assert(dv == digit_value(c));
        assert(digits_value(d.take(k + 1)) == acc * 10 + dv);
        let next = match acc.checked_mul(10) {
            Some(m) => m.checked_add(dv),
            None => None,
        };
        match next {
            Some(x) => {
                acc = x;
            },
            None => {
                proof {
                    lemma_digits_value_prefix(d, k + 1);
                    assert(acc * 10 + dv > usize::MAX);
                }
                return None;
            },
        }
        i += 1;
    }
    assert(d.take(d.len() as int) == d);
    Some(acc)
}

/// Appends the decimal representation of `n`.
pub fn push_decimal(v: &mut Vec<char>, n: usize)
    ensures
        final(v)@ == old(v)@ + decimal(n as nat),
    decreases n,
{
    if n >= 10 {
        push_decimal(v, n / 10);
    }
    let d = (n % 10) as u32;
    let c = char_from_digit(d);
    v.push(c);
    proof {
        if n >= 10 {
            assert(decimal(n as nat) == decimal((n / 10) as nat).push(digit_char((n % 10) as nat)));
        }
    }
}

fn char_from_digit(d: u32) -> (c: char)
    requires
        d < 10,
    ensures
        c == digit_char(d as nat),
        is_digit(c),
        digit_value(c) == d,
{
    if d == 0 { '0' }
    else if d == 1 { '1' }
    else if d == 2 { '2' }
    else if d == 3 { '3' }
    else if d == 4 { '4' }
    else if d == 5 { '5' }
    else if d == 6 { '6' }
    else if d == 7 { '7' }
    else if d == 8 { '8' }
    else { '9' }
}

/// Reading back a decimal representation gives the number.
pub proof fn lemma_decimal_roundtrip(n: nat)
    ensures
        decimal(n).len() > 0,
        all_digits(decimal(n)),
        digits_value(decimal(n)) == n,
        decimal(n)[0] != '+',
    decreases n,
{
    if n < 10 {
        let s = decimal(n);
        assert(s.drop_last() == Seq::<char>::empty());
        assert(digits_value(Seq::<char>::empty()) == 0);
    } else {
        lemma_decimal_roundtrip(n / 10);
        assert(n == (n / 10) * 10 + n % 10) by (nonlinear_arith);
        let s = decimal(n);
        assert(s.drop_last() == decimal(n / 10));
        assert(s[0] == decimal(n / 10)[0]);
        assert(s.last() == digit_char(n % 10));
        assert(digit_value(digit_char(n % 10)) == n % 10);
        assert(digits_value(s) == digits_value(decimal(n / 10)) * 10 + n % 10);
    }
}

// ---------------------------------------------------------------------------
// Escaping inside double quotes
// ---------------------------------------------------------------------------

/// How `format_config_full` writes one character inside the quoted `output_dir`.
pub open spec fn escape_char(c: char) -> Seq<char> {
    if c == '\\' {
        seq!['\\', '\\']
    } else if c == '"' {
        seq!['\\', '"']
    } else if c == '\n' {
        seq!['\\', 'n']
    } else if c == '\r' {
        seq!['\\', 'r']
    } else if c == '\t' {
        seq!['\\', 't']
    } else {
        seq![c]
    }
}

pub open spec fn escape(s: Seq<char>) -> Seq<char>
    decreases s.len(),
{
    if s.len() == 0 {
        Seq::empty()
    } else {
        escape(s.drop_last()) + escape_char(s.last())
    }
}

/// What an escape sequence `\c` inside double quotes stands for.
pub open spec fn unescape_pair(c: char) -> Seq<char> {
    if c == '\\' {
        seq!['\\']
    } else if c == '"' {
        seq!['"']
    } else if c == 'n' {
        seq!['\n']
    } else if c == 'r' {
        seq!['\r']
    } else if c == 't' {
        seq!['\t']
    } else {
        seq!['\\', c]
    }
}

/// Reads a double-quoted value whose opening quote is already consumed: the
/// unescaped text up to the closing quote, and whether a closing quote was found.
pub open spec fn unescape(s: Seq<char>) -> (Seq<char>, bool)
    decreases s.len(),
{
    if s.len() == 0 {
        (Seq::empty(), false)
    } else if s[0] == '\\' {
        if s.len() == 1 {
            (seq!['\\'], false)
        } else {
            let r = unescape(s.skip(2));
            (unescape_pair(s[1]) + r.0, r.1)
        }
    } else if s[0] == '"' {
        (Seq::empty(), true)
    } else {
        let r = unescape(s.skip(1));
        (seq![s[0]] + r.0, r.1)
    }
}

proof fn lemma_escape_append(a: Seq<char>, b: Seq<char>)
    ensures
        escape(a + b) == escape(a) + escape(b),
    decreases b.len(),
{
    if b.len() == 0 {
        assert(a + b == a);
    } else {
        assert((a + b).drop_last() == a + b.drop_last());
        assert((a + b).last() == b.last());
        lemma_escape_append(a, b.drop_last());
    }
}

proof fn lemma_escape_front(s: Seq<char>)
    requires
        s.len() > 0,
    ensures
        escape(s) == escape_char(s[0]) + escape(s.drop_first()),
{
    assert(s == seq![s[0]] + s.drop_first());
    lemma_escape_append(seq![s[0]], s.drop_first());
    assert(seq![s[0]].drop_last() == Seq::<char>::empty());
    assert(seq![s[0]].last() == s[0]);
    assert(escape(Seq::<char>::empty()) == Seq::<char>::empty());
    assert(escape(seq![s[0]]) == escape_char(s[0]));
}

/// The escaped form of a text holds no raw line break.
pub proof fn lemma_escape_no_newline(s: Seq<char>)
    ensures
        !escape(s).contains('\n'),
    decreases s.len(),
{
    if s.len() > 0 {
        lemma_escape_no_newline(s.drop_last());
        let e = escape(s);
        if e.contains('\n') {
            let i = choose|i: int| 0 <= i < e.len() && e[i] == '\n';
            let p = escape(s.drop_last());
            if i < p.len() {
                assert(p[i] == '\n');
            } else {
                assert(escape_char(s.last())[i - p.len()] == '\n');
            }
        }
    }
}

/// Unescaping an escaped text followed by a closing quote gives the text back.
pub proof fn lemma_unescape_escape(d: Seq<char>, tail: Seq<char>)
    ensures
        unescape(escape(d) + seq!['"'] + tail) == (d, true),
    decreases d.len(),
{
    let s = escape(d) + seq!['"'] + tail;
    if d.len() == 0 {
        assert(s[0] == '"');
    } else {
        lemma_escape_front(d);
        lemma_unescape_escape(d.drop_first(), tail);
        let c = d[0];
        let rest = escape(d.drop_first()) + seq!['"'] + tail;
        assert(s == escape_char(c) + rest);
        if c == '\\' || c == '"' || c == '\n' || c == '\r' || c == '\t' {
            assert(s.skip(2) == rest);
            assert(s[0] == '\\');
        } else {
            assert(s.skip(1) == rest);
            assert(s[0] == c);
        }
        assert(d == seq![c] + d.drop_first());
    }
}

/// Unescapes `v[lo..hi]`, the text after an opening double quote.
fn unescape_range(v: &Vec<char>, lo: usize, hi: usize) -> (r: (Vec<char>, bool))
    requires
        lo <= hi <= v.len(),
    ensures
        (r.0@, r.1) == unescape(v@.subrange(lo as int, hi as int)),
{
    let mut out: Vec<char> = Vec::new();
    let mut i = lo;
    while i < hi
        invariant
            lo <= i <= hi <= v.len(),
            unescape(v@.subrange(lo as int, hi as int)) == (
                out@ + unescape(v@.subrange(i as int, hi as int)).0,
                unescape(v@.subrange(i as int, hi as int)).1,
            ),
        decreases hi - i,
    {
        let ghost s = v@.subrange(i as int, hi as int);
        let c = v[i];
        if c == '\\' {
            if i + 1 == hi {
                out.push('\\');
                assert(unescape(s) == (seq!['\\'], false));
                assert(v@.subrange(hi as int, hi as int) == Seq::<char>::empty());
                i = hi;
            } else {
                let e = v[i + 1];
                if e == '\\' {
                    out.push('\\');
                } else if e == '"' {
                    out.push('"');
                } else if e == 'n' {
                    out.push('\n');
                } else if e == 'r' {
                    out.push('\r');
                } else if e == 't' {
                    out.push('\t');
                } else {
                    out.push('\\');
                    out.push(e);
                }
                assert(s.skip(2) == v@.subrange(i + 2, hi as int));
                i = i + 2;
            }
        } else if c == '"' {
            assert(unescape(s) == (Seq::<char>::empty(), true));
            return (out, true);
        } else {
            out.push(c);
            assert(s.skip(1) == v@.subrange(i + 1, hi as int));
            i = i + 1;
        }
    }
    (out, false)
}

// ---------------------------------------------------------------------------
// Reading config.toml
// ---------------------------------------------------------------------------

/// The key and the value of a `key = value` line (split at the first `=`).
pub open spec fn key_value(t: Seq<char>) -> Option<(Seq<char>, Seq<char>)> {
    let i = index_of(t, '=');
    if i < t.len() {
        Some((t.take(i as int), t.skip(i + 1int)))
    } else {
        None
    }
}

/// Whether a trimmed line is a setting rather than blank or a comment.
pub open spec fn is_setting(t: Seq<char>) -> bool {
    t.len() > 0 && t[0] != '#'
}

/// The directory that a trimmed `output_dir` value denotes, if it is not blank.
pub open spec fn output_dir_value(v: Seq<char>) -> Option<Seq<char>> {
    if v.len() > 0 && v[0] == '"' {
        let (u, closed) = unescape(v.skip(1));
        if closed && trim(u).len() > 0 {
            Some(u)
        } else {
            None
        }
    } else if v.len() > 0 && v[0] == '\'' {
        let rest = v.skip(1);
        let j = index_of(rest, '\'');
        if j < rest.len() && trim(rest.take(j as int)).len() > 0 {
            Some(rest.take(j as int))
        } else {
            None
        }
    } else {
        let u = trim(v.take(index_of(v, '#') as int));
        if u.len() > 0 {
            Some(u)
        } else {
            None
        }
    }
}

/// The `output_dir` that one line of config.toml sets, if it sets one.
pub open spec fn line_output_dir(line: Seq<char>) -> Option<Seq<char>> {
    let t = trim(line);
    if !is_setting(t) {
        None
    } else {
        match key_value(t) {
            Some((k, val)) => if trim(k) == "output_dir"@ {
                output_dir_value(trim(val))
            } else {
                None
            },
            None => None,
        }
    }
}

/// The `history_limit` that one line of config.toml sets, if it sets a valid one.
pub open spec fn line_history_limit(line: Seq<char>) -> Option<usize> {
    let t = trim(line);
    if !is_setting(t) {
        None
    } else {
        match key_value(t) {
            Some((k, val)) => if trim(k) == "history_limit"@ {
                let u = trim(val.take(index_of(val, '#') as int));
                spec_parse_usize(trim(strip(u, CharClass::Quote)))
            } else {
                None
            },
            None => None,
        }
    }
}

/// The first line's `output_dir` (lines end at `\n`).
pub open spec fn spec_parse_config_output_dir(s: Seq<char>) -> Option<Seq<char>>
    decreases s.len(),
{
    let i = index_of(s, '\n');
    match line_output_dir(s.take(i as int)) {
        Some(d) => Some(d),
        None => if i < s.len() {
            spec_parse_config_output_dir(s.skip(i + 1int))
        } else {
            None
        },
    }
}

/// The first line's valid `history_limit` (lines end at `\n`).
pub open spec fn spec_parse_config_history_limit(s: Seq<char>) -> Option<usize>
    decreases s.len(),
{
    let i = index_of(s, '\n');
    match line_history_limit(s.take(i as int)) {
        Some(n) => Some(n),
        None => if i < s.len() {
            spec_parse_config_history_limit(s.skip(i + 1int))
        } else {
            None
        },
    }
}

/// Splits a trimmed line `v[lo..hi]` at its first `=`, giving the key and value ranges.
fn key_value_range(v: &Vec<char>, lo: usize, hi: usize) -> (r: Option<(usize, usize)>)
    requires
        lo <= hi <= v.len(),
    ensures
        match r {
            Some((e, f)) => lo <= e < hi && f == e + 1 && key_value(v@.subrange(lo as int, hi as int))
                == Some((v@.subrange(lo as int, e as int), v@.subrange(f as int, hi as int))),
            None => key_value(v@.subrange(lo as int, hi as int)) is None,
        },
{
    let ghost t = v@.subrange(lo as int, hi as int);
    let e = find_char(v, lo, hi, '=');
    if e < hi {
        assert(t.take(e - lo) == v@.subrange(lo as int, e as int));
        assert(t.skip(e - lo + 1) == v@.subrange(e + 1, hi as int));
        Some((e, e + 1))
    } else {
        None
    }
}

/// Whether `v[lo..hi]` is exactly the characters of `key`.
fn range_is(v: &Vec<char>, lo: usize, hi: usize, key: &str) -> (b: bool)
    requires
        lo <= hi <= v.len(),
    ensures
        b == (v@.subrange(lo as int, hi as int) == key@),
{
    let k = chars_of(key);
    crate::text::range_eq(v, lo, hi, &k)
}

fn line_output_dir_range(v: &Vec<char>, lo: usize, hi: usize) -> (r: Option<Vec<char>>)
    requires
        lo <= hi <= v.len(),
    ensures
        match r {
            Some(d) => line_output_dir(v@.subrange(lo as int, hi as int)) == Some(d@),
            None => line_output_dir(v@.subrange(lo as int, hi as int)) is None,
        },
{
    let (a, b) = trim_range(v, lo, hi);
    if a == b || v[a] == '#' {
        return None;
    }
    let (e, f) = match key_value_range(v, a, b) {
        Some(p) => p,
        None => {
            return None;
        },
    };
    let (k0, k1) = trim_range(v, a, e);
    if !range_is(v, k0, k1, "output_dir") {
        return None;
    }
    let (c0, c1) = trim_range(v, f, b);
    let ghost val = v@.subrange(c0 as int, c1 as int);
    if c0 < c1 && v[c0] == '"' {
        assert(val.skip(1) == v@.subrange(c0 + 1, c1 as int));
        let (u, closed) = unescape_range(v, c0 + 1, c1);
        let (u0, u1) = trim_range(&u, 0, u.len());
        assert(u@.subrange(0, u.len() as int) == u@);
        if closed && u0 < u1 {
            Some(u)
        } else {
            None
        }
    } else if c0 < c1 && v[c0] == '\'' {
        let j = find_char(v, c0 + 1, c1, '\'');
        let ghost rest = val.skip(1);
        assert(rest == v@.subrange(c0 + 1, c1 as int));
        assert(rest.take(j - (c0 + 1)) == v@.subrange(c0 + 1, j as int));
        let (i0, i1) = trim_range(v, c0 + 1, j);
        if j < c1 && i0 < i1 {
            let mut out: Vec<char> = Vec::new();
            crate::text::extend_range(&mut out, v, c0 + 1, j);
            Some(out)
        } else {
            None
        }
    } else {
        let h = find_char(v, c0, c1, '#');
        assert(val.take(h - c0) == v@.subrange(c0 as int, h as int));
        let (u0, u1) = trim_range(v, c0, h);
        if u0 < u1 {
            let mut out: Vec<char> = Vec::new();
            crate::text::extend_range(&mut out, v, u0, u1);
            Some(out)
        } else {
            None
        }
    }
}

fn line_history_limit_range(v: &Vec<char>, lo: usize, hi: usize) -> (r: Option<usize>)
    requires
        lo <= hi <= v.len(),
    ensures
        r == line_history_limit(v@.subrange(lo as int, hi as int)),
{
    let (a, b) = trim_range(v, lo, hi);
    if a == b || v[a] == '#' {
        return None;
    }
    let (e, f) = match key_value_range(v, a, b) {
        Some(p) => p,
        None => {
            return None;
        },
    };
    let (k0, k1) = trim_range(v, a, e);
    if !range_is(v, k0, k1, "history_limit") {
        return None;
    }
    let ghost val = v@.subrange(f as int, b as int);
    let h = find_char(v, f, b, '#');
    assert(val.take(h - f) == v@.subrange(f as int, h as int));
    let (u0, u1) = trim_range(v, f, h);
    let (q0, q1) = strip_range(v, u0, u1, CharClass::Quote);
    let (c0, c1) = trim_range(v, q0, q1);
    parse_usize_range(v, c0, c1)
}

/// Parses the output directory from the raw content of config.toml.
/// Handles inline comments, escape sequences, and surrounding quotes.
pub fn parse_config_output_dir(content: &str) -> (r: Option<String>)
    ensures
        match r {
            Some(d) => spec_parse_config_output_dir(content@) == Some(d@),
            None => spec_parse_config_output_dir(content@) is None,
        },
{
    let v = chars_of(content);
    let n = v.len();
    assert(v@.subrange(0, n as int) == v@);
    let mut start: usize = 0;
    loop
        invariant
            start <= n == v.len(),
            spec_parse_config_output_dir(content@) == spec_parse_config_output_dir(
                v@.subrange(start as int, n as int),
            ),
        decreases n - start,
    {
        let ghost s = v@.subrange(start as int, n as int);
        let e = find_char(&v, start, n, '\n');
        proof {
            lemma_lead_count_bound(s, CharClass::NotChar('\n'));
        }
        assert(s.take(e - start) == v@.subrange(start as int, e as int));
        if let Some(d) = line_output_dir_range(&v, start, e) {
            return Some(string_of(&d));
        }
        if e == n {
            return None;
        }
        assert(s.skip(e - start + 1) == v@.subrange(e + 1, n as int));
        start = e + 1;
    }
}

/// Parses the configured `history_limit` from the raw content of config.toml.
/// Ignores comments and handles inline comments or quotes.
pub fn parse_config_history_limit(content: &str) -> (r: Option<usize>)
    ensures
        r == spec_parse_config_history_limit(content@),
{
    let v = chars_of(content);
    let n = v.len();
    assert(v@.subrange(0, n as int) == v@);
    let mut start: usize = 0;
    loop
        invariant
            start <= n == v.len(),
            spec_parse_config_history_limit(content@) == spec_parse_config_history_limit(
                v@.subrange(start as int, n as int),
            ),
        decreases n - start,
    {
        let ghost s = v@.subrange(start as int, n as int);
        let e = find_char(&v, start, n, '\n');
        proof {
            lemma_lead_count_bound(s, CharClass::NotChar('\n'));
        }
        assert(s.take(e - start) == v@.subrange(start as int, e as int));
        if let Some(limit) = line_history_limit_range(&v, start, e) {
            return Some(limit);
        }
        if e == n {
            return None;
        }
        assert(s.skip(e - start + 1) == v@.subrange(e + 1, n as int));
        start = e + 1;
    }
}

// ---------------------------------------------------------------------------
// Writing config.toml
// ---------------------------------------------------------------------------

pub open spec fn config_header() -> Seq<char> {
    "# Vidown Configuration"@
}

pub open spec fn output_dir_prefix() -> Seq<char> {
    "output_dir = \""@
}

pub open spec fn history_limit_prefix() -> Seq<char> {
    "history_limit = "@
}

/// The text that `format_config_full` writes.
pub open spec fn spec_format_config_full(output_dir: Seq<char>, history_limit: nat) -> Seq<char> {
    config_header() + seq!['\n'] + output_dir_prefix() + escape(output_dir) + seq!['"', '\n']
        + history_limit_prefix() + decimal(history_limit) + seq!['\n']
}

/// Generates a valid TOML configuration string containing `output_dir` and `history_limit`.
pub fn format_config_full(output_dir: &str, history_limit: usize) -> (r: String)
    ensures
        r@ == spec_format_config_full(output_dir@, history_limit as nat),
{
    let d = chars_of(output_dir);
    let mut v: Vec<char> = Vec::new();
    extend_str(&mut v, "# Vidown Configuration");
    v.push('\n');
    extend_str(&mut v, "output_dir = \"");
    let ghost prefix = v@;
    let mut i: usize = 0;
    while i < d.len()
        invariant
            i <= d.len(),
            v@ == prefix + escape(d@.take(i as int)),
        decreases d.len() - i,
    {
        let c = d[i];
        if c == '\\' {
            v.push('\\');
            v.push('\\');
        } else if c == '"' {
            v.push('\\');
            v.push('"');
        } else if c == '\n' {
            v.push('\\');
            v.push('n');
        } else if c == '\r' {
            v.push('\\');
            v.push('r');
        } else if c == '\t' {
            v.push('\\');
            v.push('t');
        } else {
            v.push(c);
        }
        assert(d@.take(i + 1).drop_last() == d@.take(i as int));
        assert(d@.take(i + 1).last() == c);
        i += 1;
    }
    assert(d@.take(d.len() as int) == d@);
    v.push('"');
    v.push('\n');
    extend_str(&mut v, "history_limit = ");
    push_decimal(&mut v, history_limit);
    v.push('\n');
    string_of(&v)
}

/// Generates a valid TOML configuration string containing `output_dir` and default `history_limit`.
pub fn format_config(output_dir: &str) -> (r: String)
    ensures
        r@ == spec_format_config_full(output_dir@, DEFAULT_HISTORY_LIMIT as nat),
{
    format_config_full(output_dir, DEFAULT_HISTORY_LIMIT)
}

// ---------------------------------------------------------------------------
// Reading back what was written
// ---------------------------------------------------------------------------

proof fn lemma_index_of_is(s: Seq<char>, c: char, k: nat)
    requires
        k <= s.len(),
        forall|j: int| 0 <= j < k ==> #[trigger] s[j] != c,
        k < s.len() ==> s[k as int] == c,
    ensures
        index_of(s, c) == k,
{
    crate::text::lemma_lead_count_unique(s, CharClass::NotChar(c), k);
}

proof fn lemma_trim_is(s: Seq<char>, lead: nat)
    requires
        lead < s.len(),
        forall|j: int| 0 <= j < lead ==> crate::text::is_ws(#[trigger] s[j]),
        !crate::text::is_ws(s[lead as int]),
        !crate::text::is_ws(s.last()),
    ensures
        trim(s) == s.skip(lead as int),
{
    crate::text::lemma_lead_count_unique(s, CharClass::Whitespace, lead);
    let a = s.skip(lead as int);
    crate::text::lemma_trail_count_unique(a, CharClass::Whitespace, 0);
    assert(a.take(a.len() as int) == a);
}

proof fn lemma_config_literals()
    ensures
        config_header().len() == 22,
        config_header()[0] == '#',
        config_header().last() == 'n',
        forall|j: int| 0 <= j < 22 ==> #[trigger] config_header()[j] != '\n',
        output_dir_prefix().len() == 14,
        output_dir_prefix()[0] == 'o',
        output_dir_prefix()[11] == '=',
        output_dir_prefix()[12] == ' ',
        output_dir_prefix()[13] == '"',
        forall|j: int| 0 <= j < 14 ==> #[trigger] output_dir_prefix()[j] != '\n',
        forall|j: int| 0 <= j < 11 ==> #[trigger] output_dir_prefix()[j] != '=',
        trim(output_dir_prefix().take(11)) == "output_dir"@,
        history_limit_prefix().len() == 16,
        history_limit_prefix()[0] == 'h',
        history_limit_prefix()[14] == '=',
        history_limit_prefix()[15] == ' ',
        forall|j: int| 0 <= j < 16 ==> #[trigger] history_limit_prefix()[j] != '\n',
        forall|j: int| 0 <= j < 14 ==> #[trigger] history_limit_prefix()[j] != '=',
        trim(history_limit_prefix().take(14)) == "history_limit"@,
        "output_dir"@ != "history_limit"@,
{
    reveal_strlit("# Vidown Configuration");
    reveal_strlit("output_dir = \"");
    reveal_strlit("history_limit = ");
    reveal_strlit("output_dir");
    reveal_strlit("history_limit");
    let k = output_dir_prefix().take(11);
    crate::text::lemma_lead_count_unique(k, CharClass::Whitespace, 0);
    assert(k.skip(0) == k);
    crate::text::lemma_trail_count_unique(k, CharClass::Whitespace, 1);
    assert(k.take(10) =~= "output_dir"@);
    let h = history_limit_prefix().take(14);
    crate::text::lemma_lead_count_unique(h, CharClass::Whitespace, 0);
    assert(h.skip(0) == h);
    crate::text::lemma_trail_count_unique(h, CharClass::Whitespace, 1);
    assert(h.take(13) =~= "history_limit"@);
    assert("output_dir"@.len() != "history_limit"@.len());
}

/// The output directory line and what follows the first line break.
proof fn lemma_format_lines(d: Seq<char>, n: nat)
    ensures
        ({
            let s = spec_format_config_full(d, n);
            let line2 = output_dir_prefix() + escape(d) + seq!['"'];
            let rest3 = history_limit_prefix() + decimal(n) + seq!['\n'];
            &&& index_of(s, '\n') == 22
            &&& s.take(22) == config_header()
            &&& 22 < s.len()
            &&& s.skip(23) == line2 + seq!['\n'] + rest3
            &&& index_of(line2 + seq!['\n'] + rest3, '\n') == line2.len()
            &&& (line2 + seq!['\n'] + rest3).take(line2.len() as int) == line2
            &&& (line2 + seq!['\n'] + rest3).skip(line2.len() + 1int) == rest3
            &&& index_of(rest3, '\n') == 16 + decimal(n).len()
            &&& rest3.take(16 + decimal(n).len() as int) == history_limit_prefix() + decimal(n)
        }),
{
    lemma_config_literals();
    lemma_escape_no_newline(d);
    lemma_decimal_roundtrip(n);
    let s = spec_format_config_full(d, n);
    let e = escape(d);
    let line2 = output_dir_prefix() + e + seq!['"'];
    let rest3 = history_limit_prefix() + decimal(n) + seq!['\n'];
    assert(s =~= config_header() + seq!['\n'] + (line2 + seq!['\n'] + rest3));
    assert forall|j: int| 0 <= j < 22 implies #[trigger] s[j] != '\n' by {
        assert(s[j] == config_header()[j]);
    }
    lemma_index_of_is(s, '\n', 22);
    assert(s.take(22) =~= config_header());
    assert(s.skip(23) =~= line2 + seq!['\n'] + rest3);
    let r = line2 + seq!['\n'] + rest3;
    assert forall|j: int| 0 <= j < line2.len() implies #[trigger] r[j] != '\n' by {
        assert(r[j] == line2[j]);
        if j < 14 {
            assert(line2[j] == output_dir_prefix()[j]);
        } else if j < 14 + e.len() {
            assert(line2[j] == e[j - 14]);
            assert(!e.contains('\n'));
        }
    }
    lemma_index_of_is(r, '\n', line2.len());
    assert(r.take(line2.len() as int) =~= line2);
    assert(r.skip(line2.len() + 1int) =~= rest3);
    let dn = decimal(n);
    assert forall|j: int| 0 <= j < 16 + dn.len() implies #[trigger] rest3[j] != '\n' by {
        if j < 16 {
            assert(rest3[j] == history_limit_prefix()[j]);
        } else {
            assert(rest3[j] == dn[j - 16]);
            assert(is_digit(dn[j - 16]));
        }
    }
    lemma_index_of_is(rest3, '\n', 16 + dn.len());
    assert(rest3.take(16 + dn.len() as int) =~= history_limit_prefix() + dn);
}

/// Reading the `output_dir` back from a written configuration gives the directory
/// that was written, whenever that directory is not blank.
pub proof fn lemma_output_dir_roundtrip(d: Seq<char>, n: nat)
    requires
        trim(d).len() > 0,
    ensures
        spec_parse_config_output_dir(spec_format_config_full(d, n)) == Some(d),
{
    lemma_config_literals();
    lemma_format_lines(d, n);
    let s = spec_format_config_full(d, n);
    let h = config_header();
    crate::text::lemma_strip_fixed(h, CharClass::Whitespace);
    assert(line_output_dir(h) is None);
    let e = escape(d);
    let line2 = output_dir_prefix() + e + seq!['"'];
    let rest3 = history_limit_prefix() + decimal(n) + seq!['\n'];
    let r = line2 + seq!['\n'] + rest3;
    assert(spec_parse_config_output_dir(s) == spec_parse_config_output_dir(r));
    // The output_dir line.
    assert(line2[0] == 'o');
    assert(line2.last() == '"');
    crate::text::lemma_strip_fixed(line2, CharClass::Whitespace);
    assert forall|j: int| 0 <= j < 11 implies #[trigger] line2[j] != '=' by {
        assert(line2[j] == output_dir_prefix()[j]);
    }
    assert(line2[11] == '=');
    lemma_index_of_is(line2, '=', 11);
    assert(line2.take(11) =~= output_dir_prefix().take(11));
    let val = line2.skip(12);
    assert(val =~= seq![' ', '"'] + e + seq!['"']);
    assert(val[0] == ' ');
    assert(val[1] == '"');
    lemma_trim_is(val, 1);
    let v = val.skip(1);
    assert(v =~= seq!['"'] + e + seq!['"']);
    lemma_unescape_escape(d, Seq::empty());
    assert(v.skip(1) =~= e + seq!['"'] + Seq::<char>::empty());
    assert(line_output_dir(line2) == Some(d));
    assert(r.take(line2.len() as int) == line2);
}

/// Reading the `history_limit` back from a written configuration gives the limit
/// that was written.
pub proof fn lemma_history_limit_roundtrip(d: Seq<char>, n: usize)
    ensures
        spec_parse_config_history_limit(spec_format_config_full(d, n as nat)) == Some(n),
{
    lemma_config_literals();
    lemma_format_lines(d, n as nat);
    lemma_decimal_roundtrip(n as nat);
    let s = spec_format_config_full(d, n as nat);
    let h = config_header();
    crate::text::lemma_strip_fixed(h, CharClass::Whitespace);
    assert(line_history_limit(h) is None);
    let e = escape(d);
    let line2 = output_dir_prefix() + e + seq!['"'];
    let dn = decimal(n as nat);
    let rest3 = history_limit_prefix() + dn + seq!['\n'];
    let r = line2 + seq!['\n'] + rest3;
    // The output_dir line sets no history_limit.
    assert(line2[0] == 'o');
    assert(line2.last() == '"');
    crate::text::lemma_strip_fixed(line2, CharClass::Whitespace);
    assert forall|j: int| 0 <= j < 11 implies #[trigger] line2[j] != '=' by {
        assert(line2[j] == output_dir_prefix()[j]);
    }
    assert(line2[11] == '=');
    lemma_index_of_is(line2, '=', 11);
    assert(line2.take(11) =~= output_dir_prefix().take(11));
    assert(line_history_limit(line2) is None);
    assert(spec_parse_config_history_limit(r) == spec_parse_config_history_limit(rest3));
    // The history_limit line.
    let line3 = history_limit_prefix() + dn;
    assert(line3[0] == 'h');
    assert(line3.last() == dn.last());
    assert(is_digit(dn.last()));
    crate::text::lemma_strip_fixed(line3, CharClass::Whitespace);
    assert forall|j: int| 0 <= j < 14 implies #[trigger] line3[j] != '=' by {
        assert(line3[j] == history_limit_prefix()[j]);
    }
    assert(line3[14] == '=');
    lemma_index_of_is(line3, '=', 14);
    assert(line3.take(14) =~= history_limit_prefix().take(14));
    let val = line3.skip(15);
    assert(val =~= seq![' '] + dn);
    assert forall|j: int| 0 <= j < val.len() implies #[trigger] val[j] != '#' by {
        if j > 0 {
            assert(val[j] == dn[j - 1]);
            assert(is_digit(dn[j - 1]));
        }
    }
    lemma_index_of_is(val, '#', val.len());
    assert(val.take(val.len() as int) == val);
    assert(val[1] == dn[0]);
    assert(is_digit(dn[0]));
    lemma_trim_is(val, 1);
    assert(val.skip(1) =~= dn);
    assert(!crate::text::is_quote(dn[0]));
    assert(!crate::text::is_quote(dn.last()));
    crate::text::lemma_strip_fixed(dn, CharClass::Quote);
    crate::text::lemma_strip_fixed(dn, CharClass::Whitespace);
    assert(line_history_limit(line3) == Some(n));
}

// ---------------------------------------------------------------------------
// Loading and saving, given what the configuration file holds
// ---------------------------------------------------------------------------

/// The configured output directory, given the content of config.toml (`None` when
/// there is no readable configuration file).
pub fn load_config(content: Option<&str>) -> (r: Option<String>)
    ensures
        match content {
            Some(c) => match r {
                Some(d) => spec_parse_config_output_dir(c@) == Some(d@),
                None => spec_parse_config_output_dir(c@) is None,
            },
            None => r is None,
        },
{
    match content {
        Some(c) => parse_config_output_dir(c),
        None => None,
    }
}

/// The history limit in force: the configured one, but at least `DEFAULT_HISTORY_LIMIT`.
pub open spec fn spec_history_limit(content: Option<Seq<char>>) -> usize {
    match content {
        Some(c) => match spec_parse_config_history_limit(c) {
            Some(n) => if n >= DEFAULT_HISTORY_LIMIT {
                n
            } else {
                DEFAULT_HISTORY_LIMIT
            },
            None => DEFAULT_HISTORY_LIMIT,
        },
        None => DEFAULT_HISTORY_LIMIT,
    }
}

/// Loads the configured history limit from the content of config.toml,
/// enforcing a minimum of at least `DEFAULT_HISTORY_LIMIT` (50).
pub fn load_history_limit(content: Option<&str>) -> (r: usize)
    ensures
        r == spec_history_limit(
            match content {
                Some(c) => Some(c@),
                None => None,
            },
        ),
        r >= DEFAULT_HISTORY_LIMIT,
{
    match content {
        Some(c) => match parse_config_history_limit(c) {
            Some(n) => if n >= DEFAULT_HISTORY_LIMIT {
                n
            } else {
                DEFAULT_HISTORY_LIMIT
            },
            None => DEFAULT_HISTORY_LIMIT,
        },
        None => DEFAULT_HISTORY_LIMIT,
    }
}

/// The limit that saving a new output directory keeps: the one the existing
/// configuration sets, or the default.
pub open spec fn kept_history_limit(existing: Option<Seq<char>>) -> usize {
    match existing {
        Some(c) => match spec_parse_config_history_limit(c) {
            Some(n) => n,
            None => DEFAULT_HISTORY_LIMIT,
        },
        None => DEFAULT_HISTORY_LIMIT,
    }
}

/// The configuration text that saving `output_dir` writes over `existing` (the
/// current content of config.toml, if any), keeping its `history_limit`.
pub fn config_content_for_save(existing: Option<&str>, output_dir: &str) -> (r: String)
    ensures
        r@ == spec_format_config_full(
            output_dir@,
            kept_history_limit(
                match existing {
                    Some(c) => Some(c@),
                    None => None,
                },
            ) as nat,
        ),
{
    let limit = match existing {
        Some(c) => match parse_config_history_limit(c) {
            Some(n) => n,
            None => DEFAULT_HISTORY_LIMIT,
        },
        None => DEFAULT_HISTORY_LIMIT,
    };
    format_config_full(output_dir, limit)
}

/// Saving an output directory and loading the configuration again gives that
/// directory back, and leaves the history limit as it was.
pub proof fn lemma_save_then_load(existing: Option<Seq<char>>, output_dir: Seq<char>)
    requires
        trim(output_dir).len() > 0,
    ensures
        ({
            let written = spec_format_config_full(output_dir, kept_history_limit(existing) as nat);
            &&& spec_parse_config_output_dir(written) == Some(output_dir)
            &&& spec_parse_config_history_limit(written) == Some(kept_history_limit(existing))
        }),
{
    lemma_output_dir_roundtrip(output_dir, kept_history_limit(existing) as nat);
    lemma_history_limit_roundtrip(output_dir, kept_history_limit(existing));
}

/// The path of `history.json`: the configuration file's path with its last
/// component (the text after the last `/` or `\`) replaced.
pub open spec fn spec_history_path(config_path: Seq<char>) -> Seq<char> {
    config_path.take(config_path.len() - trail_count(config_path, CharClass::NotSeparator))
        + "history.json"@
}

/// Returns the history JSON file path (`history.json`) next to the configuration file.
pub fn get_history_path(config_path: Option<&str>) -> (r: Option<String>)
    ensures
        match config_path {
            Some(p) => r matches Some(h) && h@ == spec_history_path(p@),
            None => r is None,
        },
{
    match config_path {
        Some(p) => {
            let v = chars_of(p);
            let k = crate::text::scan_backward(&v, 0, v.len(), CharClass::NotSeparator);
            assert(v@.subrange(0, v.len() as int) == v@);
            let mut out: Vec<char> = Vec::new();
            crate::text::extend_range(&mut out, &v, 0, k);
            extend_str(&mut out, "history.json");
            assert(v@.subrange(0, k as int) == v@.take(k as int));
            Some(string_of(&out))
        },
        None => None,
    }
}

// ---------------------------------------------------------------------------
// Directories chosen from the environment
// ---------------------------------------------------------------------------

/// The environment values that decide where Vidown keeps its files.
#[derive(Debug, Clone)]
pub struct Environment {
    /// Whether this is Windows (paths then use `\`).
    pub windows: bool,
    pub vidown_config_dir: Option<String>,
    pub vidown_bin_dir: Option<String>,
    pub xdg_config_home: Option<String>,
    pub xdg_data_home: Option<String>,
    pub home: Option<String>,
    pub appdata: Option<String>,
    pub local_appdata: Option<String>,
    pub user_profile: Option<String>,
    pub home_drive: Option<String>,
    pub home_path: Option<String>,
    /// The system's directory for temporary files.
    pub temp_dir: String,
}

/// Whether a path separator ends `s` (`/`, and on Windows `\` too).
pub open spec fn ends_with_separator(s: Seq<char>, windows: bool) -> bool {
    s.len() > 0 && (s.last() == '/' || (windows && s.last() == '\\'))
}

/// `base` with the relative component `comp` appended, as `PathBuf::join` does:
/// a separator goes between them unless `base` is empty or already ends with one.
pub open spec fn path_join(base: Seq<char>, comp: Seq<char>, windows: bool) -> Seq<char> {
    if base.len() == 0 || ends_with_separator(base, windows) {
        base + comp
    } else if windows {
        base + seq!['\\'] + comp
    } else {
        base + seq!['/'] + comp
    }
}

/// Appends the relative component `comp` to the path `base`.
pub fn join_path(base: &str, comp: &str, windows: bool) -> (r: String)
    ensures
        r@ == path_join(base@, comp@, windows),
{
    let v = chars_of(base);
    let n = v.len();
    let mut out = chars_of(base);
    if n > 0 && (v[n - 1] == '/' || (windows && v[n - 1] == '\\')) || n == 0 {
    } else if windows {
        out.push('\\');
    } else {
        out.push('/');
    }
    extend_str(&mut out, comp);
    string_of(&out)
}

/// A value that is set and not blank.
pub open spec fn set_value(o: Option<String>) -> Option<Seq<char>> {
    match o {
        Some(s) => if trim(s@).len() > 0 {
            Some(s@)
        } else {
            None
        },
        None => None,
    }
}

fn set_value_of(o: &Option<String>) -> (r: Option<&str>)
    ensures
        match r {
            Some(s) => set_value(*o) == Some(s@),
            None => set_value(*o) is None,
        },
{
    match o {
        Some(s) => {
            let v = chars_of(s.as_str());
            let (a, b) = trim_range(&v, 0, v.len());
            assert(v@.subrange(0, v@.len() as int) == v@);
            if a < b {
                Some(s.as_str())
            } else {
                None
            }
        },
        None => None,
    }
}

/// Where config.toml lives: in `VIDOWN_CONFIG_DIR` when set; on Windows under
/// `%APPDATA%\vidown`, `%USERPROFILE%\AppData\Roaming\vidown` or the same under
/// `%HOMEDRIVE%%HOMEPATH%`; elsewhere under `$XDG_CONFIG_HOME/vidown` or
/// `~/.config/vidown`. `None` when none of them is set.
pub open spec fn spec_config_path(env: Environment) -> Option<Seq<char>> {
    let w = env.windows;
    match set_value(env.vidown_config_dir) {
        Some(c) => Some(path_join(env.vidown_config_dir->0@, "config.toml"@, w)),
        None => if w {
            match set_value(env.appdata) {
                Some(a) => Some(path_join(path_join(a, "vidown"@, w), "config.toml"@, w)),
                None => match set_value(env.user_profile) {
                    Some(u) => Some(
                        path_join(
                            path_join(path_join(path_join(u, "AppData"@, w), "Roaming"@, w), "vidown"@, w),
                            "config.toml"@,
                            w,
                        ),
                    ),
                    None => match (env.home_drive, env.home_path) {
                        (Some(d), Some(p)) => {
                            let combined = trim(d@) + trim(p@);
                            if combined.len() > 0 {
                                Some(
                                    path_join(
                                        path_join(
                                            path_join(path_join(combined, "AppData"@, w), "Roaming"@, w),
                                            "vidown"@,
                                            w,
                                        ),
                                        "config.toml"@,
                                        w,
                                    ),
                                )
                            } else {
                                None
                            }
                        },
                        _ => None,
                    },
                },
            }
        } else {
            match set_value(env.xdg_config_home) {
                Some(x) => Some(path_join(path_join(x, "vidown"@, w), "config.toml"@, w)),
                None => match set_value(env.home) {
                    Some(h) => Some(
                        path_join(path_join(path_join(h, ".config"@, w), "vidown"@, w), "config.toml"@, w),
                    ),
                    None => None,
                },
            }
        },
    }
}

/// Returns the platform-specific configuration file path for vidown.
pub fn get_config_path(env: &Environment) -> (r: Option<String>)
    ensures
        opt_view(r) == spec_config_path(*env),
{
    let w = env.windows;
    if let Some(c) = set_value_of(&env.vidown_config_dir) {
        return Some(join_path(c, "config.toml", w));
    }
    if w {
        if let Some(a) = set_value_of(&env.appdata) {
            let d = join_path(a, "vidown", w);
            return Some(join_path(d.as_str(), "config.toml", w));
        }
        if let Some(u) = set_value_of(&env.user_profile) {
            let d = join_path(u, "AppData", w);
            let d = join_path(d.as_str(), "Roaming", w);
            let d = join_path(d.as_str(), "vidown", w);
            return Some(join_path(d.as_str(), "config.toml", w));
        }
        match (&env.home_drive, &env.home_path) {
            (Some(drive), Some(path)) => {
                let vd = chars_of(drive.as_str());
                let (a1, b1) = trim_range(&vd, 0, vd.len());
                let vp = chars_of(path.as_str());
                let (a2, b2) = trim_range(&vp, 0, vp.len());
                assert(vd@.subrange(0, vd@.len() as int) == vd@);
                assert(vp@.subrange(0, vp@.len() as int) == vp@);
                let mut combined: Vec<char> = Vec::new();
                crate::text::extend_range(&mut combined, &vd, a1, b1);
                crate::text::extend_range(&mut combined, &vp, a2, b2);
                if combined.len() == 0 {
                    return None;
                }
                let c = string_of(&combined);
                let d = join_path(c.as_str(), "AppData", w);
                let d = join_path(d.as_str(), "Roaming", w);
                let d = join_path(d.as_str(), "vidown", w);
                Some(join_path(d.as_str(), "config.toml", w))
            },
            _ => None,
        }
    } else {
        if let Some(x) = set_value_of(&env.xdg_config_home) {
            let d = join_path(x, "vidown", w);
            return Some(join_path(d.as_str(), "config.toml", w));
        }
        if let Some(h) = set_value_of(&env.home) {
            let d = join_path(h, ".config", w);
            let d = join_path(d.as_str(), "vidown", w);
            return Some(join_path(d.as_str(), "config.toml", w));
        }
        None
    }
}

/// Where Vidown's own copies of the tools live: `VIDOWN_BIN_DIR` (trimmed) when
/// set; on Windows `%LOCALAPPDATA%\Vidown\bin`, `%USERPROFILE%\AppData\Local\Vidown\bin`
/// or `C:\Vidown\bin`; elsewhere `$XDG_DATA_HOME/vidown/bin`,
/// `~/.local/share/vidown/bin` or `/tmp/vidown/bin`.
pub open spec fn spec_user_bin_dir(env: Environment) -> Seq<char> {
    let w = env.windows;
    match set_value(env.vidown_bin_dir) {
        Some(c) => trim(c),
        None => if w {
            match set_value(env.local_appdata) {
                Some(l) => path_join(path_join(l, "Vidown"@, w), "bin"@, w),
                None => match set_value(env.user_profile) {
                    Some(u) => path_join(
                        path_join(path_join(path_join(u, "AppData"@, w), "Local"@, w), "Vidown"@, w),
                        "bin"@,
                        w,
                    ),
                    None => "C:\\Vidown\\bin"@,
                },
            }
        } else {
            match set_value(env.xdg_data_home) {
                Some(x) => path_join(path_join(x, "vidown"@, w), "bin"@, w),
                None => match set_value(env.home) {
                    Some(h) => path_join(
                        path_join(path_join(path_join(h, ".local"@, w), "share"@, w), "vidown"@, w),
                        "bin"@,
                        w,
                    ),
                    None => "/tmp/vidown/bin"@,
                },
            }
        },
    }
}

/// Returns the platform-specific user data bin directory for Vidown.
pub fn get_user_bin_dir(env: &Environment) -> (r: String)
    ensures
        r@ == spec_user_bin_dir(*env),
{
    let w = env.windows;
    if let Some(c) = set_value_of(&env.vidown_bin_dir) {
        let v = chars_of(c);
        let (a, b) = trim_range(&v, 0, v.len());
        assert(v@.subrange(0, v@.len() as int) == v@);
        return string_of_range(&v, a, b);
    }
    if w {
        if let Some(l) = set_value_of(&env.local_appdata) {
            let d = join_path(l, "Vidown", w);
            return join_path(d.as_str(), "bin", w);
        }
        if let Some(u) = set_value_of(&env.user_profile) {
            let d = join_path(u, "AppData", w);
            let d = join_path(d.as_str(), "Local", w);
            let d = join_path(d.as_str(), "Vidown", w);
            return join_path(d.as_str(), "bin", w);
        }
        owned("C:\\Vidown\\bin")
    } else {
        if let Some(x) = set_value_of(&env.xdg_data_home) {
            let d = join_path(x, "vidown", w);
            return join_path(d.as_str(), "bin", w);
        }
        if let Some(h) = set_value_of(&env.home) {
            let d = join_path(h, ".local", w);
            let d = join_path(d.as_str(), "share", w);
            let d = join_path(d.as_str(), "vidown", w);
            return join_path(d.as_str(), "bin", w);
        }
        owned("/tmp/vidown/bin")
    }
}

/// The directory downloads go to by default: the user's `Downloads` folder
/// (`%USERPROFILE%\Downloads` on Windows, `~/Downloads` elsewhere), or
/// `./downloads` under test (`in_test`) or when that folder cannot be named.
pub open spec fn spec_default_download_dir(env: Environment, in_test: bool) -> Seq<char> {
    let home = if env.windows {
        set_value(env.user_profile)
    } else {
        set_value(env.home)
    };
    if in_test {
        "./downloads"@
    } else {
        match home {
            Some(h) => path_join(h, "Downloads"@, env.windows),
            None => "./downloads"@,
        }
    }
}

/// The default download directory.
pub fn get_default_download_dir(env: &Environment, in_test: bool) -> (r: String)
    ensures
        r@ == spec_default_download_dir(*env, in_test),
{
    if in_test {
        return owned("./downloads");
    }
    let home = if env.windows {
        set_value_of(&env.user_profile)
    } else {
        set_value_of(&env.home)
    };
    match home {
        Some(h) => join_path(h, "Downloads", env.windows),
        None => owned("./downloads"),
    }
}

/// A directory that can always be written: `%LOCALAPPDATA%\Vidown\downloads` on
/// Windows when that is set, otherwise the system's temporary directory.
pub open spec fn spec_safe_fallback_dir(env: Environment) -> Seq<char> {
    match (env.windows, set_value(env.local_appdata)) {
        (true, Some(l)) => path_join(path_join(l, "Vidown"@, true), "downloads"@, true),
        _ => env.temp_dir@,
    }
}

/// The directory downloads fall back to when the chosen one cannot be created.
pub fn get_safe_fallback_dir(env: &Environment) -> (r: String)
    ensures
        r@ == spec_safe_fallback_dir(*env),
{
    if env.windows {
        if let Some(l) = set_value_of(&env.local_appdata) {
            let d = join_path(l, "Vidown", true);
            return join_path(d.as_str(), "downloads", true);
        }
    }
    env.temp_dir.clone()
}

/// Whether the program runs as an automated test: `VIDOWN_NO_PERSIST` is set, or
/// the executable lies in a `deps` directory (where test binaries are built).
pub fn is_test_run(no_persist_set: bool, exe_path: Option<&str>) -> (r: bool)
    ensures
        r == (no_persist_set || match exe_path {
            Some(p) => contains(p@, "/deps/"@) || contains(p@, "\\deps\\"@),
            None => false,
        }),
{
    if no_persist_set {
        return true;
    }
    match exe_path {
        Some(p) => str_contains(p, "/deps/") || str_contains(p, "\\deps\\"),
        None => false,
    }
}

/// The history limit is at least 50: a configured limit of 50 or more is kept, a
/// smaller one, one that cannot be read, or none at all gives 50.
pub proof fn lemma_history_limit_at_least_fifty(content: Option<Seq<char>>)
    ensures
        spec_history_limit(content) >= 50,
        match content {
            Some(c) => match spec_parse_config_history_limit(c) {
                Some(n) => n >= 50 ==> spec_history_limit(content) == n,
                None => true,
            },
            None => true,
        },
        (content is None || spec_parse_config_history_limit(content->Some_0) is None)
            ==> spec_history_limit(content) == 50,
{
}

} // verus!
