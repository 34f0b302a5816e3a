//! Character- and string-level helpers shared by the tokenizer and the
//! policy stages: whitespace classification, ASCII lowercasing, substring
//! search, and conversions between `str`, `Vec<char>` and `String`.

use vstd::prelude::*;
use vstd::string::StrSliceExecFns;

verus! {

/// The Unicode `White_Space` code points, the set that
/// `char::is_whitespace` reports.
pub open spec fn is_space_char(c: char) -> bool {
    c == '\u{9}' || c == '\u{a}' || c == '\u{b}' || c == '\u{c}' || c == '\u{d}' || c == ' '
        || c == '\u{85}' || c == '\u{a0}' || c == '\u{1680}' || ('\u{2000}' <= c && c
        <= '\u{200a}') || c == '\u{2028}' || c == '\u{2029}' || c == '\u{202f}' || c == '\u{205f}'
        || c == '\u{3000}'
}

/// Executable whitespace test matching `is_space_char`.
pub fn space_char(c: char) -> (r: bool)
    ensures
        r == is_space_char(c),
{
    c == '\u{9}' || c == '\u{a}' || c == '\u{b}' || c == '\u{c}' || c == '\u{d}' || c == ' '
        || c == '\u{85}' || c == '\u{a0}' || c == '\u{1680}' || ('\u{2000}' <= c && c
        <= '\u{200a}') || c == '\u{2028}' || c == '\u{2029}' || c == '\u{202f}' || c == '\u{205f}'
        || c == '\u{3000}'
}

/// ASCII lowercasing of a single character: `A`..`Z` map to `a`..`z`,
/// everything else is left alone.
pub open spec fn lower_char(c: char) -> char {
    if 'A' <= c && c <= 'Z' {
        ((c as u8) + 32) as char
    } else {
        c
    }
}

/// Executable ASCII lowercasing matching `lower_char`.
pub fn to_lower_char(c: char) -> (r: char)
    ensures
        r == lower_char(c),
{
    if 'A' <= c && c <= 'Z' {
        (((c as u8) + 32) as char)
    } else {
        c
    }
}

/// ASCII lowercasing of a whole character sequence.
pub open spec fn lower_seq(s: Seq<char>) -> Seq<char> {
    s.map_values(|c: char| lower_char(c))
}

/// Executable ASCII lowercasing of a character vector.
pub fn lower_vec(v: &Vec<char>) -> (r: Vec<char>)
    ensures
        r@ == lower_seq(v@),
{
    let mut r: Vec<char> = Vec::new();
    let mut i: usize = 0;
    while i < v.len()
        invariant
            i <= v@.len(),
            r@ == lower_seq(v@.subrange(0, i as int)),
        decreases v@.len() - i,
    {
        r.push(to_lower_char(v[i]));
        i = i + 1;
        proof {
            assert(r@ =~= lower_seq(v@.subrange(0, i as int)));
        }
    }
    proof {
        assert(v@.subrange(0, v@.len() as int) =~= v@);
    }
    r
}

/// `needle` occurs as a contiguous run inside `hay`.
pub open spec fn has_substr(hay: Seq<char>, needle: Seq<char>) -> bool {
    exists|i: int|
        0 <= i && i + needle.len() <= hay.len() && #[trigger] hay.subrange(i, i + needle.len())
            == needle
}

/// Executable substring search matching `has_substr`.
pub fn contains_chars(hay: &Vec<char>, needle: &Vec<char>) -> (r: bool)
    ensures
        r == has_substr(hay@, needle@),
{
    let m = needle.len();
    let n = hay.len();
    if m > n {
        proof {
            if has_substr(hay@, needle@) {
                let i = choose|i: int|
                    0 <= i && i + needle@.len() <= hay@.len() && #[trigger] hay@.subrange(
                        i,
                        i + needle@.len(),
                    ) == needle@;
                assert(false);
            }
        }
        return false;
    }
    let mut i: usize = 0;
    while i <= n - m
        invariant
            m == needle@.len(),
            n == hay@.len(),
            m <= hay@.len(),
            i <= hay@.len() + 1 - m,
            forall|k: int|
                0 <= k < i ==> #[trigger] hay@.subrange(k, k + needle@.len()) != needle@,
        decreases hay@.len() - i,
    {
        let mut j: usize = 0;
        let mut matches: bool = true;
        while j < m
            invariant
                m == needle@.len(),
                n == hay@.len(),
                i + m <= hay@.len(),
                j <= m,
                matches == (forall|k: int| 0 <= k < j ==> hay@[i + k] == needle@[k]),
            decreases m - j,
        {
            proof {
                assert(i + j < hay@.len());
            }
            if hay[i + j] != needle[j] {
                matches = false;
                j = m;
            } else {
                j = j + 1;
            }
        }
        if matches {
            proof {
                assert(hay@.subrange(i as int, i + needle@.len()) =~= needle@);
            }
            return true;
        }
        i = i + 1;
    }
    proof {
        assert(i + needle@.len() > hay@.len());
        assert forall|k: int| 0 <= k && k + needle@.len() <= hay@.len() implies #[trigger] hay@
            .subrange(k, k + needle@.len()) != needle@ by {
            assert(k < i);
        }
    }
    false
}

/// Executable equality of two character vectors, at the level of views.
pub fn vec_eq_chars(a: &Vec<char>, b: &Vec<char>) -> (r: bool)
    ensures
        r == (a@ == b@),
{
    if a.len() != b.len() {
        return false;
    }
    let mut i: usize = 0;
    while i < a.len()
        invariant
            a@.len() == b@.len(),
            i <= a@.len(),
            forall|k: int| 0 <= k < i ==> a@[k] == b@[k],
        decreases a@.len() - i,
    {
        if a[i] != b[i] {
            return false;
        }
        i = i + 1;
    }
    proof {
        assert(a@ =~= b@);
    }
    true
}

/// Executable comparison of a character vector against a string.
pub fn vec_eq_str(a: &Vec<char>, s: &str) -> (r: bool)
    ensures
        r == (a@ == s@),
{
    let b = chars_of(s);
    vec_eq_chars(a, &b)
}

/// Leading characters satisfying `p` are dropped.
pub open spec fn drop_while_front(s: Seq<char>, p: spec_fn(char) -> bool) -> Seq<char>
    decreases s.len(),
{
    if s.len() > 0 && p(s[0]) {
        drop_while_front(s.drop_first(), p)
    } else {
        s
    }
}

/// Trailing characters satisfying `p` are dropped.
pub open spec fn drop_while_back(s: Seq<char>, p: spec_fn(char) -> bool) -> Seq<char>
    decreases s.len(),
{
    if s.len() > 0 && p(s[s.len() - 1]) {
        drop_while_back(s.drop_last(), p)
    } else {
        s
    }
}

/// What `str::trim` returns: the sequence with leading and trailing
/// whitespace removed.
pub open spec fn trim_spec(s: Seq<char>) -> Seq<char> {
    drop_while_back(drop_while_front(s, |c: char| is_space_char(c)), |c: char| is_space_char(c))
}

/// What `str::trim_matches('"')` returns: the sequence with leading and
/// trailing double quotes removed.
pub open spec fn strip_quotes_spec(s: Seq<char>) -> Seq<char> {
    drop_while_back(drop_while_front(s, |c: char| c == '"'), |c: char| c == '"')
}

/// The character class dropped by `drop_around`: double quotes when
/// `quote` is set, whitespace otherwise.
fn edge_char(c: char, quote: bool) -> (r: bool)
    ensures
        quote ==> r == (c == '"'),
        !quote ==> r == is_space_char(c),
{
    if quote {
        c == '"'
    } else {
        space_char(c)
    }
}

/// The subrange of `v` that remains once leading and trailing characters
/// satisfying the executable predicate encoded by `quote` are dropped
/// (`quote` false: whitespace; `quote` true: double quotes).
fn drop_around(v: &Vec<char>, quote: bool) -> (r: Vec<char>)
    ensures
        !quote ==> r@ == trim_spec(v@),
        quote ==> r@ == strip_quotes_spec(v@),
{
    let ghost p: spec_fn(char) -> bool = if quote {
        |c: char| c == '"'
    } else {
        |c: char| is_space_char(c)
    };
    proof {
        assert(v@.subrange(0, v@.len() as int) =~= v@);
    }
    let mut a: usize = 0;
    while a < v.len() && edge_char(v[a], quote)
        invariant
            a <= v@.len(),
            p == (if quote {
                |c: char| c == '"'
            } else {
                |c: char| is_space_char(c)
            }),
            drop_while_front(v@, p) == drop_while_front(v@.subrange(a as int, v@.len() as int), p),
        decreases v@.len() - a,
    {
        proof {
            let s = v@.subrange(a as int, v@.len() as int);
            assert(p(s[0]));
            assert(s.drop_first() =~= v@.subrange(a as int + 1, v@.len() as int));
        }
        a = a + 1;
    }
    proof {
        let s = v@.subrange(a as int, v@.len() as int);
        if a < v@.len() {
            assert(!p(s[0]));
        }
        assert(drop_while_front(v@, p) == s);
    }
    let mut b: usize = v.len();
    while b > a && edge_char(v[b - 1], quote)
        invariant
            a <= b <= v@.len(),
            p == (if quote {
                |c: char| c == '"'
            } else {
                |c: char| is_space_char(c)
            }),
            drop_while_front(v@, p) == v@.subrange(a as int, v@.len() as int),
            drop_while_back(v@.subrange(a as int, v@.len() as int), p) == drop_while_back(
                v@.subrange(a as int, b as int),
                p,
            ),
        decreases b,
    {
        proof {
            let s = v@.subrange(a as int, b as int);
            assert(p(s[s.len() - 1]));
            assert(s.drop_last() =~= v@.subrange(a as int, b as int - 1));
        }
        b = b - 1;
    }
    proof {
        let s = v@.subrange(a as int, b as int);
        if b > a {
            assert(!p(s[s.len() - 1]));
        }
        assert(drop_while_back(v@.subrange(a as int, v@.len() as int), p) == s);
    }
    let mut r: Vec<char> = Vec::new();
    let mut i: usize = a;
    while i < b
        invariant
            a <= i <= b <= v@.len(),
            r@ == v@.subrange(a as int, i as int),
        decreases b - i,
    {
        r.push(v[i]);
        i = i + 1;
        proof {
            assert(r@ =~= v@.subrange(a as int, i as int));
        }
    }
    r
}

/// Executable trim matching `trim_spec`.
pub fn trim_chars(v: &Vec<char>) -> (r: Vec<char>)
    ensures
        r@ == trim_spec(v@),
{
    drop_around(v, false)
}

/// Executable quote stripping matching `strip_quotes_spec`.
pub fn strip_quote_chars(v: &Vec<char>) -> (r: Vec<char>)
    ensures
        r@ == strip_quotes_spec(v@),
{
    drop_around(v, true)
}

/// Relies on `core::iter::Iterator::collect` via `String`'s
/// `FromIterator<char>` impl: collecting the characters of `v` yields the
/// string whose characters are exactly `v`, in order.
#[verifier::external_body]
pub fn string_from_chars(v: &Vec<char>) -> (r: String)
    ensures
        r@ == v@,
{
    v.iter().collect()
}

/// The characters of a string, as a vector.
pub fn chars_of(s: &str) -> (r: Vec<char>)
    ensures
        r@ == s@,
{
    let n = s.unicode_len();
    let mut r: Vec<char> = Vec::new();
    let mut i: usize = 0;
    while i < n
        invariant
            n == s@.len(),
            i <= n,
            r@ == s@.subrange(0, i as int),
        decreases n - i,
    {
        r.push(s.get_char(i));
        i = i + 1;
        proof {
            assert(r@ =~= s@.subrange(0, i as int));
        }
    }
    proof {
        assert(r@ =~= s@);
    }
    r
}

} // verus!
