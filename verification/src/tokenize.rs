//! The command tokenizer: a command line is split on whitespace, except
//! inside single- or double-quoted runs, where whitespace is literal.  The
//! quote characters themselves are stripped.  An unterminated quote is
//! tolerated: the rest of the input is consumed into the current token.

use crate::text::{chars_of, is_space_char, space_char, string_from_chars};
use vstd::prelude::*;

verus! {

/// One step at a time, the state of the scan is the position `i`, the two
/// quoting flags, the token being built (`cur`) and the tokens already
/// emitted (`acc`).
pub open spec fn spec_tokenize_from(
    s: Seq<char>,
    i: int,
    in_single: bool,
    in_double: bool,
    cur: Seq<char>,
    acc: Seq<Seq<char>>,
) -> Seq<Seq<char>>
    decreases s.len() - i,
{
    if i < 0 || i >= s.len() {
        if cur.len() > 0 {
            acc.push(cur)
        } else {
            acc
        }
    } else {
        let c = s[i];
        if c == '\'' && !in_double {
            spec_tokenize_from(s, i + 1, !in_single, in_double, cur, acc)
        } else if c == '"' && !in_single {
            spec_tokenize_from(s, i + 1, in_single, !in_double, cur, acc)
        } else if is_space_char(c) && !in_single && !in_double {
            if cur.len() > 0 {
                spec_tokenize_from(s, i + 1, in_single, in_double, Seq::empty(), acc.push(cur))
            } else {
                spec_tokenize_from(s, i + 1, in_single, in_double, cur, acc)
            }
        } else {
            spec_tokenize_from(s, i + 1, in_single, in_double, cur.push(c), acc)
        }
    }
}

/// The token sequence of a command line.
pub open spec fn spec_tokens(s: Seq<char>) -> Seq<Seq<char>> {
    spec_tokenize_from(s, 0, false, false, Seq::empty(), Seq::empty())
}

/// The tokenizer over a character vector.
pub fn tokenize_chars(cs: &Vec<char>) -> (r: Vec<Vec<char>>)
    ensures
        r.deep_view() == spec_tokens(cs@),
{
    let mut tokens: Vec<Vec<char>> = Vec::new();
    let mut current: Vec<char> = Vec::new();
    let mut in_single: bool = false;
    let mut in_double: bool = false;
    let mut i: usize = 0;
    proof {
        assert(tokens.deep_view() =~= Seq::<Seq<char>>::empty());
    }
    while i < cs.len()
        invariant
            i <= cs@.len(),
            spec_tokenize_from(cs@, i as int, in_single, in_double, current@, tokens.deep_view())
                == spec_tokens(cs@),
        decreases cs@.len() - i,
    {
        let c = cs[i];
        let ghost pre_tokens = tokens.deep_view();
        let ghost pre_current = current@;
        if c == '\'' && !in_double {
            in_single = !in_single;
        } else if c == '"' && !in_single {
            in_double = !in_double;
        } else if space_char(c) && !in_single && !in_double {
            if current.len() > 0 {
                tokens.push(current);
                current = Vec::new();
                proof {
                    assert(tokens.deep_view() =~~= pre_tokens.push(pre_current));
                    assert(current@ =~= Seq::<char>::empty());
                }
            }
        } else {
            current.push(c);
        }
        i = i + 1;
    }
    if current.len() > 0 {
        let ghost pre_tokens = tokens.deep_view();
        let ghost pre_current = current@;
        tokens.push(current);
        proof {
            assert(tokens.deep_view() =~~= pre_tokens.push(pre_current));
        }
    }
    tokens
}

/// The tokenizer of the engine.  Splits a raw command string into tokens,
/// honoring single and double quoting; never fails, whatever the input.
pub fn split_command_tokens(command: &str) -> (r: Vec<String>)
    ensures
        r.deep_view() == spec_tokens(command@),
{
    let cs = chars_of(command);
    let toks = tokenize_chars(&cs);
    let mut r: Vec<String> = Vec::new();
    let mut i: usize = 0;
    while i < toks.len()
        invariant
            i <= toks@.len(),
            r@.len() == i,
            forall|k: int| 0 <= k < i ==> #[trigger] r@[k]@ == toks@[k]@,
        decreases toks@.len() - i,
    {
        let t = string_from_chars(&toks[i]);
        r.push(t);
        i = i + 1;
    }
    proof {
        assert forall|k: int| 0 <= k < toks@.len() implies r.deep_view()[k] =~= toks.deep_view()[k] by {
            assert(r@[k]@ == toks@[k]@);
        }
        assert(r.deep_view() =~= toks.deep_view());
    }
    r
}

/// A character that the tokenizer always keeps: neither a quote nor
/// whitespace.
pub open spec fn plain_char(c: char) -> bool {
    c != '\'' && c != '"' && !is_space_char(c)
}

/// The scan never drops tokens already emitted.
proof fn lemma_tokenize_from_acc_len(
    s: Seq<char>,
    i: int,
    in_single: bool,
    in_double: bool,
    cur: Seq<char>,
    acc: Seq<Seq<char>>,
)
    ensures
        spec_tokenize_from(s, i, in_single, in_double, cur, acc).len() >= acc.len(),
    decreases s.len() - i,
{
    if i < 0 || i >= s.len() {
    } else {
        let c = s[i];
        if c == '\'' && !in_double {
            lemma_tokenize_from_acc_len(s, i + 1, !in_single, in_double, cur, acc);
        } else if c == '"' && !in_single {
            lemma_tokenize_from_acc_len(s, i + 1, in_single, !in_double, cur, acc);
        } else if is_space_char(c) && !in_single && !in_double {
            if cur.len() > 0 {
                lemma_tokenize_from_acc_len(
                    s,
                    i + 1,
                    in_single,
                    in_double,
                    Seq::empty(),
                    acc.push(cur),
                );
            } else {
                lemma_tokenize_from_acc_len(s, i + 1, in_single, in_double, cur, acc);
            }
        } else {
            lemma_tokenize_from_acc_len(s, i + 1, in_single, in_double, cur.push(c), acc);
        }
    }
}

/// A pending token, or any remaining plain character, guarantees that at
/// least one token comes out of the scan.
proof fn lemma_tokenize_from_nonempty(
    s: Seq<char>,
    i: int,
    in_single: bool,
    in_double: bool,
    cur: Seq<char>,
    acc: Seq<Seq<char>>,
)
    requires
        0 <= i,
        cur.len() > 0 || exists|j: int| i <= j < s.len() && #[trigger] plain_char(s[j]),
    ensures
        spec_tokenize_from(s, i, in_single, in_double, cur, acc).len() > 0,
    decreases s.len() - i,
{
    if i < 0 || i >= s.len() {
        assert(cur.len() > 0);
    } else {
        let c = s[i];
        if c == '\'' && !in_double {
            assert(!plain_char(s[i]));
            lemma_tokenize_from_nonempty(s, i + 1, !in_single, in_double, cur, acc);
        } else if c == '"' && !in_single {
            assert(!plain_char(s[i]));
            lemma_tokenize_from_nonempty(s, i + 1, in_single, !in_double, cur, acc);
        } else if is_space_char(c) && !in_single && !in_double {
            if cur.len() > 0 {
                lemma_tokenize_from_acc_len(
                    s,
                    i + 1,
                    in_single,
                    in_double,
                    Seq::empty(),
                    acc.push(cur),
                );
            } else {
                assert(!plain_char(s[i]));
                lemma_tokenize_from_nonempty(s, i + 1, in_single, in_double, cur, acc);
            }
        } else {
            lemma_tokenize_from_nonempty(s, i + 1, in_single, in_double, cur.push(c), acc);
        }
    }
}

/// Law of the tokenizer: it is total (it never raises an error), and any
/// input holding at least one ordinary character — in particular an input
/// with an unterminated quote around ordinary characters — yields a
/// non-empty token list.
pub proof fn lemma_tokens_nonempty(s: Seq<char>)
    requires
        exists|j: int| 0 <= j < s.len() && #[trigger] plain_char(s[j]),
    ensures
        spec_tokens(s).len() > 0,
{
    lemma_tokenize_from_nonempty(s, 0, false, false, Seq::empty(), Seq::empty());
}

} // verus!
