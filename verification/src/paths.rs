//! Filesystem path containment for interpreter script arguments.
//!
//! A candidate path is made absolute (joined onto the base directory when
//! relative), then both candidate and base are canonicalized against the
//! filesystem.  Canonicalization failure — most commonly a path that does
//! not exist — fails closed: the candidate is treated as not contained.
//! The containment test itself, over the two canonical names, is a
//! component-wise prefix check and is verified exactly.

use crate::text::{chars_of, string_from_chars};
use vstd::prelude::*;

verus! {

/// A path separator: forward slash or backslash.
pub open spec fn is_sep(c: char) -> bool {
    c == '/' || c == '\\'
}

/// An ASCII letter, as a Windows drive designator uses one.
pub open spec fn is_ascii_alpha(c: char) -> bool {
    ('a' <= c && c <= 'z') || ('A' <= c && c <= 'Z')
}

/// A path this engine treats as absolute: rooted at a separator, or a
/// drive letter followed by a colon and a separator.
pub open spec fn spec_is_absolute(s: Seq<char>) -> bool {
    (s.len() >= 1 && is_sep(s[0])) || (s.len() >= 3 && is_ascii_alpha(s[0]) && s[1] == ':'
        && is_sep(s[2]))
}

/// The separator style of a base path: backslash if the base uses any,
/// forward slash otherwise.
pub open spec fn spec_sep_of(base: Seq<char>) -> char {
    if base.contains('\\') {
        '\\'
    } else {
        '/'
    }
}

/// `base` and `name` joined: a separator is inserted unless `base` already
/// ends in one.
pub open spec fn spec_join(base: Seq<char>, name: Seq<char>) -> Seq<char> {
    if base.len() > 0 && is_sep(base[base.len() - 1]) {
        base + name
    } else {
        base.push(spec_sep_of(base)) + name
    }
}

/// The absolute form of a candidate script path against a base directory.
pub open spec fn spec_candidate(script: Seq<char>, base: Seq<char>) -> Seq<char> {
    if spec_is_absolute(script) {
        script
    } else {
        spec_join(base, script)
    }
}

/// Containment of one canonical path under another: the base is a
/// component-wise prefix of the path.
pub open spec fn spec_canonical_within(path: Seq<char>, base: Seq<char>) -> bool {
    base.len() <= path.len() && path.subrange(0, base.len() as int) == base && (path.len()
        == base.len() || is_sep(path[base.len() as int]) || (base.len() > 0 && is_sep(
        base[base.len() - 1],
    )))
}

/// Executable absoluteness test matching `spec_is_absolute`.
pub fn is_absolute_path(v: &Vec<char>) -> (r: bool)
    ensures
        r == spec_is_absolute(v@),
{
    if v.len() >= 1 && (v[0] == '/' || v[0] == '\\') {
        return true;
    }
    v.len() >= 3 && (('a' <= v[0] && v[0] <= 'z') || ('A' <= v[0] && v[0] <= 'Z')) && v[1] == ':'
        && (v[2] == '/' || v[2] == '\\')
}

/// Executable join matching `spec_join`.
pub fn join_path(base: &Vec<char>, name: &Vec<char>) -> (r: Vec<char>)
    ensures
        r@ == spec_join(base@, name@),
{
    let mut r: Vec<char> = Vec::new();
    let mut i: usize = 0;
    while i < base.len()
        invariant
            i <= base@.len(),
            r@ == base@.subrange(0, i as int),
        decreases base@.len() - i,
    {
        r.push(base[i]);
        i = i + 1;
        proof {
            assert(r@ =~= base@.subrange(0, i as int));
        }
    }
    proof {
        assert(r@ =~= base@);
    }
    let ends_sep = base.len() > 0 && (base[base.len() - 1] == '/' || base[base.len() - 1] == '\\');
    if !ends_sep {
        let mut has_backslash = false;
        let mut j: usize = 0;
        while j < base.len()
            invariant
                j <= base@.len(),
                has_backslash == base@.subrange(0, j as int).contains('\\'),
            decreases base@.len() - j,
        {
            let ghost pre = base@.subrange(0, j as int);
            if base[j] == '\\' {
                has_backslash = true;
            }
            j = j + 1;
            proof {
                let cur = base@.subrange(0, j as int);
                assert(cur =~= pre.push(base@[j - 1]));
                if base@[j - 1] == '\\' {
                    assert(cur[j - 1] == '\\');
                    assert(cur.contains('\\'));
                } else {
                    if cur.contains('\\') {
                        let k = choose|k: int| 0 <= k < cur.len() && cur[k] == '\\';
                        assert(pre[k] == '\\');
                        assert(pre.contains('\\'));
                    }
                    if pre.contains('\\') {
                        let k = choose|k: int| 0 <= k < pre.len() && pre[k] == '\\';
                        assert(cur[k] == '\\');
                        assert(cur.contains('\\'));
                    }
                }
            }
        }
        proof {
            assert(base@.subrange(0, base@.len() as int) =~= base@);
        }
        if has_backslash {
            r.push('\\');
        } else {
            r.push('/');
        }
    }
    let mut i: usize = 0;
    let ghost stem = r@;
    while i < name.len()
        invariant
            i <= name@.len(),
            r@ == stem + name@.subrange(0, i as int),
        decreases name@.len() - i,
    {
        r.push(name[i]);
        i = i + 1;
        proof {
            assert(r@ =~= stem + name@.subrange(0, i as int));
        }
    }
    proof {
        assert(stem + name@.subrange(0, name@.len() as int) =~= stem + name@);
        assert(r@ =~= spec_join(base@, name@));
    }
    r
}

/// Executable containment test over canonical names, matching
/// `spec_canonical_within`.
pub fn canonical_within(path: &Vec<char>, base: &Vec<char>) -> (r: bool)
    ensures
        r == spec_canonical_within(path@, base@),
{
    if base.len() > path.len() {
        return false;
    }
    let mut i: usize = 0;
    while i < base.len()
        invariant
            base@.len() <= path@.len(),
            i <= base@.len(),
            forall|k: int| 0 <= k < i ==> path@[k] == base@[k],
        decreases base@.len() - i,
    {
        if path[i] != base[i] {
            proof {
                assert(path@.subrange(0, base@.len() as int)[i as int] != base@[i as int]);
            }
            return false;
        }
        i = i + 1;
    }
    proof {
        assert(path@.subrange(0, base@.len() as int) =~= base@);
    }
    if path.len() == base.len() {
        return true;
    }
    if path[base.len()] == '/' || path[base.len()] == '\\' {
        return true;
    }
    base.len() > 0 && (base[base.len() - 1] == '/' || base[base.len() - 1] == '\\')
}

/// Relies on `std::path::Path::canonicalize`: the canonical, symlink-free
/// absolute form of the path, read from the filesystem; `None` when
/// resolution fails (for instance when the path does not exist).  The
/// result depends on the state of the filesystem, so nothing is assumed
/// about it.
#[verifier::external_body]
fn canonicalize_path(path: &str) -> Option<String> {
    match std::path::Path::new(path).canonicalize() {
        Ok(p) => Some(p.to_string_lossy().into_owned()),
        Err(_) => None,
    }
}

/// The fail-closed composition of the containment check: contained exactly
/// when both canonicalizations succeeded and the canonical candidate sits
/// under the canonical base.
pub fn containment_verdict(script_canon: &Option<String>, base_canon: &Option<String>) -> (r: bool)
    ensures
        r == (script_canon is Some && base_canon is Some && spec_canonical_within(
            script_canon->0@,
            base_canon->0@,
        )),
{
    match (script_canon, base_canon) {
        (Some(s), Some(b)) => {
            let sv = chars_of(s.as_str());
            let bv = chars_of(b.as_str());
            canonical_within(&sv, &bv)
        },
        _ => false,
    }
}

/// The Path Containment Checker for one base: the candidate is made
/// absolute against the base when relative, both are canonicalized, and
/// the canonical forms are compared with `containment_verdict`.  The
/// outcome depends on the filesystem; whatever the canonicalizations
/// return, the verdict is their fail-closed composition.
pub fn is_path_within_base(script_path: &str, base_dir: &str) -> (r: bool) {
    let sv = chars_of(script_path);
    let bv = chars_of(base_dir);
    let abs = if is_absolute_path(&sv) {
        sv
    } else {
        join_path(&bv, &sv)
    };
    let abs_str = string_from_chars(&abs);
    let script_canon = canonicalize_path(abs_str.as_str());
    let base_canon = canonicalize_path(base_dir);
    containment_verdict(&script_canon, &base_canon)
}

/// The candidate is contained in at least one of the sanctioned bases.
/// With no bases at all nothing is contained.
pub fn is_path_within_any_base(script_path: &str, bases: &Vec<String>) -> (r: bool)
    ensures
        bases@.len() == 0 ==> !r,
{
    let mut i: usize = 0;
    while i < bases.len()
        invariant
            i <= bases@.len(),
        decreases bases@.len() - i,
    {
        if is_path_within_base(script_path, bases[i].as_str()) {
            return true;
        }
        i = i + 1;
    }
    false
}

} // verus!
