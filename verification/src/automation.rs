//! Pure helpers for the UI-automation side of the host: shell escaping
//! for generated scripts, key-combination mapping, candidate-list
//! deduplication, and message-channel normalization.  All of them are
//! plain text transformations, verified exactly; the process spawning
//! they feed stays outside the library.

use crate::text::{chars_of, contains_chars, has_substr, lower_seq, lower_vec, string_from_chars,
    strip_quote_chars, strip_quotes_spec, trim_chars, trim_spec, vec_eq_chars, vec_eq_str};
use vstd::prelude::*;
use vstd::string::StringExecFns;

verus! {

/// One character of an AppleScript string literal: backslashes and double
/// quotes are escaped with a backslash.
pub open spec fn applescript_escape_char(c: char) -> Seq<char> {
    if c == '\\' {
        seq!['\\', '\\']
    } else if c == '"' {
        seq!['\\', '"']
    } else {
        seq![c]
    }
}

/// The AppleScript escaping of a whole string.
pub open spec fn spec_escape_applescript(s: Seq<char>) -> Seq<char>
    decreases s.len(),
{
    if s.len() == 0 {
        Seq::empty()
    } else {
        spec_escape_applescript(s.drop_last()) + applescript_escape_char(s.last())
    }
}

/// One character of a PowerShell single-quoted literal: a single quote is
/// doubled.
pub open spec fn ps_escape_char(c: char) -> Seq<char> {
    if c == '\'' {
        seq!['\'', '\'']
    } else {
        seq![c]
    }
}

/// The PowerShell single-quote escaping of a whole string.
pub open spec fn spec_escape_ps(s: Seq<char>) -> Seq<char>
    decreases s.len(),
{
    if s.len() == 0 {
        Seq::empty()
    } else {
        spec_escape_ps(s.drop_last()) + ps_escape_char(s.last())
    }
}

/// One character of a POSIX-shell single-quoted literal: a single quote
/// becomes quote, double-quoted quote, quote.
pub open spec fn sh_escape_char(c: char) -> Seq<char> {
    if c == '\'' {
        seq!['\'', '"', '\'', '"', '\'']
    } else {
        seq![c]
    }
}

/// The POSIX-shell single-quote escaping of a whole string.
pub open spec fn spec_escape_sh(s: Seq<char>) -> Seq<char>
    decreases s.len(),
{
    if s.len() == 0 {
        Seq::empty()
    } else {
        spec_escape_sh(s.drop_last()) + sh_escape_char(s.last())
    }
}

/// Escapes a string for embedding in an AppleScript string literal,
/// matching `spec_escape_applescript`.
pub fn escape_applescript_string(value: &str) -> (r: String)
    ensures
        r@ == spec_escape_applescript(value@),
{
    let cs = chars_of(value);
    let mut out: Vec<char> = Vec::new();
    let mut i: usize = 0;
    proof {
        assert(cs@.subrange(0, 0) =~= Seq::<char>::empty());
    }
    while i < cs.len()
        invariant
            i <= cs@.len(),
            out@ == spec_escape_applescript(cs@.subrange(0, i as int)),
        decreases cs@.len() - i,
    {
        let c = cs[i];
        if c == '\\' {
            out.push('\\');
            out.push('\\');
        } else if c == '"' {
            out.push('\\');
            out.push('"');
        } else {
            out.push(c);
        }
        i = i + 1;
        proof {
            let pre = cs@.subrange(0, i - 1);
            let cur = cs@.subrange(0, i as int);
            assert(cur.drop_last() =~= pre);
            assert(out@ =~= spec_escape_applescript(pre) + applescript_escape_char(cs@[i - 1]));
        }
    }
    proof {
        assert(cs@.subrange(0, cs@.len() as int) =~= cs@);
    }
    string_from_chars(&out)
}

/// Escapes a string for a PowerShell single-quoted literal, matching
/// `spec_escape_ps`.
pub fn escape_ps_single_quoted(value: &str) -> (r: String)
    ensures
        r@ == spec_escape_ps(value@),
{
    let cs = chars_of(value);
    let mut out: Vec<char> = Vec::new();
    let mut i: usize = 0;
    proof {
        assert(cs@.subrange(0, 0) =~= Seq::<char>::empty());
    }
    while i < cs.len()
        invariant
            i <= cs@.len(),
            out@ == spec_escape_ps(cs@.subrange(0, i as int)),
        decreases cs@.len() - i,
    {
        let c = cs[i];
        if c == '\'' {
            out.push('\'');
            out.push('\'');
        } else {
            out.push(c);
        }
        i = i + 1;
        proof {
            let pre = cs@.subrange(0, i - 1);
            let cur = cs@.subrange(0, i as int);
            assert(cur.drop_last() =~= pre);
            assert(out@ =~= spec_escape_ps(pre) + ps_escape_char(cs@[i - 1]));
        }
    }
    proof {
        assert(cs@.subrange(0, cs@.len() as int) =~= cs@);
    }
    string_from_chars(&out)
}

/// Escapes a string for a POSIX-shell single-quoted literal, matching
/// `spec_escape_sh`.
pub fn escape_sh_single_quoted(value: &str) -> (r: String)
    ensures
        r@ == spec_escape_sh(value@),
{
    let cs = chars_of(value);
    let mut out: Vec<char> = Vec::new();
    let mut i: usize = 0;
    proof {
        assert(cs@.subrange(0, 0) =~= Seq::<char>::empty());
    }
    while i < cs.len()
        invariant
            i <= cs@.len(),
            out@ == spec_escape_sh(cs@.subrange(0, i as int)),
        decreases cs@.len() - i,
    {
        let c = cs[i];
        if c == '\'' {
            out.push('\'');
            out.push('"');
            out.push('\'');
            out.push('"');
            out.push('\'');
        } else {
            out.push(c);
        }
        i = i + 1;
        proof {
            let pre = cs@.subrange(0, i - 1);
            let cur = cs@.subrange(0, i as int);
            assert(cur.drop_last() =~= pre);
            assert(out@ =~= spec_escape_sh(pre) + sh_escape_char(cs@[i - 1]));
        }
    }
    proof {
        assert(cs@.subrange(0, cs@.len() as int) =~= cs@);
    }
    string_from_chars(&out)
}

/// One step of the key scan: a modifier key appends its sigil to the
/// modifier string; any other key (lowercased and trimmed) replaces the
/// main key.
pub open spec fn sendkeys_step(state: (Seq<char>, Seq<char>), key: Seq<char>) -> (Seq<char>, Seq<
    char,
>) {
    let k = lower_seq(trim_spec(key));
    if k == "ctrl"@ || k == "control"@ || k == "cmd"@ || k == "command"@ {
        (state.0.push('^'), state.1)
    } else if k == "alt"@ || k == "option"@ {
        (state.0.push('%'), state.1)
    } else if k == "shift"@ {
        (state.0.push('+'), state.1)
    } else {
        (state.0, k)
    }
}

/// The accumulated modifier sigils and main key after the first `i` keys.
pub open spec fn spec_sendkeys_state(keys: Seq<Seq<char>>, i: int) -> (Seq<char>, Seq<char>)
    decreases i,
{
    if i <= 0 {
        (Seq::empty(), Seq::empty())
    } else {
        sendkeys_step(spec_sendkeys_state(keys, i - 1), keys[i - 1])
    }
}

/// The notation for the main key: named keys map to their braced form,
/// space to a blank, anything else to its first character.
pub open spec fn spec_sendkeys_main(main: Seq<char>) -> Seq<char> {
    if main == "enter"@ {
        "{ENTER}"@
    } else if main == "tab"@ {
        "{TAB}"@
    } else if main == "esc"@ || main == "escape"@ {
        "{ESC}"@
    } else if main == "space"@ {
        " "@
    } else if main == "left"@ {
        "{LEFT}"@
    } else if main == "right"@ {
        "{RIGHT}"@
    } else if main == "up"@ {
        "{UP}"@
    } else if main == "down"@ {
        "{DOWN}"@
    } else if main.len() > 0 {
        seq![main[0]]
    } else {
        Seq::empty()
    }
}

/// The keystroke notation for a key combination: the modifier sigils,
/// then the main key; the sigils alone when no main key was named.
pub open spec fn spec_to_windows_sendkeys(keys: Seq<Seq<char>>) -> Seq<char> {
    let state = spec_sendkeys_state(keys, keys.len() as int);
    if state.1.len() == 0 {
        state.0
    } else {
        state.0 + spec_sendkeys_main(state.1)
    }
}

/// Maps a key combination to the keystroke notation of the Windows
/// automation shell, matching `spec_to_windows_sendkeys`.
pub fn to_windows_sendkeys(keys: &Vec<String>) -> (r: String)
    ensures
        r@ == spec_to_windows_sendkeys(keys.deep_view()),
{
    let mut modifiers: Vec<char> = Vec::new();
    let mut main_key: Vec<char> = Vec::new();
    let mut i: usize = 0;
    while i < keys.len()
        invariant
            i <= keys@.len(),
            (modifiers@, main_key@) == spec_sendkeys_state(keys.deep_view(), i as int),
        decreases keys@.len() - i,
    {
        proof {
            assert(keys.deep_view()[i as int] =~= keys@[i as int]@);
        }
        let tv = trim_chars(&chars_of(keys[i].as_str()));
        let lv = lower_vec(&tv);
        if vec_eq_str(&lv, "ctrl") || vec_eq_str(&lv, "control") || vec_eq_str(&lv, "cmd")
            || vec_eq_str(&lv, "command") {
            modifiers.push('^');
        } else if vec_eq_str(&lv, "alt") || vec_eq_str(&lv, "option") {
            modifiers.push('%');
        } else if vec_eq_str(&lv, "shift") {
            modifiers.push('+');
        } else {
            main_key = lv;
        }
        i = i + 1;
    }
    if main_key.len() == 0 {
        return string_from_chars(&modifiers);
    }
    let mut out = modifiers;
    if vec_eq_str(&main_key, "enter") {
        append_str_chars(&mut out, "{ENTER}");
    } else if vec_eq_str(&main_key, "tab") {
        append_str_chars(&mut out, "{TAB}");
    } else if vec_eq_str(&main_key, "esc") || vec_eq_str(&main_key, "escape") {
        append_str_chars(&mut out, "{ESC}");
    } else if vec_eq_str(&main_key, "space") {
        append_str_chars(&mut out, " ");
    } else if vec_eq_str(&main_key, "left") {
        append_str_chars(&mut out, "{LEFT}");
    } else if vec_eq_str(&main_key, "right") {
        append_str_chars(&mut out, "{RIGHT}");
    } else if vec_eq_str(&main_key, "up") {
        append_str_chars(&mut out, "{UP}");
    } else if vec_eq_str(&main_key, "down") {
        append_str_chars(&mut out, "{DOWN}");
    } else {
        out.push(main_key[0]);
        proof {
            assert(out@ =~= spec_sendkeys_state(keys.deep_view(), keys.deep_view().len() as int).0
                + spec_sendkeys_main(main_key@));
        }
    }
    string_from_chars(&out)
}

/// Appends the characters of a string to a character vector.
fn append_str_chars(out: &mut Vec<char>, s: &str)
    ensures
        final(out)@ == old(out)@ + s@,
{
    let cs = chars_of(s);
    let ghost stem = out@;
    let mut i: usize = 0;
    while i < cs.len()
        invariant
            i <= cs@.len(),
            out@ == stem + cs@.subrange(0, i as int),
        decreases cs@.len() - i,
    {
        out.push(cs[i]);
        i = i + 1;
        proof {
            assert(out@ =~= stem + cs@.subrange(0, i as int));
        }
    }
    proof {
        assert(stem + cs@.subrange(0, cs@.len() as int) =~= stem + cs@);
    }
}

/// A candidate value, normalized: whitespace trimmed, then surrounding
/// double quotes stripped.
pub open spec fn spec_normalize_candidate(v: Seq<char>) -> Seq<char> {
    strip_quotes_spec(trim_spec(v))
}

/// The candidate list already holds the value, compared
/// case-insensitively.
pub open spec fn spec_has_candidate(cands: Seq<Seq<char>>, n: Seq<char>) -> bool {
    exists|i: int| 0 <= i < cands.len() && #[trigger] lower_seq(cands[i]) == lower_seq(n)
}

/// Appends a normalized candidate to the list, unless it normalizes to
/// nothing or a case-insensitive duplicate is already present.
pub fn push_candidate(candidates: &mut Vec<String>, value: String)
    ensures
        spec_normalize_candidate(value@).len() == 0 ==> final(candidates)@ == old(candidates)@,
        spec_normalize_candidate(value@).len() > 0 && spec_has_candidate(
            old(candidates).deep_view(),
            spec_normalize_candidate(value@),
        ) ==> final(candidates)@ == old(candidates)@,
        spec_normalize_candidate(value@).len() > 0 && !spec_has_candidate(
            old(candidates).deep_view(),
            spec_normalize_candidate(value@),
        ) ==> final(candidates).deep_view() == old(candidates).deep_view().push(
            spec_normalize_candidate(value@),
        ),
{
    let cv = chars_of(value.as_str());
    let tv = trim_chars(&cv);
    let nv = strip_quote_chars(&tv);
    if nv.len() == 0 {
        return ;
    }
    let nl = lower_vec(&nv);
    let mut i: usize = 0;
    while i < candidates.len()
        invariant
            i <= candidates@.len(),
            nv@ == spec_normalize_candidate(value@),
            nl@ == lower_seq(nv@),
            forall|k: int|
                0 <= k < i ==> #[trigger] lower_seq(candidates.deep_view()[k]) != lower_seq(nv@),
        decreases candidates@.len() - i,
    {
        proof {
            assert(candidates.deep_view()[i as int] =~= candidates@[i as int]@);
        }
        let lv = lower_vec(&chars_of(candidates[i].as_str()));
        if vec_eq_chars(&lv, &nl) {
            proof {
                assert(lower_seq(candidates.deep_view()[i as int]) == lower_seq(nv@));
            }
            return ;
        }
        i = i + 1;
    }
    let ghost pre = candidates.deep_view();
    candidates.push(string_from_chars(&nv));
    proof {
        assert(candidates.deep_view() =~~= pre.push(nv@));
    }
}

/// The canonical name of a desktop message channel: any alias of the
/// enterprise-chat, ding-chat or lark-chat products maps to its canonical
/// name, and anything unrecognized falls back to the lark channel.
pub open spec fn spec_normalize_channel(s: Seq<char>) -> Seq<char> {
    let raw = lower_seq(trim_spec(s));
    if has_substr(raw, "wecom"@) || has_substr(raw, "wxwork"@) || has_substr(raw, "企业微信"@) {
        "wecom"@
    } else if has_substr(raw, "dingtalk"@) || has_substr(raw, "钉钉"@) {
        "dingtalk"@
    } else {
        "feishu"@
    }
}

/// Maps a channel alias to its canonical name, matching
/// `spec_normalize_channel`.
pub fn normalize_message_channel(channel: &str) -> (r: String)
    ensures
        r@ == spec_normalize_channel(channel@),
{
    let cv = chars_of(channel);
    let tv = trim_chars(&cv);
    let raw = lower_vec(&tv);
    if contains_chars(&raw, &chars_of("wecom")) || contains_chars(&raw, &chars_of("wxwork"))
        || contains_chars(&raw, &chars_of("企业微信")) {
        return String::from_str("wecom");
    }
    if contains_chars(&raw, &chars_of("dingtalk")) || contains_chars(&raw, &chars_of("钉钉")) {
        return String::from_str("dingtalk");
    }
    String::from_str("feishu")
}

/// The executable name and the window-activation name of a canonical
/// message channel.
pub open spec fn spec_channel_app_names(s: Seq<char>) -> (Seq<char>, Seq<char>) {
    if s == "wecom"@ {
        ("wecom"@, "企业微信"@)
    } else if s == "dingtalk"@ {
        ("dingtalk"@, "钉钉"@)
    } else {
        ("feishu"@, "飞书"@)
    }
}

/// Returns the executable name and the activation name for a canonical
/// channel, matching `spec_channel_app_names`.
pub fn channel_app_names(channel: &str) -> (r: (&'static str, &'static str))
    ensures
        (r.0@, r.1@) == spec_channel_app_names(channel@),
{
    let cv = chars_of(channel);
    if vec_eq_str(&cv, "wecom") {
        ("wecom", "企业微信")
    } else if vec_eq_str(&cv, "dingtalk") {
        ("dingtalk", "钉钉")
    } else {
        ("feishu", "飞书")
    }
}

} // verus!
