//! The policy stages and the decision function.
//!
//! Every stage has an exact specification over the character sequence of
//! the raw command.  The one filesystem-dependent input — whether the
//! interpreter script path canonicalizes into a sanctioned base — enters
//! the decision specification as an explicit boolean, so the whole verdict
//! is pinned down for each value of that answer.

use crate::config::{allowed_script_bases, PolicyConfig, PolicyMode};
use crate::paths::is_path_within_any_base;
use crate::text::{chars_of, contains_chars, has_substr, lower_char, lower_seq, lower_vec, string_from_chars,
    vec_eq_str};
use crate::tokenize::{spec_tokens, split_command_tokens, tokenize_chars};
use vstd::prelude::*;
use vstd::string::StringExecFns;

verus! {

/// Why a command was denied: the stage that rejected it.
#[derive(Clone, Copy, Debug, PartialEq, Eq, Structural)]
pub enum DenyReason {
    /// The command matched the static blocklist of destructive actions.
    Blocklisted,
    /// The command contains a chaining, piping or redirection
    /// metacharacter.
    ShellChaining,
    /// The leading token is not an allowlisted program name.
    UnlistedPrefix,
    /// An interpreter was invoked with an inline-execution flag, with a
    /// standard-input script, or with a script outside the sanctioned
    /// directories.
    InterpreterArgs,
    /// A multi-purpose CLI was invoked with a subcommand outside its
    /// read-only subset.
    Subcommand,
}

/// The admission decision for one command.
#[derive(Clone, Copy, Debug, PartialEq, Eq, Structural)]
pub enum Verdict {
    Allow,
    Deny(DenyReason),
}

/// The raw command, lowercased, holds a shell chaining, piping or
/// redirection metacharacter.
pub open spec fn spec_has_chaining(s: Seq<char>) -> bool {
    let l = lower_seq(s);
    has_substr(l, "&&"@) || has_substr(l, "||"@) || has_substr(l, ";"@) || has_substr(l, "|"@)
        || has_substr(l, ">"@) || has_substr(l, "<"@)
}

/// The Metacharacter Scanner: runs on the raw string, since
/// metacharacters may sit unquoted next to tokens.
pub fn has_shell_chaining(command: &str) -> (r: bool)
    ensures
        r == spec_has_chaining(command@),
{
    let cs = chars_of(command);
    let l = lower_vec(&cs);
    contains_chars(&l, &chars_of("&&")) || contains_chars(&l, &chars_of("||")) || contains_chars(
        &l,
        &chars_of(";"),
    ) || contains_chars(&l, &chars_of("|")) || contains_chars(&l, &chars_of(">"))
        || contains_chars(&l, &chars_of("<"))
}

/// The raw command, lowercased, holds a substring from the static
/// blocklist of destructive actions: disk formatting, recursive root
/// deletion, registry and boot-configuration edits, shutdown.
pub open spec fn spec_blocked(s: Seq<char>) -> bool {
    let l = lower_seq(s);
    has_substr(l, "format"@) || has_substr(l, "del /s /q c:"@) || has_substr(l, "rm -rf /"@)
        || has_substr(l, "rmdir /s /q c:"@) || has_substr(l, "shutdown"@) || has_substr(
        l,
        "reg delete"@,
    ) || has_substr(l, "bcdedit"@) || has_substr(l, "diskpart"@)
}

/// The Static Blocklist: applied first and in every mode.
pub fn is_blocked_command(command: &str) -> (r: bool)
    ensures
        r == spec_blocked(command@),
{
    let cs = chars_of(command);
    let l = lower_vec(&cs);
    contains_chars(&l, &chars_of("format")) || contains_chars(&l, &chars_of("del /s /q c:"))
        || contains_chars(&l, &chars_of("rm -rf /")) || contains_chars(
        &l,
        &chars_of("rmdir /s /q c:"),
    ) || contains_chars(&l, &chars_of("shutdown")) || contains_chars(&l, &chars_of("reg delete"))
        || contains_chars(&l, &chars_of("bcdedit")) || contains_chars(&l, &chars_of("diskpart"))
}

/// Membership in the fixed allowlist of program names: shell built-ins
/// for listing and printing, plus a curated set of developer tools.
/// Exact match only, so no wrapper-name bypasses.
pub open spec fn spec_allowed_prefix(tok: Seq<char>) -> bool {
    tok == "dir"@ || tok == "ls"@ || tok == "pwd"@ || tok == "echo"@ || tok == "type"@ || tok
        == "cat"@ || tok == "where"@ || tok == "whoami"@ || tok == "tasklist"@ || tok == "python"@
        || tok == "py"@ || tok == "node"@ || tok == "npm"@ || tok == "pnpm"@ || tok == "pip"@ || tok
        == "uv"@ || tok == "git"@
}

/// The leading token of the command, lowercased; the empty sequence when
/// the command has no tokens at all.
pub open spec fn spec_first_token_lower(s: Seq<char>) -> Seq<char> {
    if spec_tokens(s).len() > 0 {
        lower_seq(spec_tokens(s)[0])
    } else {
        Seq::empty()
    }
}

/// Membership test for the allowlist, over an already-lowercased token.
fn allowed_prefix(tok: &Vec<char>) -> (r: bool)
    ensures
        r == spec_allowed_prefix(tok@),
{
    vec_eq_str(tok, "dir") || vec_eq_str(tok, "ls") || vec_eq_str(tok, "pwd") || vec_eq_str(
        tok,
        "echo",
    ) || vec_eq_str(tok, "type") || vec_eq_str(tok, "cat") || vec_eq_str(tok, "where")
        || vec_eq_str(tok, "whoami") || vec_eq_str(tok, "tasklist") || vec_eq_str(tok, "python")
        || vec_eq_str(tok, "py") || vec_eq_str(tok, "node") || vec_eq_str(tok, "npm") || vec_eq_str(
        tok,
        "pnpm",
    ) || vec_eq_str(tok, "pip") || vec_eq_str(tok, "uv") || vec_eq_str(tok, "git")
}

/// The leading token of the command, lowercased, as a vector.
fn first_token_lower(command: &str) -> (r: Vec<char>)
    ensures
        r@ == spec_first_token_lower(command@),
{
    let cs = chars_of(command);
    let toks = tokenize_chars(&cs);
    if toks.len() > 0 {
        proof {
            assert(toks.deep_view()[0] =~= toks@[0]@);
        }
        lower_vec(&toks[0])
    } else {
        let r: Vec<char> = Vec::new();
        proof {
            assert(r@ =~= Seq::<char>::empty());
        }
        r
    }
}

/// The Prefix Allowlist: the lowercased first token must exactly equal an
/// allowlisted program name.
pub fn is_whitelisted_command(command: &str) -> (r: bool)
    ensures
        r == spec_allowed_prefix(spec_first_token_lower(command@)),
{
    let first = first_token_lower(command);
    allowed_prefix(&first)
}

/// A recognized script interpreter, over the lowercased program token.
pub open spec fn spec_is_interpreter(cmd: Seq<char>) -> bool {
    cmd == "python"@ || cmd == "py"@ || cmd == "node"@
}

/// The first token after the program name that is not a flag, scanning
/// from position `i`.  A flag starts with the flag prefix and has more
/// behind it; the bare `-` — the standard-input stand-in — is no flag, so
/// it stays eligible as the script token and the guard can reject it.
pub open spec fn spec_first_nonflag(toks: Seq<Seq<char>>, i: int) -> Option<Seq<char>>
    decreases toks.len() - i,
{
    if i < 1 || i >= toks.len() {
        Option::None
    } else if !(toks[i].len() >= 2 && toks[i][0] == '-') {
        Option::Some(toks[i])
    } else {
        spec_first_nonflag(toks, i + 1)
    }
}

/// The script path argument of an interpreter command: the first
/// non-flag argument, and nothing for a non-interpreter program.
pub open spec fn spec_first_script(cmd: Seq<char>, toks: Seq<Seq<char>>) -> Option<Seq<char>> {
    if spec_is_interpreter(cmd) {
        spec_first_nonflag(toks, 1)
    } else {
        Option::None
    }
}

/// Selects the script path argument of an interpreter command, matching
/// `spec_first_script`.  `cmd` is the lowercased program token.
pub fn first_script_token(cmd: &str, tokens: &Vec<String>) -> (r: Option<String>)
    ensures
        r.deep_view() == spec_first_script(cmd@, tokens.deep_view()),
{
    let cv = chars_of(cmd);
    let interp = vec_eq_str(&cv, "python") || vec_eq_str(&cv, "py") || vec_eq_str(&cv, "node");
    if !interp {
        return Option::None;
    }
    let mut i: usize = 1;
    while i < tokens.len()
        invariant
            1 <= i,
            i <= tokens@.len() || i == 1,
            spec_is_interpreter(cmd@),
            spec_first_nonflag(tokens.deep_view(), 1) == spec_first_nonflag(
                tokens.deep_view(),
                i as int,
            ),
        decreases tokens@.len() - i,
    {
        let tv = chars_of(tokens[i].as_str());
        proof {
            assert(tokens.deep_view()[i as int] =~= tokens@[i as int]@);
        }
        if !(tv.len() >= 2 && tv[0] == '-') {
            let picked = tokens[i].clone();
            proof {
                let dv = tokens.deep_view();
                assert(!(dv[i as int].len() >= 2 && dv[i as int][0] == '-'));
                assert(spec_first_nonflag(dv, i as int) == Option::Some(dv[i as int]));
                assert(picked@ == dv[i as int]);
            }
            return Option::Some(picked);
        }
        i = i + 1;
    }
    Option::None
}

/// A flag that makes a Python interpreter execute inline code, load a
/// module, or enter the interactive loop (compared case-insensitively).
pub open spec fn spec_python_flag(t: Seq<char>) -> bool {
    lower_seq(t) == "-c"@ || lower_seq(t) == "-m"@ || lower_seq(t) == "-i"@
}

/// A flag that makes a Node interpreter evaluate or print inline code
/// (compared case-insensitively).
pub open spec fn spec_node_flag(t: Seq<char>) -> bool {
    lower_seq(t) == "-e"@ || lower_seq(t) == "--eval"@ || lower_seq(t) == "-p"@ || lower_seq(t)
        == "--print"@
}

/// An interpreter command carries an inline-execution flag somewhere in
/// its tokens.
pub open spec fn spec_has_inline_flags(cmd: Seq<char>, toks: Seq<Seq<char>>) -> bool {
    if cmd == "python"@ || cmd == "py"@ {
        exists|i: int| 0 <= i < toks.len() && #[trigger] spec_python_flag(toks[i])
    } else if cmd == "node"@ {
        exists|i: int| 0 <= i < toks.len() && #[trigger] spec_node_flag(toks[i])
    } else {
        false
    }
}

/// Tests one token against the Python inline-execution flags.
fn python_flag(t: &String) -> (r: bool)
    ensures
        r == spec_python_flag(t@),
{
    let tv = chars_of(t.as_str());
    let lv = lower_vec(&tv);
    vec_eq_str(&lv, "-c") || vec_eq_str(&lv, "-m") || vec_eq_str(&lv, "-i")
}

/// Tests one token against the Node inline-execution flags.
fn node_flag(t: &String) -> (r: bool)
    ensures
        r == spec_node_flag(t@),
{
    let tv = chars_of(t.as_str());
    let lv = lower_vec(&tv);
    vec_eq_str(&lv, "-e") || vec_eq_str(&lv, "--eval") || vec_eq_str(&lv, "-p") || vec_eq_str(
        &lv,
        "--print",
    )
}

/// Scans the tokens for an inline-execution flag of the interpreter named
/// by the lowercased program token, matching `spec_has_inline_flags`.
fn has_inline_flags(cmd: &str, tokens: &Vec<String>) -> (r: bool)
    ensures
        r == spec_has_inline_flags(cmd@, tokens.deep_view()),
{
    let cv = chars_of(cmd);
    let python = vec_eq_str(&cv, "python") || vec_eq_str(&cv, "py");
    let node = vec_eq_str(&cv, "node");
    if !python && !node {
        return false;
    }
    let mut i: usize = 0;
    while i < tokens.len()
        invariant
            i <= tokens@.len(),
            python == (cmd@ == "python"@ || cmd@ == "py"@),
            node == (cmd@ == "node"@),
            python || node,
            python ==> forall|k: int|
                0 <= k < i ==> !#[trigger] spec_python_flag(tokens.deep_view()[k]),
            !python ==> forall|k: int|
                0 <= k < i ==> !#[trigger] spec_node_flag(tokens.deep_view()[k]),
        decreases tokens@.len() - i,
    {
        proof {
            assert(tokens.deep_view()[i as int] =~= tokens@[i as int]@);
        }
        if python {
            if python_flag(&tokens[i]) {
                proof {
                    assert(spec_python_flag(tokens.deep_view()[i as int]));
                }
                return true;
            }
            proof {
                assert(!spec_python_flag(tokens.deep_view()[i as int]));
            }
        } else {
            if node_flag(&tokens[i]) {
                proof {
                    assert(spec_node_flag(tokens.deep_view()[i as int]));
                }
                return true;
            }
            proof {
                assert(!spec_node_flag(tokens.deep_view()[i as int]));
            }
        }
        i = i + 1;
    }
    false
}

/// A read-only subcommand of the version-control client.
pub open spec fn spec_git_sub(sub: Seq<char>) -> bool {
    sub == "status"@ || sub == "log"@ || sub == "diff"@ || sub == "show"@ || sub == "branch"@ || sub
        == "rev-parse"@ || sub == "ls-files"@
}

/// The second token of the command, lowercased; empty when there is none.
pub open spec fn spec_second_token_lower(toks: Seq<Seq<char>>) -> Seq<char> {
    if toks.len() > 1 {
        lower_seq(toks[1])
    } else {
        Seq::empty()
    }
}

/// A version or help query flag of a package-manager-style tool
/// (compared case-insensitively).
pub open spec fn spec_version_help_flag(t: Seq<char>) -> bool {
    lower_seq(t) == "--version"@ || lower_seq(t) == "-v"@ || lower_seq(t) == "help"@ || lower_seq(t)
        == "--help"@
}

/// The Subcommand Filter: the version-control client is limited to a
/// fixed read-only verb subset; package managers must carry a version or
/// help flag; any other program passes this stage unrestricted.
pub open spec fn spec_subcommand_ok(cmd: Seq<char>, toks: Seq<Seq<char>>) -> bool {
    if cmd == "git"@ {
        spec_git_sub(spec_second_token_lower(toks))
    } else if cmd == "npm"@ || cmd == "pnpm"@ || cmd == "pip"@ || cmd == "uv"@ {
        exists|i: int| 0 <= i < toks.len() && #[trigger] spec_version_help_flag(toks[i])
    } else {
        true
    }
}

/// Tests one token against the version and help query flags.
fn version_help_flag(t: &String) -> (r: bool)
    ensures
        r == spec_version_help_flag(t@),
{
    let tv = chars_of(t.as_str());
    let lv = lower_vec(&tv);
    vec_eq_str(&lv, "--version") || vec_eq_str(&lv, "-v") || vec_eq_str(&lv, "help") || vec_eq_str(
        &lv,
        "--help",
    )
}

/// The Subcommand Filter, matching `spec_subcommand_ok`.  `cmd` is the
/// lowercased program token.
pub fn is_allowed_subcommand(cmd: &str, tokens: &Vec<String>) -> (r: bool)
    ensures
        r == spec_subcommand_ok(cmd@, tokens.deep_view()),
{
    let cv = chars_of(cmd);
    if vec_eq_str(&cv, "git") {
        let sub: Vec<char> = if tokens.len() > 1 {
            proof {
                assert(tokens.deep_view()[1] =~= tokens@[1]@);
            }
            let tv = chars_of(tokens[1].as_str());
            lower_vec(&tv)
        } else {
            Vec::new()
        };
        proof {
            if tokens@.len() <= 1 {
                assert(sub@ =~= Seq::<char>::empty());
            }
        }
        return vec_eq_str(&sub, "status") || vec_eq_str(&sub, "log") || vec_eq_str(&sub, "diff")
            || vec_eq_str(&sub, "show") || vec_eq_str(&sub, "branch") || vec_eq_str(
            &sub,
            "rev-parse",
        ) || vec_eq_str(&sub, "ls-files");
    }
    if vec_eq_str(&cv, "npm") || vec_eq_str(&cv, "pnpm") || vec_eq_str(&cv, "pip") || vec_eq_str(
        &cv,
        "uv",
    ) {
        let mut i: usize = 0;
        while i < tokens.len()
            invariant
                i <= tokens@.len(),
                cmd@ != "git"@,
                cmd@ == "npm"@ || cmd@ == "pnpm"@ || cmd@ == "pip"@ || cmd@ == "uv"@,
                forall|k: int|
                    0 <= k < i ==> !#[trigger] spec_version_help_flag(tokens.deep_view()[k]),
            decreases tokens@.len() - i,
        {
            proof {
                assert(tokens.deep_view()[i as int] =~= tokens@[i as int]@);
            }
            if version_help_flag(&tokens[i]) {
                proof {
                    assert(spec_version_help_flag(tokens.deep_view()[i as int]));
                }
                return true;
            }
            proof {
                assert(!spec_version_help_flag(tokens.deep_view()[i as int]));
            }
            i = i + 1;
        }
        return false;
    }
    true
}

/// The Interpreter Argument Guard, as a predicate over the one
/// filesystem-dependent answer: an interpreter command is forbidden when
/// it carries an inline-execution flag, when its script argument is the
/// standard-input stand-in, or when the script path is not contained in
/// any sanctioned base (`contained` false).
pub open spec fn spec_forbidden_args(cmd: Seq<char>, toks: Seq<Seq<char>>, contained: bool) -> bool {
    spec_has_inline_flags(cmd, toks) || (match spec_first_script(cmd, toks) {
        Option::Some(t) => t == "-"@ || !contained,
        Option::None => false,
    })
}

/// The Interpreter Argument Guard.  `cmd` is the lowercased program
/// token; `bases` the sanctioned directories for this call.  The stage is
/// exact but for the filesystem answer: some containment answer `c`
/// explains the result, and every input that needs no filesystem at all
/// is pinned down unconditionally.
pub fn has_forbidden_args(cmd: &str, tokens: &Vec<String>, bases: &Vec<String>) -> (r: bool)
    ensures
        exists|c: bool| r == spec_forbidden_args(cmd@, tokens.deep_view(), c),
        spec_has_inline_flags(cmd@, tokens.deep_view()) ==> r,
        spec_first_script(cmd@, tokens.deep_view()) == Option::Some("-"@) ==> r,
        !spec_has_inline_flags(cmd@, tokens.deep_view()) && spec_first_script(
            cmd@,
            tokens.deep_view(),
        ) is None ==> !r,
{
    if has_inline_flags(cmd, tokens) {
        proof {
            assert(true == spec_forbidden_args(cmd@, tokens.deep_view(), true));
        }
        return true;
    }
    let script = first_script_token(cmd, tokens);
    match script {
        Option::Some(s) => {
            let sv = chars_of(s.as_str());
            if vec_eq_str(&sv, "-") {
                proof {
                    assert(true == spec_forbidden_args(cmd@, tokens.deep_view(), true));
                }
                return true;
            }
            let within = is_path_within_any_base(s.as_str(), bases);
            proof {
                assert(!within == spec_forbidden_args(cmd@, tokens.deep_view(), within));
            }
            !within
        },
        Option::None => {
            proof {
                assert(false == spec_forbidden_args(cmd@, tokens.deep_view(), true));
            }
            false
        },
    }
}

/// The Policy Decision Function, over the raw command, the operating
/// mode, and the containment answer the filesystem gave for the script
/// path (irrelevant when no script path is checked): a short-circuiting
/// conjunction of the stages.  The blocklist is enforced in every mode;
/// the legacy mode disables everything else.
pub open spec fn spec_decide(s: Seq<char>, mode: PolicyMode, contained: bool) -> Verdict {
    if spec_blocked(s) {
        Verdict::Deny(DenyReason::Blocklisted)
    } else if mode == PolicyMode::Legacy {
        Verdict::Allow
    } else if spec_has_chaining(s) {
        Verdict::Deny(DenyReason::ShellChaining)
    } else if !spec_allowed_prefix(spec_first_token_lower(s)) {
        Verdict::Deny(DenyReason::UnlistedPrefix)
    } else if spec_forbidden_args(spec_first_token_lower(s), spec_tokens(s), contained) {
        Verdict::Deny(DenyReason::InterpreterArgs)
    } else if !spec_subcommand_ok(spec_first_token_lower(s), spec_tokens(s)) {
        Verdict::Deny(DenyReason::Subcommand)
    } else {
        Verdict::Allow
    }
}

/// One policy evaluation: the verdict for a raw command against a
/// declared working directory and a fresh environment snapshot.  The
/// verdict equals the decision specification for the containment answer
/// the filesystem actually gave.
pub fn evaluate(command: &str, work_dir: &str, cfg: &PolicyConfig) -> (r: Verdict)
    ensures
        exists|c: bool| r == spec_decide(command@, cfg.mode, c),
        spec_first_script(spec_first_token_lower(command@), spec_tokens(command@)) is None ==> r
            == spec_decide(command@, cfg.mode, true),
{
    if is_blocked_command(command) {
        proof {
            assert(Verdict::Deny(DenyReason::Blocklisted) == spec_decide(command@, cfg.mode, true));
        }
        return Verdict::Deny(DenyReason::Blocklisted);
    }
    if cfg.mode == PolicyMode::Legacy {
        proof {
            assert(Verdict::Allow == spec_decide(command@, cfg.mode, true));
        }
        return Verdict::Allow;
    }
    if has_shell_chaining(command) {
        proof {
            assert(Verdict::Deny(DenyReason::ShellChaining) == spec_decide(
                command@,
                cfg.mode,
                true,
            ));
        }
        return Verdict::Deny(DenyReason::ShellChaining);
    }
    let first = first_token_lower(command);
    if !allowed_prefix(&first) {
        proof {
            assert(Verdict::Deny(DenyReason::UnlistedPrefix) == spec_decide(
                command@,
                cfg.mode,
                true,
            ));
        }
        return Verdict::Deny(DenyReason::UnlistedPrefix);
    }
    let tokens = split_command_tokens(command);
    let cmd = string_from_chars(&first);
    let bases = allowed_script_bases(work_dir, cfg);
    if has_forbidden_args(cmd.as_str(), &tokens, &bases) {
        proof {
            let c = choose|c: bool| true == spec_forbidden_args(cmd@, tokens.deep_view(), c);
            assert(Verdict::Deny(DenyReason::InterpreterArgs) == spec_decide(command@, cfg.mode, c));
        }
        return Verdict::Deny(DenyReason::InterpreterArgs);
    }
    proof {
        let c = choose|c: bool| false == spec_forbidden_args(cmd@, tokens.deep_view(), c);
        assert(!spec_forbidden_args(spec_first_token_lower(command@), spec_tokens(command@), c));
    }
    if !is_allowed_subcommand(cmd.as_str(), &tokens) {
        proof {
            let c = choose|c: bool| false == spec_forbidden_args(cmd@, tokens.deep_view(), c);
            assert(Verdict::Deny(DenyReason::Subcommand) == spec_decide(command@, cfg.mode, c));
        }
        return Verdict::Deny(DenyReason::Subcommand);
    }
    proof {
        let c = choose|c: bool| false == spec_forbidden_args(cmd@, tokens.deep_view(), c);
        assert(Verdict::Allow == spec_decide(command@, cfg.mode, c));
    }
    Verdict::Allow
}

/// The boolean face of `evaluate`: the command is admitted.
pub fn is_command_safe(command: &str, work_dir: &str, cfg: &PolicyConfig) -> (r: bool)
    ensures
        exists|c: bool| r == (spec_decide(command@, cfg.mode, c) is Allow),
        spec_first_script(spec_first_token_lower(command@), spec_tokens(command@)) is None ==> r
            == (spec_decide(command@, cfg.mode, true) is Allow),
{
    let v = evaluate(command, work_dir, cfg);
    proof {
        let c = choose|c: bool| v == spec_decide(command@, cfg.mode, c);
        assert((v == Verdict::Allow) == (spec_decide(command@, cfg.mode, c) is Allow));
        if spec_first_script(spec_first_token_lower(command@), spec_tokens(command@)) is None {
            lemma_decide_containment_free(command@, cfg.mode, c, true);
        }
    }
    v == Verdict::Allow
}

/// The printable name of an operating mode.
pub open spec fn spec_mode_name(mode: PolicyMode) -> Seq<char> {
    if mode == PolicyMode::Legacy {
        "legacy"@
    } else {
        "whitelist"@
    }
}

/// The printable name of the stage that denied a command.
pub open spec fn spec_stage_name(reason: DenyReason) -> Seq<char> {
    match reason {
        DenyReason::Blocklisted => "static blocklist"@,
        DenyReason::ShellChaining => "shell metacharacters"@,
        DenyReason::UnlistedPrefix => "command prefix not allowlisted"@,
        DenyReason::InterpreterArgs => "interpreter argument restriction"@,
        DenyReason::Subcommand => "subcommand restriction"@,
    }
}

/// The human-readable denial reason: it names the stage that failed and
/// the current mode, so the caller can adjust its request.
pub open spec fn spec_deny_message(reason: DenyReason, mode: PolicyMode) -> Seq<char> {
    "Command blocked by terminal policy (mode: "@ + spec_mode_name(mode) + "; stage: "@
        + spec_stage_name(reason)
        + "). Use an allowed single command prefix or switch the policy mode to legacy for compatibility."@
}

/// The printable mode name, matching `spec_mode_name`.
pub fn mode_name(mode: &PolicyMode) -> (r: &'static str)
    ensures
        r@ == spec_mode_name(*mode),
{
    match mode {
        PolicyMode::Legacy => "legacy",
        PolicyMode::Whitelist => "whitelist",
    }
}

/// The printable stage name, matching `spec_stage_name`.
pub fn stage_name(reason: &DenyReason) -> (r: &'static str)
    ensures
        r@ == spec_stage_name(*reason),
{
    match reason {
        DenyReason::Blocklisted => "static blocklist",
        DenyReason::ShellChaining => "shell metacharacters",
        DenyReason::UnlistedPrefix => "command prefix not allowlisted",
        DenyReason::InterpreterArgs => "interpreter argument restriction",
        DenyReason::Subcommand => "subcommand restriction",
    }
}

/// Builds the denial reason text, matching `spec_deny_message`.
pub fn deny_message(reason: &DenyReason, mode: &PolicyMode) -> (r: String)
    ensures
        r@ == spec_deny_message(*reason, *mode),
{
    let mut r = String::from_str("Command blocked by terminal policy (mode: ");
    r.append(mode_name(mode));
    r.append("; stage: ");
    r.append(stage_name(reason));
    r.append(
        "). Use an allowed single command prefix or switch the policy mode to legacy for compatibility.",
    );
    r
}

/// Lowercasing preserves any substring whose characters it leaves alone.
proof fn lemma_substr_survives_lowering(s: Seq<char>, n: Seq<char>)
    requires
        has_substr(s, n),
        forall|j: int| 0 <= j < n.len() ==> lower_char(#[trigger] n[j]) == n[j],
    ensures
        has_substr(lower_seq(s), n),
{
    let i = choose|i: int|
        0 <= i && i + n.len() <= s.len() && #[trigger] s.subrange(i, i + n.len()) == n;
    assert forall|k: int| 0 <= k < n.len() implies lower_seq(s)[i + k] == n[k] by {
        assert(s.subrange(i, i + n.len())[k] == n[k]);
        assert(lower_seq(s)[i + k] == lower_char(s[i + k]));
    }
    assert(lower_seq(s).subrange(i, i + n.len()) =~= n);
}

/// Law: a strict-mode command holding a chaining, piping or redirection
/// metacharacter — in its raw text, quoted or not — is denied, whatever
/// its prefix and whatever the filesystem answered.
pub proof fn lemma_metacharacters_denied(s: Seq<char>, contained: bool)
    requires
        has_substr(s, "&&"@) || has_substr(s, "||"@) || has_substr(s, ";"@) || has_substr(s, "|"@)
            || has_substr(s, ">"@) || has_substr(s, "<"@),
    ensures
        spec_decide(s, PolicyMode::Whitelist, contained) is Deny,
{
    reveal_strlit("&&");
    reveal_strlit("||");
    reveal_strlit(";");
    reveal_strlit("|");
    reveal_strlit(">");
    reveal_strlit("<");
    if has_substr(s, "&&"@) {
        lemma_substr_survives_lowering(s, "&&"@);
    } else if has_substr(s, "||"@) {
        lemma_substr_survives_lowering(s, "||"@);
    } else if has_substr(s, ";"@) {
        lemma_substr_survives_lowering(s, ";"@);
    } else if has_substr(s, "|"@) {
        lemma_substr_survives_lowering(s, "|"@);
    } else if has_substr(s, ">"@) {
        lemma_substr_survives_lowering(s, ">"@);
    } else {
        lemma_substr_survives_lowering(s, "<"@);
    }
}

/// Law: a strict-mode command whose first token is not in the allowlist
/// is denied, whatever the filesystem answered.
pub proof fn lemma_unlisted_prefix_denied(s: Seq<char>, contained: bool)
    requires
        !spec_allowed_prefix(spec_first_token_lower(s)),
    ensures
        spec_decide(s, PolicyMode::Whitelist, contained) is Deny,
{
}

/// Law: a command matching the static blocklist is denied under every
/// mode, the permissive one included.
pub proof fn lemma_blocklist_denied_every_mode(s: Seq<char>, mode: PolicyMode, contained: bool)
    requires
        spec_blocked(s),
    ensures
        spec_decide(s, mode, contained) == Verdict::Deny(DenyReason::Blocklisted),
{
}

/// Law: under the legacy mode every command that misses the static
/// blocklist is allowed — so a command denied under the strict mode is
/// allowed by the mode switch unless the blocklist matched it.
pub proof fn lemma_legacy_allows_unblocked(s: Seq<char>, contained: bool)
    requires
        !spec_blocked(s),
    ensures
        spec_decide(s, PolicyMode::Legacy, contained) == Verdict::Allow,
{
}

/// Law: the decision is a pure function of the command, the mode and the
/// filesystem's containment answer — two evaluations with identical
/// inputs and an unchanged filesystem yield identical verdicts.
pub proof fn lemma_evaluate_deterministic(
    s: Seq<char>,
    mode: PolicyMode,
    contained: bool,
    r1: Verdict,
    r2: Verdict,
)
    requires
        r1 == spec_decide(s, mode, contained),
        r2 == spec_decide(s, mode, contained),
    ensures
        r1 == r2,
{
}

/// Law of the mode switch: a command denied under the strict mode is
/// allowed under the legacy mode unless it matches the static blocklist,
/// which is denied under every mode.
pub proof fn lemma_mode_switch(s: Seq<char>, c1: bool, c2: bool)
    requires
        spec_decide(s, PolicyMode::Whitelist, c1) is Deny,
    ensures
        spec_blocked(s) ==> spec_decide(s, PolicyMode::Legacy, c2) == Verdict::Deny(
            DenyReason::Blocklisted,
        ),
        !spec_blocked(s) ==> spec_decide(s, PolicyMode::Legacy, c2) == Verdict::Allow,
{
}

/// Law: a command that checks no script path against the filesystem —
/// one whose (lowercased) first token names no interpreter, or one with
/// no script argument — gets the same verdict whatever the filesystem
/// would have answered.
pub proof fn lemma_decide_containment_free(s: Seq<char>, mode: PolicyMode, c1: bool, c2: bool)
    requires
        spec_first_script(spec_first_token_lower(s), spec_tokens(s)) is None,
    ensures
        spec_decide(s, mode, c1) == spec_decide(s, mode, c2),
{
}

} // verus!
