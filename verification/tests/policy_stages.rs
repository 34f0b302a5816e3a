//! Tests of the policy stages and the decision function.

use cks_policy::config::{PolicyConfig, PolicyMode};
use cks_policy::policy::{
    deny_message, evaluate, has_forbidden_args, has_shell_chaining, is_allowed_subcommand,
    is_blocked_command, is_command_safe, is_whitelisted_command, DenyReason, Verdict,
};

fn strict() -> PolicyConfig {
    PolicyConfig {
        mode: PolicyMode::Whitelist,
        user_profile: None,
        temp_dir: None,
        public_dir: None,
    }
}

fn legacy() -> PolicyConfig {
    PolicyConfig {
        mode: PolicyMode::Legacy,
        user_profile: None,
        temp_dir: None,
        public_dir: None,
    }
}

#[test]
fn policy_blocks_obviously_dangerous_command() {
    assert!(!is_command_safe("rm -rf /", ".", &strict()));
}

#[test]
fn policy_allows_safe_git_read_commands() {
    assert!(is_command_safe("git status", ".", &strict()));
    assert!(is_command_safe("git log", ".", &strict()));
}

#[test]
fn policy_blocks_git_write_commands() {
    assert!(!is_command_safe("git checkout main", ".", &strict()));
    assert!(!is_command_safe("git reset --hard", ".", &strict()));
}

#[test]
fn policy_blocks_git_push() {
    assert!(!is_command_safe("git push", ".", &strict()));
}

#[test]
fn policy_blocks_python_inline_execution() {
    assert!(!is_command_safe("python -c \"print(1)\"", ".", &strict()));
    assert!(!is_command_safe("py -m pip list", ".", &strict()));
}

#[test]
fn policy_allows_python_script_inside_workdir_but_blocks_outside() {
    // "." resolves inside the working directory whatever it is; the root
    // and a path that does not exist resolve outside it (the latter via
    // the fail-closed canonicalization).
    assert!(is_command_safe("python .", ".", &strict()));
    assert!(!is_command_safe("python /", ".", &strict()));
    assert!(!is_command_safe(
        "python script_that_does_not_exist.py",
        ".",
        &strict()
    ));
}

#[test]
fn metacharacters_denied_regardless_of_prefix() {
    assert!(!is_command_safe("echo a && echo b", ".", &strict()));
    assert!(!is_command_safe("ls | cat", ".", &strict()));
    assert!(!is_command_safe("echo a > out.txt", ".", &strict()));
    assert!(!is_command_safe("cat < in.txt", ".", &strict()));
    assert!(!is_command_safe("ls; pwd", ".", &strict()));
    assert!(!is_command_safe("echo a || echo b", ".", &strict()));
}

#[test]
fn unlisted_prefix_denied() {
    assert!(!is_command_safe("curl https://example.test", ".", &strict()));
    assert!(!is_command_safe("", ".", &strict()));
    assert!(!is_command_safe("git-push-wrapper", ".", &strict()));
}

#[test]
fn package_managers_limited_to_introspection() {
    assert!(!is_command_safe("npm install left-pad", ".", &strict()));
    assert!(is_command_safe("npm --version", ".", &strict()));
    assert!(is_command_safe("pip --help", ".", &strict()));
    assert!(!is_command_safe("pip install requests", ".", &strict()));
}

#[test]
fn python_stdin_script_denied() {
    assert!(!is_command_safe("python -", ".", &strict()));
}

#[test]
fn mode_switch_allows_unblocked_commands_only() {
    let cmd = "curl https://example.test";
    assert!(!is_command_safe(cmd, ".", &strict()));
    assert!(is_command_safe(cmd, ".", &legacy()));
    // The static blocklist holds in every mode.
    assert!(!is_command_safe("rm -rf /", ".", &legacy()));
    assert!(!is_command_safe("shutdown now", ".", &legacy()));
}

#[test]
fn evaluate_idempotent_on_identical_inputs() {
    let cfg = strict();
    let first = evaluate("git status", ".", &cfg);
    let second = evaluate("git status", ".", &cfg);
    assert_eq!(first, second);
    let third = evaluate("python .", ".", &cfg);
    let fourth = evaluate("python .", ".", &cfg);
    assert_eq!(third, fourth);
}

#[test]
fn evaluate_names_the_failing_stage() {
    let cfg = strict();
    assert_eq!(
        evaluate("rm -rf /", ".", &cfg),
        Verdict::Deny(DenyReason::Blocklisted)
    );
    assert_eq!(
        evaluate("echo a | cat", ".", &cfg),
        Verdict::Deny(DenyReason::ShellChaining)
    );
    assert_eq!(
        evaluate("curl https://example.test", ".", &cfg),
        Verdict::Deny(DenyReason::UnlistedPrefix)
    );
    assert_eq!(
        evaluate("python -c \"print(1)\"", ".", &cfg),
        Verdict::Deny(DenyReason::InterpreterArgs)
    );
    assert_eq!(
        evaluate("git push", ".", &cfg),
        Verdict::Deny(DenyReason::Subcommand)
    );
    assert_eq!(evaluate("git status", ".", &cfg), Verdict::Allow);
}

#[test]
fn deny_message_names_stage_and_mode() {
    let msg = deny_message(&DenyReason::ShellChaining, &PolicyMode::Whitelist);
    assert!(msg.contains("whitelist"));
    assert!(msg.contains("shell metacharacters"));
    let msg2 = deny_message(&DenyReason::Blocklisted, &PolicyMode::Legacy);
    assert!(msg2.contains("legacy"));
    assert!(msg2.contains("static blocklist"));
}

#[test]
fn blocklist_matches_lowercased_substrings() {
    assert!(is_blocked_command("SHUTDOWN /s"));
    assert!(is_blocked_command("echo Reg Delete HKLM"));
    assert!(is_blocked_command("DiskPart"));
    assert!(!is_blocked_command("git status"));
}

#[test]
fn shell_chaining_detection() {
    assert!(has_shell_chaining("a<b"));
    assert!(has_shell_chaining("a;b"));
    assert!(!has_shell_chaining("plain command"));
}

#[test]
fn whitelist_matches_exactly_and_case_insensitively() {
    assert!(is_whitelisted_command("LS -la"));
    assert!(is_whitelisted_command("Git status"));
    assert!(!is_whitelisted_command("gitk"));
    assert!(!is_whitelisted_command(""));
}

#[test]
fn forbidden_args_flags_and_stdin() {
    let bases = vec![".".to_string()];
    let py = vec!["python".to_string(), "-C".to_string()];
    assert!(has_forbidden_args("python", &py, &bases));
    let stdin = vec!["python".to_string(), "-".to_string()];
    assert!(has_forbidden_args("python", &stdin, &bases));
    let node = vec!["node".to_string(), "--eval".to_string()];
    assert!(has_forbidden_args("node", &node, &bases));
    let plain = vec!["ls".to_string(), "-la".to_string()];
    assert!(!has_forbidden_args("ls", &plain, &bases));
}

#[test]
fn subcommand_filter_rules() {
    let status = vec!["git".to_string(), "status".to_string()];
    assert!(is_allowed_subcommand("git", &status));
    let bare = vec!["git".to_string()];
    assert!(!is_allowed_subcommand("git", &bare));
    let push = vec!["git".to_string(), "push".to_string()];
    assert!(!is_allowed_subcommand("git", &push));
    let npm_help = vec!["npm".to_string(), "help".to_string()];
    assert!(is_allowed_subcommand("npm", &npm_help));
    let other = vec!["echo".to_string(), "anything".to_string()];
    assert!(is_allowed_subcommand("echo", &other));
}
