//! Tests of the escaping, key-mapping and channel helpers.

use cks_policy::automation::{
    channel_app_names, escape_applescript_string, escape_ps_single_quoted,
    escape_sh_single_quoted, normalize_message_channel, push_candidate, to_windows_sendkeys,
};

#[test]
fn windows_sendkeys_mapping_basic() {
    let keys = vec!["ctrl".to_string(), "s".to_string()];
    assert_eq!(to_windows_sendkeys(&keys), "^s");

    let keys2 = vec!["cmd".to_string(), "shift".to_string(), "v".to_string()];
    assert_eq!(to_windows_sendkeys(&keys2), "^+v");
}

#[test]
fn escape_helpers_keep_string_non_empty() {
    assert_eq!(escape_ps_single_quoted("a'b"), "a''b");
    assert_eq!(escape_applescript_string("a\"b"), "a\\\"b");
    assert_eq!(escape_sh_single_quoted("a'b"), "a'\"'\"'b");
}

#[test]
fn windows_sendkeys_named_keys_and_modifier_only() {
    let keys = vec!["ctrl".to_string(), "enter".to_string()];
    assert_eq!(to_windows_sendkeys(&keys), "^{ENTER}");
    let only_mod = vec!["ctrl".to_string()];
    assert_eq!(to_windows_sendkeys(&only_mod), "^");
    let spaced = vec![" Shift ".to_string(), "Tab".to_string()];
    assert_eq!(to_windows_sendkeys(&spaced), "+{TAB}");
    let none: Vec<String> = vec![];
    assert_eq!(to_windows_sendkeys(&none), "");
}

#[test]
fn escape_helpers_edge_cases() {
    assert_eq!(escape_applescript_string("a\\b"), "a\\\\b");
    assert_eq!(escape_applescript_string(""), "");
    assert_eq!(escape_ps_single_quoted("a''b"), "a''''b");
    assert_eq!(escape_sh_single_quoted("plain"), "plain");
}

#[test]
fn push_candidate_normalizes_and_deduplicates() {
    let mut cands: Vec<String> = Vec::new();
    push_candidate(&mut cands, "\"Foo\"".to_string());
    assert_eq!(cands, vec!["Foo".to_string()]);
    push_candidate(&mut cands, "  foo  ".to_string());
    assert_eq!(cands, vec!["Foo".to_string()]);
    push_candidate(&mut cands, "bar".to_string());
    assert_eq!(cands, vec!["Foo".to_string(), "bar".to_string()]);
    push_candidate(&mut cands, "   ".to_string());
    assert_eq!(cands, vec!["Foo".to_string(), "bar".to_string()]);
}

#[test]
fn message_channel_normalization() {
    assert_eq!(normalize_message_channel("WeCom desktop"), "wecom");
    assert_eq!(normalize_message_channel("wxwork"), "wecom");
    assert_eq!(normalize_message_channel("DingTalk"), "dingtalk");
    assert_eq!(normalize_message_channel("feishu"), "feishu");
    assert_eq!(normalize_message_channel("Lark"), "feishu");
    assert_eq!(normalize_message_channel("anything else"), "feishu");
}

#[test]
fn channel_app_name_pairs() {
    assert_eq!(channel_app_names("wecom"), ("wecom", "企业微信"));
    assert_eq!(channel_app_names("dingtalk"), ("dingtalk", "钉钉"));
    assert_eq!(channel_app_names("feishu"), ("feishu", "飞书"));
    assert_eq!(channel_app_names("unknown"), ("feishu", "飞书"));
}
