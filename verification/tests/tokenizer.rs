//! Tests of the tokenizer and the script-token selection.

use cks_policy::policy::first_script_token;
use cks_policy::tokenize::split_command_tokens;

#[test]
fn tokenizer_round_trip_with_single_quotes() {
    let toks = split_command_tokens("a 'b c' d");
    assert_eq!(toks, vec!["a".to_string(), "b c".to_string(), "d".to_string()]);
}

#[test]
fn tokenizer_round_trip_with_double_quotes() {
    let toks = split_command_tokens("a \"b c\" d");
    assert_eq!(toks, vec!["a".to_string(), "b c".to_string(), "d".to_string()]);
}

#[test]
fn tokenizer_strips_quotes_and_joins_adjacent_runs() {
    let toks = split_command_tokens("a'b'c");
    assert_eq!(toks, vec!["abc".to_string()]);
    let toks2 = split_command_tokens("\"it's\"");
    assert_eq!(toks2, vec!["it's".to_string()]);
}

#[test]
fn tokenizer_tolerates_unterminated_quote() {
    let toks = split_command_tokens("'abc");
    assert_eq!(toks, vec!["abc".to_string()]);
    let toks2 = split_command_tokens("python \"unterminated arg");
    assert!(!toks2.is_empty());
    assert_eq!(toks2[0], "python");
}

#[test]
fn tokenizer_empty_and_whitespace_only() {
    assert!(split_command_tokens("").is_empty());
    assert!(split_command_tokens("   \t  ").is_empty());
}

#[test]
fn tokenizer_quoted_whitespace_is_literal() {
    let toks = split_command_tokens("echo ' spaced  out '");
    assert_eq!(toks, vec!["echo".to_string(), " spaced  out ".to_string()]);
}

#[test]
fn first_script_token_selection() {
    let py = vec!["python".to_string(), "-u".to_string(), "x.py".to_string()];
    assert_eq!(first_script_token("python", &py), Some("x.py".to_string()));
    let node = vec!["node".to_string(), "-e".to_string()];
    assert_eq!(first_script_token("node", &node), None);
    let not_interp = vec!["ls".to_string(), "a".to_string()];
    assert_eq!(first_script_token("ls", &not_interp), None);
}
