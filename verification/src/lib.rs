//! A conservative admission policy for shell commands requested by a
//! semi-trusted automated agent.
//!
//! The engine classifies a raw command line (plus a declared working
//! directory) as allowed or denied.  It tokenizes the command, scans for
//! shell metacharacters, matches the leading token against a fixed program
//! allowlist, restricts interpreter arguments, limits multi-purpose CLIs to
//! read-only subcommands, and checks that interpreter script paths stay
//! inside a set of sanctioned base directories.  A static blocklist of
//! destructive substrings is enforced in every mode; all other stages can be
//! switched off by the permissive legacy mode.

pub mod automation;
pub mod config;
pub mod paths;
pub mod policy;
pub mod text;
pub mod tokenize;
