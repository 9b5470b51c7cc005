//! The output format an admin command is asked for.

use vstd::prelude::*;
use crate::text::{chars_eq, lower_chars, lower_seq, str_to_chars};

verus! {

/// Output format selected by `--format`.
#[derive(Debug, Clone, Copy, PartialEq, Eq, Structural)]
pub enum ValueFormat {
    /// Human-friendly rendering, made by each command.
    Pretty,
    /// JSON, pretty-printed.
    Json,
    /// YAML.
    Yaml,
    /// TOML.
    Toml,
}

impl Default for ValueFormat {
    fn default() -> (r: Self)
        ensures
            r == ValueFormat::Pretty,
    {
        ValueFormat::Pretty
    }
}

/// The format a `--format` argument names, ignoring ASCII case; anything
/// unknown is `Pretty`.
pub open spec fn format_named(s: Seq<char>) -> ValueFormat {
    let l = lower_seq(s);
    if l == "json"@ {
        ValueFormat::Json
    } else if l == "yaml"@ || l == "yml"@ {
        ValueFormat::Yaml
    } else if l == "toml"@ {
        ValueFormat::Toml
    } else {
        ValueFormat::Pretty
    }
}

impl ValueFormat {
    /// Parse a `--format` argument; unknown values give `Pretty` rather
    /// than an error.
    pub fn parse(s: &str) -> (r: Self)
        ensures
            r == format_named(s@),
    {
        let l = lower_chars(&str_to_chars(s));
        if chars_eq(&l, &str_to_chars("json")) {
            ValueFormat::Json
        } else if chars_eq(&l, &str_to_chars("yaml")) || chars_eq(&l, &str_to_chars("yml")) {
            ValueFormat::Yaml
        } else if chars_eq(&l, &str_to_chars("toml")) {
            ValueFormat::Toml
        } else {
            ValueFormat::Pretty
        }
    }

    /// Whether the caller renders the output itself (tables, colours).
    pub fn is_pretty(self) -> (r: bool)
        ensures
            r == (self == ValueFormat::Pretty),
    {
        match self {
            ValueFormat::Pretty => true,
            _ => false,
        }
    }
}

} // verus!
