use vstd::prelude::*;

pub mod capability_grammar;
pub mod text;
pub mod string_map;
pub mod principal;
pub mod env_policy;
pub mod identity;
pub mod input;
pub mod error;
pub mod connector;
pub mod dirs;
pub mod groups;
pub mod toml_value;
pub mod input_buffer;
pub mod merge;
pub mod restriction_laws;
pub mod config_types;
pub mod render_text;
pub mod frontend;
pub mod hook_event;
pub mod plugin_abi;
pub mod value_format;
pub mod spinner;
pub mod http;
pub mod user_identity;
pub mod command_palette;
pub mod idle_keys;
pub mod approval_keys;
pub mod identity_store;
pub mod mode_keys;
pub mod onboarding;
pub mod daemon_events;
pub mod markdown;
pub mod ansi;
pub mod number_order;
pub mod layering;
pub mod pending_actions;
pub mod headless;
pub mod onboarding_menu;
pub mod input_line;
pub mod nexus;
pub mod slash_commands;
pub mod activity;

verus! {
}
