//! Per-guild text-to-speech relay: the session engine, the session registry
//! and the synthesis cache, together with the rules of the surrounding bot
//! (voice profiles, locale fallback, message clean-up, configuration).
//!
//! Every function in this crate carries a contract that Verus proves. Calls
//! into other crates are confined to small wrappers whose contracts are
//! taken on trust; each says so in its documentation.

pub mod cli;
pub mod command;
pub mod config;
pub mod database;
pub mod handler;
pub mod localization;
pub mod profile;
pub mod sanitizer;
pub mod session;
pub mod text;
pub mod tts;
