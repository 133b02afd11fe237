//! Voice profiles: which one a speaker gets, and why.

use vstd::prelude::*;
use vstd::string::*;

pub mod repository;
pub mod resolver;

verus! {

/// Where a resolved profile came from.
#[derive(Debug, Clone, Copy, PartialEq, Eq, Structural)]
pub enum ProfileSource {
    /// The user chose it.
    UserOverride,
    /// The guild's default.
    GuildDefault,
    /// The fallback of the whole installation.
    GlobalFallback,
}

impl ProfileSource {
    /// The words that `label` renders for this source.
    pub open spec fn label_spec(self) -> Seq<char> {
        match self {
            ProfileSource::UserOverride => "User Override"@,
            ProfileSource::GuildDefault => "Guild Default"@,
            ProfileSource::GlobalFallback => "Global Fallback"@,
        }
    }

    /// The source in words.
    pub fn label(&self) -> (words: String)
        ensures
            words@ == self.label_spec(),
    {
        match self {
            ProfileSource::UserOverride => "User Override".to_owned(),
            ProfileSource::GuildDefault => "Guild Default".to_owned(),
            ProfileSource::GlobalFallback => "Global Fallback".to_owned(),
        }
    }
}

/// A profile, and where it came from.
#[derive(Debug, Clone)]
pub struct ResolvedProfile {
    pub id: String,
    pub source: ProfileSource,
}

impl ResolvedProfile {
    pub fn user_override(id: String) -> (profile: Self)
        ensures
            profile.id == id,
            profile.source == ProfileSource::UserOverride,
    {
        Self { id, source: ProfileSource::UserOverride }
    }

    pub fn guild_default(id: String) -> (profile: Self)
        ensures
            profile.id == id,
            profile.source == ProfileSource::GuildDefault,
    {
        Self { id, source: ProfileSource::GuildDefault }
    }

    pub fn global_fallback(id: String) -> (profile: Self)
        ensures
            profile.id == id,
            profile.source == ProfileSource::GlobalFallback,
    {
        Self { id, source: ProfileSource::GlobalFallback }
    }
}

} // verus!
