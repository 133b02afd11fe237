//! The configuration of the bot, and what makes it acceptable.

use crate::text::str_equal;
use crate::tts::google_cloud::GoogleCloudVoiceConfig;
use crate::tts::VoiceDetail;
use vstd::prelude::*;
use vstd::string::*;

verus! {

/// Everything that is configured. Profiles are kept in the order in which
/// they were written, each under its id.
#[derive(Debug, Clone)]
pub struct AppConfig {
    pub bot: BotConfig,
    pub database: DatabaseConfig,
    pub backend: BackendConfig,
    pub cache: CacheConfig,
    pub profiles: Vec<(String, ProfileConfig)>,
}

#[derive(Debug, Clone)]
pub struct BotConfig {
    pub token: String,
    /// The id of the profile used where nothing else is chosen.
    pub global_profile: String,
}

impl Default for BotConfig {
    fn default() -> (bot: Self)
        ensures
            bot.token@.len() == 0,
            bot.global_profile@.len() == 0,
    {
        Self { token: String::new(), global_profile: String::new() }
    }
}

#[derive(Debug, Clone, Copy, PartialEq, Eq, Structural)]
pub enum DatabaseKind {
    Postgres,
    SQLite,
}

#[derive(Debug, Clone)]
pub struct DatabaseConfig {
    pub kind: DatabaseKind,
    pub url: String,
}

#[derive(Debug, Clone, Copy, PartialEq, Eq, Structural)]
pub struct BackendConfig {
    pub google_cloud: Option<GoogleCloudBackendConfig>,
}

impl Default for BackendConfig {
    fn default() -> (backend: Self)
        ensures
            backend.google_cloud is None,
    {
        Self { google_cloud: None }
    }
}

#[derive(Debug, Clone, Copy, PartialEq, Eq, Structural)]
pub struct GoogleCloudBackendConfig {
    /// Seconds to wait for the provider.
    pub timeout: u64,
}

/// The seconds to wait for the provider where none are configured.
pub fn default_timeout() -> (seconds: u64)
    ensures
        seconds == 5,
{
    5
}

#[derive(Debug, Clone, Copy, PartialEq, Eq, Structural)]
pub enum CacheConfig {
    Disabled,
    InMemory(InMemoryCacheConfig),
}

#[derive(Debug, Clone, Copy, PartialEq, Eq, Structural)]
pub struct InMemoryCacheConfig {
    /// The most entries the cache holds.
    pub capacity: u64,
}

#[derive(Debug, Clone)]
pub struct ProfileConfig {
    pub note: Option<VoiceDetailConfig>,
    pub voice_backend: ProfileBackendConfig,
}

/// What the configuration says of how a voice is shown.
#[derive(Clone, Debug)]
pub struct VoiceDetailConfig {
    pub name: Option<String>,
    pub language: Option<String>,
    pub description: Option<String>,
}

impl Default for VoiceDetailConfig {
    fn default() -> (note: Self)
        ensures
            note.name is None,
            note.language is None,
            note.description is None,
    {
        Self { name: None, language: None, description: None }
    }
}

impl VoiceDetailConfig {
    /// How the voice is shown: the configured name where there is one, else
    /// the default's; the default's provider; the configured description,
    /// or none.
    pub fn fill(&self, default: VoiceDetail) -> (detail: VoiceDetail)
        ensures
            detail.name@ == (match self.name {
                Some(name) => name@,
                None => default.name@,
            }),
            detail.provider == default.provider,
            match self.description {
                Some(description) => detail.description matches Some(shown) && shown@ == description@,
                None => detail.description is None,
            },
    {
        let name = match &self.name {
            Some(name) => name.clone(),
            None => default.name,
        };
        let description = match &self.description {
            Some(description) => Some(description.clone()),
            None => None,
        };
        VoiceDetail { name, provider: default.provider, description }
    }
}

#[derive(Debug, Clone)]
pub enum ProfileBackendConfig {
    GoogleCloudVoice(GoogleCloudVoiceConfig),
}

/// Why a configuration is refused.
#[derive(Debug, Clone)]
pub enum ConfigError {
    /// The bot's token is empty.
    EmptyToken,
    /// No profile has the id that is named as global profile.
    UnknownGlobalProfile(String),
}

/// The ids of `profiles`, in order.
pub open spec fn profile_ids(profiles: Seq<(String, ProfileConfig)>) -> Seq<Seq<char>> {
    Seq::new(profiles.len(), |i: int| profiles[i].0@)
}

/// Whether a profile of `profiles` has the id `id`.
pub fn has_profile(profiles: &Vec<(String, ProfileConfig)>, id: &str) -> (found: bool)
    ensures
        found == profile_ids(profiles@).contains(id@),
{
    let mut index: usize = 0;
    while index < profiles.len()
        invariant
            index <= profiles@.len(),
            forall|j: int| 0 <= j < index ==> profile_ids(profiles@)[j] != id@,
        decreases profiles@.len() - index,
    {
        if str_equal(profiles[index].0.as_str(), id) {
            assert(profile_ids(profiles@)[index as int] == id@);
            return true;
        }
        index = index + 1;
    }
    false
}

impl AppConfig {
    /// Why this configuration is refused, if it is: an empty token first,
    /// then a global profile that no profile has the id of.
    pub open spec fn refusal(self) -> Option<ConfigError> {
        if self.bot.token@.len() == 0 {
            Some(ConfigError::EmptyToken)
        } else if !profile_ids(self.profiles@).contains(self.bot.global_profile@) {
            Some(ConfigError::UnknownGlobalProfile(self.bot.global_profile))
        } else {
            None
        }
    }

    /// Accepts the configuration, or says why not; see
    /// [`AppConfig::refusal`].
    pub fn verify(&self) -> (outcome: Result<(), ConfigError>)
        ensures
            match self.refusal() {
                None => outcome is Ok,
                Some(ConfigError::EmptyToken) => outcome matches Err(ConfigError::EmptyToken),
                Some(ConfigError::UnknownGlobalProfile(id)) => outcome matches Err(
                    ConfigError::UnknownGlobalProfile(named),
                ) && named@ == id@,
            },
    {
        if self.bot.token.as_str().unicode_len() == 0 {
            return Err(ConfigError::EmptyToken);
        }
        if !has_profile(&self.profiles, self.bot.global_profile.as_str()) {
            return Err(ConfigError::UnknownGlobalProfile(self.bot.global_profile.clone()));
        }
        Ok(())
    }
}

} // verus!
