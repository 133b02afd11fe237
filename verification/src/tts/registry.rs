//! The voices of the installation, by profile id.

use crate::config::CacheConfig;
use crate::config::ProfileBackendConfig;
use crate::config::ProfileConfig;
use crate::text::str_equal;
use crate::tts::cache::cache_new;
use crate::tts::cache::cache_writes;
use crate::tts::cache::CachedVoice;
use crate::tts::Voice;
use crate::tts::SharedVoice;
use moka::sync::Cache;
use vstd::prelude::*;

verus! {

/// The voice that `entries` holds for `id`: the last one entered under it.
pub open spec fn voice_of(entries: Seq<(String, SharedVoice)>, id: Seq<char>) -> Option<SharedVoice>
    decreases entries.len(),
{
    if entries.len() == 0 {
        None
    } else if entries.last().0@ == id {
        Some(entries.last().1)
    } else {
        voice_of(entries.drop_last(), id)
    }
}

/// The voices that can be chosen, each under the id of its profile.
///
/// Where an id was entered twice, the later entry counts.
#[derive(Clone)]
pub struct VoiceRegistry {
    voices: Vec<(String, SharedVoice)>,
}

impl VoiceRegistry {
    /// The entries, in the order in which they were given.
    pub closed spec fn entries(self) -> Seq<(String, SharedVoice)> {
        self.voices@
    }

    pub fn new(voices: Vec<(String, SharedVoice)>) -> (registry: Self)
        ensures
            registry.entries() == voices@,
    {
        Self { voices }
    }

    /// The voice of profile `id`, if there is one.
    pub fn get(&self, id: &str) -> (found: Option<SharedVoice>)
        ensures
            found == voice_of(self.entries(), id@),
    {
        let mut remaining: usize = self.voices.len();
        assert(self.voices@.subrange(0, remaining as int) =~= self.voices@);
        while remaining > 0
            invariant
                remaining <= self.voices@.len(),
                voice_of(self.voices@, id@) == voice_of(self.voices@.subrange(0, remaining as int), id@),
            decreases remaining,
        {
            let ghost prefix = self.voices@.subrange(0, remaining as int);
            remaining = remaining - 1;
            assert(prefix.last() == self.voices@[remaining as int]);
            assert(prefix.drop_last() =~= self.voices@.subrange(0, remaining as int));
            if str_equal(self.voices[remaining].0.as_str(), id) {
                return Some(self.voices[remaining].1.clone());
            }
        }
        assert(self.voices@.subrange(0, 0).len() == 0);
        None
    }
}

/// The id of the first profile whose backend is not configured, if there is
/// one. Every profile speaks through Google Cloud, so without that backend
/// the first profile is the one.
pub open spec fn missing_backend_spec(profiles: Seq<(String, ProfileConfig)>, google_cloud: bool) -> Option<
    Seq<char>,
> {
    if google_cloud || profiles.len() == 0 {
        None
    } else {
        Some(profiles[0].0@)
    }
}

/// Finds a profile that cannot be built; see [`missing_backend_spec`].
///
/// `google_cloud` says whether a client for Google Cloud is at hand.
pub fn missing_backend(profiles: &Vec<(String, ProfileConfig)>, google_cloud: bool) -> (missing: Option<
    String,
>)
    ensures
        match missing_backend_spec(profiles@, google_cloud) {
            Some(id) => missing matches Some(found) && found@ == id,
            None => missing is None,
        },
{
    let mut index: usize = 0;
    while index < profiles.len()
        invariant
            index <= profiles@.len(),
            index > 0 ==> google_cloud,
        decreases profiles@.len() - index,
    {
        match &profiles[index].1.voice_backend {
            ProfileBackendConfig::GoogleCloudVoice(_) => {
                if !google_cloud {
                    return Some(profiles[index].0.clone());
                }
            },
        }
        index = index + 1;
    }
    None
}

/// The cache that the voices share, where caching is configured: an empty
/// one of the configured capacity.
pub fn cache_for(config: &CacheConfig) -> (cache: Option<Cache<String, Vec<u8>>>)
    ensures
        cache is Some <==> *config is InMemory,
        cache matches Some(made) ==> cache_writes(made).dom() == Set::<Seq<char>>::empty(),
{
    match config {
        CacheConfig::InMemory(memory) => Some(cache_new(memory.capacity)),
        CacheConfig::Disabled => None,
    }
}

/// A voice as the registry holds it: as it is, or behind a cache.
pub enum Wrapped<V: Voice + ?Sized = dyn Voice> {
    Plain(Box<V>),
    Cached(CachedVoice<V>),
}

/// Puts `voice` behind `cache` where there is one.
pub fn wrap_with_cache<V: Voice + ?Sized>(voice: Box<V>, cache: Option<Cache<String, Vec<u8>>>) -> (wrapped:
    Wrapped<V>)
    ensures
        match cache {
            Some(store) => wrapped matches Wrapped::Cached(cached) && cached.source() == voice
                && cached.writes() == cache_writes(store),
            None => wrapped == Wrapped::Plain(voice),
        },
{
    match cache {
        Some(store) => Wrapped::Cached(CachedVoice::new(voice, store)),
        None => Wrapped::Plain(voice),
    }
}

} // verus!
