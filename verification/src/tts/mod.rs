//! Voices: the capability that turns text into audio, and its failures.

use std::sync::Arc;
use vstd::prelude::*;
use vstd::string::*;

pub mod cache;
pub mod google_cloud;
pub mod registry;

verus! {

/// Sample rate, in hertz, of the audio handed to the voice connection.
pub const DISCORD_SAMPLE_RATE: i32 = 48_000;

/// Why a voice could not produce audio. Each variant carries the detail
/// reported by the component that failed.
#[derive(Debug, Clone)]
pub enum VoiceError {
    /// The synthesis provider rejected or failed the request.
    Api(String),
    /// The audio cache failed.
    Cache(String),
    /// Anything else.
    Unknown(String),
}

impl VoiceError {
    /// The text that `message` renders for this error.
    pub open spec fn message_spec(self) -> Seq<char> {
        match self {
            VoiceError::Api(detail) => "API request failed: "@ + detail@,
            VoiceError::Cache(detail) => "Cache error: "@ + detail@,
            VoiceError::Unknown(detail) => "Unknown error: "@ + detail@,
        }
    }

    /// Human-readable rendering: a fixed prefix per variant, then the detail.
    pub fn message(&self) -> (rendered: String)
        ensures
            rendered@ == self.message_spec(),
    {
        match self {
            VoiceError::Api(detail) => "API request failed: ".to_owned().concat(detail.as_str()),
            VoiceError::Cache(detail) => "Cache error: ".to_owned().concat(detail.as_str()),
            VoiceError::Unknown(detail) => "Unknown error: ".to_owned().concat(detail.as_str()),
        }
    }
}

/// What a user sees when choosing a voice.
pub struct VoiceDetail {
    pub name: String,
    pub provider: String,
    pub description: Option<String>,
}

/// A voice: audio normalised for playback, produced from text.
///
/// Implementations decide what `generate` returns; nothing is promised of it
/// here, and callers handle every outcome.
pub trait Voice: Send + Sync {
    /// Stable name of this voice's configuration; part of every cache key.
    fn identifier(&self) -> &str;

    /// Language of this voice, as an ISO 639-1 code (`en`) or a BCP 47 tag
    /// (`en-US`).
    fn language(&self) -> &str;

    /// Synthesises `text`.
    fn generate(&self, text: &str) -> Result<Vec<u8>, VoiceError>;
}

/// Whether `name` is what `voice` may give as its identifier.
pub open spec fn voice_is_named<V: Voice + ?Sized>(voice: &V, name: &str) -> bool {
    call_ensures(V::identifier, (voice,), name)
}

/// Whether `language` is what `voice` may give as its language.
pub open spec fn voice_speaks<V: Voice + ?Sized>(voice: &V, language: &str) -> bool {
    call_ensures(V::language, (voice,), language)
}

/// Whether `outcome` is what `voice` may answer when asked to synthesise
/// `text`.
pub open spec fn voice_answers<V: Voice + ?Sized>(
    voice: &V,
    text: Seq<char>,
    outcome: Result<Vec<u8>, VoiceError>,
) -> bool {
    exists|spoken: &str| spoken@ == text && #[trigger] call_ensures(V::generate, (voice, spoken), outcome)
}

/// A voice held in shared ownership, so that many requests may name it.
///
/// Cloning shares the voice; it never copies it.
pub struct SharedVoice<V: ?Sized = dyn Voice> {
    inner: Arc<V>,
}

impl<V: Voice + ?Sized> SharedVoice<V> {
    pub fn new(inner: Arc<V>) -> (shared: Self)
        ensures
            shared.voice() == inner,
    {
        Self { inner }
    }

    /// The voice behind this handle.
    pub closed spec fn voice(self) -> Arc<V> {
        self.inner
    }

    /// The voice behind this handle.
    pub fn as_arc(&self) -> (inner: &Arc<V>)
        ensures
            *inner == self.voice(),
    {
        &self.inner
    }
}

/// A shared voice is a voice: every call goes to the voice behind it.
impl<V: Voice + ?Sized> Voice for SharedVoice<V> {
    fn identifier(&self) -> (name: &str)
        ensures
            voice_is_named(&*self.voice(), name),
    {
        self.inner.identifier()
    }

    fn language(&self) -> (language: &str)
        ensures
            voice_speaks(&*self.voice(), language),
    {
        self.inner.language()
    }

    fn generate(&self, text: &str) -> (outcome: Result<Vec<u8>, VoiceError>)
        ensures
            voice_answers(&*self.voice(), text@, outcome),
    {
        self.inner.generate(text)
    }
}

impl<V: ?Sized> Clone for SharedVoice<V> {
    fn clone(&self) -> (copy: Self)
        ensures
            copy == *self,
    {
        Self { inner: self.inner.clone() }
    }
}

} // verus!
