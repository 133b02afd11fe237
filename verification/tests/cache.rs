use moka::sync::Cache;
use std::sync::atomic::{AtomicUsize, Ordering};
use std::sync::Arc;
use text_to_speech_rs::tts::cache::{cache_key, cached_identifier, length_prefix, CachedVoice};
use text_to_speech_rs::tts::{Voice, VoiceError};

#[derive(Clone)]
struct MockVoice {
    name: &'static str,
    call_count: Arc<AtomicUsize>,
    fail: bool,
}

impl MockVoice {
    fn new() -> Self {
        Self::named("mock")
    }

    fn named(name: &'static str) -> Self {
        Self { name, call_count: Arc::new(AtomicUsize::new(0)), fail: false }
    }

    fn call_count(&self) -> usize {
        self.call_count.load(Ordering::SeqCst)
    }
}

impl Voice for MockVoice {
    fn identifier(&self) -> &str {
        self.name
    }

    fn language(&self) -> &str {
        "mock-language"
    }

    fn generate(&self, text: &str) -> Result<Vec<u8>, VoiceError> {
        self.call_count.fetch_add(1, Ordering::SeqCst);
        if self.fail {
            return Err(VoiceError::Api("down".to_string()));
        }
        if self.name == "mock" {
            return Ok(text.as_bytes().to_vec());
        }
        let mut audio = self.name.as_bytes().to_vec();
        audio.push(b':');
        audio.extend_from_slice(text.as_bytes());
        Ok(audio)
    }
}

#[test]
fn test_cache_hit() {
    let mock = MockVoice::new();

    let mut cached_voice = CachedVoice::new(Box::new(mock.clone()), Cache::new(100));

    let text = "hello";

    // in case of same text
    let result = cached_voice.generate(text).unwrap();
    assert_eq!(result.to_vec(), b"hello");
    assert_eq!(mock.call_count(), 1, "First call should hit the inner voice");

    let result = cached_voice.generate(text).unwrap();
    assert_eq!(result.to_vec(), b"hello");
    assert_eq!(mock.call_count(), 1, "Second call should hit the cache");

    // different text
    let _ = cached_voice.generate("world");
    assert_eq!(mock.call_count(), 2, "New text should hit the inner voice");
}

#[test]
fn cached_voice_is_named_after_its_source() {
    let cached = CachedVoice::new(Box::new(MockVoice::new()), Cache::new(10));
    assert_eq!(cached.identifier(), "cached-mock");
    assert_eq!(cached.language(), "mock-language");
    assert_eq!(cached_identifier("google"), "cached-google");
    assert_eq!(cached_identifier(""), "cached-");
}

#[test]
fn cache_key_is_the_hex_digest_of_identifier_then_text() {
    assert_eq!(
        cache_key("cached-mock", "hello"),
        "9bacfc245aedf106fd7dcbe3d03e5160eb1cb8f9e16261c708397d053655ed3b"
    );
    assert_eq!(cache_key("", ""), "af5570f5a1810b7af78caf4bc70a660f0df51e42baf91d4de5b2328de0e83dfc");
    let cached = CachedVoice::new(Box::new(MockVoice::new()), Cache::new(10));
    assert_eq!(cached.key_for("hello"), cache_key("cached-mock", "hello"));
    assert_eq!(cached.key_for("hello").len(), 64);
}

#[test]
fn identifiers_that_begin_alike_do_not_share_a_key() {
    // The same bytes, cut at another place, are another request.
    assert_eq!(cache_key("cached-a", "bc"), "03b766a4f850d89953e0cf2d991cc6573f8e98ac3574fb19ea18736d6002209f");
    assert_eq!(cache_key("cached-ab", "c"), "8b89e1bffdd7acc8a6314e8d82583492db0d4f56091d5dc50f573ef650421fdb");
    assert_ne!(cache_key("a", "bc"), cache_key("ab", "c"));
    assert_ne!(cache_key("", "abc"), cache_key("abc", ""));

    let cache: Cache<String, Vec<u8>> = Cache::new(100);
    let short = MockVoice::named("a");
    let long = MockVoice::named("ab");
    let mut cached_short = CachedVoice::new(Box::new(short.clone()), cache.clone());
    let mut cached_long = CachedVoice::new(Box::new(long.clone()), cache.clone());
    assert_eq!(cached_long.generate("c").unwrap(), b"ab:c");
    assert_eq!(cached_short.generate("bc").unwrap(), b"a:bc");
    assert_eq!(short.call_count(), 1);
    assert_eq!(long.call_count(), 1);
}

#[test]
fn lengths_are_written_in_eight_bytes_lowest_first() {
    assert_eq!(length_prefix(0), vec![0, 0, 0, 0, 0, 0, 0, 0]);
    assert_eq!(length_prefix(11), vec![11, 0, 0, 0, 0, 0, 0, 0]);
    assert_eq!(length_prefix(0x0102), vec![2, 1, 0, 0, 0, 0, 0, 0]);
    assert_eq!(length_prefix(usize::MAX), (usize::MAX as u64).to_le_bytes().to_vec());
}

#[test]
fn different_identities_do_not_share_an_entry() {
    let cache: Cache<String, Vec<u8>> = Cache::new(100);
    let first = MockVoice::named("one");
    let second = MockVoice::named("two");
    // Both voices write to one cache, as voices of one registry do.
    let mut cached_first = CachedVoice::new(Box::new(first.clone()), cache.clone());
    let mut cached_second = CachedVoice::new(Box::new(second.clone()), cache.clone());
    assert_ne!(cached_first.key_for("hello"), cached_second.key_for("hello"));

    assert_eq!(cached_first.generate("hello").unwrap(), b"one:hello");
    assert_eq!(cached_second.generate("hello").unwrap(), b"two:hello");
    assert_eq!(first.call_count(), 1);
    assert_eq!(second.call_count(), 1);
    assert_eq!(cached_first.generate("hello").unwrap(), b"one:hello");
    assert_eq!(cached_second.generate("hello").unwrap(), b"two:hello");
    assert_eq!(first.call_count(), 1);
    assert_eq!(second.call_count(), 1);
}

#[test]
fn failure_of_the_source_is_returned_unchanged_and_not_stored() {
    let mut failing = MockVoice::new();
    failing.fail = true;
    let mut cached = CachedVoice::new(Box::new(failing.clone()), Cache::new(100));
    for attempt in 1..=2 {
        match cached.generate("hello") {
            Err(VoiceError::Api(detail)) => assert_eq!(detail, "down"),
            _ => panic!("the source's error comes back"),
        }
        assert_eq!(failing.call_count(), attempt);
    }
    assert!(cached.lookup("hello").is_none());
}

#[test]
fn lookup_and_settle_are_the_two_halves_of_generate() {
    let mock = MockVoice::new();
    let mut cached = CachedVoice::new(Box::new(mock.clone()), Cache::new(100));
    assert!(cached.lookup("hello").is_none());
    assert_eq!(cached.settle("hello", Ok(vec![1, 2, 3])).unwrap(), vec![1, 2, 3]);
    assert_eq!(cached.lookup("hello"), Some(vec![1, 2, 3]));
    assert_eq!(cached.generate("hello").unwrap(), vec![1, 2, 3]);
    assert_eq!(mock.call_count(), 0);
    match cached.settle("other", Err(VoiceError::Cache("full".to_string()))) {
        Err(VoiceError::Cache(detail)) => assert_eq!(detail, "full"),
        _ => panic!("a failure is handed on"),
    }
    assert!(cached.lookup("other").is_none());
}

#[test]
fn cache_without_capacity_asks_the_source_every_time() {
    let mock = MockVoice::new();
    let mut cached = CachedVoice::new(Box::new(mock.clone()), Cache::new(0));
    assert_eq!(cached.generate("hello").unwrap(), b"hello");
    assert_eq!(cached.generate("hello").unwrap(), b"hello");
    assert_eq!(mock.call_count(), 2);
}
