//! The synthesis cache: a voice that remembers what its source produced.
//!
//! Audio is stored under a key derived from the voice's identifier and the
//! text, so that equal requests are synthesised once while their entry
//! stays in the cache. The cache is `moka`'s; it is bounded and evicts as it
//! sees fit, and an evicted entry is simply synthesised again.

use crate::tts::voice_answers;
use crate::tts::voice_is_named;
use crate::tts::voice_speaks;
use crate::tts::Voice;
use crate::tts::VoiceError;
use moka::sync::Cache;
use sha2::digest::Update;
use sha2::Digest;
use sha2::Sha256;
use vstd::prelude::*;
use vstd::string::*;
use vstd::utf8::encode_utf8;
use vstd::utf8::encode_utf8_decode_utf8;

verus! {

/// The SHA-256 digest of a message.
pub uninterp spec fn sha256(message: Seq<u8>) -> Seq<u8>;

/// `Sha256::new().chain(first).chain(second).chain(third).finalize()`: the
/// digest of the message fed to the hasher, which is `first`, then `second`,
/// then `third`. A SHA-256 digest has 32 bytes.
#[verifier::external_body]
fn sha256_of_parts(first: &[u8], second: &[u8], third: &[u8]) -> (digest: Vec<u8>)
    ensures
        digest@ == sha256(first@ + second@ + third@),
        digest@.len() == 32,
{
    Sha256::new().chain(first).chain(second).chain(third).finalize().to_vec()
}

/// The lowest `count` bytes of a length, lowest first.
pub open spec fn low_bytes(length: nat, count: nat) -> Seq<u8>
    decreases count,
{
    if count == 0 {
        Seq::empty()
    } else {
        seq![(length % 256) as u8] + low_bytes(length / 256, (count - 1) as nat)
    }
}

/// A length in eight bytes, lowest first.
pub open spec fn length_bytes(length: nat) -> Seq<u8> {
    low_bytes(length, 8)
}

/// Writes a length in eight bytes; see [`length_bytes`].
pub fn length_prefix(length: usize) -> (bytes: Vec<u8>)
    ensures
        bytes@ == length_bytes(length as nat),
{
    let mut rest: u64 = length as u64;
    let mut bytes: Vec<u8> = Vec::new();
    let mut written: usize = 0;
    assert(bytes@ + low_bytes(rest as nat, 8) =~= length_bytes(length as nat));
    while written < 8
        invariant
            written <= 8,
            bytes@.len() == written,
            bytes@ + low_bytes(rest as nat, (8 - written) as nat) == length_bytes(length as nat),
        decreases 8 - written,
    {
        let ghost before = bytes@;
        bytes.push((rest % 256) as u8);
        assert(bytes@ + low_bytes((rest / 256) as nat, (8 - written - 1) as nat) =~= before + low_bytes(
            rest as nat,
            (8 - written) as nat,
        ));
        rest = rest / 256;
        written = written + 1;
    }
    assert(low_bytes(rest as nat, 0) =~= Seq::empty());
    assert(bytes@ + Seq::<u8>::empty() =~= bytes@);
    bytes
}

/// What is hashed for a request: the length of the identifier's bytes, the
/// identifier's bytes, and the text's bytes. The length in front keeps the
/// two fields apart, so that no identifier with a text reads like another
/// identifier with another text.
pub open spec fn key_message(identifier: Seq<char>, text: Seq<char>) -> Seq<u8> {
    length_bytes(encode_utf8(identifier).len()) + encode_utf8(identifier) + encode_utf8(text)
}

/// The lower-case hexadecimal digit of a value below sixteen.
pub open spec fn hex_digit(nibble: int) -> char {
    if nibble < 10 {
        (('0' as int) + nibble) as char
    } else {
        (('a' as int) + nibble - 10) as char
    }
}

/// `bytes` in lower-case hexadecimal, two digits a byte, high digit first.
pub open spec fn hex_lower(bytes: Seq<u8>) -> Seq<char> {
    Seq::new(
        2 * bytes.len(),
        |i: int|
            if i % 2 == 0 {
                hex_digit(bytes[i / 2] as int / 16)
            } else {
                hex_digit(bytes[i / 2] as int % 16)
            },
    )
}

/// `hex::encode`: the bytes in lower-case hexadecimal, two digits each.
#[verifier::external_body]
fn hex_encode(bytes: &[u8]) -> (text: String)
    ensures
        text@ == hex_lower(bytes@),
{
    hex::encode(bytes)
}

/// The key under which the audio of `text`, spoken by the voice named
/// `identifier`, is stored: the SHA-256 digest of [`key_message`], in
/// hexadecimal.
pub open spec fn cache_key_spec(identifier: Seq<char>, text: Seq<char>) -> Seq<char> {
    hex_lower(sha256(key_message(identifier, text)))
}

/// Derives the cache key of a request; see [`cache_key_spec`].
pub fn cache_key(identifier: &str, text: &str) -> (key: String)
    ensures
        key@ == cache_key_spec(identifier@, text@),
        key@.len() == 64,
{
    let name = identifier.as_bytes();
    let prefix = length_prefix(name.len());
    let digest = sha256_of_parts(prefix.as_slice(), name, text.as_bytes());
    hex_encode(digest.as_slice())
}

/// The identifier of the caching voice around a voice named `inner`.
pub open spec fn cached_identifier_spec(inner: Seq<char>) -> Seq<char> {
    "cached-"@ + inner
}

/// Names the caching voice around a voice named `inner`: `cached-`, then
/// the inner name.
pub fn cached_identifier(inner: &str) -> (identifier: String)
    ensures
        identifier@ == cached_identifier_spec(inner@),
{
    "cached-".to_owned().concat(inner)
}

/// `moka::sync::Cache`, a bounded concurrent cache.
#[verifier::external_type_specification]
#[verifier::external_body]
#[verifier::reject_recursive_types(K)]
#[verifier::reject_recursive_types(V)]
#[verifier::reject_recursive_types(S)]
pub struct ExCache<K, V, S>(Cache<K, V, S>);

/// What was written to a cache: for each key, the value inserted last under
/// it. The cache may have evicted any of it since.
pub uninterp spec fn cache_writes(cache: Cache<String, Vec<u8>>) -> Map<Seq<char>, Seq<u8>>;

/// `Cache::new`: an empty cache that holds up to `capacity` entries.
#[verifier::external_body]
pub(crate) fn cache_new(capacity: u64) -> (cache: Cache<String, Vec<u8>>)
    ensures
        cache_writes(cache).dom() == Set::<Seq<char>>::empty(),
{
    Cache::new(capacity)
}

/// `Cache::get`: a copy of the value stored under `key`. The cache decides
/// whether the entry is still there; if it is, it holds what was inserted
/// last under that key.
#[verifier::external_body]
fn cache_get(cache: &Cache<String, Vec<u8>>, key: &str) -> (found: Option<Vec<u8>>)
    ensures
        found matches Some(data) ==> cache_writes(*cache).contains_key(key@) && data@ == cache_writes(
            *cache,
        )[key@],
{
    cache.get(key)
}

/// `Cache::insert`: stores `data` under `key`, in place of what was stored
/// there.
#[verifier::external_body]
fn cache_insert(cache: &mut Cache<String, Vec<u8>>, key: String, data: Vec<u8>)
    ensures
        cache_writes(*final(cache)) == cache_writes(*old(cache)).insert(key@, data@),
{
    cache.insert(key, data)
}

/// A voice that asks its source only for what its cache does not hold.
///
/// What is stated of the cache holds as long as nothing else writes to it
/// under the keys of this voice. Voices with different identifiers derive
/// different keys, short of a collision of SHA-256 (see
/// [`lemma_requests_hash_apart`]), so they may share one cache.
pub struct CachedVoice<V: Voice + ?Sized = dyn Voice> {
    identifier: String,
    inner: Box<V>,
    cache: Cache<String, Vec<u8>>,
}

impl<V: Voice + ?Sized> CachedVoice<V> {
    /// The name of this voice: `cached-`, then the name of its source.
    pub closed spec fn identifier_spec(self) -> Seq<char> {
        self.identifier@
    }

    /// The source of this voice.
    pub closed spec fn source(self) -> Box<V> {
        self.inner
    }

    /// What this voice has written to its cache, by key.
    pub closed spec fn writes(self) -> Map<Seq<char>, Seq<u8>> {
        cache_writes(self.cache)
    }

    /// The key of `text` in this voice's cache.
    pub open spec fn key_spec(self, text: Seq<char>) -> Seq<char> {
        cache_key_spec(self.identifier_spec(), text)
    }

    /// Whether `found` is what this voice's cache may give when it is asked
    /// for the entry under the key of `text`.
    pub closed spec fn cache_gives(self, text: Seq<char>, found: Option<Vec<u8>>) -> bool {
        exists|key: &str| key@ == self.key_spec(text) && #[trigger] call_ensures(cache_get, (&self.cache, key), found)
    }

    /// Wraps `inner`, storing what it produces in `cache`. The voice is
    /// named `cached-`, then what `inner` gives as its identifier.
    pub fn new(inner: Box<V>, cache: Cache<String, Vec<u8>>) -> (voice: Self)
        ensures
            voice.source() == inner,
            voice.writes() == cache_writes(cache),
            exists|name: &str| #[trigger]
                voice_is_named(&*inner, name) && voice.identifier_spec() == cached_identifier_spec(name@),
    {
        let name = inner.identifier();
        assert(voice_is_named(&*inner, name));
        let identifier = cached_identifier(name);
        Self { identifier, inner, cache }
    }

    /// The name of this voice.
    pub fn identifier(&self) -> (identifier: &str)
        ensures
            identifier@ == self.identifier_spec(),
    {
        self.identifier.as_str()
    }

    /// The language of the source.
    pub fn language(&self) -> (language: &str)
        ensures
            voice_speaks(&*self.source(), language),
    {
        self.inner.language()
    }

    /// The key of `text` in this voice's cache.
    pub fn key_for(&self, text: &str) -> (key: String)
        ensures
            key@ == self.key_spec(text@),
    {
        cache_key(self.identifier.as_str(), text)
    }

    /// The audio stored for `text`, if the cache still holds it: what the
    /// cache gives for the key of `text`, which is what was written last
    /// under that key where it is anything.
    pub fn lookup(&self, text: &str) -> (found: Option<Vec<u8>>)
        ensures
            self.cache_gives(text@, found),
            found matches Some(data) ==> self.writes().contains_key(self.key_spec(text@)) && data@
                == self.writes()[self.key_spec(text@)],
    {
        let key = self.key_for(text);
        cache_get(&self.cache, key.as_str())
    }

    /// Finishes a request that missed the cache, given what the source
    /// produced: audio is stored under the key of `text` and returned; a
    /// failure is returned as it came, and nothing is stored.
    pub fn settle(&mut self, text: &str, produced: Result<Vec<u8>, VoiceError>) -> (result: Result<
        Vec<u8>,
        VoiceError,
    >)
        ensures
            final(self).identifier_spec() == old(self).identifier_spec(),
            final(self).source() == old(self).source(),
            result == produced,
            final(self).writes() == (match produced {
                Ok(data) => old(self).writes().insert(old(self).key_spec(text@), data@),
                Err(_) => old(self).writes(),
            }),
    {
        match produced {
            Ok(data) => {
                let key = self.key_for(text);
                cache_insert(&mut self.cache, key, data.clone());
                Ok(data)
            },
            Err(error) => Err(error),
        }
    }

    /// Produces the audio of `text`: from the cache where it holds the
    /// entry, and from the source otherwise, in which case the audio is
    /// stored before it is returned.
    ///
    /// The source is asked only on a miss. Its failure is returned
    /// unchanged, and leaves the cache as it was.
    pub fn generate(&mut self, text: &str) -> (result: Result<Vec<u8>, VoiceError>)
        ensures
            final(self).identifier_spec() == old(self).identifier_spec(),
            final(self).source() == old(self).source(),
            match result {
                Ok(data) => {
                    ||| {
                        &&& old(self).cache_gives(text@, Some(data))
                        &&& old(self).writes().contains_key(old(self).key_spec(text@))
                        &&& data@ == old(self).writes()[old(self).key_spec(text@)]
                        &&& final(self).writes() == old(self).writes()
                    }
                    ||| {
                        &&& old(self).cache_gives(text@, None)
                        &&& voice_answers(&*old(self).source(), text@, result)
                        &&& final(self).writes() == old(self).writes().insert(
                            old(self).key_spec(text@),
                            data@,
                        )
                    }
                },
                Err(_) => {
                    &&& old(self).cache_gives(text@, None)
                    &&& voice_answers(&*old(self).source(), text@, result)
                    &&& final(self).writes() == old(self).writes()
                },
            },
    {
        match self.lookup(text) {
            Some(data) => Ok(data),
            None => {
                let produced = self.inner.generate(text);
                self.settle(text, produced)
            },
        }
    }
}

/// The lengths that `count` bytes can hold lie below this.
pub open spec fn byte_limit(count: nat) -> nat
    decreases count,
{
    if count == 0 {
        1
    } else {
        256 * byte_limit((count - 1) as nat)
    }
}

/// Bytes stand for one length only, among the lengths they can hold.
pub proof fn lemma_low_bytes_tell_lengths_apart(first: nat, second: nat, count: nat)
    requires
        first < byte_limit(count),
        second < byte_limit(count),
        low_bytes(first, count) == low_bytes(second, count),
    ensures
        first == second,
    decreases count,
{
    if count > 0 {
        let a = low_bytes(first, count);
        let b = low_bytes(second, count);
        assert(a[0] == b[0]);
        assert(low_bytes(first / 256, (count - 1) as nat) =~= a.subrange(1, a.len() as int));
        assert(low_bytes(second / 256, (count - 1) as nat) =~= b.subrange(1, b.len() as int));
        lemma_low_bytes_tell_lengths_apart(first / 256, second / 256, (count - 1) as nat);
    }
}

/// Eight bytes stand for one length only.
pub proof fn lemma_length_bytes_tell_lengths_apart(first: nat, second: nat)
    requires
        first <= u64::MAX,
        second <= u64::MAX,
        length_bytes(first) == length_bytes(second),
    ensures
        first == second,
{
    assert(byte_limit(8) == 0x1_0000_0000_0000_0000) by {
        reveal_with_fuel(byte_limit, 9);
    }
    lemma_low_bytes_tell_lengths_apart(first, second, 8);
}

/// A run of bytes is as long as it was asked for.
pub proof fn lemma_low_bytes_length(length: nat, count: nat)
    ensures
        low_bytes(length, count).len() == count,
    decreases count,
{
    if count > 0 {
        lemma_low_bytes_length(length / 256, (count - 1) as nat);
    }
}

/// Different requests hash different messages: two requests share a key
/// only where SHA-256 gives two messages one digest. This holds where the
/// identifiers differ, where the texts differ, and where one identifier
/// begins with the other.
pub proof fn lemma_requests_hash_apart(
    first: Seq<char>,
    first_text: Seq<char>,
    second: Seq<char>,
    second_text: Seq<char>,
)
    requires
        first != second || first_text != second_text,
        encode_utf8(first).len() <= u64::MAX,
        encode_utf8(second).len() <= u64::MAX,
    ensures
        key_message(first, first_text) != key_message(second, second_text),
{
    let a = encode_utf8(first);
    let b = encode_utf8(second);
    let s = encode_utf8(first_text);
    let t = encode_utf8(second_text);
    let m = key_message(first, first_text);
    let n = key_message(second, second_text);
    lemma_low_bytes_length(a.len(), 8);
    lemma_low_bytes_length(b.len(), 8);
    if m == n {
        assert(length_bytes(a.len()) =~= m.subrange(0, 8));
        assert(length_bytes(b.len()) =~= n.subrange(0, 8));
        lemma_length_bytes_tell_lengths_apart(a.len(), b.len());
        assert(a =~= m.subrange(8, 8 + a.len() as int));
        assert(b =~= n.subrange(8, 8 + b.len() as int));
        assert(s =~= m.subrange(8 + a.len() as int, m.len() as int));
        assert(t =~= n.subrange(8 + b.len() as int, n.len() as int));
        encode_utf8_decode_utf8(first);
        encode_utf8_decode_utf8(second);
        encode_utf8_decode_utf8(first_text);
        encode_utf8_decode_utf8(second_text);
        assert(false);
    }
}

} // verus!
