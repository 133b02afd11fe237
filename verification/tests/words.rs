use text_to_speech_rs::command::{
    choice_label, chosen_message, cleared_message, joined_message, voice_not_found, Scope,
};
use text_to_speech_rs::database::{is_applied, migration_status, MigrationStatus};
use text_to_speech_rs::handler::announced_name;
use text_to_speech_rs::localization::{LocaleMatchingMode, LocaleSearchPolicy};
use text_to_speech_rs::config::{CacheConfig, InMemoryCacheConfig, ProfileBackendConfig, ProfileConfig};
use text_to_speech_rs::tts::google_cloud::{build_identifier, GoogleCloudVoiceConfig, IdentifierParts};
use text_to_speech_rs::tts::registry::{cache_for, missing_backend, wrap_with_cache, Wrapped};
use text_to_speech_rs::tts::{Voice, VoiceDetail, VoiceError};

#[test]
fn scope_is_read_from_the_parent_command() {
    assert_eq!(Scope::from_name("user"), Some(Scope::User));
    assert_eq!(Scope::from_name("guild"), Some(Scope::Guild));
    assert_eq!(Scope::from_name("User"), None);
    assert_eq!(Scope::from_name(""), None);
    assert_eq!(Scope::from_name("users"), None);
    assert_eq!(Scope::User.label(), "user");
    assert_eq!(Scope::Guild.label(), "guild");
}

#[test]
fn answers_name_the_voice_and_the_scope() {
    assert_eq!(chosen_message("wavenet-a", Scope::User), "wavenet-a was chosen for user voice.");
    assert_eq!(chosen_message("x", Scope::Guild), "x was chosen for guild voice.");
    assert_eq!(cleared_message(Scope::Guild), "voice was cleared for guild voice.");
    assert_eq!(voice_not_found("zz"), "voice zz not found");
    assert_eq!(joined_message(10, 20), "Now, I'm reading <#10> in <#20>");
}

#[test]
fn voices_are_listed_with_their_description_where_they_have_one() {
    let with = VoiceDetail {
        name: "Wavenet A".to_string(),
        provider: "Google".to_string(),
        description: Some("soft".to_string()),
    };
    assert_eq!(choice_label(&with), "Google  |  Wavenet A (soft)");
    let without = VoiceDetail { name: "Wavenet A".to_string(), provider: "Google".to_string(), description: None };
    assert_eq!(choice_label(&without), "Google | Wavenet A");
}

#[test]
fn migrations_are_marked_applied_by_version() {
    assert_eq!(
        migration_status(&vec![1, 2, 3], &vec![3, 1]),
        vec![
            MigrationStatus { version: 1, applied: true },
            MigrationStatus { version: 2, applied: false },
            MigrationStatus { version: 3, applied: true },
        ]
    );
    assert!(migration_status(&vec![], &vec![1]).is_empty());
    assert_eq!(migration_status(&vec![7], &vec![]), vec![MigrationStatus { version: 7, applied: false }]);
    assert!(is_applied(&vec![-1, 5], -1));
    assert!(!is_applied(&vec![-1, 5], 1));
}

#[test]
fn members_are_announced_by_the_best_name_at_hand() {
    assert_eq!(announced_name(Some("Ann".to_string()), Some("somebody".to_string())), "Ann");
    assert_eq!(announced_name(None, Some("somebody".to_string())), "somebody");
    assert_eq!(announced_name(None, None), "someone");
}

#[test]
fn policies_for_speech_and_chat_differ_in_reach() {
    let speech = LocaleSearchPolicy::for_speech("en".to_string());
    assert_eq!(speech.mode, LocaleMatchingMode::Cascading { delimiter: '-' });
    assert_eq!(speech.generate_candidates("ja-JP"), vec!["ja-JP", "ja", "en"]);
    let chat = LocaleSearchPolicy::for_chat("en-US".to_string());
    assert_eq!(chat.mode, LocaleMatchingMode::Exact);
    assert_eq!(chat.generate_candidates("ja-JP"), vec!["ja-JP", "en-US"]);
}

#[test]
fn test_identifier_generation() {
    let parts = IdentifierParts {
        language_code: "ja-JP",
        name: "ja-JP-Wavenet-A",
        ssml_gender: "FEMALE",
        model_name: "default",
        audio_encoding: "PCM",
        speaking_rate: "1.5",
        pitch: "-2",
        volume_gain_db: "3",
        sample_rate_hertz: "48000",
    };
    assert_eq!(build_identifier(&parts), "google_cloud-(lang:ja-JP,name:ja-JP-Wavenet-A,gender:FEMALE,model:default,encoding:PCM,speaking_rate:1.5,pitch:-2,gain:3,sample_rate_hz:48000)");
}

struct Quiet;

impl Voice for Quiet {
    fn identifier(&self) -> &str {
        "google_cloud-(quiet)"
    }

    fn language(&self) -> &str {
        "en"
    }

    fn generate(&self, _text: &str) -> Result<Vec<u8>, VoiceError> {
        Ok(Vec::new())
    }
}

#[test]
fn test_build_with_cache_enabled() {
    let cache = cache_for(&CacheConfig::InMemory(InMemoryCacheConfig { capacity: 100 }));
    assert!(cache.is_some());
    match wrap_with_cache(Box::new(Quiet), cache) {
        Wrapped::Cached(voice) => {
            assert!(voice.identifier().starts_with("cached"), "ID should start with cached: {}", voice.identifier());
            assert!(voice.identifier().contains("google"), "ID should contain internal voice id");
        }
        Wrapped::Plain(_) => panic!("a cache is configured"),
    }
}

#[test]
fn test_build_with_cache_disabled() {
    let cache = cache_for(&CacheConfig::Disabled);
    match wrap_with_cache(Box::new(Quiet), cache) {
        Wrapped::Plain(voice) => {
            assert!(!voice.identifier().starts_with("cached"), "ID should NOT start with cached: {}", voice.identifier());
            assert!(voice.identifier().starts_with("google"), "ID should start directly with google");
        }
        Wrapped::Cached(_) => panic!("no cache is configured"),
    }
}

#[test]
fn test_build_fail_missing_client() {
    let profiles = vec![(
        "test_preset".to_string(),
        ProfileConfig {
            note: None,
            voice_backend: ProfileBackendConfig::GoogleCloudVoice(GoogleCloudVoiceConfig {
                language_code: "ja-JP".to_string(),
                name: Some("ja-JP-Wavenet-A".to_string()),
                ssml_gender: None,
                model_name: None,
                speaking_rate: None,
                pitch: None,
                volume_gain_db: None,
                encoding: None,
            }),
        },
    )];
    // build without client
    let result = missing_backend(&profiles, false);
    assert!(result.is_some());
    assert_eq!(result.unwrap(), "test_preset");
}
