use text_to_speech_rs::cli::{Cli, Commands, MigrateCommand};
use text_to_speech_rs::config::{
    default_timeout, has_profile, AppConfig, BackendConfig, BotConfig, CacheConfig, ConfigError, DatabaseConfig,
    DatabaseKind, GoogleCloudBackendConfig, InMemoryCacheConfig, ProfileBackendConfig, ProfileConfig,
    VoiceDetailConfig,
};
use text_to_speech_rs::tts::google_cloud::{Encoding, GenderConfig, GoogleCloudVoiceConfig};
use text_to_speech_rs::tts::registry::{cache_for, missing_backend};
use text_to_speech_rs::tts::VoiceDetail;

fn voice_config() -> GoogleCloudVoiceConfig {
    GoogleCloudVoiceConfig {
        language_code: "ja-JP".to_string(),
        name: Some("ja-JP-Wavenet-A".to_string()),
        ssml_gender: None,
        model_name: None,
        speaking_rate: Some(1.5f32.to_bits()),
        pitch: None,
        volume_gain_db: None,
        encoding: None,
    }
}

fn profile() -> ProfileConfig {
    ProfileConfig { note: None, voice_backend: ProfileBackendConfig::GoogleCloudVoice(voice_config()) }
}

fn config(token: &str, global_profile: &str, ids: &[&str]) -> AppConfig {
    AppConfig {
        bot: BotConfig { token: token.to_string(), global_profile: global_profile.to_string() },
        database: DatabaseConfig { kind: DatabaseKind::SQLite, url: "".to_string() },
        backend: BackendConfig::default(),
        cache: CacheConfig::Disabled,
        profiles: ids.iter().map(|id| (id.to_string(), profile())).collect(),
    }
}

#[test]
fn verify_accepts_a_token_and_a_known_global_profile() {
    assert!(config("t", "b", &["a", "b"]).verify().is_ok());
}

#[test]
fn verify_refuses_an_empty_token_first() {
    assert!(matches!(config("", "nope", &["a"]).verify(), Err(ConfigError::EmptyToken)));
    assert!(matches!(config("", "a", &["a"]).verify(), Err(ConfigError::EmptyToken)));
}

#[test]
fn verify_refuses_an_unknown_global_profile() {
    match config("t", "nope", &["a", "b"]).verify() {
        Err(ConfigError::UnknownGlobalProfile(id)) => assert_eq!(id, "nope"),
        _ => panic!("the global profile is not configured"),
    }
    assert!(matches!(config("t", "", &[]).verify(), Err(ConfigError::UnknownGlobalProfile(_))));
}

#[test]
fn has_profile_compares_whole_ids() {
    let profiles = config("t", "a", &["alpha", "beta"]).profiles;
    assert!(has_profile(&profiles, "beta"));
    assert!(!has_profile(&profiles, "bet"));
    assert!(!has_profile(&profiles, "betas"));
}

#[test]
fn fill_prefers_what_is_configured() {
    let default = || VoiceDetail {
        name: "default-name".to_string(),
        provider: "provider".to_string(),
        description: Some("default-description".to_string()),
    };
    let empty = VoiceDetailConfig::default().fill(default());
    assert_eq!(empty.name, "default-name");
    assert_eq!(empty.provider, "provider");
    assert_eq!(empty.description, None);

    let note = VoiceDetailConfig {
        name: Some("Shown".to_string()),
        language: Some("ja".to_string()),
        description: Some("A voice".to_string()),
    };
    let filled = note.fill(default());
    assert_eq!(filled.name, "Shown");
    assert_eq!(filled.provider, "provider");
    assert_eq!(filled.description, Some("A voice".to_string()));
}

#[test]
fn defaults_are_as_documented() {
    assert_eq!(default_timeout(), 5);
    assert_eq!(BackendConfig::default().google_cloud, None);
    assert_eq!(BotConfig::default().token, "");
    assert_eq!(GenderConfig::default(), GenderConfig::Unspecified);
    assert_eq!(Encoding::default(), Encoding::Linear16);
    assert_eq!(GoogleCloudBackendConfig { timeout: default_timeout() }.timeout, 5);
    assert_eq!(f32::from_bits(voice_config().speaking_rate.unwrap()), 1.5);
}

#[test]
fn missing_backend_names_the_first_profile_that_cannot_be_built() {
    let profiles = config("t", "a", &["a", "b"]).profiles;
    assert_eq!(missing_backend(&profiles, false), Some("a".to_string()));
    assert_eq!(missing_backend(&profiles, true), None);
    assert_eq!(missing_backend(&Vec::new(), false), None);
}

#[test]
fn cache_is_made_only_where_configured() {
    assert!(cache_for(&CacheConfig::Disabled).is_none());
    let cache = cache_for(&CacheConfig::InMemory(InMemoryCacheConfig { capacity: 100 })).expect("configured");
    assert!(cache.get("anything").is_none());
    assert_eq!(cache.policy().max_capacity(), Some(100));
}

#[test]
fn command_line_values_compare_by_content() {
    let run = Cli { command: Commands::Run { auto_migrate: true } };
    assert_eq!(run, Cli { command: Commands::Run { auto_migrate: true } });
    assert_ne!(run, Cli { command: Commands::Run { auto_migrate: false } });
    assert_ne!(
        Cli { command: Commands::Migrate { command: MigrateCommand::Up } },
        Cli { command: Commands::Migrate { command: MigrateCommand::Status } }
    );
}
