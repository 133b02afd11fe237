use std::sync::Arc;
use text_to_speech_rs::session::{Priority, SessionCommand, SessionHandle, Speaker, Undelivered};
use text_to_speech_rs::tts::registry::VoiceRegistry;
use text_to_speech_rs::tts::{SharedVoice, Voice, VoiceDetail, VoiceError, DISCORD_SAMPLE_RATE};

struct NamedVoice(&'static str);

impl Voice for NamedVoice {
    fn identifier(&self) -> &str {
        self.0
    }

    fn language(&self) -> &str {
        "ja-JP"
    }

    fn generate(&self, text: &str) -> Result<Vec<u8>, VoiceError> {
        Ok(format!("{}:{}", self.0, text).into_bytes())
    }
}

fn shared(name: &'static str) -> SharedVoice {
    let voice: Arc<dyn Voice> = Arc::new(NamedVoice(name));
    SharedVoice::new(voice)
}

#[test]
fn speak_delivers_a_user_request_with_its_speaker() {
    let (tx, mut rx) = tokio::sync::mpsc::channel(4);
    let handle = SessionHandle::new(tx);
    assert!(handle.speak("hi".to_string(), shared("v"), Speaker::new(5, "Dee".to_string())).is_ok());
    match rx.try_recv().unwrap() {
        SessionCommand::Speak { text, voice, speaker, priority } => {
            assert_eq!(text, "hi");
            assert_eq!(voice.identifier(), "v");
            let speaker = speaker.unwrap();
            assert_eq!((speaker.user_id, speaker.name.as_str()), (5, "Dee"));
            assert_eq!(priority, Priority::User);
        }
        _ => panic!("speak sends a speak request"),
    }
}

#[test]
fn announce_delivers_a_system_request_without_speaker() {
    let (tx, mut rx) = tokio::sync::mpsc::channel(4);
    let handle = SessionHandle::new(tx);
    assert!(handle.announce("notice".to_string(), shared("v")).is_ok());
    match rx.try_recv().unwrap() {
        SessionCommand::Speak { text, speaker, priority, .. } => {
            assert_eq!(text, "notice");
            assert!(speaker.is_none());
            assert_eq!(priority, Priority::System);
        }
        _ => panic!("announce sends a speak request"),
    }
}

#[test]
fn stop_and_leave_deliver_their_commands_in_order() {
    let (tx, mut rx) = tokio::sync::mpsc::channel(4);
    let handle = SessionHandle::new(tx);
    let clone = handle.clone();
    assert!(handle.stop().is_ok());
    assert!(clone.leave().is_ok());
    assert!(matches!(rx.try_recv().unwrap(), SessionCommand::Stop));
    assert!(matches!(rx.try_recv().unwrap(), SessionCommand::Leave));
    assert!(rx.try_recv().is_err());
    assert!(handle.sender().same_channel(clone.sender()));
}

#[test]
fn full_inbox_hands_the_command_back() {
    let (tx, _rx) = tokio::sync::mpsc::channel(1);
    let handle = SessionHandle::new(tx);
    assert!(handle.stop().is_ok());
    let refused = handle.announce("later".to_string(), shared("v")).unwrap_err();
    assert!(!refused.is_closed());
    match refused {
        Undelivered::Full(SessionCommand::Speak { text, priority, .. }) => {
            assert_eq!(text, "later");
            assert_eq!(priority, Priority::System);
        }
        _ => panic!("the inbox is full, not closed"),
    }
}

#[test]
fn closed_inbox_reports_the_session_gone() {
    let (tx, rx) = tokio::sync::mpsc::channel(1);
    let handle = SessionHandle::new(tx);
    drop(rx);
    let refused = handle.leave().unwrap_err();
    assert!(refused.is_closed());
    assert!(matches!(refused.into_command(), SessionCommand::Leave));
    assert!(handle.speak("x".to_string(), shared("v"), Speaker::new(1, "A".to_string())).unwrap_err().is_closed());
}

#[test]
fn command_builders_set_lane_and_speaker() {
    match SessionCommand::speak("a".to_string(), shared("v"), Speaker::new(1, "A".to_string())) {
        SessionCommand::Speak { priority: Priority::User, speaker: Some(speaker), .. } => {
            assert_eq!(speaker.name, "A")
        }
        _ => panic!("a message is a user request"),
    }
    assert!(matches!(
        SessionCommand::announce("a".to_string(), shared("v")),
        SessionCommand::Speak { priority: Priority::System, speaker: None, .. }
    ));
}

#[test]
fn shared_voice_shares_one_voice() {
    let voice = shared("one");
    let copy = voice.clone();
    assert!(Arc::ptr_eq(voice.as_arc(), copy.as_arc()));
    assert_eq!(copy.identifier(), "one");
    assert_eq!(copy.language(), "ja-JP");
    assert_eq!(copy.generate("x").unwrap(), b"one:x");
}

#[test]
fn voice_errors_render_with_their_prefix() {
    assert_eq!(VoiceError::Api("quota".to_string()).message(), "API request failed: quota");
    assert_eq!(VoiceError::Cache("full".to_string()).message(), "Cache error: full");
    assert_eq!(VoiceError::Unknown("?".to_string()).message(), "Unknown error: ?");
    assert_eq!(DISCORD_SAMPLE_RATE, 48_000);
}

#[test]
fn registry_finds_voices_by_profile_id() {
    let registry = VoiceRegistry::new(vec![
        ("a".to_string(), shared("first")),
        ("b".to_string(), shared("second")),
        ("a".to_string(), shared("third")),
    ]);
    assert_eq!(registry.get("b").unwrap().identifier(), "second");
    // The later entry under an id counts.
    assert_eq!(registry.get("a").unwrap().identifier(), "third");
    assert!(registry.get("c").is_none());
    assert!(registry.get("").is_none());
    assert!(VoiceRegistry::new(Vec::new()).get("a").is_none());
    let copy = registry.clone();
    assert_eq!(copy.get("b").unwrap().identifier(), "second");
}

#[test]
fn voice_detail_holds_what_is_shown() {
    let detail = VoiceDetail { name: "n".to_string(), provider: "p".to_string(), description: None };
    assert_eq!((detail.name.as_str(), detail.provider.as_str()), ("n", "p"));
}
