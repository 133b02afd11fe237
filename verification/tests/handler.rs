use text_to_speech_rs::handler::{
    generate_notifications, plan_voice_state_update, reads_message, settle_delivery, voice_state_update_kind,
    ChannelTransition, Delivery, Notification, NotificationKind, VoiceStateAction, VoiceStateChange, MESSAGE_LIMIT,
};
use text_to_speech_rs::session::manager::SessionManager;
use text_to_speech_rs::session::{SessionCommand, SessionHandle, Undelivered};

#[test]
fn transitions_are_told_apart_by_the_two_channels() {
    assert_eq!(voice_state_update_kind(Some(1), None), ChannelTransition::Disconnect { old_channel_id: 1 });
    assert_eq!(voice_state_update_kind(None, Some(2)), ChannelTransition::Connect { new_channel_id: 2 });
    assert_eq!(
        voice_state_update_kind(Some(1), Some(2)),
        ChannelTransition::Move { new_channel_id: 2, old_channel_id: 1 }
    );
    assert_eq!(voice_state_update_kind(Some(1), Some(1)), ChannelTransition::Ignore);
    assert_eq!(voice_state_update_kind(None, None), ChannelTransition::Ignore);
}

#[test]
fn notifications_follow_the_transition() {
    assert_eq!(
        generate_notifications(None, Some(2)),
        vec![Notification { channel_id: 2, kind: NotificationKind::UserJoin }]
    );
    assert_eq!(
        generate_notifications(Some(1), None),
        vec![Notification { channel_id: 1, kind: NotificationKind::UserLeave }]
    );
    assert_eq!(
        generate_notifications(Some(1), Some(2)),
        vec![
            Notification { channel_id: 1, kind: NotificationKind::UserLeave },
            Notification { channel_id: 2, kind: NotificationKind::UserJoin },
        ]
    );
    assert!(generate_notifications(Some(1), Some(1)).is_empty());
    assert!(generate_notifications(None, None).is_empty());
}

#[test]
fn notification_kinds_name_their_message() {
    assert_eq!(NotificationKind::UserJoin.locale_id(), "user-join");
    assert_eq!(NotificationKind::UserLeave.locale_id(), "user-leave");
    assert_eq!(MESSAGE_LIMIT, 300);
}

fn change(is_self: bool, old: (Option<u64>, Option<u64>), new: (Option<u64>, Option<u64>)) -> VoiceStateChange {
    VoiceStateChange {
        is_self,
        old_guild_id: old.0,
        old_channel_id: old.1,
        new_guild_id: new.0,
        new_channel_id: new.1,
    }
}

#[test]
fn the_bot_moving_repoints_its_session() {
    match plan_voice_state_update(change(true, (Some(9), Some(1)), (Some(9), Some(2)))) {
        VoiceStateAction::MoveSession { old_channel_id, new_channel_id } => {
            assert_eq!((old_channel_id, new_channel_id), (1, 2));
        }
        _ => panic!("a move of the bot moves the session"),
    }
}

#[test]
fn the_bot_being_disconnected_ends_the_session_of_its_guild() {
    match plan_voice_state_update(change(true, (Some(9), Some(1)), (Some(9), None))) {
        VoiceStateAction::ShutdownSession { guild_id } => assert_eq!(guild_id, 9),
        _ => panic!("a disconnect of the bot ends the session"),
    }
    assert!(matches!(
        plan_voice_state_update(change(true, (None, Some(1)), (Some(9), None))),
        VoiceStateAction::Nothing
    ));
}

#[test]
fn the_bot_connecting_or_staying_asks_for_nothing() {
    assert!(matches!(
        plan_voice_state_update(change(true, (None, None), (Some(9), Some(2)))),
        VoiceStateAction::Nothing
    ));
    assert!(matches!(
        plan_voice_state_update(change(true, (Some(9), Some(2)), (Some(9), Some(2)))),
        VoiceStateAction::Nothing
    ));
}

#[test]
fn others_coming_and_going_are_announced() {
    match plan_voice_state_update(change(false, (Some(9), Some(1)), (Some(9), Some(2)))) {
        VoiceStateAction::Notify { guild_id, notifications } => {
            assert_eq!(guild_id, 9);
            assert_eq!(
                notifications,
                vec![
                    Notification { channel_id: 1, kind: NotificationKind::UserLeave },
                    Notification { channel_id: 2, kind: NotificationKind::UserJoin },
                ]
            );
        }
        _ => panic!("a member's move is announced"),
    }
    assert!(matches!(
        plan_voice_state_update(change(false, (Some(9), Some(1)), (None, Some(2)))),
        VoiceStateAction::Nothing
    ));
}

#[test]
fn messages_of_bots_are_not_read() {
    assert!(reads_message(false));
    assert!(!reads_message(true));
}

#[test]
fn a_closed_inbox_removes_the_session_from_the_registry() {
    let mut manager = SessionManager::new();
    let (tx, rx) = tokio::sync::mpsc::channel(1);
    let handle = SessionHandle::new(tx);
    manager.register(1, 10, 20, handle.clone());

    assert!(matches!(settle_delivery(&mut manager, 1, handle.stop()), Delivery::Delivered));
    assert!(manager.get(1).is_some());

    match settle_delivery(&mut manager, 1, handle.leave()) {
        Delivery::Wait(SessionCommand::Leave) => {}
        _ => panic!("a full inbox hands the command back"),
    }
    assert!(manager.get(1).is_some());

    drop(rx);
    match settle_delivery(&mut manager, 1, handle.leave()) {
        Delivery::SessionGone(Some(removal)) => assert_eq!(removal.info.text_channel, 10),
        _ => panic!("a closed inbox means the session is gone"),
    }
    assert!(manager.get(1).is_none());
    assert!(manager.get_by_text_channel(10).is_none());
    assert!(manager.get_by_voice_channel(20).is_none());

    assert!(matches!(
        settle_delivery(&mut manager, 1, Err(Undelivered::Closed(SessionCommand::Stop))),
        Delivery::SessionGone(None)
    ));
}
