//! What the bot does when the chat platform reports something.
//!
//! The caller receives the events and performs what is decided here.

use crate::session::manager::Removal;
use crate::session::manager::SessionManager;
use crate::session::ChannelId;
use crate::session::GuildId;
use crate::session::SessionCommand;
use crate::session::Undelivered;
use vstd::prelude::*;
use vstd::string::*;

verus! {

/// The most characters of one message that are read.
pub const MESSAGE_LIMIT: usize = 300;

/// How a member's voice channel changed.
#[derive(Debug, Clone, Copy, PartialEq, Eq, Structural)]
pub enum ChannelTransition {
    Connect { new_channel_id: ChannelId },
    Disconnect { old_channel_id: ChannelId },
    Move { new_channel_id: ChannelId, old_channel_id: ChannelId },
    Ignore,
}

/// The change from voice channel `before` to `after`.
pub open spec fn transition_spec(before: Option<ChannelId>, after: Option<ChannelId>) -> ChannelTransition {
    match (before, after) {
        (Some(old_channel_id), None) => ChannelTransition::Disconnect { old_channel_id },
        (None, Some(new_channel_id)) => ChannelTransition::Connect { new_channel_id },
        (Some(old_channel_id), Some(new_channel_id)) => if old_channel_id != new_channel_id {
            ChannelTransition::Move { new_channel_id, old_channel_id }
        } else {
            ChannelTransition::Ignore
        },
        (None, None) => ChannelTransition::Ignore,
    }
}

/// Classifies a change of voice state by the channel the member was in
/// `before` and the one the member is in `after`.
pub fn voice_state_update_kind(before: Option<ChannelId>, after: Option<ChannelId>) -> (kind:
    ChannelTransition)
    ensures
        kind == transition_spec(before, after),
{
    match (before, after) {
        (Some(old_channel_id), None) => ChannelTransition::Disconnect { old_channel_id },
        (None, Some(new_channel_id)) => ChannelTransition::Connect { new_channel_id },
        (Some(old_channel_id), Some(new_channel_id)) => {
            if old_channel_id != new_channel_id {
                ChannelTransition::Move { new_channel_id, old_channel_id }
            } else {
                ChannelTransition::Ignore
            }
        },
        (None, None) => ChannelTransition::Ignore,
    }
}

/// What is announced.
#[derive(Debug, Clone, Copy, PartialEq, Eq, Structural)]
pub enum NotificationKind {
    UserJoin,
    UserLeave,
}

impl NotificationKind {
    /// The id of the message to read, in the locale files.
    pub open spec fn locale_id_spec(self) -> Seq<char> {
        match self {
            NotificationKind::UserJoin => "user-join"@,
            NotificationKind::UserLeave => "user-leave"@,
        }
    }

    /// The id of the message to read, in the locale files.
    pub fn locale_id(&self) -> (id: &'static str)
        ensures
            id@ == self.locale_id_spec(),
    {
        match self {
            NotificationKind::UserJoin => "user-join",
            NotificationKind::UserLeave => "user-leave",
        }
    }
}

/// An announcement for the session that plays in a voice channel.
#[derive(Debug, Clone, Copy, PartialEq, Eq, Structural)]
pub struct Notification {
    pub channel_id: ChannelId,
    pub kind: NotificationKind,
}

/// What is announced for a transition: a leave in the channel left, then a
/// join in the channel entered.
pub open spec fn notifications_spec(transition: ChannelTransition) -> Seq<Notification> {
    match transition {
        ChannelTransition::Connect { new_channel_id } => seq![
            Notification { channel_id: new_channel_id, kind: NotificationKind::UserJoin },
        ],
        ChannelTransition::Disconnect { old_channel_id } => seq![
            Notification { channel_id: old_channel_id, kind: NotificationKind::UserLeave },
        ],
        ChannelTransition::Move { new_channel_id, old_channel_id } => seq![
            Notification { channel_id: old_channel_id, kind: NotificationKind::UserLeave },
            Notification { channel_id: new_channel_id, kind: NotificationKind::UserJoin },
        ],
        ChannelTransition::Ignore => Seq::empty(),
    }
}

/// The announcements for a member's change from `before` to `after`.
pub fn generate_notifications(before: Option<ChannelId>, after: Option<ChannelId>) -> (notifications: Vec<
    Notification,
>)
    ensures
        notifications@ == notifications_spec(transition_spec(before, after)),
{
    let mut notifications: Vec<Notification> = Vec::new();
    match voice_state_update_kind(before, after) {
        ChannelTransition::Connect { new_channel_id } => {
            notifications.push(Notification { channel_id: new_channel_id, kind: NotificationKind::UserJoin });
        },
        ChannelTransition::Disconnect { old_channel_id } => {
            notifications.push(
                Notification { channel_id: old_channel_id, kind: NotificationKind::UserLeave },
            );
        },
        ChannelTransition::Move { old_channel_id, new_channel_id } => {
            notifications.push(
                Notification { channel_id: old_channel_id, kind: NotificationKind::UserLeave },
            );
            notifications.push(Notification { channel_id: new_channel_id, kind: NotificationKind::UserJoin });
        },
        ChannelTransition::Ignore => {},
    }
    assert(notifications@ =~= notifications_spec(transition_spec(before, after)));
    notifications
}

/// A member's change of voice state, as far as the bot reads it.
#[derive(Debug, Clone, Copy, PartialEq, Eq, Structural)]
pub struct VoiceStateChange {
    /// Whether the member is the bot itself.
    pub is_self: bool,
    /// The guild and channel before the change.
    pub old_guild_id: Option<GuildId>,
    pub old_channel_id: Option<ChannelId>,
    /// The guild and channel after the change.
    pub new_guild_id: Option<GuildId>,
    pub new_channel_id: Option<ChannelId>,
}

/// What a change of voice state asks of the bot.
pub enum VoiceStateAction {
    /// The bot was moved: repoint its session.
    MoveSession { old_channel_id: ChannelId, new_channel_id: ChannelId },
    /// The bot was disconnected: end the session of this guild.
    ShutdownSession { guild_id: GuildId },
    /// Someone else came or went: announce it in the sessions that play in
    /// these channels.
    Notify { guild_id: GuildId, notifications: Vec<Notification> },
    Nothing,
}

/// The action for `change`.
///
/// For the bot itself: a move repoints its session; a disconnect ends the
/// session of the guild it was in, if that is known; nothing else matters.
/// For anyone else: what [`notifications_spec`] lists, provided the change
/// names a guild.
pub open spec fn action_matches(change: VoiceStateChange, action: VoiceStateAction) -> bool {
    let transition = transition_spec(change.old_channel_id, change.new_channel_id);
    if change.is_self {
        match transition {
            ChannelTransition::Move { new_channel_id, old_channel_id } => action == (
            VoiceStateAction::MoveSession { old_channel_id, new_channel_id }),
            ChannelTransition::Disconnect { old_channel_id } => match change.old_guild_id {
                Some(guild_id) => action == (VoiceStateAction::ShutdownSession { guild_id }),
                None => action is Nothing,
            },
            _ => action is Nothing,
        }
    } else {
        match change.new_guild_id {
            Some(guild) => action matches VoiceStateAction::Notify { guild_id, notifications } && guild_id
                == guild && notifications@ == notifications_spec(transition),
            None => action is Nothing,
        }
    }
}

/// Decides what a change of voice state asks of the bot; see
/// [`action_matches`].
pub fn plan_voice_state_update(change: VoiceStateChange) -> (action: VoiceStateAction)
    ensures
        action_matches(change, action),
{
    if change.is_self {
        match voice_state_update_kind(change.old_channel_id, change.new_channel_id) {
            ChannelTransition::Move { old_channel_id, new_channel_id } => VoiceStateAction::MoveSession {
                old_channel_id,
                new_channel_id,
            },
            ChannelTransition::Disconnect { old_channel_id: _ } => match change.old_guild_id {
                Some(guild_id) => VoiceStateAction::ShutdownSession { guild_id },
                None => VoiceStateAction::Nothing,
            },
            _ => VoiceStateAction::Nothing,
        }
    } else {
        match change.new_guild_id {
            Some(guild_id) => VoiceStateAction::Notify {
                guild_id,
                notifications: generate_notifications(change.old_channel_id, change.new_channel_id),
            },
            None => VoiceStateAction::Nothing,
        }
    }
}

/// The name under which a member is announced: the name the guild shows,
/// else the word that the voice's locale has for an unknown member, else
/// `someone`.
pub open spec fn announced_name_spec(display_name: Option<String>, localized: Option<String>) -> Seq<char> {
    match display_name {
        Some(name) => name@,
        None => match localized {
            Some(word) => word@,
            None => "someone"@,
        },
    }
}

/// Picks the name under which a member is announced; see
/// [`announced_name_spec`].
pub fn announced_name(display_name: Option<String>, localized: Option<String>) -> (name: String)
    ensures
        name@ == announced_name_spec(display_name, localized),
{
    match display_name {
        Some(name) => name,
        None => match localized {
            Some(word) => word,
            None => "someone".to_owned(),
        },
    }
}

/// Whether a message is read at all: messages of bots are not.
pub fn reads_message(author_is_bot: bool) -> (read: bool)
    ensures
        read == !author_is_bot,
{
    !author_is_bot
}

/// What follows from an attempt to hand a command to the session of
/// `guild_id`.
pub enum Delivery {
    /// The command is in the inbox.
    Delivered,
    /// The inbox was full: the caller waits for room with this command.
    Wait(SessionCommand),
    /// The session was gone, and is no longer registered.
    SessionGone(Option<Removal>),
}

/// Follows up on an attempt to hand a command to the session of `guild_id`:
/// a session that turned out to be gone is removed from the registry, and
/// nothing else touches the registry.
pub fn settle_delivery(manager: &mut SessionManager, guild_id: GuildId, outcome: Result<(), Undelivered>) -> (delivery:
    Delivery)
    ensures
        match outcome {
            Ok(_) => delivery is Delivered && final(manager)@ == old(manager)@,
            Err(Undelivered::Full(command)) => delivery == Delivery::Wait(command) && final(manager)@ == old(
                manager,
            )@,
            Err(Undelivered::Closed(_)) => delivery is SessionGone && final(manager)@ == old(
                manager,
            )@.removed(guild_id),
        },
{
    match outcome {
        Ok(_) => Delivery::Delivered,
        Err(Undelivered::Full(command)) => Delivery::Wait(command),
        Err(Undelivered::Closed(_)) => Delivery::SessionGone(manager.remove(guild_id)),
    }
}

} // verus!
