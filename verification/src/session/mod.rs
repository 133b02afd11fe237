//! Sessions: one per guild, each fed through an inbox of commands.

use crate::tts::SharedVoice;
use tokio::sync::mpsc::error::TrySendError;
use tokio::sync::mpsc::Sender;
use vstd::prelude::*;

pub mod actor;
pub mod driver;
pub mod manager;
pub mod sanitizer;

verus! {

/// Identifier of a guild.
pub type GuildId = u64;

/// Identifier of a text or voice channel.
pub type ChannelId = u64;

/// Identifier of a user.
pub type UserId = u64;

/// The lane a request travels in.
#[derive(Clone, Copy, Debug, PartialEq, Eq, Structural)]
pub enum Priority {
    /// Chat messages; throttled, and dropped under overload.
    User,
    /// Announcements of the system; never throttled, never dropped.
    System,
}

/// Who wrote a message: the identity that decides whether the name is read
/// out, and the name that is read.
#[derive(Debug, Clone)]
pub struct Speaker {
    pub user_id: UserId,
    pub name: String,
}

impl Speaker {
    pub fn new(user_id: UserId, name: String) -> (speaker: Self)
        ensures
            speaker.user_id == user_id,
            speaker.name == name,
    {
        Self { user_id, name }
    }
}

/// What a session's inbox accepts.
#[derive(Clone)]
pub enum SessionCommand {
    Speak { text: String, voice: SharedVoice, speaker: Option<Speaker>, priority: Priority },
    /// Reserved for halting the audio that is playing.
    Stop,
    /// A user asked the session to end.
    Leave,
    /// The voice connection was lost.
    Disconnect,
}

impl SessionCommand {
    /// The command that a user's chat message becomes: user lane, with the
    /// author as speaker.
    pub fn speak(text: String, voice: SharedVoice, speaker: Speaker) -> (command: Self)
        ensures
            command == (SessionCommand::Speak {
                text,
                voice,
                speaker: Some(speaker),
                priority: Priority::User,
            }),
    {
        SessionCommand::Speak { text, voice, speaker: Some(speaker), priority: Priority::User }
    }

    /// The command that an announcement becomes: system lane, nobody speaking.
    pub fn announce(text: String, voice: SharedVoice) -> (command: Self)
        ensures
            command == (SessionCommand::Speak {
                text,
                voice,
                speaker: None,
                priority: Priority::System,
            }),
    {
        SessionCommand::Speak { text, voice, speaker: None, priority: Priority::System }
    }

    /// Whether this command ends the session that receives it.
    pub open spec fn is_terminal(self) -> bool {
        self is Leave || self is Disconnect
    }
}

/// The sending half of a bounded channel.
#[verifier::external_type_specification]
#[verifier::external_body]
#[verifier::reject_recursive_types(T)]
pub struct ExSender<T>(Sender<T>);

/// `Sender::clone` of tokio's bounded channel. A clone is another handle to
/// the same channel, which is what equality of senders means here.
pub assume_specification<T>[ <Sender<T> as Clone>::clone ](tx: &Sender<T>) -> (copy: Sender<T>)
    ensures
        copy == *tx,
;

/// Why a command did not enter the inbox. Either way the command comes back
/// to the caller untouched.
pub enum Undelivered {
    /// The inbox has no room at this moment; the session is alive, and the
    /// caller may wait for room.
    Full(SessionCommand),
    /// The inbox is closed: the session is gone.
    Closed(SessionCommand),
}

impl Undelivered {
    /// The command that was not delivered.
    pub open spec fn command(self) -> SessionCommand {
        match self {
            Undelivered::Full(command) => command,
            Undelivered::Closed(command) => command,
        }
    }

    /// Takes the undelivered command back.
    pub fn into_command(self) -> (command: SessionCommand)
        ensures
            command == self.command(),
    {
        match self {
            Undelivered::Full(command) => command,
            Undelivered::Closed(command) => command,
        }
    }

    /// Whether the session is gone, as opposed to busy.
    pub fn is_closed(&self) -> (closed: bool)
        ensures
            closed == (*self is Closed),
    {
        match self {
            Undelivered::Full(_) => false,
            Undelivered::Closed(_) => true,
        }
    }
}

/// Calls `tokio::sync::mpsc::Sender::try_send`. Whether there is room, and
/// whether the receiver still lives, is the channel's business and nothing is
/// claimed of it; what is claimed is that a refused message is handed back
/// as it was given.
#[verifier::external_body]
fn try_send(tx: &Sender<SessionCommand>, command: SessionCommand) -> (outcome: Result<(), Undelivered>)
    ensures
        outcome matches Err(refused) ==> refused.command() == command,
{
    match tx.try_send(command) {
        Ok(()) => Ok(()),
        Err(TrySendError::Full(command)) => Err(Undelivered::Full(command)),
        Err(TrySendError::Closed(command)) => Err(Undelivered::Closed(command)),
    }
}

/// A cloneable capability to put commands into one session's inbox.
///
/// Every method hands one command to the inbox, without waiting, and
/// returns what the inbox answered. A full inbox is reported as
/// [`Undelivered::Full`], with the command, so that a caller that can wait
/// does so on [`SessionHandle::sender`]; a closed one as
/// [`Undelivered::Closed`], which callers treat as "session gone".
#[derive(Debug, Clone)]
pub struct SessionHandle {
    tx: Sender<SessionCommand>,
}

impl SessionHandle {
    pub fn new(tx: Sender<SessionCommand>) -> (handle: Self)
        ensures
            handle.inbox() == tx,
    {
        Self { tx }
    }

    /// The inbox this handle feeds.
    pub closed spec fn inbox(self) -> Sender<SessionCommand> {
        self.tx
    }

    /// Whether `outcome` is what the inbox may answer when `command` is
    /// handed to it without waiting.
    pub closed spec fn sends(self, command: SessionCommand, outcome: Result<(), Undelivered>) -> bool {
        call_ensures(try_send, (&self.tx, command), outcome)
    }

    /// The channel end behind this handle, for callers that wait for room.
    pub fn sender(&self) -> (tx: &Sender<SessionCommand>)
        ensures
            *tx == self.inbox(),
    {
        &self.tx
    }

    /// Asks the session to read `text` as a message of `speaker`.
    pub fn speak(&self, text: String, voice: SharedVoice, speaker: Speaker) -> (outcome: Result<
        (),
        Undelivered,
    >)
        ensures
            self.sends(
                SessionCommand::Speak { text, voice, speaker: Some(speaker), priority: Priority::User },
                outcome,
            ),
            outcome matches Err(refused) ==> refused.command() == (SessionCommand::Speak {
                text,
                voice,
                speaker: Some(speaker),
                priority: Priority::User,
            }),
    {
        try_send(&self.tx, SessionCommand::speak(text, voice, speaker))
    }

    /// Asks the session to read `text` as an announcement.
    pub fn announce(&self, text: String, voice: SharedVoice) -> (outcome: Result<(), Undelivered>)
        ensures
            self.sends(
                SessionCommand::Speak { text, voice, speaker: None, priority: Priority::System },
                outcome,
            ),
            outcome matches Err(refused) ==> refused.command() == (SessionCommand::Speak {
                text,
                voice,
                speaker: None,
                priority: Priority::System,
            }),
    {
        try_send(&self.tx, SessionCommand::announce(text, voice))
    }

    /// Asks the session to halt the audio that is playing.
    pub fn stop(&self) -> (outcome: Result<(), Undelivered>)
        ensures
            self.sends(SessionCommand::Stop, outcome),
            outcome matches Err(refused) ==> refused.command() == SessionCommand::Stop,
    {
        try_send(&self.tx, SessionCommand::Stop)
    }

    /// Asks the session to end.
    pub fn leave(&self) -> (outcome: Result<(), Undelivered>)
        ensures
            self.sends(SessionCommand::Leave, outcome),
            outcome matches Err(refused) ==> refused.command() == SessionCommand::Leave,
    {
        try_send(&self.tx, SessionCommand::Leave)
    }
}

} // verus!
