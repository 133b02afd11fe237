//! The words of the bot's commands: what they accept and what they answer.

use crate::sanitizer::mention;
use crate::sanitizer::mention_spec;
use crate::session::ChannelId;
use crate::text::str_equal;
use crate::tts::VoiceDetail;
use vstd::prelude::*;
use vstd::string::*;

verus! {

/// Whose voice a command is about.
#[derive(Debug, Clone, Copy, PartialEq, Eq, Structural)]
pub enum Scope {
    User,
    Guild,
}

impl Scope {
    /// The scope that a parent command's name stands for.
    pub open spec fn from_name_spec(name: Seq<char>) -> Option<Scope> {
        if name == "user"@ {
            Some(Scope::User)
        } else if name == "guild"@ {
            Some(Scope::Guild)
        } else {
            None
        }
    }

    /// Reads the scope from the name of the parent command: `user` or
    /// `guild`, and nothing else.
    pub fn from_name(name: &str) -> (scope: Option<Scope>)
        ensures
            scope == Scope::from_name_spec(name@),
    {
        if str_equal(name, "user") {
            Some(Scope::User)
        } else if str_equal(name, "guild") {
            Some(Scope::Guild)
        } else {
            None
        }
    }

    /// The word for this scope.
    pub open spec fn label_spec(self) -> Seq<char> {
        match self {
            Scope::User => "user"@,
            Scope::Guild => "guild"@,
        }
    }

    /// The word for this scope.
    pub fn label(&self) -> (word: &'static str)
        ensures
            word@ == self.label_spec(),
    {
        match self {
            Scope::User => "user",
            Scope::Guild => "guild",
        }
    }
}

/// The answer to a choice of voice.
pub open spec fn chosen_message_spec(name: Seq<char>, scope: Scope) -> Seq<char> {
    name + " was chosen for "@ + scope.label_spec() + " voice."@
}

/// Answers a choice of voice `name` for `scope`.
pub fn chosen_message(name: &str, scope: Scope) -> (message: String)
    ensures
        message@ == chosen_message_spec(name@, scope),
{
    name.to_owned().concat(" was chosen for ").concat(scope.label()).concat(" voice.")
}

/// The answer to clearing a choice of voice.
pub open spec fn cleared_message_spec(scope: Scope) -> Seq<char> {
    "voice was cleared for "@ + scope.label_spec() + " voice."@
}

/// Answers the clearing of the voice of `scope`.
pub fn cleared_message(scope: Scope) -> (message: String)
    ensures
        message@ == cleared_message_spec(scope),
{
    "voice was cleared for ".to_owned().concat(scope.label()).concat(" voice.")
}

/// The refusal of a voice that is not configured.
pub open spec fn voice_not_found_spec(name: Seq<char>) -> Seq<char> {
    "voice "@ + name + " not found"@
}

/// Refuses the choice of a voice `name` that is not configured.
pub fn voice_not_found(name: &str) -> (message: String)
    ensures
        message@ == voice_not_found_spec(name@),
{
    "voice ".to_owned().concat(name).concat(" not found")
}

/// How a voice is listed where one is to be chosen.
pub open spec fn choice_label_spec(detail: VoiceDetail) -> Seq<char> {
    match detail.description {
        Some(description) => detail.provider@ + "  |  "@ + detail.name@ + " ("@ + description@ + ")"@,
        None => detail.provider@ + " | "@ + detail.name@,
    }
}

/// Lists a voice: provider, name, and the description where there is one.
pub fn choice_label(detail: &VoiceDetail) -> (label: String)
    ensures
        label@ == choice_label_spec(*detail),
{
    match &detail.description {
        Some(description) => detail.provider.clone().concat("  |  ").concat(detail.name.as_str()).concat(
            " (",
        ).concat(description.as_str()).concat(")"),
        None => detail.provider.clone().concat(" | ").concat(detail.name.as_str()),
    }
}

/// The answer to a join: which text channel is read in which voice channel.
pub open spec fn joined_message_spec(text_channel: ChannelId, voice_channel: ChannelId) -> Seq<char> {
    "Now, I'm reading "@ + mention_spec("<#"@, text_channel) + " in "@ + mention_spec("<#"@, voice_channel)
}

/// Answers a join.
pub fn joined_message(text_channel: ChannelId, voice_channel: ChannelId) -> (message: String)
    ensures
        message@ == joined_message_spec(text_channel, voice_channel),
{
    "Now, I'm reading ".to_owned().concat(mention("<#", text_channel).as_str()).concat(" in ").concat(
        mention("<#", voice_channel).as_str(),
    )
}

} // verus!
