//! Making a chat message fit to be read aloud.

use crate::session::ChannelId;
use crate::session::UserId;
use crate::text::truncate;
use crate::text::truncated;
use regex::Regex;
use vstd::prelude::*;
use vstd::string::*;

verus! {

/// Whether `pattern` is a regular expression that `regex` accepts.
pub uninterp spec fn regex_is_valid(pattern: Seq<char>) -> bool;

/// `text` with every match of the regular expression `pattern` replaced by
/// `replacement`, as `Regex::replace_all` does it.
pub uninterp spec fn regex_replace_all(pattern: Seq<char>, text: Seq<char>, replacement: Seq<char>) -> Seq<
    char,
>;

/// `Regex::new`, then `Regex::replace_all`: `None` where `regex` refuses the
/// pattern, else the text with every match replaced.
#[verifier::external_body]
fn replace_all(pattern: &str, text: &str, replacement: &str) -> (replaced: Option<String>)
    ensures
        replaced is Some <==> regex_is_valid(pattern@),
        replaced matches Some(out) ==> out@ == regex_replace_all(pattern@, text@, replacement@),
{
    match Regex::new(pattern) {
        Ok(regex) => Some(regex.replace_all(text, replacement).into_owned()),
        Err(_) => None,
    }
}

/// A fenced block of code, with or without a language after the fence.
pub open spec fn code_block_pattern() -> Seq<char> {
    "```(?:\\w*\\n)?(.*?)```"@
}

/// A web address.
pub open spec fn url_pattern() -> Seq<char> {
    "https?://\\S+"@
}

/// A custom emoji, as the chat platform writes it.
pub open spec fn emoji_pattern() -> Seq<char> {
    "<a?:(\\w+):\\d+>"@
}

/// `text` after one replacement; a pattern that `regex` refuses replaces
/// nothing.
pub open spec fn replaced(pattern: Seq<char>, text: Seq<char>, replacement: Seq<char>) -> Seq<char> {
    if regex_is_valid(pattern) {
        regex_replace_all(pattern, text, replacement)
    } else {
        text
    }
}

/// What is read for `content`: code blocks become `code block`, then web
/// addresses become `URL`, then custom emoji become `EMOJI`.
pub open spec fn cleaned(content: Seq<char>) -> Seq<char> {
    replaced(
        emoji_pattern(),
        replaced(url_pattern(), replaced(code_block_pattern(), content, "code block"@), "URL"@),
        "EMOJI"@,
    )
}

/// Replaces what `pattern` matches in `text`; see [`replaced`].
pub fn replace(pattern: &str, text: String, replacement: &str) -> (out: String)
    ensures
        out@ == replaced(pattern@, text@, replacement@),
{
    match replace_all(pattern, text.as_str(), replacement) {
        Some(out) => out,
        None => text,
    }
}

/// Replaces what is not read aloud; see [`cleaned`].
pub fn clean(content: &str) -> (text: String)
    ensures
        text@ == cleaned(content@),
{
    let text = replace("```(?:\\w*\\n)?(.*?)```", content.to_owned(), "code block");
    let text = replace("https?://\\S+", text, "URL");
    replace("<a?:(\\w+):\\d+>", text, "EMOJI")
}

/// Makes `content` fit to be read: replaces code blocks, web addresses and
/// custom emoji by a word each, and keeps the first `limit` characters of
/// what that leaves.
pub fn sanitize(content: &str, limit: usize) -> (text: String)
    ensures
        text@ == truncated(cleaned(content@), limit as int),
        text@.len() <= limit,
{
    let text = clean(content);
    truncate(text.as_str(), limit)
}

/// Identifier of a role.
pub type RoleId = u64;

/// A user that a message mentions, with the name the guild shows for the
/// user; `None` where the user is not a member of the guild.
#[derive(Debug, Clone)]
pub struct MentionedUser {
    pub id: UserId,
    pub display_name: Option<String>,
}

/// A role that a message mentions, with its name; `None` where the guild
/// has no such role.
#[derive(Debug, Clone)]
pub struct MentionedRole {
    pub id: RoleId,
    pub name: Option<String>,
}

/// A channel that a message mentions, with its name.
#[derive(Debug, Clone)]
pub struct MentionedChannel {
    pub id: ChannelId,
    pub name: String,
}

/// Why the mentions of a message could not be replaced.
#[derive(Debug, Clone, Copy, PartialEq, Eq, Structural)]
pub enum MentionError {
    /// The guild of the message is not known.
    GuildNotFound,
    /// A mentioned user is not a member of the guild.
    UserNotFound(UserId),
    /// A mentioned role is not a role of the guild.
    RoleNotFound(RoleId),
}

/// The decimal digits of `number`.
pub open spec fn decimal_spec(number: nat) -> Seq<char>
    decreases number,
{
    if number < 10 {
        seq![(('0' as nat) + number) as char]
    } else {
        decimal_spec(number / 10).push((('0' as nat) + number % 10) as char)
    }
}

/// `u64::to_string`: the number in decimal digits.
#[verifier::external_body]
fn decimal(number: u64) -> (digits: String)
    ensures
        digits@ == decimal_spec(number as nat),
{
    number.to_string()
}

/// `text` with every occurrence of `from` replaced by `to`, found from left
/// to right and not overlapping.
pub open spec fn replace_spec(text: Seq<char>, from: Seq<char>, to: Seq<char>) -> Seq<char>
    decreases text.len(),
{
    if from.len() == 0 || text.len() < from.len() {
        text
    } else if text.subrange(0, from.len() as int) == from {
        to + replace_spec(text.subrange(from.len() as int, text.len() as int), from, to)
    } else {
        seq![text[0]] + replace_spec(text.subrange(1, text.len() as int), from, to)
    }
}

/// `str::replace`: every occurrence of `from` in `text` replaced by `to`.
#[verifier::external_body]
fn replace_text(text: &str, from: &str, to: &str) -> (out: String)
    requires
        from@.len() > 0,
    ensures
        out@ == replace_spec(text@, from@, to@),
{
    text.replace(from, to)
}

/// How a mention is written in a message: an opening mark, the id in
/// decimal, and `>`.
pub open spec fn mention_spec(mark: Seq<char>, id: u64) -> Seq<char> {
    mark + decimal_spec(id as nat) + ">"@
}

/// The mark that opens the mention of a user.
pub open spec fn user_mark() -> Seq<char> {
    "<@"@
}

/// The mark that opens the mention of a role.
pub open spec fn role_mark() -> Seq<char> {
    "<@&"@
}

/// The mark that opens the mention of a channel.
pub open spec fn channel_mark() -> Seq<char> {
    "<#"@
}

/// Writes a mention; see [`mention_spec`].
pub fn mention(mark: &str, id: u64) -> (written: String)
    ensures
        written@ == mention_spec(mark@, id),
        written@.len() > 0,
{
    let written = mark.to_owned().concat(decimal(id).as_str()).concat(">");
    proof {
        reveal_strlit(">");
    }
    written
}

/// `text` with the mentions of `users` replaced by their names, one user
/// after the other; the first user without a name ends it.
pub open spec fn with_users(text: Seq<char>, users: Seq<MentionedUser>) -> Result<Seq<char>, MentionError>
    decreases users.len(),
{
    if users.len() == 0 {
        Ok(text)
    } else {
        match users.first().display_name {
            Some(name) => with_users(
                replace_spec(text, mention_spec(user_mark(), users.first().id), name@),
                users.drop_first(),
            ),
            None => Err(MentionError::UserNotFound(users.first().id)),
        }
    }
}

/// `text` with the mentions of `roles` replaced by their names, one role
/// after the other; the first role without a name ends it.
pub open spec fn with_roles(text: Seq<char>, roles: Seq<MentionedRole>) -> Result<Seq<char>, MentionError>
    decreases roles.len(),
{
    if roles.len() == 0 {
        Ok(text)
    } else {
        match roles.first().name {
            Some(name) => with_roles(
                replace_spec(text, mention_spec(role_mark(), roles.first().id), name@),
                roles.drop_first(),
            ),
            None => Err(MentionError::RoleNotFound(roles.first().id)),
        }
    }
}

/// `text` with the mentions of `channels` replaced by their names, one
/// channel after the other.
pub open spec fn with_channels(text: Seq<char>, channels: Seq<MentionedChannel>) -> Seq<char>
    decreases channels.len(),
{
    if channels.len() == 0 {
        text
    } else {
        with_channels(
            replace_spec(text, mention_spec(channel_mark(), channels.first().id), channels.first().name@),
            channels.drop_first(),
        )
    }
}

/// What becomes of `content` when its mentions are replaced: users first,
/// then roles, then channels. Without the guild nothing can be replaced.
pub open spec fn mentions_replaced(
    content: Seq<char>,
    guild_known: bool,
    users: Seq<MentionedUser>,
    roles: Seq<MentionedRole>,
    channels: Seq<MentionedChannel>,
) -> Result<Seq<char>, MentionError> {
    if !guild_known {
        Err(MentionError::GuildNotFound)
    } else {
        match with_users(content, users) {
            Err(error) => Err(error),
            Ok(text) => match with_roles(text, roles) {
                Err(error) => Err(error),
                Ok(text) => Ok(with_channels(text, channels)),
            },
        }
    }
}

/// Replaces the mentions of users, roles and channels in `content` by the
/// names that are read aloud; see [`mentions_replaced`].
///
/// `guild_known` says whether the guild of the message could be looked up;
/// the names in `users` and `roles` are those that the guild has.
pub fn replace_mentions(
    content: &str,
    guild_known: bool,
    users: &Vec<MentionedUser>,
    roles: &Vec<MentionedRole>,
    channels: &Vec<MentionedChannel>,
) -> (replaced: Result<String, MentionError>)
    ensures
        match mentions_replaced(content@, guild_known, users@, roles@, channels@) {
            Ok(text) => replaced matches Ok(out) && out@ == text,
            Err(error) => replaced == Err::<String, MentionError>(error),
        },
{
    if !guild_known {
        return Err(MentionError::GuildNotFound);
    }
    let mut text = content.to_owned();
    let mut index: usize = 0;
    assert(users@.subrange(0, users@.len() as int) =~= users@);
    while index < users.len()
        invariant
            index <= users@.len(),
            guild_known,
            with_users(content@, users@) == with_users(text@, users@.subrange(index as int, users@.len() as int)),
        decreases users@.len() - index,
    {
        let ghost rest = users@.subrange(index as int, users@.len() as int);
        assert(rest.first() == users@[index as int]);
        assert(rest.drop_first() =~= users@.subrange(index as int + 1, users@.len() as int));
        assert(rest.len() > 0);
        match &users[index].display_name {
            Some(name) => {
                let written = mention("<@", users[index].id);
                text = replace_text(text.as_str(), written.as_str(), name.as_str());
            },
            None => {
                return Err(MentionError::UserNotFound(users[index].id));
            },
        }
        index = index + 1;
    }
    assert(users@.subrange(users@.len() as int, users@.len() as int).len() == 0);
    let ghost after_users = text@;
    index = 0;
    assert(roles@.subrange(0, roles@.len() as int) =~= roles@);
    while index < roles.len()
        invariant
            index <= roles@.len(),
            guild_known,
            with_users(content@, users@) == Ok::<Seq<char>, MentionError>(after_users),
            with_roles(after_users, roles@) == with_roles(text@, roles@.subrange(index as int, roles@.len() as int)),
        decreases roles@.len() - index,
    {
        let ghost rest = roles@.subrange(index as int, roles@.len() as int);
        assert(rest.first() == roles@[index as int]);
        assert(rest.drop_first() =~= roles@.subrange(index as int + 1, roles@.len() as int));
        assert(rest.len() > 0);
        match &roles[index].name {
            Some(name) => {
                let written = mention("<@&", roles[index].id);
                text = replace_text(text.as_str(), written.as_str(), name.as_str());
            },
            None => {
                return Err(MentionError::RoleNotFound(roles[index].id));
            },
        }
        index = index + 1;
    }
    assert(roles@.subrange(roles@.len() as int, roles@.len() as int).len() == 0);
    let ghost after_roles = text@;
    index = 0;
    assert(channels@.subrange(0, channels@.len() as int) =~= channels@);
    while index < channels.len()
        invariant
            index <= channels@.len(),
            with_channels(after_roles, channels@) == with_channels(
                text@,
                channels@.subrange(index as int, channels@.len() as int),
            ),
        decreases channels@.len() - index,
    {
        let ghost rest = channels@.subrange(index as int, channels@.len() as int);
        assert(rest.first() == channels@[index as int]);
        assert(rest.drop_first() =~= channels@.subrange(index as int + 1, channels@.len() as int));
        let written = mention("<#", channels[index].id);
        text = replace_text(text.as_str(), written.as_str(), channels[index].name.as_str());
        index = index + 1;
    }
    assert(channels@.subrange(channels@.len() as int, channels@.len() as int).len() == 0);
    Ok(text)
}

} // verus!
