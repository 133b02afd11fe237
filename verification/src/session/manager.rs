//! The session registry: which session serves a guild, and which guild a
//! channel belongs to.
//!
//! The registry keeps three tables, as maps of `dashmap`. Contracts speak of
//! them through [`RegistryView`], the three tables as mathematical maps.
//! Every operation that changes a table takes the registry by `&mut`: what
//! is stated of a change holds for the one who holds the registry.

use crate::session::ChannelId;
use crate::session::GuildId;
use crate::session::SessionHandle;
use dashmap::DashMap;
use vstd::prelude::*;

verus! {

/// What the registry knows of one session.
#[derive(Debug, Clone)]
pub struct SessionInfo {
    pub handle: SessionHandle,
    pub text_channel: ChannelId,
    pub voice_channel: ChannelId,
}

/// `dashmap::DashMap`, a concurrent hash map.
#[verifier::external_type_specification]
#[verifier::external_body]
#[verifier::reject_recursive_types(K)]
#[verifier::reject_recursive_types(V)]
#[verifier::reject_recursive_types(S)]
pub struct ExDashMap<K, V, S>(DashMap<K, V, S>);

/// The entries of a table of sessions: for each guild, the session stored
/// under it.
pub uninterp spec fn session_entries(table: DashMap<GuildId, SessionInfo>) -> Map<GuildId, SessionInfo>;

/// The entries of a channel index: for each channel, the guild stored under
/// it.
pub uninterp spec fn index_entries(table: DashMap<ChannelId, GuildId>) -> Map<ChannelId, GuildId>;

/// `DashMap::new`: a table with no entries.
#[verifier::external_body]
fn sessions_new() -> (table: DashMap<GuildId, SessionInfo>)
    ensures
        session_entries(table).dom() == Set::<GuildId>::empty(),
{
    DashMap::new()
}

/// `DashMap::insert`: stores `info` under `guild`, in place of what was
/// stored there, and returns what was stored there.
#[verifier::external_body]
fn sessions_insert(table: &mut DashMap<GuildId, SessionInfo>, guild: GuildId, info: SessionInfo) -> (previous:
    Option<SessionInfo>)
    ensures
        session_entries(*final(table)) == session_entries(*old(table)).insert(guild, info),
        previous == entry_of(session_entries(*old(table)), guild),
{
    table.insert(guild, info)
}

/// `DashMap::get`: a copy of what is stored under `guild`, if anything.
#[verifier::external_body]
fn sessions_get(table: &DashMap<GuildId, SessionInfo>, guild: GuildId) -> (found: Option<SessionInfo>)
    ensures
        found == entry_of(session_entries(*table), guild),
{
    match table.get(&guild) {
        Some(entry) => Some(entry.value().clone()),
        None => None,
    }
}

/// `DashMap::remove`: takes out what is stored under `guild`, and returns
/// it.
#[verifier::external_body]
fn sessions_remove(table: &mut DashMap<GuildId, SessionInfo>, guild: GuildId) -> (taken: Option<SessionInfo>)
    ensures
        session_entries(*final(table)) == session_entries(*old(table)).remove(guild),
        taken == entry_of(session_entries(*old(table)), guild),
{
    match table.remove(&guild) {
        Some((_, info)) => Some(info),
        None => None,
    }
}

/// `DashMap::new`: an index with no entries.
#[verifier::external_body]
fn index_new() -> (table: DashMap<ChannelId, GuildId>)
    ensures
        index_entries(table).dom() == Set::<ChannelId>::empty(),
{
    DashMap::new()
}

/// `DashMap::insert`: stores `guild` under `channel`, in place of what was
/// stored there, and returns what was stored there.
#[verifier::external_body]
fn index_insert(table: &mut DashMap<ChannelId, GuildId>, channel: ChannelId, guild: GuildId) -> (previous:
    Option<GuildId>)
    ensures
        index_entries(*final(table)) == index_entries(*old(table)).insert(channel, guild),
        previous == entry_of(index_entries(*old(table)), channel),
{
    table.insert(channel, guild)
}

/// `DashMap::get`: what is stored under `channel`, if anything.
#[verifier::external_body]
fn index_get(table: &DashMap<ChannelId, GuildId>, channel: ChannelId) -> (found: Option<GuildId>)
    ensures
        found == entry_of(index_entries(*table), channel),
{
    match table.get(&channel) {
        Some(entry) => Some(*entry.value()),
        None => None,
    }
}

/// `DashMap::remove`: takes out what is stored under `channel`, and returns
/// it.
#[verifier::external_body]
fn index_remove(table: &mut DashMap<ChannelId, GuildId>, channel: ChannelId) -> (taken: Option<GuildId>)
    ensures
        index_entries(*final(table)) == index_entries(*old(table)).remove(channel),
        taken == entry_of(index_entries(*old(table)), channel),
{
    match table.remove(&channel) {
        Some((_, guild)) => Some(guild),
        None => None,
    }
}

/// What `entries` holds under `key`.
pub open spec fn entry_of<K, V>(entries: Map<K, V>, key: K) -> Option<V> {
    if entries.contains_key(key) {
        Some(entries[key])
    } else {
        None
    }
}

/// The three tables of a registry.
pub struct RegistryView {
    /// Guild to session.
    pub sessions: Map<GuildId, SessionInfo>,
    /// Text channel to guild.
    pub text_channels: Map<ChannelId, GuildId>,
    /// Voice channel to guild.
    pub voice_channels: Map<ChannelId, GuildId>,
}

impl RegistryView {
    /// The registry with nothing in it.
    pub open spec fn empty() -> RegistryView {
        RegistryView { sessions: Map::empty(), text_channels: Map::empty(), voice_channels: Map::empty() }
    }

    /// The session of `guild`.
    pub open spec fn lookup(self, guild: GuildId) -> Option<SessionInfo> {
        entry_of(self.sessions, guild)
    }

    /// The session of the guild that `channel` is indexed under as a text
    /// channel.
    pub open spec fn lookup_by_text_channel(self, channel: ChannelId) -> Option<SessionInfo> {
        match entry_of(self.text_channels, channel) {
            Some(guild) => self.lookup(guild),
            None => None,
        }
    }

    /// The session of the guild that `channel` is indexed under as a voice
    /// channel.
    pub open spec fn lookup_by_voice_channel(self, channel: ChannelId) -> Option<SessionInfo> {
        match entry_of(self.voice_channels, channel) {
            Some(guild) => self.lookup(guild),
            None => None,
        }
    }

    /// The registry with one entry more in each table for `info`, the
    /// session of `guild`, each entry replacing what was stored under its
    /// key.
    pub open spec fn entered(self, guild: GuildId, info: SessionInfo) -> RegistryView {
        RegistryView {
            sessions: self.sessions.insert(guild, info),
            text_channels: self.text_channels.insert(info.text_channel, guild),
            voice_channels: self.voice_channels.insert(info.voice_channel, guild),
        }
    }

    /// The registry after `info` was registered for `guild`: the session
    /// that the guild had, if it had one, is removed with its index entries,
    /// and the new one is entered.
    pub open spec fn registered(self, guild: GuildId, info: SessionInfo) -> RegistryView {
        self.removed(guild).entered(guild, info)
    }

    /// The registry after the session of `guild` was removed: the session is
    /// gone, and so are the index entries under the channels recorded in it.
    /// Without such a session nothing changes.
    pub open spec fn removed(self, guild: GuildId) -> RegistryView {
        match self.lookup(guild) {
            Some(info) => RegistryView {
                sessions: self.sessions.remove(guild),
                text_channels: self.text_channels.remove(info.text_channel),
                voice_channels: self.voice_channels.remove(info.voice_channel),
            },
            None => self,
        }
    }

    /// Why a move from voice channel `from` cannot be done, if it cannot.
    pub open spec fn move_refused(self, from: ChannelId) -> Option<RegistryError> {
        match entry_of(self.voice_channels, from) {
            None => Some(RegistryError::VoiceChannelNotFound(from)),
            Some(guild) => if self.sessions.contains_key(guild) {
                None
            } else {
                Some(RegistryError::SessionNotFound(guild))
            },
        }
    }

    /// The registry after the session indexed under voice channel `from`
    /// moved to `to`: the session records `to`, and the index holds it
    /// under `to` and no longer under `from`.
    pub open spec fn moved(self, from: ChannelId, to: ChannelId) -> RegistryView {
        let guild = self.voice_channels[from];
        let info = self.sessions[guild];
        RegistryView {
            sessions: self.sessions.insert(
                guild,
                SessionInfo { handle: info.handle, text_channel: info.text_channel, voice_channel: to },
            ),
            text_channels: self.text_channels,
            voice_channels: self.voice_channels.remove(from).insert(to, guild),
        }
    }

    /// No index entry leads astray: each leads to a live session that
    /// records the channel it stands under.
    pub open spec fn anchored(self) -> bool {
        &&& forall|channel: ChannelId| #[trigger]
            self.text_channels.contains_key(channel) ==> {
                &&& self.sessions.contains_key(self.text_channels[channel])
                &&& self.sessions[self.text_channels[channel]].text_channel == channel
            }
        &&& forall|channel: ChannelId| #[trigger]
            self.voice_channels.contains_key(channel) ==> {
                &&& self.sessions.contains_key(self.voice_channels[channel])
                &&& self.sessions[self.voice_channels[channel]].voice_channel == channel
            }
    }

    /// The tables agree: each session is indexed under both of its channels,
    /// and no index entry leads astray.
    pub open spec fn consistent(self) -> bool {
        &&& forall|guild: GuildId| #[trigger]
            self.sessions.contains_key(guild) ==> {
                &&& entry_of(self.text_channels, self.sessions[guild].text_channel) == Some(guild)
                &&& entry_of(self.voice_channels, self.sessions[guild].voice_channel) == Some(guild)
            }
        &&& self.anchored()
    }
}

/// Why a registry operation was refused.
#[derive(Debug, Clone, Copy, PartialEq, Eq, Structural)]
pub enum RegistryError {
    /// No guild is indexed under this voice channel.
    VoiceChannelNotFound(ChannelId),
    /// The index names this guild, but no session is stored for it. The
    /// operations of the registry never leave it so; see
    /// [`lemma_entries_stay_anchored`].
    SessionNotFound(GuildId),
}

/// What `remove` found.
#[derive(Debug, Clone)]
pub struct Removal {
    /// The session that was removed.
    pub info: SessionInfo,
    /// The text channel index had no entry under the session's text channel.
    pub text_index_missing: bool,
    /// The voice channel index had no entry under the session's voice
    /// channel.
    pub voice_index_missing: bool,
}

/// The registry of live sessions.
pub struct SessionManager {
    sessions: DashMap<GuildId, SessionInfo>,
    text_channels: DashMap<ChannelId, GuildId>,
    voice_channels: DashMap<ChannelId, GuildId>,
}

impl View for SessionManager {
    type V = RegistryView;

    closed spec fn view(&self) -> RegistryView {
        RegistryView {
            sessions: session_entries(self.sessions),
            text_channels: index_entries(self.text_channels),
            voice_channels: index_entries(self.voice_channels),
        }
    }
}

impl SessionManager {
    /// A registry with nothing in it.
    pub fn new() -> (manager: Self)
        ensures
            manager@ == RegistryView::empty(),
    {
        let manager = Self { sessions: sessions_new(), text_channels: index_new(), voice_channels: index_new() };
        assert(manager@.sessions =~= Map::empty());
        assert(manager@.text_channels =~= Map::empty());
        assert(manager@.voice_channels =~= Map::empty());
        manager
    }

    /// Registers a session for `guild_id`, and indexes the guild under both
    /// channels. A session that the guild had before is removed first, with
    /// the index entries under its channels, so that afterwards each index
    /// has one entry for the guild's session and none for the one it
    /// replaced.
    ///
    /// Returns the session that `guild_id` had before, if it had one; in the
    /// normal course of things a session is removed before the guild gets
    /// another, so `Some` is worth a warning.
    pub fn register(
        &mut self,
        guild_id: GuildId,
        text_channel: ChannelId,
        voice_channel: ChannelId,
        handle: SessionHandle,
    ) -> (previous: Option<SessionInfo>)
        ensures
            final(self)@ == old(self)@.registered(guild_id, SessionInfo { handle, text_channel, voice_channel }),
            previous == old(self)@.lookup(guild_id),
    {
        let previous = match self.remove(guild_id) {
            Some(removal) => Some(removal.info),
            None => None,
        };
        let _ = sessions_insert(&mut self.sessions, guild_id, SessionInfo { handle, text_channel, voice_channel });
        let _ = index_insert(&mut self.text_channels, text_channel, guild_id);
        let _ = index_insert(&mut self.voice_channels, voice_channel, guild_id);
        previous
    }

    /// The session of `guild_id`, if it has one.
    pub fn get(&self, guild_id: GuildId) -> (found: Option<SessionInfo>)
        ensures
            found == self@.lookup(guild_id),
    {
        sessions_get(&self.sessions, guild_id)
    }

    /// The session that reads `text_channel`, if there is one.
    pub fn get_by_text_channel(&self, text_channel: ChannelId) -> (found: Option<SessionInfo>)
        ensures
            found == self@.lookup_by_text_channel(text_channel),
    {
        match index_get(&self.text_channels, text_channel) {
            Some(guild_id) => self.get(guild_id),
            None => None,
        }
    }

    /// The session that plays in `voice_channel`, if there is one.
    pub fn get_by_voice_channel(&self, voice_channel: ChannelId) -> (found: Option<SessionInfo>)
        ensures
            found == self@.lookup_by_voice_channel(voice_channel),
    {
        match index_get(&self.voice_channels, voice_channel) {
            Some(guild_id) => self.get(guild_id),
            None => None,
        }
    }

    /// Records that the session playing in `from` now plays in `to`.
    ///
    /// Refused, with nothing changed, where no guild is indexed under `from`,
    /// or where the guild indexed there has no session.
    pub fn update_voice_channel(&mut self, from: ChannelId, to: ChannelId) -> (outcome: Result<
        (),
        RegistryError,
    >)
        ensures
            outcome == (match old(self)@.move_refused(from) {
                Some(error) => Err(error),
                None => Ok(()),
            }),
            final(self)@ == (if old(self)@.move_refused(from) is Some {
                old(self)@
            } else {
                old(self)@.moved(from, to)
            }),
    {
        let guild_id = match index_get(&self.voice_channels, from) {
            Some(guild_id) => guild_id,
            None => {
                return Err(RegistryError::VoiceChannelNotFound(from));
            },
        };
        let info = match sessions_get(&self.sessions, guild_id) {
            Some(info) => info,
            None => {
                return Err(RegistryError::SessionNotFound(guild_id));
            },
        };
        let _ = sessions_insert(
            &mut self.sessions,
            guild_id,
            SessionInfo { handle: info.handle, text_channel: info.text_channel, voice_channel: to },
        );
        let _ = index_remove(&mut self.voice_channels, from);
        let _ = index_insert(&mut self.voice_channels, to, guild_id);
        Ok(())
    }

    /// Removes the session of `guild_id`, and the index entries under the
    /// channels recorded in that session.
    ///
    /// Returns `None`, with nothing changed, where the guild has no session.
    /// Otherwise the removed session, and for each index whether its entry
    /// was missing: a sign that the tables had come apart before, which the
    /// caller should report.
    pub fn remove(&mut self, guild_id: GuildId) -> (removal: Option<Removal>)
        ensures
            final(self)@ == old(self)@.removed(guild_id),
            match old(self)@.lookup(guild_id) {
                None => removal is None,
                Some(info) => removal matches Some(found) && found.info == info
                    && found.text_index_missing == !old(self)@.text_channels.contains_key(info.text_channel)
                    && found.voice_index_missing == !old(self)@.voice_channels.contains_key(
                    info.voice_channel,
                ),
            },
    {
        match sessions_remove(&mut self.sessions, guild_id) {
            Some(info) => {
                let text = index_remove(&mut self.text_channels, info.text_channel);
                let voice = index_remove(&mut self.voice_channels, info.voice_channel);
                Some(Removal { info, text_index_missing: text.is_none(), voice_index_missing: voice.is_none() })
            },
            None => {
                assert(self@.sessions =~= old(self)@.sessions);
                None
            },
        }
    }
}

/// After the session of a guild is removed, the guild has no session, and
/// neither channel recorded in the removed session leads to one; this holds
/// in every state of the registry, whatever was registered and removed
/// before.
pub proof fn lemma_removed_is_unreachable(registry: RegistryView, guild: GuildId)
    ensures
        registry.removed(guild).lookup(guild) is None,
        registry.lookup(guild) matches Some(info) ==> {
            &&& registry.removed(guild).lookup_by_text_channel(info.text_channel) is None
            &&& registry.removed(guild).lookup_by_voice_channel(info.voice_channel) is None
        },
{
}

/// After a session moved from voice channel `from` to another channel `to`,
/// `to` leads to the session, `from` leads nowhere, and the session of the
/// guild records `to`.
pub proof fn lemma_moved_is_repointed(registry: RegistryView, from: ChannelId, to: ChannelId)
    requires
        registry.move_refused(from) is None,
        from != to,
    ensures
        ({
            let guild = registry.voice_channels[from];
            let info = registry.sessions[guild];
            let session = SessionInfo {
                handle: info.handle,
                text_channel: info.text_channel,
                voice_channel: to,
            };
            &&& registry.moved(from, to).lookup_by_voice_channel(to) == Some(session)
            &&& registry.moved(from, to).lookup_by_voice_channel(from) is None
            &&& registry.moved(from, to).lookup(guild) == Some(session)
        }),
{
}

/// After a guild is registered again under other channels, its earlier
/// channels lead nowhere and its new channels lead to the new session; this
/// holds in every state of the registry.
pub proof fn lemma_registered_again_is_repointed(registry: RegistryView, guild: GuildId, info: SessionInfo)
    ensures
        registry.registered(guild, info).lookup(guild) == Some(info),
        registry.registered(guild, info).lookup_by_text_channel(info.text_channel) == Some(info),
        registry.registered(guild, info).lookup_by_voice_channel(info.voice_channel) == Some(info),
        registry.lookup(guild) matches Some(earlier) ==> {
            &&& earlier.text_channel != info.text_channel ==> registry.registered(
                guild,
                info,
            ).lookup_by_text_channel(earlier.text_channel) is None
            &&& earlier.voice_channel != info.voice_channel ==> registry.registered(
                guild,
                info,
            ).lookup_by_voice_channel(earlier.voice_channel) is None
        },
{
}

/// No sequence of registrations, moves and removals makes an index entry
/// lead astray: the empty registry has none, and each operation keeps it
/// so, whatever its arguments. While that holds, a channel that leads to a
/// session is a channel of that session, and a move is refused only
/// because nothing is indexed under the channel it starts from.
pub proof fn lemma_entries_stay_anchored(
    registry: RegistryView,
    guild: GuildId,
    info: SessionInfo,
    from: ChannelId,
    to: ChannelId,
)
    requires
        registry.anchored(),
    ensures
        RegistryView::empty().anchored(),
        registry.registered(guild, info).anchored(),
        registry.removed(guild).anchored(),
        registry.move_refused(from) is None ==> registry.moved(from, to).anchored(),
        registry.move_refused(from) matches Some(error) ==> error == RegistryError::VoiceChannelNotFound(from),
        registry.lookup_by_text_channel(from) matches Some(found) ==> found.text_channel == from,
        registry.lookup_by_voice_channel(from) matches Some(found) ==> found.voice_channel == from,
{
    let cleared = registry.removed(guild);
    assert(cleared.anchored()) by {
        assert forall|channel: ChannelId| #[trigger] cleared.text_channels.contains_key(channel) implies {
            &&& cleared.sessions.contains_key(cleared.text_channels[channel])
            &&& cleared.sessions[cleared.text_channels[channel]].text_channel == channel
        } by {
            assert(registry.text_channels.contains_key(channel));
        }
        assert forall|channel: ChannelId| #[trigger] cleared.voice_channels.contains_key(channel) implies {
            &&& cleared.sessions.contains_key(cleared.voice_channels[channel])
            &&& cleared.sessions[cleared.voice_channels[channel]].voice_channel == channel
        } by {
            assert(registry.voice_channels.contains_key(channel));
        }
    }
    let entered = cleared.entered(guild, info);
    assert(entered.anchored()) by {
        assert forall|channel: ChannelId| #[trigger] entered.text_channels.contains_key(channel) implies {
            &&& entered.sessions.contains_key(entered.text_channels[channel])
            &&& entered.sessions[entered.text_channels[channel]].text_channel == channel
        } by {
            if channel != info.text_channel {
                assert(cleared.text_channels.contains_key(channel));
            }
        }
        assert forall|channel: ChannelId| #[trigger] entered.voice_channels.contains_key(channel) implies {
            &&& entered.sessions.contains_key(entered.voice_channels[channel])
            &&& entered.sessions[entered.voice_channels[channel]].voice_channel == channel
        } by {
            if channel != info.voice_channel {
                assert(cleared.voice_channels.contains_key(channel));
            }
        }
    }
    if registry.voice_channels.contains_key(from) {
        assert(registry.sessions.contains_key(registry.voice_channels[from]));
    }
    if registry.text_channels.contains_key(from) {
        assert(registry.sessions.contains_key(registry.text_channels[from]));
    }
    if registry.move_refused(from) is None {
        let moved = registry.moved(from, to);
        assert forall|channel: ChannelId| #[trigger] moved.text_channels.contains_key(channel) implies {
            &&& moved.sessions.contains_key(moved.text_channels[channel])
            &&& moved.sessions[moved.text_channels[channel]].text_channel == channel
        } by {
            assert(registry.text_channels.contains_key(channel));
        }
        assert forall|channel: ChannelId| #[trigger] moved.voice_channels.contains_key(channel) implies {
            &&& moved.sessions.contains_key(moved.voice_channels[channel])
            &&& moved.sessions[moved.voice_channels[channel]].voice_channel == channel
        } by {
            if channel != to {
                assert(registry.voice_channels.contains_key(channel));
            }
        }
    }
}

/// Where the tables agree, a text channel leads to a session exactly when
/// it is the text channel of a live session, and then to that session; and
/// likewise a voice channel.
pub proof fn lemma_lookups_are_exact(registry: RegistryView, channel: ChannelId)
    requires
        registry.consistent(),
    ensures
        match registry.lookup_by_text_channel(channel) {
            Some(info) => info.text_channel == channel && exists|guild: GuildId| #[trigger]
                registry.lookup(guild) == Some(info),
            None => forall|guild: GuildId| #[trigger]
                registry.sessions.contains_key(guild) ==> registry.sessions[guild].text_channel != channel,
        },
        match registry.lookup_by_voice_channel(channel) {
            Some(info) => info.voice_channel == channel && exists|guild: GuildId| #[trigger]
                registry.lookup(guild) == Some(info),
            None => forall|guild: GuildId| #[trigger]
                registry.sessions.contains_key(guild) ==> registry.sessions[guild].voice_channel != channel,
        },
{
    if registry.text_channels.contains_key(channel) {
        let guild = registry.text_channels[channel];
        assert(registry.lookup(guild) == Some(registry.sessions[guild]));
    }
    if registry.voice_channels.contains_key(channel) {
        let guild = registry.voice_channels[channel];
        assert(registry.lookup(guild) == Some(registry.sessions[guild]));
    }
}

/// Registering a session under channels that no other guild is indexed
/// under keeps the tables in agreement.
pub proof fn lemma_register_keeps_consistent(registry: RegistryView, guild: GuildId, info: SessionInfo)
    requires
        registry.consistent(),
        entry_of(registry.text_channels, info.text_channel) is None || entry_of(
            registry.text_channels,
            info.text_channel,
        ) == Some(guild),
        entry_of(registry.voice_channels, info.voice_channel) is None || entry_of(
            registry.voice_channels,
            info.voice_channel,
        ) == Some(guild),
    ensures
        registry.registered(guild, info).consistent(),
{
    lemma_remove_keeps_consistent(registry, guild);
    let cleared = registry.removed(guild);
    if registry.sessions.contains_key(guild) {
        assert(entry_of(registry.text_channels, registry.sessions[guild].text_channel) == Some(guild));
        assert(entry_of(registry.voice_channels, registry.sessions[guild].voice_channel) == Some(guild));
    }
    if registry.text_channels.contains_key(info.text_channel) {
        assert(registry.sessions.contains_key(guild));
        assert(registry.sessions[guild].text_channel == info.text_channel);
    }
    if registry.voice_channels.contains_key(info.voice_channel) {
        assert(registry.sessions.contains_key(guild));
        assert(registry.sessions[guild].voice_channel == info.voice_channel);
    }
    lemma_enter_keeps_consistent(cleared, guild, info);
}

/// Entering a session for a guild that has none, under channels that
/// nothing is indexed under, keeps the tables in agreement.
pub proof fn lemma_enter_keeps_consistent(registry: RegistryView, guild: GuildId, info: SessionInfo)
    requires
        registry.consistent(),
        !registry.sessions.contains_key(guild),
        !registry.text_channels.contains_key(info.text_channel),
        !registry.voice_channels.contains_key(info.voice_channel),
    ensures
        registry.entered(guild, info).consistent(),
{
    let after = registry.entered(guild, info);
    assert forall|other: GuildId| #[trigger] after.sessions.contains_key(other) implies {
        &&& entry_of(after.text_channels, after.sessions[other].text_channel) == Some(other)
        &&& entry_of(after.voice_channels, after.sessions[other].voice_channel) == Some(other)
    } by {
        if other != guild {
            assert(registry.sessions.contains_key(other));
        }
    }
    assert forall|channel: ChannelId| #[trigger] after.text_channels.contains_key(channel) implies {
        &&& after.sessions.contains_key(after.text_channels[channel])
        &&& after.sessions[after.text_channels[channel]].text_channel == channel
    } by {
        if channel != info.text_channel {
            assert(registry.text_channels.contains_key(channel));
        }
    }
    assert forall|channel: ChannelId| #[trigger] after.voice_channels.contains_key(channel) implies {
        &&& after.sessions.contains_key(after.voice_channels[channel])
        &&& after.sessions[after.voice_channels[channel]].voice_channel == channel
    } by {
        if channel != info.voice_channel {
            assert(registry.voice_channels.contains_key(channel));
        }
    }
}

/// Removing a session keeps the tables in agreement.
pub proof fn lemma_remove_keeps_consistent(registry: RegistryView, guild: GuildId)
    requires
        registry.consistent(),
    ensures
        registry.removed(guild).consistent(),
{
    let after = registry.removed(guild);
    if registry.sessions.contains_key(guild) {
        let info = registry.sessions[guild];
        assert forall|other: GuildId| #[trigger] after.sessions.contains_key(other) implies {
            &&& entry_of(after.text_channels, after.sessions[other].text_channel) == Some(other)
            &&& entry_of(after.voice_channels, after.sessions[other].voice_channel) == Some(other)
        } by {
            assert(registry.sessions.contains_key(other));
        }
        assert forall|channel: ChannelId| #[trigger] after.text_channels.contains_key(channel) implies {
            &&& after.sessions.contains_key(after.text_channels[channel])
            &&& after.sessions[after.text_channels[channel]].text_channel == channel
        } by {
            assert(registry.text_channels.contains_key(channel));
        }
        assert forall|channel: ChannelId| #[trigger] after.voice_channels.contains_key(channel) implies {
            &&& after.sessions.contains_key(after.voice_channels[channel])
            &&& after.sessions[after.voice_channels[channel]].voice_channel == channel
        } by {
            assert(registry.voice_channels.contains_key(channel));
        }
    }
}

/// Moving a session to a voice channel that no other guild is indexed under
/// keeps the tables in agreement.
pub proof fn lemma_move_keeps_consistent(registry: RegistryView, from: ChannelId, to: ChannelId)
    requires
        registry.consistent(),
        registry.move_refused(from) is None,
        !registry.voice_channels.contains_key(to) || to == from,
    ensures
        registry.moved(from, to).consistent(),
{
    let after = registry.moved(from, to);
    let guild = registry.voice_channels[from];
    assert(registry.voice_channels.contains_key(from));
    assert(registry.sessions.contains_key(guild));
    assert forall|other: GuildId| #[trigger] after.sessions.contains_key(other) implies {
        &&& entry_of(after.text_channels, after.sessions[other].text_channel) == Some(other)
        &&& entry_of(after.voice_channels, after.sessions[other].voice_channel) == Some(other)
    } by {
        assert(registry.sessions.contains_key(other));
    }
    assert forall|channel: ChannelId| #[trigger] after.text_channels.contains_key(channel) implies {
        &&& after.sessions.contains_key(after.text_channels[channel])
        &&& after.sessions[after.text_channels[channel]].text_channel == channel
    } by {
        assert(registry.text_channels.contains_key(channel));
    }
    assert forall|channel: ChannelId| #[trigger] after.voice_channels.contains_key(channel) implies {
        &&& after.sessions.contains_key(after.voice_channels[channel])
        &&& after.sessions[after.voice_channels[channel]].voice_channel == channel
    } by {
        if channel != to {
            assert(registry.voice_channels.contains_key(channel));
        }
    }
}

} // verus!
