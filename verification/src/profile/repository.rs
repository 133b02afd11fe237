//! Where chosen profiles are kept.

use crate::profile::ResolvedProfile;
use crate::session::GuildId;
use crate::session::UserId;
use vstd::prelude::*;

verus! {

/// Why the store could not answer.
#[derive(Debug, Clone)]
pub struct RepositoryError {
    pub detail: String,
}

/// The profile that wins, given what is stored for the user and for the
/// guild: the user's where there is one, else the guild's, else none.
pub open spec fn highest_priority_spec(user: Option<String>, guild: Option<String>) -> Option<
    ResolvedProfile,
> {
    match user {
        Some(id) => Some(ResolvedProfile { id, source: crate::profile::ProfileSource::UserOverride }),
        None => match guild {
            Some(id) => Some(ResolvedProfile { id, source: crate::profile::ProfileSource::GuildDefault }),
            None => None,
        },
    }
}

/// Picks the profile that wins; see [`highest_priority_spec`].
pub fn highest_priority(user: Option<String>, guild: Option<String>) -> (winner: Option<ResolvedProfile>)
    ensures
        winner == highest_priority_spec(user, guild),
{
    match user {
        Some(id) => Some(ResolvedProfile::user_override(id)),
        None => match guild {
            Some(id) => Some(ResolvedProfile::guild_default(id)),
            None => None,
        },
    }
}

/// Whether `found` is what `store` may answer when asked what `user_id`
/// chose.
pub open spec fn user_lookup_gives<R: ProfileRepository + ?Sized>(
    store: &R,
    user_id: UserId,
    found: Result<Option<String>, RepositoryError>,
) -> bool {
    call_ensures(R::find_by_user, (store, user_id), found)
}

/// Whether `found` is what `store` may answer when asked for the default of
/// `guild_id`.
pub open spec fn guild_lookup_gives<R: ProfileRepository + ?Sized>(
    store: &R,
    guild_id: GuildId,
    found: Result<Option<String>, RepositoryError>,
) -> bool {
    call_ensures(R::find_by_guild, (store, guild_id), found)
}

/// Whether `found` is what `store` may answer when asked for the profile
/// that wins for `user_id` in `guild_id`.
pub open spec fn priority_lookup_gives<R: ProfileRepository + ?Sized>(
    store: &R,
    user_id: UserId,
    guild_id: GuildId,
    found: Result<Option<ResolvedProfile>, RepositoryError>,
) -> bool {
    call_ensures(R::find_highest_priority, (store, user_id, guild_id), found)
}

/// The store of chosen profiles. Implementations decide what the two
/// lookups return; the combined lookup has to agree with them.
pub trait ProfileRepository: Send + Sync {
    /// The profile that `user_id` chose.
    fn find_by_user(&self, user_id: UserId) -> Result<Option<String>, RepositoryError>;

    /// The default profile of `guild_id`.
    fn find_by_guild(&self, guild_id: GuildId) -> Result<Option<String>, RepositoryError>;

    /// The profile that wins for `user_id` in `guild_id`: the user's, else
    /// the guild's. The guild is asked only where the user has chosen
    /// nothing; the first failure ends the search. A store that can answer
    /// in one query may replace this, as long as it answers what the two
    /// lookups would have led to.
    fn find_highest_priority(&self, user_id: UserId, guild_id: GuildId) -> (found: Result<
        Option<ResolvedProfile>,
        RepositoryError,
    >)
        ensures
            match found {
                Ok(Some(profile)) => {
                    ||| {
                        &&& profile.source == crate::profile::ProfileSource::UserOverride
                        &&& call_ensures(Self::find_by_user, (self, user_id), Ok(Some(profile.id)))
                    }
                    ||| {
                        &&& profile.source == crate::profile::ProfileSource::GuildDefault
                        &&& call_ensures(Self::find_by_user, (self, user_id), Ok(None))
                        &&& call_ensures(Self::find_by_guild, (self, guild_id), Ok(Some(profile.id)))
                    }
                },
                Ok(None) => {
                    &&& call_ensures(Self::find_by_user, (self, user_id), Ok(None))
                    &&& call_ensures(Self::find_by_guild, (self, guild_id), Ok(None))
                },
                Err(error) => {
                    ||| call_ensures(Self::find_by_user, (self, user_id), Err(error))
                    ||| {
                        &&& call_ensures(Self::find_by_user, (self, user_id), Ok(None))
                        &&& call_ensures(Self::find_by_guild, (self, guild_id), Err(error))
                    }
                },
            },
    {
        let user = match self.find_by_user(user_id) {
            Ok(user) => user,
            Err(error) => {
                return Err(error);
            },
        };
        if user.is_some() {
            return Ok(highest_priority(user, None));
        }
        match self.find_by_guild(guild_id) {
            Ok(guild) => Ok(highest_priority(None, guild)),
            Err(error) => Err(error),
        }
    }

    fn save_user(&self, user_id: UserId, profile_id: &str) -> Result<(), RepositoryError>;

    fn save_guild(&self, guild_id: GuildId, profile_id: &str) -> Result<(), RepositoryError>;

    fn delete_user(&self, user_id: UserId) -> Result<(), RepositoryError>;

    fn delete_guild(&self, guild_id: GuildId) -> Result<(), RepositoryError>;
}

/// Why a row of a combined query could not be read.
#[derive(Debug, Clone, Copy, PartialEq, Eq, Structural)]
pub enum RowError {
    /// The row has no mark of its table.
    NoSource,
    /// The row has no profile, or a mark that stands for no table.
    NoProfile,
}

/// What a row of a combined query for user and guild says: a row of the
/// user's table is marked 0, one of the guild's table 1.
pub open spec fn from_row_spec(source_id: i64, profile_id: String) -> Result<ResolvedProfile, RowError> {
    if source_id == 0 {
        Ok(ResolvedProfile { id: profile_id, source: crate::profile::ProfileSource::UserOverride })
    } else if source_id == 1 {
        Ok(ResolvedProfile { id: profile_id, source: crate::profile::ProfileSource::GuildDefault })
    } else {
        Err(RowError::NoProfile)
    }
}

/// Reads the row of a combined query; see [`from_row_spec`].
pub fn from_row(source_id: i64, profile_id: String) -> (profile: Result<ResolvedProfile, RowError>)
    ensures
        profile == from_row_spec(source_id, profile_id),
{
    if source_id == 0 {
        Ok(ResolvedProfile::user_override(profile_id))
    } else if source_id == 1 {
        Ok(ResolvedProfile::guild_default(profile_id))
    } else {
        Err(RowError::NoProfile)
    }
}

/// What a row says whose columns may be empty: the mark is looked at first,
/// then the profile; a row that has both is read as by [`from_row_spec`].
pub open spec fn from_nullable_row_spec(source_id: Option<i64>, profile_id: Option<String>) -> Result<
    ResolvedProfile,
    RowError,
> {
    match source_id {
        None => Err(RowError::NoSource),
        Some(source_id) => match profile_id {
            None => Err(RowError::NoProfile),
            Some(profile_id) => from_row_spec(source_id, profile_id),
        },
    }
}

/// Reads a row whose columns may be empty; see [`from_nullable_row_spec`].
pub fn from_nullable_row(source_id: Option<i64>, profile_id: Option<String>) -> (profile: Result<
    ResolvedProfile,
    RowError,
>)
    ensures
        profile == from_nullable_row_spec(source_id, profile_id),
{
    match source_id {
        None => Err(RowError::NoSource),
        Some(source_id) => match profile_id {
            None => Err(RowError::NoProfile),
            Some(profile_id) => from_row(source_id, profile_id),
        },
    }
}

} // verus!
