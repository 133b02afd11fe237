//! Resolving a profile, with the fallback of the installation behind it.

use crate::profile::repository::guild_lookup_gives;
use crate::profile::repository::priority_lookup_gives;
use crate::profile::repository::ProfileRepository;
use crate::profile::repository::RepositoryError;
use crate::profile::ProfileSource;
use crate::profile::ResolvedProfile;
use crate::session::GuildId;
use crate::session::UserId;
use std::sync::Arc;
use vstd::prelude::*;

verus! {

/// What is resolved from what the store found for user and guild together:
/// that, or the fallback.
pub open spec fn or_fallback_spec(found: Option<ResolvedProfile>, fallback: String) -> ResolvedProfile {
    match found {
        Some(profile) => profile,
        None => ResolvedProfile { id: fallback, source: ProfileSource::GlobalFallback },
    }
}

/// What is resolved for a guild from what the store found for it. The
/// profile carries the fallback's id either way; the source tells whether
/// the guild has a default of its own.
pub open spec fn guild_or_fallback_spec(found: Option<String>, fallback: String) -> ResolvedProfile {
    match found {
        Some(_) => ResolvedProfile { id: fallback, source: ProfileSource::GuildDefault },
        None => ResolvedProfile { id: fallback, source: ProfileSource::GlobalFallback },
    }
}

/// Resolves profiles against a store, with a fallback for what the store
/// does not hold.
pub struct ProfileResolver<R: ProfileRepository + ?Sized = dyn ProfileRepository> {
    repository: Arc<R>,
    fallback_profile_id: String,
}

impl<R: ProfileRepository + ?Sized> ProfileResolver<R> {
    pub fn new(repository: Arc<R>, fallback_profile_id: String) -> (resolver: Self)
        ensures
            resolver.fallback_spec() == fallback_profile_id,
            resolver.repository() == repository,
    {
        Self { repository, fallback_profile_id }
    }

    /// The id of the fallback profile.
    pub closed spec fn fallback_spec(self) -> String {
        self.fallback_profile_id
    }

    /// The store that is asked.
    pub closed spec fn repository(self) -> Arc<R> {
        self.repository
    }

    /// The id of the fallback profile.
    pub fn fallback(&self) -> (id: &str)
        ensures
            id@ == self.fallback_spec()@,
    {
        self.fallback_profile_id.as_str()
    }

    /// Turns what the store found for user and guild into a profile; see
    /// [`or_fallback_spec`].
    pub fn or_fallback(&self, found: Option<ResolvedProfile>) -> (profile: ResolvedProfile)
        ensures
            profile.id@ == or_fallback_spec(found, self.fallback_spec()).id@,
            profile.source == or_fallback_spec(found, self.fallback_spec()).source,
            found is Some ==> profile == found->0,
    {
        match found {
            Some(profile) => profile,
            None => ResolvedProfile::global_fallback(self.fallback_profile_id.clone()),
        }
    }

    /// Turns what the store found for a guild into a profile; see
    /// [`guild_or_fallback_spec`].
    pub fn guild_or_fallback(&self, found: Option<String>) -> (profile: ResolvedProfile)
        ensures
            profile.id@ == self.fallback_spec()@,
            profile.source == guild_or_fallback_spec(found, self.fallback_spec()).source,
    {
        match found {
            Some(_) => ResolvedProfile::guild_default(self.fallback_profile_id.clone()),
            None => ResolvedProfile::global_fallback(self.fallback_profile_id.clone()),
        }
    }

    /// The id to look a voice up by, given how resolving went: the resolved
    /// profile's, or the fallback where resolving failed.
    pub fn id_or_fallback(&self, resolved: &Result<ResolvedProfile, RepositoryError>) -> (id: String)
        ensures
            id@ == (match *resolved {
                Ok(profile) => profile.id@,
                Err(_) => self.fallback_spec()@,
            }),
    {
        match resolved {
            Ok(profile) => profile.id.clone(),
            Err(_) => self.fallback_profile_id.clone(),
        }
    }

    /// The profile of `user_id` in `guild_id`: what the store finds, else
    /// the fallback. A failure of the store is returned as it came.
    pub fn resolve_with_fallback(&self, user_id: UserId, guild_id: GuildId) -> (resolved: Result<
        ResolvedProfile,
        RepositoryError,
    >)
        ensures
            match resolved {
                Ok(profile) => exists|found: Option<ResolvedProfile>|
                    {
                        &&& #[trigger] priority_lookup_gives(&*self.repository(), user_id, guild_id, Ok(found))
                        &&& found matches Some(stored) ==> profile == stored
                        &&& found is None ==> profile.id@ == self.fallback_spec()@ && profile.source
                            == ProfileSource::GlobalFallback
                    },
                Err(error) => priority_lookup_gives(&*self.repository(), user_id, guild_id, Err(error)),
            },
    {
        let answer = self.repository.find_highest_priority(user_id, guild_id);
        assert(priority_lookup_gives(&*self.repository(), user_id, guild_id, answer));
        match answer {
            Ok(found) => Ok(self.or_fallback(found)),
            Err(error) => Err(error),
        }
    }

    /// The profile of `guild_id`; see [`guild_or_fallback_spec`]. A failure
    /// of the store is returned as it came.
    pub fn resolve_guild_with_fallback(&self, guild_id: GuildId) -> (resolved: Result<
        ResolvedProfile,
        RepositoryError,
    >)
        ensures
            match resolved {
                Ok(profile) => exists|found: Option<String>|
                    {
                        &&& #[trigger] guild_lookup_gives(&*self.repository(), guild_id, Ok(found))
                        &&& profile.id@ == self.fallback_spec()@
                        &&& profile.source == guild_or_fallback_spec(found, self.fallback_spec()).source
                    },
                Err(error) => guild_lookup_gives(&*self.repository(), guild_id, Err(error)),
            },
    {
        let answer = self.repository.find_by_guild(guild_id);
        assert(guild_lookup_gives(&*self.repository(), guild_id, answer));
        match answer {
            Ok(found) => Ok(self.guild_or_fallback(found)),
            Err(error) => Err(error),
        }
    }
}

} // verus!
