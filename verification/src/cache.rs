//! The single-slot, TTL-bound access-token cache. One logical slot exists
//! system-wide: storing a token replaces whatever was there, whoever owned
//! it. This single-active-session behaviour is deliberate and load-bearing;
//! do not quietly turn the slot into a per-user map.
use vstd::prelude::*;

use crate::errors::AuthError;

verus! {

/// Reference time-to-live of the cached access token, in seconds.
pub const ACCESS_CACHE_TTL_SECS: i64 = 12000;

/// Failure of a cache read.
#[derive(Clone, Copy, PartialEq, Eq, Structural, Debug)]
pub enum CacheError {
    /// The slot is empty or its time-to-live has passed.
    Missing,
    /// The cache backend could not be reached; this in-memory backend never
    /// reports it, a networked deployment of the same contract may.
    Unavailable,
}

/// Contents of the slot: the token and the instant it stops being served.
pub struct CacheEntry {
    pub token: Vec<u8>,
    pub expires_at: i64,
}

/// Mathematical view of the slot contents.
pub ghost struct CacheEntryView {
    pub token: Seq<u8>,
    pub expires_at: i64,
}

impl View for CacheEntry {
    type V = CacheEntryView;

    open spec fn view(&self) -> CacheEntryView {
        CacheEntryView { token: self.token@, expires_at: self.expires_at }
    }
}

/// The cache itself: at most one live token, under one fixed logical key.
pub struct AccessTokenCache {
    slot: Option<CacheEntry>,
}

impl View for AccessTokenCache {
    type V = Option<CacheEntryView>;

    closed spec fn view(&self) -> Option<CacheEntryView> {
        match self.slot {
            Some(ref e) => Some(e@),
            None => None,
        }
    }
}

/// Whether the slot serves a token at instant `now`.
pub open spec fn spec_cache_live(c: Option<CacheEntryView>, now: i64) -> bool {
    c matches Some(e) && now < e.expires_at
}

impl AccessTokenCache {
    /// An empty slot.
    pub fn new() -> (r: AccessTokenCache)
        ensures
            r@ is None,
    {
        AccessTokenCache { slot: None }
    }

    /// Stores a token under the fixed key with the given time-to-live,
    /// replacing any previous occupant. Fails only on backend
    /// unavailability, which this in-memory backend never exhibits.
    pub fn set(&mut self, token: Vec<u8>, now: i64, ttl_secs: i64) -> (r: Result<(), AuthError>)
        requires
            0 <= ttl_secs,
            now <= i64::MAX - ttl_secs,
        ensures
            r is Ok,
            final(self)@ == Some(
                CacheEntryView { token: token@, expires_at: (now + ttl_secs) as i64 },
            ),
    {
        self.slot = Some(CacheEntry { token, expires_at: now + ttl_secs });
        Ok(())
    }

    /// Reads the token currently served, or `Missing` when the slot is empty
    /// or its time-to-live has passed. `Unavailable` is never reported here.
    pub fn get(&self, now: i64) -> (r: Result<Vec<u8>, CacheError>)
        ensures
            r matches Ok(t) ==> spec_cache_live(self@, now) && (self@ matches Some(e) && t@
                == e.token),
            r matches Err(e) ==> e == CacheError::Missing && !spec_cache_live(self@, now),
    {
        match &self.slot {
            Some(entry) => {
                if now < entry.expires_at {
                    Ok(entry.token.clone())
                } else {
                    Err(CacheError::Missing)
                }
            },
            None => Err(CacheError::Missing),
        }
    }

    /// Empties the slot. Called speculatively before every replacement
    /// write; deleting an already-empty slot is success, not an error.
    pub fn delete(&mut self)
        ensures
            final(self)@ is None,
    {
        self.slot = None;
    }
}

} // verus!
