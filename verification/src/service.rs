//! Orchestration of the token flows. Login resolves the identity, verifies
//! the password, issues and durably records a refresh token, then issues an
//! access token and installs it in the single cache slot. Refresh verifies
//! the presented refresh token, authorises it against the store, and rotates
//! the cached access token. Every step's effect is pinned by one spec-level
//! transition function per flow.
use vstd::prelude::*;

use crate::cache::{AccessTokenCache, CacheEntryView, ACCESS_CACHE_TTL_SECS};
use crate::codec::{
    lemma_access_issue_verify_round_trip, lemma_refresh_issue_verify_round_trip,
    spec_access_claims, spec_issue_access, spec_issue_refresh, spec_refresh_claims,
    spec_verify_access, spec_verify_refresh, TokenCodec, MAX_ISSUE_TIME,
};
use crate::errors::{AuthError, TokenError};
use crate::password::{hash_password, password_matches, password_verifies};
use crate::store::{
    opt_bytes_view, spec_login_query, spec_snapshot_of, spec_store_has, spec_user_by_id,
    user_query_wf, RefreshTokenRecordView, RegisterData, RegisterPayload, UserQuery,
    UserQueryView,
};
use crate::types::{AccessToken, AccessTokenView, ClaimsView, RefreshToken, RefreshTokenView};

verus! {

/// Login request: exactly one of the two keys should be supplied, and the
/// password in clear.
pub struct LoginData {
    pub email: Option<Vec<u8>>,
    pub username: Option<Vec<u8>>,
    pub password: Vec<u8>,
}

/// Mathematical view of a login request.
pub ghost struct LoginDataView {
    pub email: Option<Seq<u8>>,
    pub username: Option<Seq<u8>>,
    pub password: Seq<u8>,
}

impl View for LoginData {
    type V = LoginDataView;

    open spec fn view(&self) -> LoginDataView {
        LoginDataView {
            email: opt_bytes_view(self.email),
            username: opt_bytes_view(self.username),
            password: self.password@,
        }
    }
}

/// What a successful login returns: the identity fields and both tokens.
pub struct LoginPayload {
    pub id: u128,
    pub email: Vec<u8>,
    pub username: Vec<u8>,
    pub refresh_token: Vec<u8>,
    pub access_token: Vec<u8>,
}

/// Mathematical view of a login response.
pub ghost struct LoginPayloadView {
    pub id: u128,
    pub email: Seq<u8>,
    pub username: Seq<u8>,
    pub refresh_token: Seq<u8>,
    pub access_token: Seq<u8>,
}

impl View for LoginPayload {
    type V = LoginPayloadView;

    open spec fn view(&self) -> LoginPayloadView {
        LoginPayloadView {
            id: self.id,
            email: self.email@,
            username: self.username@,
            refresh_token: self.refresh_token@,
            access_token: self.access_token@,
        }
    }
}

/// The transition a login performs on the store and the cache slot, and its
/// result. Failures leave both untouched; success appends exactly one
/// refresh-token record and overwrites the slot with the fresh access token.
pub open spec fn spec_login(
    db: UserQueryView,
    cache: Option<CacheEntryView>,
    data: LoginDataView,
    secret: Seq<u8>,
    now: i64,
) -> (UserQueryView, Option<CacheEntryView>, Result<LoginPayloadView, AuthError>) {
    match spec_login_query(db.users, data.email, data.username) {
        Err(e) => (db, cache, Err(e)),
        Ok(row) => {
            if !password_verifies(data.password, row.password) {
                (db, cache, Err(AuthError::InvalidCredentials))
            } else {
                let refresh = spec_issue_refresh(RefreshTokenView { id: row.id }, now, secret);
                let db2 = UserQueryView {
                    users: db.users,
                    refresh_tokens: db.refresh_tokens.push(
                        RefreshTokenRecordView { token: refresh, owner_id: row.id },
                    ),
                };
                let access = spec_issue_access(spec_snapshot_of(row), now, secret);
                let cache2 = Some(
                    CacheEntryView {
                        token: access,
                        expires_at: (now + ACCESS_CACHE_TTL_SECS) as i64,
                    },
                );
                (
                    db2,
                    cache2,
                    Ok(
                        LoginPayloadView {
                            id: row.id,
                            email: row.email,
                            username: row.username,
                            refresh_token: refresh,
                            access_token: access,
                        },
                    ),
                )
            }
        },
    }
}

/// The transition a refresh performs on the cache slot, and its result. The
/// store is read, never written: the refresh token itself is not rotated.
/// Every failure leaves the slot untouched.
pub open spec fn spec_refresh(
    db: UserQueryView,
    cache: Option<CacheEntryView>,
    token: Seq<u8>,
    secret: Seq<u8>,
    now: i64,
) -> (Option<CacheEntryView>, Result<Seq<u8>, AuthError>) {
    match spec_verify_refresh(token, secret, now) {
        Err(TokenError::Expired) => (cache, Err(AuthError::ExpiredToken)),
        Err(_) => (cache, Err(AuthError::InvalidToken)),
        Ok(claims) => {
            if !spec_store_has(db.refresh_tokens, token, claims.token.id) {
                (cache, Err(AuthError::UnknownToken))
            } else {
                match spec_user_by_id(db.users, claims.token.id) {
                    None => (cache, Err(AuthError::InvalidCredentials)),
                    Some(row) => {
                        let access = spec_issue_access(spec_snapshot_of(row), now, secret);
                        (
                            Some(
                                CacheEntryView {
                                    token: access,
                                    expires_at: (now + ACCESS_CACHE_TTL_SECS) as i64,
                                },
                            ),
                            Ok(access),
                        )
                    },
                }
            }
        },
    }
}

/// The token flows, stateless themselves: all state lives in the injected
/// store, cache and codec.
pub struct UserServices {}

impl UserServices {
    /// Hashes the password and inserts the user; the registration is
    /// rejected when either login key is taken, and aborted when the hashing
    /// capability fails.
    pub fn register(data: RegisterData, db: &mut UserQuery) -> (r: Result<
        RegisterPayload,
        AuthError,
    >)
        requires
            user_query_wf(old(db)@),
        ensures
            user_query_wf(final(db)@),
            final(db)@.refresh_tokens == old(db)@.refresh_tokens,
            r matches Ok(p) ==> ({
                let row = final(db)@.users.last();
                &&& final(db)@.users == old(db)@.users.push(row)
                &&& row.email == data.email@
                &&& row.username == data.username@
                &&& password_verifies(data.password@, row.password)
                &&& p@.id == row.id
                &&& p@.email == data.email@
                &&& p@.username == data.username@
            }),
            r matches Err(e) ==> final(db)@ == old(db)@ && (e == AuthError::InputError || e
                == AuthError::InternalSigningError),
            r == Err::<RegisterPayload, AuthError>(AuthError::InputError) ==> (
            crate::store::spec_user_by_email(old(db)@.users, data.email@) is Some
                || crate::store::spec_user_by_username(old(db)@.users, data.username@) is Some),
    {
        let hashed = match hash_password(&data.password) {
            Some(h) => h,
            None => {
                return Err(AuthError::InternalSigningError);
            },
        };
        let stored = RegisterData { email: data.email, username: data.username, password: hashed };
        db.create_user(stored)
    }

    /// The login flow of the specification: resolve the identity by login
    /// key, verify the password, issue and durably record a refresh token,
    /// issue an access token, and replace the cache slot with it. No token
    /// is returned unless the refresh-token record was stored.
    pub fn login(
        data: LoginData,
        db: &mut UserQuery,
        cache: &mut AccessTokenCache,
        codec: &TokenCodec,
        now: i64,
    ) -> (r: Result<LoginPayload, AuthError>)
        requires
            user_query_wf(old(db)@),
            0 <= now <= MAX_ISSUE_TIME,
        ensures
            user_query_wf(final(db)@),
            ({
                let (db2, cache2, res) = spec_login(old(db)@, old(cache)@, data@, codec@, now);
                &&& final(db)@ == db2
                &&& final(cache)@ == cache2
                &&& (match r {
                    Ok(p) => res == Ok::<LoginPayloadView, AuthError>(p@),
                    Err(e) => res == Err::<LoginPayloadView, AuthError>(e),
                })
            }),
    {
        let LoginData { email, username, password } = data;
        let row = match db.login_query(email, username) {
            Ok(row) => row,
            Err(e) => {
                return Err(e);
            },
        };
        if !password_matches(&password, &row.password) {
            return Err(AuthError::InvalidCredentials);
        }
        let refresh_token = codec.generate_refresh_token(RefreshToken { id: row.id }, now);
        if let Err(e) = db.create_refresh_token(&refresh_token, row.id) {
            return Err(e);
        }
        let access_data = AccessToken {
            id: row.id,
            username: row.username.clone(),
            email: row.email.clone(),
        };
        let access_token = codec.generate_access_token(access_data, now);
        cache.delete();
        if let Err(e) = cache.set(access_token.clone(), now, ACCESS_CACHE_TTL_SECS) {
            return Err(e);
        }
        Ok(
            LoginPayload {
                id: row.id,
                email: row.email,
                username: row.username,
                refresh_token,
                access_token,
            },
        )
    }

    /// The refresh flow of the specification: verify the refresh token,
    /// check it is on file for its owner, re-read the owner's current
    /// identity snapshot, issue a fresh access token, and replace the cache
    /// slot. The refresh token is not rotated.
    pub fn refresh_token(
        token: &Vec<u8>,
        db: &UserQuery,
        cache: &mut AccessTokenCache,
        codec: &TokenCodec,
        now: i64,
    ) -> (r: Result<Vec<u8>, AuthError>)
        requires
            user_query_wf(db@),
            0 <= now <= MAX_ISSUE_TIME,
        ensures
            ({
                let (cache2, res) = spec_refresh(db@, old(cache)@, token@, codec@, now);
                &&& final(cache)@ == cache2
                &&& (match r {
                    Ok(t) => res == Ok::<Seq<u8>, AuthError>(t@),
                    Err(e) => res == Err::<Seq<u8>, AuthError>(e),
                })
            }),
    {
        let claims = match codec.decode_refresh_token(token, now) {
            Ok(c) => c,
            Err(TokenError::Expired) => {
                return Err(AuthError::ExpiredToken);
            },
            Err(_) => {
                return Err(AuthError::InvalidToken);
            },
        };
        let user_id = match db.find_refresh_token(token, claims.token.id) {
            Ok(id) => id,
            Err(e) => {
                return Err(e);
            },
        };
        let user = match db.find_user_by_id(user_id) {
            Ok(u) => u,
            Err(e) => {
                return Err(e);
            },
        };
        let access_token = codec.generate_access_token(user, now);
        Self::delete_access_token(cache);
        if let Err(e) = Self::store_access_token(access_token.clone(), cache, now) {
            return Err(e);
        }
        Ok(access_token)
    }

    /// The verify-access flow: re-confirm the embedded identity snapshot
    /// against the current canonical record; a drifted email means the
    /// snapshot is stale and the token no longer speaks for the user.
    pub fn find_user_login(token: AccessToken, db: &UserQuery) -> (r: Result<
        AccessToken,
        AuthError,
    >)
        requires
            user_query_wf(db@),
        ensures
            r matches Ok(u) ==> (spec_user_by_id(db@.users, token@.id) matches Some(row) && u@
                == spec_snapshot_of(row) && row.email == token@.email),
            r matches Err(e) ==> (match spec_user_by_id(db@.users, token@.id) {
                None => e == AuthError::InvalidCredentials,
                Some(row) => e == AuthError::InvalidToken && row.email != token@.email,
            }),
    {
        let user = match db.find_user_by_id(token.id) {
            Ok(u) => u,
            Err(e) => {
                return Err(e);
            },
        };
        if !crate::byteseq::bytes_eq(&user.email, &token.email) {
            return Err(AuthError::InvalidToken);
        }
        Ok(user)
    }

    /// Installs a token in the cache slot under the fixed key with the
    /// reference time-to-live.
    pub fn store_access_token(token: Vec<u8>, cache: &mut AccessTokenCache, now: i64) -> (r:
        Result<(), AuthError>)
        requires
            0 <= now <= MAX_ISSUE_TIME,
        ensures
            r is Ok,
            final(cache)@ == Some(
                CacheEntryView { token: token@, expires_at: (now + ACCESS_CACHE_TTL_SECS) as i64 },
            ),
    {
        cache.set(token, now, ACCESS_CACHE_TTL_SECS)
    }

    /// Best-effort speculative delete before a replacement write.
    pub fn delete_access_token(cache: &mut AccessTokenCache)
        ensures
            final(cache)@ is None,
    {
        cache.delete()
    }
}

/// Login binds both tokens to the stored identity: the access token embeds
/// exactly the resolved record's snapshot, the refresh token embeds exactly
/// its owner id, both verify under the issuing secret at the login instant,
/// and the refresh token round-trips through the store's find.
pub proof fn lemma_login_binds_tokens_to_identity(
    db: UserQueryView,
    cache: Option<CacheEntryView>,
    data: LoginDataView,
    secret: Seq<u8>,
    now: i64,
)
    requires
        user_query_wf(db),
        0 <= now <= MAX_ISSUE_TIME,
    ensures
        ({
            let (db2, cache2, res) = spec_login(db, cache, data, secret, now);
            res matches Ok(p) ==> spec_login_query(db.users, data.email, data.username) matches Ok(
                row,
            ) && {
                &&& p.id == row.id
                &&& p.email == row.email
                &&& p.username == row.username
                &&& password_verifies(data.password, row.password)
                &&& spec_verify_access(p.access_token, secret, now) == Ok::<
                    ClaimsView<AccessTokenView>,
                    crate::errors::TokenError,
                >(spec_access_claims(spec_snapshot_of(row), now))
                &&& spec_verify_refresh(p.refresh_token, secret, now) == Ok::<
                    ClaimsView<RefreshTokenView>,
                    crate::errors::TokenError,
                >(spec_refresh_claims(RefreshTokenView { id: row.id }, now))
                &&& spec_store_has(db2.refresh_tokens, p.refresh_token, p.id)
            }
        }),
{
    let (db2, cache2, res) = spec_login(db, cache, data, secret, now);
    if res is Ok {
        let row = spec_login_query(db.users, data.email, data.username)->Ok_0;
        lemma_access_issue_verify_round_trip(spec_snapshot_of(row), secret, now, now);
        lemma_refresh_issue_verify_round_trip(RefreshTokenView { id: row.id }, secret, now, now);
        let rec = RefreshTokenRecordView {
            token: spec_issue_refresh(RefreshTokenView { id: row.id }, now, secret),
            owner_id: row.id,
        };
        let records = db2.refresh_tokens;
        assert(records[records.len() - 1] == rec);
    }
}

/// A refresh that fails — whatever the reason — leaves the cache slot exactly
/// as it was, and a refresh never touches the relational store at all.
pub proof fn lemma_failed_refresh_preserves_cache(
    db: UserQueryView,
    cache: Option<CacheEntryView>,
    token: Seq<u8>,
    secret: Seq<u8>,
    now: i64,
)
    ensures
        ({
            let (cache2, res) = spec_refresh(db, cache, token, secret, now);
            res is Err ==> cache2 == cache
        }),
{
}

/// The error a failed refresh reports names its cause exactly: `ExpiredToken`
/// for a token past its window, `InvalidToken` for one that never verified,
/// `UnknownToken` for a verified token that is not on file.
pub proof fn lemma_refresh_error_taxonomy(
    db: UserQueryView,
    cache: Option<CacheEntryView>,
    token: Seq<u8>,
    secret: Seq<u8>,
    now: i64,
)
    ensures
        ({
            let (cache2, res) = spec_refresh(db, cache, token, secret, now);
            &&& (res == Err::<Seq<u8>, AuthError>(AuthError::ExpiredToken) <==> spec_verify_refresh(
                token,
                secret,
                now,
            ) == Err::<ClaimsView<RefreshTokenView>, crate::errors::TokenError>(
                crate::errors::TokenError::Expired,
            ))
            &&& (res == Err::<Seq<u8>, AuthError>(AuthError::UnknownToken) <==> (
            spec_verify_refresh(token, secret, now) matches Ok(claims) && !spec_store_has(
                db.refresh_tokens,
                token,
                claims.token.id,
            )))
        }),
{
}

} // verus!
