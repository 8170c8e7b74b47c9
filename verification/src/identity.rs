//! The cross-service identity verifier. Both gate points — the REST
//! middleware and the RPC interceptor — run the same check against the same
//! single cache slot: read the slot, verify the cached access token, and hand
//! the embedded identity to the protected handler. Rejection is one
//! indistinguishable value whatever the cause, so a caller learns nothing
//! about session state from a refusal; only on success does control reach the
//! wrapped handler.
use vstd::prelude::*;

use crate::cache::{AccessTokenCache, CacheEntryView, ACCESS_CACHE_TTL_SECS};
use crate::codec::{spec_verify_access, TokenCodec, MAX_ISSUE_TIME};
use crate::codec::lemma_access_issue_verify_round_trip;
use crate::service::{spec_login, spec_refresh, LoginDataView};
use crate::store::{spec_snapshot_of, spec_user_by_id, user_query_wf, UserQueryView};
use crate::types::{AccessToken, AccessTokenView};

verus! {

/// The one rejection the verifier ever produces: it does not say why.
#[derive(Clone, Copy, PartialEq, Eq, Structural, Debug)]
pub struct UnauthorizedError;

/// What the shared identity check returns: the identity embedded in the
/// cached access token when the slot is live and the token verifies, and the
/// single rejection value in every other case.
pub open spec fn spec_verify_identity(
    cache: Option<CacheEntryView>,
    secret: Seq<u8>,
    now: i64,
) -> Result<AccessTokenView, UnauthorizedError> {
    match cache {
        None => Err(UnauthorizedError),
        Some(e) => {
            if now >= e.expires_at {
                Err(UnauthorizedError)
            } else {
                match spec_verify_access(e.token, secret, now) {
                    Ok(claims) => Ok(claims.token),
                    Err(_) => Err(UnauthorizedError),
                }
            }
        },
    }
}

/// The shared identity check both call sites delegate to. It consults only
/// the cache slot and the codec — never the relational store.
pub fn verify_identity(cache: &AccessTokenCache, codec: &TokenCodec, now: i64) -> (r: Result<
    AccessToken,
    UnauthorizedError,
>)
    ensures
        r matches Ok(u) ==> spec_verify_identity(cache@, codec@, now) == Ok::<
            AccessTokenView,
            UnauthorizedError,
        >(u@),
        r is Err ==> spec_verify_identity(cache@, codec@, now) == Err::<
            AccessTokenView,
            UnauthorizedError,
        >(UnauthorizedError),
{
    let token = match cache.get(now) {
        Ok(t) => t,
        Err(_) => {
            return Err(UnauthorizedError);
        },
    };
    match codec.decode_access_token(&token, now) {
        Ok(claims) => Ok(claims.token),
        Err(_) => Err(UnauthorizedError),
    }
}

/// Factory for the REST-side gate, mirroring how the middleware is installed
/// on a route scope.
pub struct AccessTokenMW;

/// The REST-side gate around protected routes.
pub struct AccessTokenMiddleware {}

impl AccessTokenMW {
    /// Makes the guard that wraps protected routes.
    pub fn new_transform(&self) -> (r: AccessTokenMiddleware) {
        AccessTokenMiddleware {  }
    }
}

impl AccessTokenMiddleware {
    /// Gate decision for one inbound request: the identity to attach to the
    /// request context, or the uniform rejection that short-circuits before
    /// the protected handler runs.
    pub fn call(&self, cache: &AccessTokenCache, codec: &TokenCodec, now: i64) -> (r: Result<
        AccessToken,
        UnauthorizedError,
    >)
        ensures
            r matches Ok(u) ==> spec_verify_identity(cache@, codec@, now) == Ok::<
                AccessTokenView,
                UnauthorizedError,
            >(u@),
            r is Err ==> spec_verify_identity(cache@, codec@, now) == Err::<
                AccessTokenView,
                UnauthorizedError,
            >(UnauthorizedError),
    {
        verify_identity(cache, codec, now)
    }
}

/// The RPC-side interceptor: the same contract as the REST gate, against the
/// same cache.
pub struct AuthMiddleware {}

impl AuthMiddleware {
    /// Builds the interceptor.
    pub fn new() -> (r: AuthMiddleware) {
        AuthMiddleware {  }
    }

    /// Gate decision for one inbound call; identical to the REST-side check.
    pub fn auth_check(&self, cache: &AccessTokenCache, codec: &TokenCodec, now: i64) -> (r: Result<
        AccessToken,
        UnauthorizedError,
    >)
        ensures
            r matches Ok(u) ==> spec_verify_identity(cache@, codec@, now) == Ok::<
                AccessTokenView,
                UnauthorizedError,
            >(u@),
            r is Err ==> spec_verify_identity(cache@, codec@, now) == Err::<
                AccessTokenView,
                UnauthorizedError,
            >(UnauthorizedError),
    {
        verify_identity(cache, codec, now)
    }
}

/// A header value that can be read as token text: visible ASCII only.
pub open spec fn is_header_text(s: Seq<u8>) -> bool {
    forall|i: int| 0 <= i < s.len() ==> 32 <= #[trigger] s[i] <= 126
}

/// Factory for the refresh-token header gate.
pub struct RefreshTokenMW;

/// The guard in front of the refresh endpoint: it reads the refresh-token
/// header and hands it on unchanged; the endpoint does the verification.
pub struct RefreshTokenMiddleware {}

impl RefreshTokenMW {
    /// Makes the guard in front of the refresh endpoint.
    pub fn new_transform(&self) -> (r: RefreshTokenMiddleware) {
        RefreshTokenMiddleware {  }
    }
}

impl RefreshTokenMiddleware {
    /// Reads the refresh-token header for the endpoint, unchanged; a
    /// missing or unreadable header is the uniform rejection.
    pub fn call(&self, header: Option<&Vec<u8>>) -> (r: Result<Vec<u8>, UnauthorizedError>)
        ensures
            r matches Ok(t) ==> (header matches Some(h) && t@ == h@ && is_header_text(h@)),
            r is Err ==> (header is None || (header matches Some(h) && !is_header_text(h@))),
    {
        let h = match header {
            Some(h) => h,
            None => {
                return Err(UnauthorizedError);
            },
        };
        let mut i: usize = 0;
        while i < h.len()
            invariant
                0 <= i <= h@.len(),
                header == Some(h),
                forall|k: int| 0 <= k < i ==> 32 <= #[trigger] h@[k] <= 126,
            decreases h@.len() - i,
        {
            let b = h[i];
            if b < 32 || b > 126 {
                proof {
                    assert(!(32 <= h@[i as int] <= 126));
                }
                return Err(UnauthorizedError);
            }
            i += 1;
        }
        Ok(h.clone())
    }
}

/// What a protected handler does with the identity that the guard attached
/// to the request context: read it without re-verifying; a request that
/// carries no attached identity gets the uniform rejection and never reaches
/// the handler's body.
pub fn user_validate(attached: Option<&AccessToken>) -> (r: Result<AccessToken, UnauthorizedError>)
    ensures
        r matches Ok(u) ==> (attached matches Some(a) && u@ == a@),
        r is Err ==> attached is None,
{
    match attached {
        Some(token) => Ok(token.clone()),
        None => Err(UnauthorizedError),
    }
}

/// After a successful refresh the slot holds the newly issued access token —
/// the overwrite is observable — and the identity check against the slot
/// resolves to the owner's current snapshot, at the refresh instant itself.
pub proof fn lemma_refresh_rotates_verified_identity(
    db: UserQueryView,
    cache: Option<CacheEntryView>,
    token: Seq<u8>,
    secret: Seq<u8>,
    now: i64,
)
    requires
        user_query_wf(db),
        0 <= now <= MAX_ISSUE_TIME,
    ensures
        ({
            let (cache2, res) = spec_refresh(db, cache, token, secret, now);
            res matches Ok(t) ==> {
                &&& cache2 == Some(
                    CacheEntryView { token: t, expires_at: (now + ACCESS_CACHE_TTL_SECS) as i64 },
                )
                &&& ((cache matches Some(e0) && e0.token != t) ==> cache2 != cache)
                &&& (crate::codec::spec_verify_refresh(token, secret, now) matches Ok(claims) && (
                spec_user_by_id(db.users, claims.token.id) matches Some(row)
                    && spec_verify_identity(cache2, secret, now) == Ok::<
                    AccessTokenView,
                    UnauthorizedError,
                >(spec_snapshot_of(row))))
            }
        }),
{
    let (cache2, res) = spec_refresh(db, cache, token, secret, now);
    if res is Ok {
        let claims = crate::codec::spec_verify_refresh(token, secret, now)->Ok_0;
        let row = spec_user_by_id(db.users, claims.token.id)->Some_0;
        lemma_access_issue_verify_round_trip(spec_snapshot_of(row), secret, now, now);
    }
}

/// Single-slot overwrite law: after two logins in succession the slot holds
/// only the second login's access token, and the identity check resolves to
/// the second user — never the first when the two users differ.
pub proof fn lemma_single_slot_overwrite(
    db0: UserQueryView,
    cache0: Option<CacheEntryView>,
    d1: LoginDataView,
    d2: LoginDataView,
    secret: Seq<u8>,
    t1: i64,
    t2: i64,
)
    requires
        user_query_wf(db0),
        0 <= t1 <= MAX_ISSUE_TIME,
        0 <= t2 <= MAX_ISSUE_TIME,
    ensures
        ({
            let (db1, c1, r1) = spec_login(db0, cache0, d1, secret, t1);
            let (db2, c2, r2) = spec_login(db1, c1, d2, secret, t2);
            r1 matches Ok(p1) ==> r2 matches Ok(p2) ==> {
                &&& c2 == Some(
                    CacheEntryView {
                        token: p2.access_token,
                        expires_at: (t2 + ACCESS_CACHE_TTL_SECS) as i64,
                    },
                )
                &&& (spec_verify_identity(c2, secret, t2) matches Ok(ident) && ident.id == p2.id
                    && (p1.id != p2.id ==> ident.id != p1.id))
            }
        }),
{
    let (db1, c1, r1) = spec_login(db0, cache0, d1, secret, t1);
    let (db2, c2, r2) = spec_login(db1, c1, d2, secret, t2);
    assert(db1.users == db0.users);
    if r1 is Ok && r2 is Ok {
        let row2 = crate::store::spec_login_query(db1.users, d2.email, d2.username)->Ok_0;
        lemma_access_issue_verify_round_trip(spec_snapshot_of(row2), secret, t2, t2);
    }
}

} // verus!
