//! Data model of the token subsystem: identity snapshots carried by access
//! tokens, owner references carried by refresh tokens, and the signed claims
//! envelope around either. Each executable type has a mathematical view used
//! by every contract.
use vstd::prelude::*;

verus! {

/// Identity snapshot embedded in an access token: the canonical copy of the
/// user record lives outside this subsystem, tokens only carry this copy.
pub struct AccessToken {
    pub id: u128,
    pub username: Vec<u8>,
    pub email: Vec<u8>,
}

/// Mathematical view of an identity snapshot.
pub ghost struct AccessTokenView {
    pub id: u128,
    pub username: Seq<u8>,
    pub email: Seq<u8>,
}

/// Owner reference embedded in a refresh token.
pub struct RefreshToken {
    pub id: u128,
}

/// Mathematical view of an owner reference.
pub ghost struct RefreshTokenView {
    pub id: u128,
}

/// Signed claims envelope: issuance time, expiry time, and the embedded data.
/// A payload is valid only while `now < exp`.
pub struct TokenClaims<T> {
    pub iat: i64,
    pub exp: i64,
    pub token: T,
}

/// Mathematical view of a claims envelope.
pub ghost struct ClaimsView<V> {
    pub iat: i64,
    pub exp: i64,
    pub token: V,
}

impl View for AccessToken {
    type V = AccessTokenView;

    open spec fn view(&self) -> AccessTokenView {
        AccessTokenView { id: self.id, username: self.username@, email: self.email@ }
    }
}

impl View for RefreshToken {
    type V = RefreshTokenView;

    open spec fn view(&self) -> RefreshTokenView {
        RefreshTokenView { id: self.id }
    }
}

impl<T: View> View for TokenClaims<T> {
    type V = ClaimsView<T::V>;

    open spec fn view(&self) -> ClaimsView<T::V> {
        ClaimsView { iat: self.iat, exp: self.exp, token: self.token@ }
    }
}

impl Clone for AccessToken {
    fn clone(&self) -> (r: Self)
        ensures
            r@ == self@,
    {
        AccessToken { id: self.id, username: self.username.clone(), email: self.email.clone() }
    }
}

/// An identity snapshot whose text fields fit the wire format's length
/// prefixes. Every snapshot built from executable vectors satisfies this.
pub open spec fn access_token_wf(v: AccessTokenView) -> bool {
    v.username.len() <= 0xffff_ffff_ffff_ffffu64 && v.email.len() <= 0xffff_ffff_ffff_ffffu64
}

/// A claims envelope with timestamps in the representable range of the wire
/// format (nonnegative seconds since the epoch).
pub open spec fn claims_times_wf(iat: i64, exp: i64) -> bool {
    0 <= iat && 0 <= exp
}

} // verus!
