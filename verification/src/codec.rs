//! The token codec: issues and verifies signed, expiring tokens. A token is
//! three dot-separated parts: a fixed algorithm header, the hexadecimal
//! expansion of the payload layout, and the HMAC-SHA256 tag of everything
//! before the second dot. Verification checks shape, then signature, then
//! expiry, in that order.
use vstd::prelude::*;

use crate::byteseq::{
    bytes_eq, dot_byte, dot_free, find_first_dot, hex_decode, hex_encode, is_hex_seq,
    lemma_first_dot_of_join, lemma_hex_encode_wf, lemma_hex_round_trip, push_bytes,
    spec_first_dot, spec_hex_decode, spec_hex_encode,
};
use crate::errors::{AuthError, TokenError};
use crate::types::{
    access_token_wf, AccessToken, AccessTokenView, ClaimsView, RefreshToken, RefreshTokenView,
    TokenClaims,
};
use crate::wire::{
    decode_access, decode_refresh, encode_access, encode_refresh, lemma_access_round_trip,
    lemma_refresh_round_trip, spec_decode_access, spec_decode_refresh, spec_encode_access,
    spec_encode_refresh,
};
use vstd::slice::{slice_subrange, slice_to_vec};

verus! {

/// Access tokens live twenty minutes.
pub const ACCESS_TOKEN_TTL_SECS: i64 = 1200;

/// Refresh tokens live seven days.
pub const REFRESH_TOKEN_TTL_SECS: i64 = 604800;

/// Latest issuance second for which both expiry times still fit in the wire
/// format.
pub const MAX_ISSUE_TIME: i64 = i64::MAX - REFRESH_TOKEN_TTL_SECS;

/// The HMAC-SHA256 tag, base64url encoded, that signing produces for a secret
/// and message. A pure function of its two arguments; its value is stated
/// nowhere, so every proof treats two signatures as equal exactly when secret
/// and message agree.
pub uninterp spec fn hs256_sig_of(secret: Seq<u8>, message: Seq<u8>) -> Seq<u8>;

/// Relies on `jsonwebtoken::crypto::sign` with `Algorithm::HS256`: it
/// base64url-encodes the HMAC-SHA256 tag of the message under the secret, a
/// deterministic function of secret and message alone, and its HMAC arm
/// returns `Ok` on every input.
#[verifier::external_body]
fn hs256_sign(secret: &Vec<u8>, message: &Vec<u8>) -> (sig: Vec<u8>)
    ensures
        sig@ == hs256_sig_of(secret@, message@),
{
    let key = jsonwebtoken::EncodingKey::from_secret(secret.as_slice());
    jsonwebtoken::crypto::sign(message.as_slice(), &key, jsonwebtoken::Algorithm::HS256)
        .expect("HMAC signing does not fail")
        .into_bytes()
}

/// The fixed header part naming the signing algorithm.
pub open spec fn header_view() -> Seq<u8> {
    seq![72u8, 83u8, 50u8, 53u8, 54u8]
}

/// The header contains no part separator.
pub proof fn lemma_header_dot_free()
    ensures
        dot_free(header_view()),
        header_view().len() == 5,
{
    let h = header_view();
    assert forall|i: int| 0 <= i < h.len() implies #[trigger] h[i] != dot_byte() by {
        assert(h[0] == 72u8 && h[1] == 83u8 && h[2] == 50u8 && h[3] == 53u8 && h[4] == 54u8);
    }
}

/// Claims an access token issued at `now` carries.
pub open spec fn spec_access_claims(data: AccessTokenView, now: i64) -> ClaimsView<
    AccessTokenView,
> {
    ClaimsView { iat: now, exp: (now + ACCESS_TOKEN_TTL_SECS) as i64, token: data }
}

/// Claims a refresh token issued at `now` carries.
pub open spec fn spec_refresh_claims(data: RefreshTokenView, now: i64) -> ClaimsView<
    RefreshTokenView,
> {
    ClaimsView { iat: now, exp: (now + REFRESH_TOKEN_TTL_SECS) as i64, token: data }
}

/// The signed portion of an access token: header, separator, payload.
pub open spec fn spec_access_message(data: AccessTokenView, now: i64) -> Seq<u8> {
    header_view() + seq![dot_byte()] + spec_hex_encode(
        spec_encode_access(spec_access_claims(data, now)),
    )
}

/// The signed portion of a refresh token.
pub open spec fn spec_refresh_message(data: RefreshTokenView, now: i64) -> Seq<u8> {
    header_view() + seq![dot_byte()] + spec_hex_encode(
        spec_encode_refresh(spec_refresh_claims(data, now)),
    )
}

/// The complete access token issued for `data` at `now` under `secret`.
pub open spec fn spec_issue_access(data: AccessTokenView, now: i64, secret: Seq<u8>) -> Seq<u8> {
    spec_access_message(data, now) + seq![dot_byte()] + hs256_sig_of(
        secret,
        spec_access_message(data, now),
    )
}

/// The complete refresh token issued for `data` at `now` under `secret`.
pub open spec fn spec_issue_refresh(data: RefreshTokenView, now: i64, secret: Seq<u8>) -> Seq<u8> {
    spec_refresh_message(data, now) + seq![dot_byte()] + hs256_sig_of(
        secret,
        spec_refresh_message(data, now),
    )
}

/// Structural split of a token into header, payload part, signed message and
/// signature, at the first two separators. `None` when there are not two.
pub open spec fn spec_split_token(t: Seq<u8>) -> Option<(Seq<u8>, Seq<u8>, Seq<u8>, Seq<u8>)> {
    let i = spec_first_dot(t);
    if i >= t.len() {
        None
    } else {
        let rest = t.subrange(i + 1, t.len() as int);
        let j = spec_first_dot(rest);
        if j >= rest.len() {
            None
        } else {
            Some(
                (
                    t.subrange(0, i),
                    rest.subrange(0, j),
                    t.subrange(0, i + 1 + j),
                    rest.subrange(j + 1, rest.len() as int),
                ),
            )
        }
    }
}

/// What verifying an access token against `secret` at time `now` returns:
/// shape errors are `Malformed`, then the signature is compared, then expiry.
pub open spec fn spec_verify_access(t: Seq<u8>, secret: Seq<u8>, now: i64) -> Result<
    ClaimsView<AccessTokenView>,
    TokenError,
> {
    match spec_split_token(t) {
        None => Err(TokenError::Malformed),
        Some((header, payload_hex, message, sig)) => {
            if header != header_view() {
                Err(TokenError::Malformed)
            } else if sig != hs256_sig_of(secret, message) {
                Err(TokenError::InvalidSignature)
            } else if !is_hex_seq(payload_hex) {
                Err(TokenError::Malformed)
            } else {
                match spec_decode_access(spec_hex_decode(payload_hex)) {
                    None => Err(TokenError::Malformed),
                    Some(c) => if now >= c.exp {
                        Err(TokenError::Expired)
                    } else {
                        Ok(c)
                    },
                }
            }
        },
    }
}

/// What verifying a refresh token against `secret` at time `now` returns.
pub open spec fn spec_verify_refresh(t: Seq<u8>, secret: Seq<u8>, now: i64) -> Result<
    ClaimsView<RefreshTokenView>,
    TokenError,
> {
    match spec_split_token(t) {
        None => Err(TokenError::Malformed),
        Some((header, payload_hex, message, sig)) => {
            if header != header_view() {
                Err(TokenError::Malformed)
            } else if sig != hs256_sig_of(secret, message) {
                Err(TokenError::InvalidSignature)
            } else if !is_hex_seq(payload_hex) {
                Err(TokenError::Malformed)
            } else {
                match spec_decode_refresh(spec_hex_decode(payload_hex)) {
                    None => Err(TokenError::Malformed),
                    Some(c) => if now >= c.exp {
                        Err(TokenError::Expired)
                    } else {
                        Ok(c)
                    },
                }
            }
        },
    }
}

/// Encodes and signs token payloads with one shared secret, and verifies and
/// decodes what it or a peer holding the same secret issued.
pub struct TokenCodec {
    secret: Vec<u8>,
}

impl View for TokenCodec {
    type V = Seq<u8>;

    closed spec fn view(&self) -> Seq<u8> {
        self.secret@
    }
}

impl TokenCodec {
    /// Accepts the shared signing secret, once, at startup; an empty secret
    /// is the fatal startup condition.
    pub fn new(secret: Vec<u8>) -> (r: Result<TokenCodec, AuthError>)
        ensures
            r matches Ok(c) ==> c@ == secret@ && secret@.len() > 0,
            r matches Err(e) ==> e == AuthError::InternalSigningError && secret@.len() == 0,
    {
        if secret.len() == 0 {
            Err(AuthError::InternalSigningError)
        } else {
            Ok(TokenCodec { secret })
        }
    }

    /// The fixed header part as bytes.
    fn header_part(&self) -> (r: Vec<u8>)
        ensures
            r@ == header_view(),
    {
        let mut h: Vec<u8> = Vec::new();
        h.push(72u8);
        h.push(83u8);
        h.push(50u8);
        h.push(53u8);
        h.push(54u8);
        proof {
            assert(h@ =~= header_view());
        }
        h
    }

    /// Issues an access token carrying the identity snapshot, valid from
    /// `now` for the fixed access validity window.
    pub fn generate_access_token(&self, data: AccessToken, now: i64) -> (r: Vec<u8>)
        requires
            0 <= now <= MAX_ISSUE_TIME,
        ensures
            r@ == spec_issue_access(data@, now, self@),
    {
        let _username_len: u64 = data.username.len() as u64;
        let _email_len: u64 = data.email.len() as u64;
        assert(access_token_wf(data@));
        let claims = TokenClaims { iat: now, exp: now + ACCESS_TOKEN_TTL_SECS, token: data };
        let payload = encode_access(&claims);
        let payload_hex = hex_encode(&payload);
        let mut message = self.header_part();
        message.push(46u8);
        push_bytes(&mut message, payload_hex.as_slice());
        proof {
            assert(message@ =~= spec_access_message(claims.token@, now));
        }
        let sig = hs256_sign(&self.secret, &message);
        let mut out = message;
        out.push(46u8);
        push_bytes(&mut out, sig.as_slice());
        proof {
            assert(out@ =~= spec_issue_access(claims.token@, now, self@));
        }
        out
    }

    /// Issues a refresh token carrying the owner reference, valid from `now`
    /// for the fixed refresh validity window.
    pub fn generate_refresh_token(&self, data: RefreshToken, now: i64) -> (r: Vec<u8>)
        requires
            0 <= now <= MAX_ISSUE_TIME,
        ensures
            r@ == spec_issue_refresh(data@, now, self@),
    {
        let claims = TokenClaims { iat: now, exp: now + REFRESH_TOKEN_TTL_SECS, token: data };
        let payload = encode_refresh(&claims);
        let payload_hex = hex_encode(&payload);
        let mut message = self.header_part();
        message.push(46u8);
        push_bytes(&mut message, payload_hex.as_slice());
        proof {
            assert(message@ =~= spec_refresh_message(claims.token@, now));
        }
        let sig = hs256_sign(&self.secret, &message);
        let mut out = message;
        out.push(46u8);
        push_bytes(&mut out, sig.as_slice());
        proof {
            assert(out@ =~= spec_issue_refresh(claims.token@, now, self@));
        }
        out
    }

    /// Splits a token at its first two separators; `None` when it does not
    /// have the three-part shape.
    fn split_token(&self, token: &Vec<u8>) -> (r: Option<(Vec<u8>, Vec<u8>, Vec<u8>, Vec<u8>)>)
        ensures
            (r is Some) == (spec_split_token(token@) is Some),
            r matches Some(parts) ==> spec_split_token(token@) matches Some(sparts)
                && parts.0@ == sparts.0 && parts.1@ == sparts.1 && parts.2@ == sparts.2
                && parts.3@ == sparts.3,
    {
        let n = token.len();
        let i = find_first_dot(token.as_slice());
        if i >= n {
            return None;
        }
        let rest = slice_subrange(token.as_slice(), i + 1, n);
        let j = find_first_dot(rest);
        if j >= rest.len() {
            return None;
        }
        let header = slice_to_vec(slice_subrange(token.as_slice(), 0, i));
        let payload_hex = slice_to_vec(slice_subrange(rest, 0, j));
        let message = slice_to_vec(slice_subrange(token.as_slice(), 0, i + 1 + j));
        let sig = slice_to_vec(slice_subrange(rest, j + 1, rest.len()));
        Some((header, payload_hex, message, sig))
    }

    /// Verifies and decodes an access token: shape, then signature, then
    /// expiry.
    pub fn decode_access_token(&self, token: &Vec<u8>, now: i64) -> (r: Result<
        TokenClaims<AccessToken>,
        TokenError,
    >)
        ensures
            r matches Ok(c) ==> spec_verify_access(token@, self@, now) == Ok::<
                ClaimsView<AccessTokenView>,
                TokenError,
            >(c@),
            r matches Err(e) ==> spec_verify_access(token@, self@, now) == Err::<
                ClaimsView<AccessTokenView>,
                TokenError,
            >(e),
    {
        let parts = match self.split_token(token) {
            None => {
                return Err(TokenError::Malformed);
            },
            Some(parts) => parts,
        };
        let (header, payload_hex, message, sig) = parts;
        let expected_header = self.header_part();
        if !bytes_eq(&header, &expected_header) {
            return Err(TokenError::Malformed);
        }
        let expected_sig = hs256_sign(&self.secret, &message);
        if !bytes_eq(&sig, &expected_sig) {
            return Err(TokenError::InvalidSignature);
        }
        let payload = match hex_decode(payload_hex.as_slice()) {
            None => {
                return Err(TokenError::Malformed);
            },
            Some(p) => p,
        };
        match decode_access(payload.as_slice()) {
            None => Err(TokenError::Malformed),
            Some(c) => {
                if now >= c.exp {
                    Err(TokenError::Expired)
                } else {
                    Ok(c)
                }
            },
        }
    }

    /// Verifies and decodes a refresh token: shape, then signature, then
    /// expiry.
    pub fn decode_refresh_token(&self, token: &Vec<u8>, now: i64) -> (r: Result<
        TokenClaims<RefreshToken>,
        TokenError,
    >)
        ensures
            r matches Ok(c) ==> spec_verify_refresh(token@, self@, now) == Ok::<
                ClaimsView<RefreshTokenView>,
                TokenError,
            >(c@),
            r matches Err(e) ==> spec_verify_refresh(token@, self@, now) == Err::<
                ClaimsView<RefreshTokenView>,
                TokenError,
            >(e),
    {
        let parts = match self.split_token(token) {
            None => {
                return Err(TokenError::Malformed);
            },
            Some(parts) => parts,
        };
        let (header, payload_hex, message, sig) = parts;
        let expected_header = self.header_part();
        if !bytes_eq(&header, &expected_header) {
            return Err(TokenError::Malformed);
        }
        let expected_sig = hs256_sign(&self.secret, &message);
        if !bytes_eq(&sig, &expected_sig) {
            return Err(TokenError::InvalidSignature);
        }
        let payload = match hex_decode(payload_hex.as_slice()) {
            None => {
                return Err(TokenError::Malformed);
            },
            Some(p) => p,
        };
        match decode_refresh(payload.as_slice()) {
            None => Err(TokenError::Malformed),
            Some(c) => {
                if now >= c.exp {
                    Err(TokenError::Expired)
                } else {
                    Ok(c)
                }
            },
        }
    }
}

/// An issued access token splits back into exactly the parts it was built
/// from: the fixed header, the payload expansion, the signed message, and the
/// signature.
proof fn lemma_split_of_issued_access(data: AccessTokenView, now: i64, secret: Seq<u8>)
    ensures
        ({
            let ph = spec_hex_encode(spec_encode_access(spec_access_claims(data, now)));
            let msg = spec_access_message(data, now);
            let sig = hs256_sig_of(secret, msg);
            spec_split_token(spec_issue_access(data, now, secret)) == Some(
                (header_view(), ph, msg, sig),
            )
        }),
{
    let claims = spec_access_claims(data, now);
    let ph = spec_hex_encode(spec_encode_access(claims));
    let msg = spec_access_message(data, now);
    let sig = hs256_sig_of(secret, msg);
    let t = spec_issue_access(data, now, secret);
    lemma_header_dot_free();
    lemma_hex_encode_wf(spec_encode_access(claims));
    let tail = ph + seq![dot_byte()] + sig;
    assert(t =~= header_view() + seq![dot_byte()] + tail);
    lemma_first_dot_of_join(header_view(), tail);
    assert(spec_first_dot(t) == 5);
    let rest = t.subrange(6, t.len() as int);
    assert(rest =~= tail);
    lemma_first_dot_of_join(ph, sig);
    assert(spec_first_dot(rest) == ph.len());
    let j = ph.len() as int;
    assert(j < rest.len());
    assert(t.subrange(0, 5) =~= header_view());
    assert(rest.subrange(0, j) =~= ph);
    assert(t.subrange(0, 5 + 1 + j) =~= msg);
    assert(rest.subrange(j + 1, rest.len() as int) =~= sig);
}

/// The refresh-token counterpart of the split lemma above.
proof fn lemma_split_of_issued_refresh(data: RefreshTokenView, now: i64, secret: Seq<u8>)
    ensures
        ({
            let ph = spec_hex_encode(spec_encode_refresh(spec_refresh_claims(data, now)));
            let msg = spec_refresh_message(data, now);
            let sig = hs256_sig_of(secret, msg);
            spec_split_token(spec_issue_refresh(data, now, secret)) == Some(
                (header_view(), ph, msg, sig),
            )
        }),
{
    let claims = spec_refresh_claims(data, now);
    let ph = spec_hex_encode(spec_encode_refresh(claims));
    let msg = spec_refresh_message(data, now);
    let sig = hs256_sig_of(secret, msg);
    let t = spec_issue_refresh(data, now, secret);
    lemma_header_dot_free();
    lemma_hex_encode_wf(spec_encode_refresh(claims));
    let tail = ph + seq![dot_byte()] + sig;
    assert(t =~= header_view() + seq![dot_byte()] + tail);
    lemma_first_dot_of_join(header_view(), tail);
    assert(spec_first_dot(t) == 5);
    let rest = t.subrange(6, t.len() as int);
    assert(rest =~= tail);
    lemma_first_dot_of_join(ph, sig);
    assert(spec_first_dot(rest) == ph.len());
    let j = ph.len() as int;
    assert(j < rest.len());
    assert(t.subrange(0, 5) =~= header_view());
    assert(rest.subrange(0, j) =~= ph);
    assert(t.subrange(0, 5 + 1 + j) =~= msg);
    assert(rest.subrange(j + 1, rest.len() as int) =~= sig);
}

/// Verifying an access token under the secret that issued it yields the
/// issued claims while the validity window is open and `Expired` afterwards —
/// never any other outcome.
pub proof fn lemma_verify_of_issued_access(
    data: AccessTokenView,
    secret: Seq<u8>,
    now_issue: i64,
    now_check: i64,
)
    requires
        access_token_wf(data),
        0 <= now_issue <= MAX_ISSUE_TIME,
    ensures
        spec_verify_access(spec_issue_access(data, now_issue, secret), secret, now_check) == (
        if now_check >= now_issue + ACCESS_TOKEN_TTL_SECS {
            Err::<ClaimsView<AccessTokenView>, TokenError>(TokenError::Expired)
        } else {
            Ok::<ClaimsView<AccessTokenView>, TokenError>(spec_access_claims(data, now_issue))
        }),
{
    let claims = spec_access_claims(data, now_issue);
    lemma_split_of_issued_access(data, now_issue, secret);
    lemma_hex_encode_wf(spec_encode_access(claims));
    lemma_hex_round_trip(spec_encode_access(claims));
    lemma_access_round_trip(claims);
}

/// The refresh-token counterpart: the issued claims while the window is open,
/// `Expired` afterwards, nothing else.
pub proof fn lemma_verify_of_issued_refresh(
    data: RefreshTokenView,
    secret: Seq<u8>,
    now_issue: i64,
    now_check: i64,
)
    requires
        0 <= now_issue <= MAX_ISSUE_TIME,
    ensures
        spec_verify_refresh(spec_issue_refresh(data, now_issue, secret), secret, now_check) == (
        if now_check >= now_issue + REFRESH_TOKEN_TTL_SECS {
            Err::<ClaimsView<RefreshTokenView>, TokenError>(TokenError::Expired)
        } else {
            Ok::<ClaimsView<RefreshTokenView>, TokenError>(spec_refresh_claims(data, now_issue))
        }),
{
    let claims = spec_refresh_claims(data, now_issue);
    lemma_split_of_issued_refresh(data, now_issue, secret);
    lemma_hex_encode_wf(spec_encode_refresh(claims));
    lemma_hex_round_trip(spec_encode_refresh(claims));
    lemma_refresh_round_trip(claims);
}

/// Round-trip law: a token verified under its issuing secret, at any instant
/// before its expiry, yields the original payload unchanged.
pub proof fn lemma_access_issue_verify_round_trip(
    data: AccessTokenView,
    secret: Seq<u8>,
    now_issue: i64,
    now_check: i64,
)
    requires
        access_token_wf(data),
        0 <= now_issue <= MAX_ISSUE_TIME,
        now_check < now_issue + ACCESS_TOKEN_TTL_SECS,
    ensures
        spec_verify_access(spec_issue_access(data, now_issue, secret), secret, now_check) == Ok::<
            ClaimsView<AccessTokenView>,
            TokenError,
        >(spec_access_claims(data, now_issue)),
{
    lemma_verify_of_issued_access(data, secret, now_issue, now_check);
}

/// Round-trip law for refresh tokens.
pub proof fn lemma_refresh_issue_verify_round_trip(
    data: RefreshTokenView,
    secret: Seq<u8>,
    now_issue: i64,
    now_check: i64,
)
    requires
        0 <= now_issue <= MAX_ISSUE_TIME,
        now_check < now_issue + REFRESH_TOKEN_TTL_SECS,
    ensures
        spec_verify_refresh(spec_issue_refresh(data, now_issue, secret), secret, now_check) == Ok::<
            ClaimsView<RefreshTokenView>,
            TokenError,
        >(spec_refresh_claims(data, now_issue)),
{
    lemma_verify_of_issued_refresh(data, secret, now_issue, now_check);
}

/// Expiry law: once the validity window has passed, verification under the
/// issuing secret rejects with `Expired`, even though the signature matches.
pub proof fn lemma_expired_token_rejected(
    data: AccessTokenView,
    secret: Seq<u8>,
    now_issue: i64,
    now_check: i64,
)
    requires
        access_token_wf(data),
        0 <= now_issue <= MAX_ISSUE_TIME,
        now_check >= now_issue + ACCESS_TOKEN_TTL_SECS,
    ensures
        spec_verify_access(spec_issue_access(data, now_issue, secret), secret, now_check) == Err::<
            ClaimsView<AccessTokenView>,
            TokenError,
        >(TokenError::Expired),
{
    lemma_verify_of_issued_access(data, secret, now_issue, now_check);
}

/// Signature-precedence law: a token issued under one secret and verified
/// under another is rejected with `InvalidSignature` — never `Expired`, at any
/// checking instant — whenever the two secrets actually tag the message
/// differently (HMAC collisions being the one escape).
pub proof fn lemma_wrong_secret_rejected(
    data: AccessTokenView,
    sign_secret: Seq<u8>,
    verify_secret: Seq<u8>,
    now_issue: i64,
    now_check: i64,
)
    ensures
        ({
            let msg = spec_access_message(data, now_issue);
            hs256_sig_of(verify_secret, msg) != hs256_sig_of(sign_secret, msg)
                ==> spec_verify_access(
                spec_issue_access(data, now_issue, sign_secret),
                verify_secret,
                now_check,
            ) == Err::<ClaimsView<AccessTokenView>, TokenError>(TokenError::InvalidSignature)
        }),
{
    lemma_split_of_issued_access(data, now_issue, sign_secret);
}

} // verus!
