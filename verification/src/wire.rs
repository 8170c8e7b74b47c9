//! Wire format of token payloads: a fixed binary layout with a kind tag,
//! little-endian timestamps and identifier, and length-prefixed text fields.
//! Decoding accepts exactly the strings the encoder produces, which gives the
//! round-trip law below.
use vstd::prelude::*;

use crate::types::{
    access_token_wf, claims_times_wf, AccessToken, AccessTokenView, ClaimsView, RefreshToken,
    RefreshTokenView, TokenClaims,
};
use vstd::bytes::{
    lemma_auto_spec_u128_to_from_le_bytes, lemma_auto_spec_u64_to_from_le_bytes,
    spec_u128_from_le_bytes, spec_u128_to_le_bytes, spec_u64_from_le_bytes, spec_u64_to_le_bytes,
    u128_from_le_bytes, u128_to_le_bytes, u64_from_le_bytes, u64_to_le_bytes,
};
use vstd::slice::{slice_subrange, slice_to_vec};
use crate::byteseq::push_bytes;

verus! {

/// Kind tag of an access payload.
pub open spec fn access_tag() -> u8 {
    1
}

/// Kind tag of a refresh payload.
pub open spec fn refresh_tag() -> u8 {
    2
}

/// Binary layout of an access payload: tag, issuance and expiry seconds,
/// identifier, then the two length-prefixed text fields.
pub open spec fn spec_encode_access(c: ClaimsView<AccessTokenView>) -> Seq<u8> {
    seq![access_tag()] + spec_u64_to_le_bytes(c.iat as u64) + spec_u64_to_le_bytes(c.exp as u64)
        + spec_u128_to_le_bytes(c.token.id) + spec_u64_to_le_bytes(c.token.username.len() as u64)
        + c.token.username + spec_u64_to_le_bytes(c.token.email.len() as u64) + c.token.email
}

/// Binary layout of a refresh payload: tag, issuance and expiry seconds, and
/// the owner identifier; exactly 33 bytes.
pub open spec fn spec_encode_refresh(c: ClaimsView<RefreshTokenView>) -> Seq<u8> {
    seq![refresh_tag()] + spec_u64_to_le_bytes(c.iat as u64) + spec_u64_to_le_bytes(c.exp as u64)
        + spec_u128_to_le_bytes(c.token.id)
}

/// The payload, if any, that a byte string is the access layout of.
pub open spec fn spec_decode_access(b: Seq<u8>) -> Option<ClaimsView<AccessTokenView>> {
    if b.len() < 49 {
        None
    } else if b[0] != access_tag() {
        None
    } else {
        let iat_u = spec_u64_from_le_bytes(b.subrange(1, 9));
        let exp_u = spec_u64_from_le_bytes(b.subrange(9, 17));
        let id = spec_u128_from_le_bytes(b.subrange(17, 33));
        let ulen = spec_u64_from_le_bytes(b.subrange(33, 41)) as int;
        if iat_u > i64::MAX as u64 || exp_u > i64::MAX as u64 {
            None
        } else if b.len() < 49 + ulen {
            None
        } else {
            let username = b.subrange(41, 41 + ulen);
            let elen = spec_u64_from_le_bytes(b.subrange(41 + ulen, 49 + ulen)) as int;
            if b.len() != 49 + ulen + elen {
                None
            } else {
                Some(
                    ClaimsView {
                        iat: iat_u as i64,
                        exp: exp_u as i64,
                        token: AccessTokenView {
                            id,
                            username,
                            email: b.subrange(49 + ulen, b.len() as int),
                        },
                    },
                )
            }
        }
    }
}

/// The payload, if any, that a byte string is the refresh layout of.
pub open spec fn spec_decode_refresh(b: Seq<u8>) -> Option<ClaimsView<RefreshTokenView>> {
    if b.len() != 33 {
        None
    } else if b[0] != refresh_tag() {
        None
    } else {
        let iat_u = spec_u64_from_le_bytes(b.subrange(1, 9));
        let exp_u = spec_u64_from_le_bytes(b.subrange(9, 17));
        let id = spec_u128_from_le_bytes(b.subrange(17, 33));
        if iat_u > i64::MAX as u64 || exp_u > i64::MAX as u64 {
            None
        } else {
            Some(
                ClaimsView { iat: iat_u as i64, exp: exp_u as i64, token: RefreshTokenView { id } },
            )
        }
    }
}

/// Decoding inverts encoding for access payloads.
pub proof fn lemma_access_round_trip(c: ClaimsView<AccessTokenView>)
    requires
        access_token_wf(c.token),
        claims_times_wf(c.iat, c.exp),
    ensures
        spec_decode_access(spec_encode_access(c)) == Some(c),
{
    lemma_auto_spec_u64_to_from_le_bytes();
    lemma_auto_spec_u128_to_from_le_bytes();
    let b = spec_encode_access(c);
    let ulen = c.token.username.len() as int;
    let elen = c.token.email.len() as int;
    assert(b.len() == 49 + ulen + elen);
    assert(b[0] == access_tag());
    assert(b.subrange(1, 9) =~= spec_u64_to_le_bytes(c.iat as u64));
    assert(b.subrange(9, 17) =~= spec_u64_to_le_bytes(c.exp as u64));
    assert(b.subrange(17, 33) =~= spec_u128_to_le_bytes(c.token.id));
    assert(b.subrange(33, 41) =~= spec_u64_to_le_bytes(c.token.username.len() as u64));
    assert(b.subrange(41, 41 + ulen) =~= c.token.username);
    assert(b.subrange(41 + ulen, 49 + ulen) =~= spec_u64_to_le_bytes(c.token.email.len() as u64));
    assert(b.subrange(49 + ulen, b.len() as int) =~= c.token.email);
    assert((c.iat as u64) as i64 == c.iat);
    assert((c.exp as u64) as i64 == c.exp);
}

/// Decoding inverts encoding for refresh payloads.
pub proof fn lemma_refresh_round_trip(c: ClaimsView<RefreshTokenView>)
    requires
        claims_times_wf(c.iat, c.exp),
    ensures
        spec_decode_refresh(spec_encode_refresh(c)) == Some(c),
{
    lemma_auto_spec_u64_to_from_le_bytes();
    lemma_auto_spec_u128_to_from_le_bytes();
    let b = spec_encode_refresh(c);
    assert(b.len() == 33);
    assert(b[0] == refresh_tag());
    assert(b.subrange(1, 9) =~= spec_u64_to_le_bytes(c.iat as u64));
    assert(b.subrange(9, 17) =~= spec_u64_to_le_bytes(c.exp as u64));
    assert(b.subrange(17, 33) =~= spec_u128_to_le_bytes(c.token.id));
    assert((c.iat as u64) as i64 == c.iat);
    assert((c.exp as u64) as i64 == c.exp);
}

/// A refresh layout never decodes as an access payload: the kind tags differ.
pub proof fn lemma_kinds_disjoint(c: ClaimsView<RefreshTokenView>)
    ensures
        spec_decode_access(spec_encode_refresh(c)) is None,
{
}

/// Writes the access layout of a claims envelope.
pub fn encode_access(c: &TokenClaims<AccessToken>) -> (r: Vec<u8>)
    requires
        claims_times_wf(c.iat, c.exp),
    ensures
        r@ == spec_encode_access(c@),
{
    let mut out: Vec<u8> = Vec::new();
    out.push(1u8);
    let iat_bytes = u64_to_le_bytes(c.iat as u64);
    push_bytes(&mut out, iat_bytes.as_slice());
    let exp_bytes = u64_to_le_bytes(c.exp as u64);
    push_bytes(&mut out, exp_bytes.as_slice());
    let id_bytes = u128_to_le_bytes(c.token.id);
    push_bytes(&mut out, id_bytes.as_slice());
    let ulen_bytes = u64_to_le_bytes(c.token.username.len() as u64);
    push_bytes(&mut out, ulen_bytes.as_slice());
    push_bytes(&mut out, c.token.username.as_slice());
    let elen_bytes = u64_to_le_bytes(c.token.email.len() as u64);
    push_bytes(&mut out, elen_bytes.as_slice());
    push_bytes(&mut out, c.token.email.as_slice());
    proof {
        assert(out@ =~= spec_encode_access(c@));
    }
    out
}

/// Writes the refresh layout of a claims envelope.
pub fn encode_refresh(c: &TokenClaims<RefreshToken>) -> (r: Vec<u8>)
    requires
        claims_times_wf(c.iat, c.exp),
    ensures
        r@ == spec_encode_refresh(c@),
{
    let mut out: Vec<u8> = Vec::new();
    out.push(2u8);
    let iat_bytes = u64_to_le_bytes(c.iat as u64);
    push_bytes(&mut out, iat_bytes.as_slice());
    let exp_bytes = u64_to_le_bytes(c.exp as u64);
    push_bytes(&mut out, exp_bytes.as_slice());
    let id_bytes = u128_to_le_bytes(c.token.id);
    push_bytes(&mut out, id_bytes.as_slice());
    proof {
        assert(out@ =~= spec_encode_refresh(c@));
    }
    out
}

/// Reads an access payload back from its layout; rejects every byte string
/// the encoder cannot have produced.
pub fn decode_access(b: &[u8]) -> (r: Option<TokenClaims<AccessToken>>)
    ensures
        (r is Some) == (spec_decode_access(b@) is Some),
        r matches Some(c) ==> spec_decode_access(b@) == Some(c@),
{
    let n = b.len();
    if n < 49 {
        return None;
    }
    if b[0] != 1u8 {
        return None;
    }
    let iat_u = u64_from_le_bytes(slice_subrange(b, 1, 9));
    let exp_u = u64_from_le_bytes(slice_subrange(b, 9, 17));
    let id = u128_from_le_bytes(slice_subrange(b, 17, 33));
    let ulen = u64_from_le_bytes(slice_subrange(b, 33, 41));
    if iat_u > 0x7fff_ffff_ffff_ffffu64 || exp_u > 0x7fff_ffff_ffff_ffffu64 {
        return None;
    }
    if (ulen as u128) > (n as u128) - 49u128 {
        assert(b@.len() < 49 + spec_u64_from_le_bytes(b@.subrange(33, 41)) as int);
        return None;
    }
    let ulen_us = ulen as usize;
    let username = slice_to_vec(slice_subrange(b, 41, 41 + ulen_us));
    let elen = u64_from_le_bytes(slice_subrange(b, 41 + ulen_us, 49 + ulen_us));
    if (elen as u128) != (n as u128) - 49u128 - (ulen as u128) {
        return None;
    }
    let email = slice_to_vec(slice_subrange(b, 49 + ulen_us, n));
    Some(
        TokenClaims {
            iat: iat_u as i64,
            exp: exp_u as i64,
            token: AccessToken { id, username, email },
        },
    )
}

/// Reads a refresh payload back from its layout; rejects every byte string
/// the encoder cannot have produced.
pub fn decode_refresh(b: &[u8]) -> (r: Option<TokenClaims<RefreshToken>>)
    ensures
        (r is Some) == (spec_decode_refresh(b@) is Some),
        r matches Some(c) ==> spec_decode_refresh(b@) == Some(c@),
{
    let n = b.len();
    if n != 33 {
        return None;
    }
    if b[0] != 2u8 {
        return None;
    }
    let iat_u = u64_from_le_bytes(slice_subrange(b, 1, 9));
    let exp_u = u64_from_le_bytes(slice_subrange(b, 9, 17));
    let id = u128_from_le_bytes(slice_subrange(b, 17, 33));
    if iat_u > 0x7fff_ffff_ffff_ffffu64 || exp_u > 0x7fff_ffff_ffff_ffffu64 {
        return None;
    }
    Some(TokenClaims { iat: iat_u as i64, exp: exp_u as i64, token: RefreshToken { id } })
}

} // verus!
