use auth_core::cache::AccessTokenCache;
use auth_core::codec::TokenCodec;
use auth_core::errors::{AuthError, TokenError};
use auth_core::identity::{verify_identity, AccessTokenMW, AuthMiddleware};
use auth_core::service::{LoginData, UserServices};
use auth_core::store::{RegisterData, UserQuery};
use auth_core::types::AccessToken;

const NOW: i64 = 1_700_000_000;

fn codec_with(secret: &[u8]) -> TokenCodec {
    TokenCodec::new(secret.to_vec()).expect("non-empty secret")
}

fn register_user(db: &mut UserQuery, email: &str, username: &str, password: &str) -> u128 {
    let payload = UserServices::register(
        RegisterData {
            email: email.as_bytes().to_vec(),
            username: username.as_bytes().to_vec(),
            password: password.as_bytes().to_vec(),
        },
        db,
    )
    .expect("registration succeeds");
    payload.id
}

#[test]
fn empty_secret_is_fatal_at_startup() {
    match TokenCodec::new(Vec::new()) {
        Err(AuthError::InternalSigningError) => {}
        _ => panic!("an empty signing secret must prevent startup"),
    }
    assert!(TokenCodec::new(b"secret_key".to_vec()).is_ok());
}

#[test]
fn access_token_round_trips_immediately_after_issuance() {
    let codec = codec_with(b"secret_key");
    let data = AccessToken {
        id: 7,
        username: b"alice01".to_vec(),
        email: b"alice@example.com".to_vec(),
    };
    let token = codec.generate_access_token(data, NOW);
    let claims = codec.decode_access_token(&token, NOW).expect("fresh token verifies");
    assert_eq!(claims.iat, NOW);
    assert_eq!(claims.exp, NOW + 1200);
    assert_eq!(claims.token.id, 7);
    assert_eq!(claims.token.username, b"alice01".to_vec());
    assert_eq!(claims.token.email, b"alice@example.com".to_vec());
}

#[test]
fn refresh_token_round_trips_immediately_after_issuance() {
    let codec = codec_with(b"secret_key");
    let token = codec.generate_refresh_token(auth_core::types::RefreshToken { id: 9 }, NOW);
    let claims = codec.decode_refresh_token(&token, NOW).expect("fresh token verifies");
    assert_eq!(claims.iat, NOW);
    assert_eq!(claims.exp, NOW + 604800);
    assert_eq!(claims.token.id, 9);
}

#[test]
fn expired_access_token_is_rejected_as_expired() {
    let codec = codec_with(b"secret_key");
    let data = AccessToken {
        id: 7,
        username: b"alice01".to_vec(),
        email: b"alice@example.com".to_vec(),
    };
    let token = codec.generate_access_token(data, NOW);
    assert!(matches!(codec.decode_access_token(&token, NOW + 1200), Err(TokenError::Expired)));
    assert!(matches!(codec.decode_access_token(&token, NOW + 999_999), Err(TokenError::Expired)));
    assert!(codec.decode_access_token(&token, NOW + 1199).is_ok());
}

#[test]
fn wrong_secret_is_invalid_signature_never_expired() {
    let issuing = codec_with(b"secret_key");
    let verifying = codec_with(b"another_secret");
    let data = AccessToken {
        id: 7,
        username: b"alice01".to_vec(),
        email: b"alice@example.com".to_vec(),
    };
    let token = issuing.generate_access_token(data, NOW);
    // Fresh and long past expiry alike: the signature check comes first.
    assert!(matches!(verifying.decode_access_token(&token, NOW), Err(TokenError::InvalidSignature)));
    assert!(matches!(
        verifying.decode_access_token(&token, NOW + 999_999),
        Err(TokenError::InvalidSignature)
    ));
}

#[test]
fn tampered_or_garbage_tokens_are_rejected() {
    let codec = codec_with(b"secret_key");
    let data = AccessToken {
        id: 7,
        username: b"alice01".to_vec(),
        email: b"alice@example.com".to_vec(),
    };
    let mut token = codec.generate_access_token(data, NOW);
    // Flip one payload byte: the signature no longer matches.
    token[8] = if token[8] == b'0' { b'1' } else { b'0' };
    assert!(matches!(codec.decode_access_token(&token, NOW), Err(TokenError::InvalidSignature)));
    assert!(matches!(
        codec.decode_access_token(&b"no dots at all".to_vec(), NOW),
        Err(TokenError::Malformed)
    ));
    assert!(matches!(codec.decode_access_token(&b"a.b.c".to_vec(), NOW), Err(TokenError::Malformed)));
    assert!(matches!(codec.decode_access_token(&Vec::new(), NOW), Err(TokenError::Malformed)));
}

#[test]
fn refresh_token_never_verifies_as_access_token() {
    let codec = codec_with(b"secret_key");
    let refresh = codec.generate_refresh_token(auth_core::types::RefreshToken { id: 9 }, NOW);
    assert!(matches!(codec.decode_access_token(&refresh, NOW), Err(TokenError::Malformed)));
    let access = codec.generate_access_token(
        AccessToken { id: 9, username: b"u".to_vec(), email: b"e".to_vec() },
        NOW,
    );
    assert!(matches!(codec.decode_refresh_token(&access, NOW), Err(TokenError::Malformed)));
}

#[test]
fn login_with_valid_credentials_returns_bound_tokens() {
    let codec = codec_with(b"secret_key");
    let mut db = UserQuery::new();
    let mut cache = AccessTokenCache::new();
    let id = register_user(&mut db, "alice@example.com", "alice01", "correct-horse");

    let payload = UserServices::login(
        LoginData {
            email: None,
            username: Some(b"alice01".to_vec()),
            password: b"correct-horse".to_vec(),
        },
        &mut db,
        &mut cache,
        &codec,
        NOW,
    )
    .expect("login succeeds for valid credentials");

    assert_eq!(payload.username, b"alice01".to_vec());
    assert_eq!(payload.id, id);
    assert!(!payload.access_token.is_empty());
    assert!(!payload.refresh_token.is_empty());

    // The embedded identity matches the stored identity.
    let claims = codec.decode_access_token(&payload.access_token, NOW).expect("verifies");
    assert_eq!(claims.token.id, id);
    assert_eq!(claims.token.username, b"alice01".to_vec());
    assert_eq!(claims.token.email, b"alice@example.com".to_vec());

    // The refresh token's embedded owner round-trips through the store.
    let refresh_claims = codec.decode_refresh_token(&payload.refresh_token, NOW).expect("verifies");
    assert_eq!(refresh_claims.token.id, id);
    assert_eq!(db.find_refresh_token(&payload.refresh_token, id), Ok(id));

    // The cache slot now serves the issued access token.
    assert_eq!(cache.get(NOW), Ok(payload.access_token.clone()));
}

#[test]
fn login_rejects_wrong_password_and_unknown_user_and_missing_keys() {
    let codec = codec_with(b"secret_key");
    let mut db = UserQuery::new();
    let mut cache = AccessTokenCache::new();
    register_user(&mut db, "alice@example.com", "alice01", "correct-horse");

    let wrong_password = UserServices::login(
        LoginData {
            email: None,
            username: Some(b"alice01".to_vec()),
            password: b"wrong-horse".to_vec(),
        },
        &mut db,
        &mut cache,
        &codec,
        NOW,
    );
    assert_eq!(wrong_password.map(|_| ()), Err(AuthError::InvalidCredentials));

    let unknown_user = UserServices::login(
        LoginData {
            email: None,
            username: Some(b"nobody".to_vec()),
            password: b"correct-horse".to_vec(),
        },
        &mut db,
        &mut cache,
        &codec,
        NOW,
    );
    assert_eq!(unknown_user.map(|_| ()), Err(AuthError::InvalidCredentials));

    let no_keys = UserServices::login(
        LoginData { email: None, username: None, password: b"correct-horse".to_vec() },
        &mut db,
        &mut cache,
        &codec,
        NOW,
    );
    assert_eq!(no_keys.map(|_| ()), Err(AuthError::InputError));

    // No session was handed out: the slot is still empty.
    assert!(cache.get(NOW).is_err());
}

#[test]
fn login_resolves_by_email_with_precedence() {
    let codec = codec_with(b"secret_key");
    let mut db = UserQuery::new();
    let mut cache = AccessTokenCache::new();
    let alice = register_user(&mut db, "alice@example.com", "alice01", "correct-horse");
    register_user(&mut db, "bob@example.com", "bob02", "hunter-two-two");

    // Email decides even when a (different) username is also supplied.
    let payload = UserServices::login(
        LoginData {
            email: Some(b"alice@example.com".to_vec()),
            username: Some(b"bob02".to_vec()),
            password: b"correct-horse".to_vec(),
        },
        &mut db,
        &mut cache,
        &codec,
        NOW,
    )
    .expect("email login succeeds");
    assert_eq!(payload.id, alice);

    // An unknown email is a credential failure even when the username alone
    // would have matched: the email key decides.
    let unknown_email = UserServices::login(
        LoginData {
            email: Some(b"nobody@example.com".to_vec()),
            username: Some(b"alice01".to_vec()),
            password: b"correct-horse".to_vec(),
        },
        &mut db,
        &mut cache,
        &codec,
        NOW,
    );
    assert_eq!(unknown_email.map(|_| ()), Err(AuthError::InvalidCredentials));
}

#[test]
fn refresh_rotates_the_cached_access_token() {
    let codec = codec_with(b"secret_key");
    let mut db = UserQuery::new();
    let mut cache = AccessTokenCache::new();
    register_user(&mut db, "alice@example.com", "alice01", "correct-horse");

    let payload = UserServices::login(
        LoginData {
            email: Some(b"alice@example.com".to_vec()),
            username: None,
            password: b"correct-horse".to_vec(),
        },
        &mut db,
        &mut cache,
        &codec,
        NOW,
    )
    .expect("login succeeds");

    let later = NOW + 60;
    let new_access = UserServices::refresh_token(
        &payload.refresh_token,
        &db,
        &mut cache,
        &codec,
        later,
    )
    .expect("refresh succeeds for a recorded token");

    // The slot reflects the new token, not the one issued at login.
    assert_ne!(new_access, payload.access_token);
    assert_eq!(cache.get(later), Ok(new_access.clone()));

    // A verifier check now resolves through the new token.
    let identity = verify_identity(&cache, &codec, later).expect("verifier accepts");
    assert_eq!(identity.username, b"alice01".to_vec());
}

#[test]
fn refresh_with_unknown_token_rejects_and_preserves_cache() {
    let codec = codec_with(b"secret_key");
    let mut db = UserQuery::new();
    let mut cache = AccessTokenCache::new();
    let id = register_user(&mut db, "alice@example.com", "alice01", "correct-horse");

    let payload = UserServices::login(
        LoginData {
            email: Some(b"alice@example.com".to_vec()),
            username: None,
            password: b"correct-horse".to_vec(),
        },
        &mut db,
        &mut cache,
        &codec,
        NOW,
    )
    .expect("login succeeds");

    // A verifying refresh token that was never persisted: not on file.
    let foreign = codec.generate_refresh_token(auth_core::types::RefreshToken { id }, NOW + 5);
    let r = UserServices::refresh_token(&foreign, &db, &mut cache, &codec, NOW + 10);
    assert_eq!(r, Err(AuthError::UnknownToken));

    // The cache slot is left unchanged.
    assert_eq!(cache.get(NOW + 10), Ok(payload.access_token.clone()));
}

#[test]
fn refresh_distinguishes_invalid_expired_and_unknown() {
    let codec = codec_with(b"secret_key");
    let other = codec_with(b"another_secret");
    let mut db = UserQuery::new();
    let mut cache = AccessTokenCache::new();
    let id = register_user(&mut db, "alice@example.com", "alice01", "correct-horse");

    // Signed under a different secret: invalid, not expired, however late.
    let foreign = other.generate_refresh_token(auth_core::types::RefreshToken { id }, NOW);
    let r = UserServices::refresh_token(&foreign, &db, &mut cache, &codec, NOW + 999_999_999);
    assert_eq!(r, Err(AuthError::InvalidToken));

    // Garbage: invalid.
    let r = UserServices::refresh_token(&b"junk".to_vec(), &db, &mut cache, &codec, NOW);
    assert_eq!(r, Err(AuthError::InvalidToken));

    // Our own token past its seven days: expired.
    let own = codec.generate_refresh_token(auth_core::types::RefreshToken { id }, NOW);
    let r = UserServices::refresh_token(&own, &db, &mut cache, &codec, NOW + 604800);
    assert_eq!(r, Err(AuthError::ExpiredToken));
}

#[test]
fn two_logins_leave_only_the_second_session() {
    let codec = codec_with(b"secret_key");
    let mut db = UserQuery::new();
    let mut cache = AccessTokenCache::new();
    register_user(&mut db, "alice@example.com", "alice01", "correct-horse");
    let bob = register_user(&mut db, "bob@example.com", "bob02", "hunter-two-two");

    let first = UserServices::login(
        LoginData {
            email: None,
            username: Some(b"alice01".to_vec()),
            password: b"correct-horse".to_vec(),
        },
        &mut db,
        &mut cache,
        &codec,
        NOW,
    )
    .expect("first login succeeds");

    let second = UserServices::login(
        LoginData {
            email: None,
            username: Some(b"bob02".to_vec()),
            password: b"hunter-two-two".to_vec(),
        },
        &mut db,
        &mut cache,
        &codec,
        NOW + 1,
    )
    .expect("second login succeeds");

    // The slot holds only the second user's token.
    assert_eq!(cache.get(NOW + 1), Ok(second.access_token.clone()));
    assert_ne!(second.access_token, first.access_token);

    // The verifier resolves to the second user's identity, never the first's.
    let identity = verify_identity(&cache, &codec, NOW + 1).expect("verifier accepts");
    assert_eq!(identity.id, bob);
    assert_eq!(identity.username, b"bob02".to_vec());
    assert_ne!(identity.id, first.id);
}

#[test]
fn both_gate_points_agree_and_reject_uniformly() {
    let codec = codec_with(b"secret_key");
    let mut db = UserQuery::new();
    let mut cache = AccessTokenCache::new();
    register_user(&mut db, "alice@example.com", "alice01", "correct-horse");

    let rest_gate = AccessTokenMW.new_transform();
    let rpc_gate = AuthMiddleware::new();

    // Empty slot: both reject, with the same (only) error value.
    assert_eq!(
        rest_gate.call(&cache, &codec, NOW).map(|u| u.id),
        rpc_gate.auth_check(&cache, &codec, NOW).map(|u| u.id)
    );
    assert!(rest_gate.call(&cache, &codec, NOW).is_err());

    UserServices::login(
        LoginData {
            email: None,
            username: Some(b"alice01".to_vec()),
            password: b"correct-horse".to_vec(),
        },
        &mut db,
        &mut cache,
        &codec,
        NOW,
    )
    .expect("login succeeds");

    // Live slot: both resolve the same identity.
    let a = rest_gate.call(&cache, &codec, NOW).expect("REST gate accepts");
    let b = rpc_gate.auth_check(&cache, &codec, NOW).expect("RPC gate accepts");
    assert_eq!(a.id, b.id);
    assert_eq!(a.username, b"alice01".to_vec());

    // A slot whose time-to-live passed: rejected again, identically.
    assert!(rest_gate.call(&cache, &codec, NOW + 12000).is_err());
    assert!(rpc_gate.auth_check(&cache, &codec, NOW + 12000).is_err());
}

#[test]
fn find_user_login_rejects_stale_identity_snapshots() {
    let mut db = UserQuery::new();
    let id = register_user(&mut db, "alice@example.com", "alice01", "correct-horse");

    let fresh = AccessToken {
        id,
        username: b"alice01".to_vec(),
        email: b"alice@example.com".to_vec(),
    };
    let ok = UserServices::find_user_login(fresh, &db).expect("matching snapshot accepted");
    assert_eq!(ok.id, id);

    let stale = AccessToken {
        id,
        username: b"alice01".to_vec(),
        email: b"old@example.com".to_vec(),
    };
    assert_eq!(
        UserServices::find_user_login(stale, &db).map(|_| ()),
        Err(AuthError::InvalidToken)
    );

    let unknown = AccessToken {
        id: 999,
        username: b"ghost".to_vec(),
        email: b"ghost@example.com".to_vec(),
    };
    assert_eq!(
        UserServices::find_user_login(unknown, &db).map(|_| ()),
        Err(AuthError::InvalidCredentials)
    );
}

#[test]
fn handlers_read_the_attached_identity_without_reverifying() {
    let codec = codec_with(b"secret_key");
    let mut db = UserQuery::new();
    let mut cache = AccessTokenCache::new();
    register_user(&mut db, "alice@example.com", "alice01", "correct-horse");
    UserServices::login(
        LoginData {
            email: None,
            username: Some(b"alice01".to_vec()),
            password: b"correct-horse".to_vec(),
        },
        &mut db,
        &mut cache,
        &codec,
        NOW,
    )
    .expect("login succeeds");

    // The interceptor attaches the identity; the handler only reads it.
    let attached = AuthMiddleware::new().auth_check(&cache, &codec, NOW).expect("gate accepts");
    let seen = auth_core::identity::user_validate(Some(&attached)).expect("attachment present");
    assert_eq!(seen.username, b"alice01".to_vec());

    // No attachment: the handler body is never reached.
    assert!(auth_core::identity::user_validate(None).is_err());
}

#[test]
fn trust_propagates_through_the_shared_secret_alone() {
    // Two independent codec instances, as the auth service and the content
    // service would each build at startup: the same secret is the whole
    // trust relationship.
    let issuing_service = codec_with(b"secret_key");
    let verifying_service = codec_with(b"secret_key");
    let data = AccessToken {
        id: 3,
        username: b"alice01".to_vec(),
        email: b"alice@example.com".to_vec(),
    };
    let token = issuing_service.generate_access_token(data, NOW);
    let claims = verifying_service
        .decode_access_token(&token, NOW)
        .expect("a peer holding the same secret verifies the token");
    assert_eq!(claims.token.id, 3);
    assert_eq!(claims.token.username, b"alice01".to_vec());
}

#[test]
fn registration_rejects_taken_keys() {
    let mut db = UserQuery::new();
    register_user(&mut db, "alice@example.com", "alice01", "correct-horse");

    let same_email = UserServices::register(
        RegisterData {
            email: b"alice@example.com".to_vec(),
            username: b"other".to_vec(),
            password: b"password-x".to_vec(),
        },
        &mut db,
    );
    assert_eq!(same_email.map(|_| ()), Err(AuthError::InputError));

    let same_username = UserServices::register(
        RegisterData {
            email: b"other@example.com".to_vec(),
            username: b"alice01".to_vec(),
            password: b"password-x".to_vec(),
        },
        &mut db,
    );
    assert_eq!(same_username.map(|_| ()), Err(AuthError::InputError));
}
