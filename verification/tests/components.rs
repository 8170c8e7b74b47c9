use auth_core::cache::{AccessTokenCache, CacheError};
use auth_core::config::{Apps, Database, Logger, RabbitMq, Redis, UserAppConfig};
use auth_core::errors::{AuthError, TokenError};
use auth_core::identity::{RefreshTokenMW, UnauthorizedError};
use auth_core::logmask::{error_logger, info_logger, password_mask, phone_mask, username_mask};
use auth_core::store::{RefreshTokenStore, UserQuery};

const NOW: i64 = 1_700_000_000;

#[test]
fn cache_slot_honours_its_time_to_live() {
    let mut cache = AccessTokenCache::new();
    assert_eq!(cache.get(NOW), Err(CacheError::Missing));

    cache.set(b"token-one".to_vec(), NOW, 12000).unwrap();
    assert_eq!(cache.get(NOW), Ok(b"token-one".to_vec()));
    assert_eq!(cache.get(NOW + 11999), Ok(b"token-one".to_vec()));
    assert_eq!(cache.get(NOW + 12000), Err(CacheError::Missing));

    // Overwrite: the slot only ever holds the latest value.
    cache.set(b"token-two".to_vec(), NOW, 12000).unwrap();
    assert_eq!(cache.get(NOW), Ok(b"token-two".to_vec()));

    // Best-effort delete: emptying an empty slot is fine too.
    cache.delete();
    assert_eq!(cache.get(NOW), Err(CacheError::Missing));
    cache.delete();
    assert_eq!(cache.get(NOW), Err(CacheError::Missing));
}

#[test]
fn store_matches_on_token_and_owner_exactly() {
    let mut store = RefreshTokenStore::new();
    store.insert(b"tok-a".to_vec(), 1).unwrap();
    // Duplicate insertion is not deduplicated and not an error.
    store.insert(b"tok-a".to_vec(), 1).unwrap();
    store.insert(b"tok-b".to_vec(), 2).unwrap();

    assert_eq!(store.find(&b"tok-a".to_vec(), 1), Ok(1));
    assert_eq!(store.find(&b"tok-b".to_vec(), 2), Ok(2));
    // Right token, wrong owner: not on file.
    assert_eq!(store.find(&b"tok-a".to_vec(), 2), Err(AuthError::UnknownToken));
    // Wrong token, right owner: not on file.
    assert_eq!(store.find(&b"tok-c".to_vec(), 1), Err(AuthError::UnknownToken));
}

#[test]
fn login_query_requires_a_key_and_matches_exactly() {
    let db = UserQuery::new();
    assert_eq!(db.login_query(None, None).map(|_| ()), Err(AuthError::InputError));
    assert_eq!(
        db.login_query(Some(b"a@x".to_vec()), None).map(|_| ()),
        Err(AuthError::InvalidCredentials)
    );
}

#[test]
fn refresh_header_gate_extracts_the_token_unchanged() {
    let gate = RefreshTokenMW.new_transform();
    let header = b"HS256.abc.def".to_vec();
    assert_eq!(gate.call(Some(&header)), Ok(header.clone()));
    assert_eq!(gate.call(None), Err(UnauthorizedError));
    // A header byte outside visible ASCII cannot be read as token text.
    let bad = vec![72u8, 10u8, 83u8];
    assert_eq!(gate.call(Some(&bad)), Err(UnauthorizedError));
}

#[test]
fn masks_hide_what_must_not_be_logged() {
    assert_eq!(password_mask(), b"***".to_vec());

    assert_eq!(username_mask(&b"john doe".to_vec()), b"joh*** doe***".to_vec());
    assert_eq!(username_mask(&b"jo".to_vec()), b"jo***".to_vec());
    assert_eq!(username_mask(&b"".to_vec()), b"***".to_vec());
    assert_eq!(username_mask(&b"a b c".to_vec()), b"a*** b*** c***".to_vec());

    assert_eq!(phone_mask(&b"08123456789".to_vec()), b"081***789".to_vec());
    assert_eq!(phone_mask(&b"12345".to_vec()), b"***".to_vec());
    assert_eq!(phone_mask(&b"123456".to_vec()), b"123***456".to_vec());
}

#[test]
fn log_lines_have_the_fixed_shape() {
    assert_eq!(
        info_logger(&b"req-1".to_vec(), &b"login_handler".to_vec(), &b"password_check".to_vec()),
        b"[ req-1 ] login_handler.password_check".to_vec()
    );
    assert_eq!(
        error_logger(&b"redis connect".to_vec(), &b"timed out".to_vec()),
        b"redis connect, error: timed out".to_vec()
    );
}

#[test]
fn error_messages_are_fixed_text() {
    assert_eq!(TokenError::Expired.message(), "token expired");
    assert_eq!(TokenError::InvalidSignature.message(), "invalid signature");
    assert_eq!(TokenError::Malformed.message(), "malformed token");
    assert_eq!(AuthError::InputError.message(), "email and username is empty!");
    assert_eq!(AuthError::UnknownToken.message(), "refresh token not found");
}

#[test]
fn configuration_must_be_complete_to_start() {
    let complete = UserAppConfig {
        apps: Apps::new(8080),
        database: Database {
            user: "svc".to_string(),
            password: "pw".to_string(),
            name: "users".to_string(),
            port: 5432,
            host: "db".to_string(),
            url: "postgres://db/users".to_string(),
        },
        redis: Redis { host: "cache:6379".to_string() },
        rabbitmq: RabbitMq { url: "amqp://broker".to_string() },
        logger: Logger::new("info".to_string()),
    };
    assert!(complete.validate());
    assert_eq!(complete.apps.port(), 8080);
    assert_eq!(complete.logger.level().as_str(), "info");

    let incomplete = UserAppConfig {
        apps: Apps::new(8080),
        database: Database {
            user: "svc".to_string(),
            password: "pw".to_string(),
            name: "users".to_string(),
            port: 5432,
            host: "db".to_string(),
            url: String::new(),
        },
        redis: Redis { host: "cache:6379".to_string() },
        rabbitmq: RabbitMq { url: "amqp://broker".to_string() },
        logger: Logger::new("info".to_string()),
    };
    assert!(!incomplete.validate());
}

#[test]
fn pool_bounds_must_be_ordered() {
    let config = auth_core::post_config::PostAppConfig {
        apps: auth_core::post_config::Apps { address: "0.0.0.0:50051".to_string() },
        database: auth_core::post_config::Database {
            user: "svc".to_string(),
            password: "pw".to_string(),
            name: "posts".to_string(),
            port: 5432,
            host: "db".to_string(),
            url: "postgres://db/posts".to_string(),
            min_pool_connection: 5,
            max_pool_connection: 50,
        },
        redis: auth_core::post_config::Redis {
            host: "cache:6379".to_string(),
            min_pool_connection: 5,
            max_pool_connection: 50,
        },
        logger: auth_core::post_config::Logger::new("info".to_string()),
    };
    assert!(config.validate());

    let inverted = auth_core::post_config::PostAppConfig {
        apps: auth_core::post_config::Apps { address: "0.0.0.0:50051".to_string() },
        database: auth_core::post_config::Database {
            user: "svc".to_string(),
            password: "pw".to_string(),
            name: "posts".to_string(),
            port: 5432,
            host: "db".to_string(),
            url: "postgres://db/posts".to_string(),
            min_pool_connection: 50,
            max_pool_connection: 5,
        },
        redis: auth_core::post_config::Redis {
            host: "cache:6379".to_string(),
            min_pool_connection: 5,
            max_pool_connection: 50,
        },
        logger: auth_core::post_config::Logger::new("info".to_string()),
    };
    assert!(!inverted.validate());
}
