use redis_toolkit::auth::AuthCredentials;
use redis_toolkit::auth::CredentialsProvider;
use redis_toolkit::auth::StaticCredentialsProvider;
use redis_toolkit::clock::now_millis;
use redis_toolkit::types::ErrorKind;
use redis_toolkit::types::RedisError;

const HOUR: u64 = 3_600_000;

#[test]
fn credentials_without_expiry_never_expire_and_are_never_eligible() {
    let creds = AuthCredentials::received("secret".to_string(), 1_000);
    assert_eq!(creds.token, "secret");
    assert_eq!(creds.expires_at, None);
    assert_eq!(creds.received_at, 1_000);
    for now in [0, 999, 1_000, 1_001, u64::MAX] {
        assert!(!creds.is_expired_at(now));
        for threshold in [0, 1, HOUR, u64::MAX] {
            assert!(!creds.eligible_for_refresh_at(threshold, now));
        }
    }
    let creds = AuthCredentials::new("secret".to_string());
    assert!(!creds.is_expired());
    assert!(!creds.eligible_for_refresh(0));
    assert!(!creds.eligible_for_refresh(HOUR));
}

#[test]
fn credentials_with_expiry_in_the_past_are_expired() {
    let creds = AuthCredentials::received_with_expiration("secret".to_string(), 5_000, 1_000);
    assert!(!creds.is_expired_at(4_999));
    assert!(creds.is_expired_at(5_000));
    assert!(creds.is_expired_at(5_001));
    assert!(creds.is_expired_at(u64::MAX));

    let past = now_millis() - 1_000;
    let creds = AuthCredentials::with_expiration("secret".to_string(), past);
    assert!(creds.is_expired());
    let creds = AuthCredentials::with_expiration("secret".to_string(), 0);
    assert!(creds.is_expired());
}

#[test]
fn credentials_with_expiry_in_the_future_are_not_expired() {
    let creds = AuthCredentials::with_expiration("secret".to_string(), now_millis() + HOUR);
    assert!(!creds.is_expired());
    assert_eq!(creds.token, "secret");
    assert!(creds.received_at <= now_millis());
}

#[test]
fn eligibility_follows_the_time_since_receipt() {
    let now = 1_700_000_000_000;
    let creds = AuthCredentials::received_with_expiration("secret".to_string(), now + HOUR, now);
    assert!(!creds.eligible_for_refresh_at(HOUR / 2, now));
    assert!(creds.eligible_for_refresh_at(0, now));
    assert!(!creds.eligible_for_refresh_at(HOUR / 2, now + HOUR / 2 - 1));
    assert!(creds.eligible_for_refresh_at(HOUR / 2, now + HOUR / 2));
    assert!(creds.eligible_for_refresh_at(HOUR / 2, now + HOUR));
    // A clock that reads earlier than the time of receipt forces a refresh.
    assert!(creds.eligible_for_refresh_at(HOUR / 2, now - 1));

    let creds = AuthCredentials::with_expiration("secret".to_string(), now_millis() + HOUR);
    assert!(!creds.eligible_for_refresh(HOUR / 2));
    assert!(creds.eligible_for_refresh(0));
}

#[test]
fn a_copy_of_credentials_holds_the_same_values() {
    let creds = AuthCredentials::received_with_expiration("secret".to_string(), 9, 3);
    let copy = creds.clone();
    assert_eq!(copy.token, "secret");
    assert_eq!(copy.expires_at, Some(9));
    assert_eq!(copy.received_at, 3);
}

#[test]
fn a_static_provider_always_returns_its_credentials() {
    let provider = StaticCredentialsProvider::new("password".to_string());
    for _ in 0..3 {
        let creds = provider.get_credentials().unwrap();
        assert_eq!(creds.token, "password");
        assert_eq!(creds.expires_at, None);
    }
    let first = provider.get_credentials().unwrap();
    let second = provider.clone().get_credentials().unwrap();
    assert_eq!(first.received_at, second.received_at);

    let provider = StaticCredentialsProvider::with_expiration("password".to_string(), 77);
    let creds = provider.get_credentials().unwrap();
    assert_eq!(creds.token, "password");
    assert_eq!(creds.expires_at, Some(77));

    let given = AuthCredentials::received_with_expiration("t".to_string(), 20, 10);
    let provider = StaticCredentialsProvider::from_credentials(given);
    let creds = provider.credentials();
    assert_eq!(creds.token, "t");
    assert_eq!(creds.expires_at, Some(20));
    assert_eq!(creds.received_at, 10);
}

#[test]
fn an_error_renders_its_description_kind_and_detail() {
    let err = RedisError::new(ErrorKind::IoError, "Failed to create runtime");
    assert_eq!(err.kind(), ErrorKind::IoError);
    assert_eq!(err.to_string(), "Failed to create runtime - IoError");
    let err = RedisError::with_detail(
        ErrorKind::AuthenticationFailed,
        "Entra ID authentication failed",
        "timeout".to_string(),
    );
    assert_eq!(
        err.to_string(),
        "Entra ID authentication failed - AuthenticationFailed: timeout"
    );
    let copy = err.clone();
    assert_eq!(copy.kind(), ErrorKind::AuthenticationFailed);
    assert_eq!(copy.description, "Entra ID authentication failed");
    assert_eq!(copy.detail.as_deref(), Some("timeout"));
    assert_eq!(ErrorKind::InvalidClientConfig.as_str(), "InvalidClientConfig");
}
