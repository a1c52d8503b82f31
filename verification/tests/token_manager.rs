use redis_toolkit::auth::AuthCredentials;
use redis_toolkit::auth::CredentialsProvider;
use redis_toolkit::auth_management::RetryConfig;
use redis_toolkit::auth_management::TokenRefreshConfig;
use redis_toolkit::ratio::Ratio;
use redis_toolkit::token_manager::CredentialCache;
use redis_toolkit::token_manager::RetryDecision;
use redis_toolkit::token_manager::RetryState;
use redis_toolkit::types::ErrorKind;
use redis_toolkit::types::RedisError;
use std::cell::Cell;

/// A provider that fails a given number of times and then succeeds, and
/// counts how often it is called.
struct FlakyProvider {
    failures: u32,
    calls: Cell<u32>,
    expires_at: Option<u64>,
}

impl FlakyProvider {
    fn failing(failures: u32) -> Self {
        FlakyProvider {
            failures,
            calls: Cell::new(0),
            expires_at: None,
        }
    }
}

impl CredentialsProvider for FlakyProvider {
    fn get_credentials(&self) -> Result<AuthCredentials, RedisError> {
        let call = self.calls.get() + 1;
        self.calls.set(call);
        if call <= self.failures {
            Err(RedisError::with_detail(
                ErrorKind::AuthenticationFailed,
                "provider failed",
                format!("call {call}"),
            ))
        } else {
            let token = format!("token-{call}");
            Ok(match self.expires_at {
                Some(expires_at) => AuthCredentials::received_with_expiration(token, expires_at, 0),
                None => AuthCredentials::received(token, 0),
            })
        }
    }
}

/// Refreshes the cache from the provider as a token manager does, without
/// sleeping; returns the result and the waits that were decided.
fn refresh<P: CredentialsProvider>(
    provider: &P,
    cache: &mut CredentialCache,
) -> (Result<AuthCredentials, RedisError>, Vec<u64>) {
    let retry = cache.config().retry_config;
    let mut state = cache.begin_refresh();
    let mut waits = Vec::new();
    loop {
        match provider.get_credentials() {
            Ok(creds) => {
                cache.store(creds.clone());
                return (Ok(creds), waits);
            }
            Err(err) => match state.on_failure_with(&retry, 500) {
                RetryDecision::GiveUp => return (Err(err), waits),
                RetryDecision::RetryAfter { wait, next } => {
                    waits.push(wait);
                    state = next;
                }
            },
        }
    }
}

fn get<P: CredentialsProvider>(
    provider: &P,
    cache: &mut CredentialCache,
    now: u64,
) -> Result<AuthCredentials, RedisError> {
    match cache.usable_at(now) {
        Some(creds) => Ok(creds),
        None => refresh(provider, cache).0,
    }
}

fn config_with_attempts(max_attempts: u32) -> TokenRefreshConfig {
    TokenRefreshConfig::default().set_retry_config(RetryConfig {
        max_attempts,
        ..RetryConfig::default()
    })
}

#[test]
fn a_provider_that_always_fails_is_called_max_attempts_times() {
    for max_attempts in [1, 2, 3, 7] {
        let provider = FlakyProvider::failing(u32::MAX);
        let mut cache = CredentialCache::with_config(config_with_attempts(max_attempts));
        let (result, waits) = refresh(&provider, &mut cache);
        let err = result.unwrap_err();
        assert_eq!(err.kind(), ErrorKind::AuthenticationFailed);
        assert_eq!(err.detail, Some(format!("call {max_attempts}")));
        assert_eq!(provider.calls.get(), max_attempts);
        assert_eq!(waits.len() as u32, max_attempts - 1);
        assert!(cache.usable_at(0).is_none());
    }
}

#[test]
fn a_provider_that_fails_once_and_then_succeeds_gives_the_success() {
    for max_attempts in [2, 3, 10] {
        let provider = FlakyProvider::failing(1);
        let mut cache = CredentialCache::with_config(config_with_attempts(max_attempts));
        let (result, waits) = refresh(&provider, &mut cache);
        assert_eq!(result.unwrap().token, "token-2");
        assert_eq!(provider.calls.get(), 2);
        assert_eq!(waits, vec![100]);
        assert_eq!(cache.usable_at(0).unwrap().token, "token-2");
    }
    // With a single attempt the first failure is final.
    let provider = FlakyProvider::failing(1);
    let mut cache = CredentialCache::with_config(config_with_attempts(1));
    assert!(refresh(&provider, &mut cache).0.is_err());
    assert_eq!(provider.calls.get(), 1);
}

#[test]
fn the_waits_follow_the_backoff() {
    let provider = FlakyProvider::failing(u32::MAX);
    let mut cache = CredentialCache::with_config(config_with_attempts(12));
    let (_, waits) = refresh(&provider, &mut cache);
    assert_eq!(
        waits,
        vec![100, 200, 400, 800, 1_600, 3_200, 6_400, 12_800, 25_600, 30_000, 30_000]
    );
}

#[test]
fn each_failure_is_answered_by_the_state() {
    let config = RetryConfig::default();
    let state = RetryState::start(&config);
    assert_eq!(state, RetryState { attempt: 0, delay: 100 });

    let first = state.on_failure_with(&config, 0);
    assert_eq!(
        first,
        RetryDecision::RetryAfter {
            wait: 90,
            next: RetryState { attempt: 1, delay: 200 }
        }
    );
    let second = RetryState { attempt: 1, delay: 200 }.on_failure_with(&config, 999);
    assert_eq!(
        second,
        RetryDecision::RetryAfter {
            wait: 219,
            next: RetryState { attempt: 2, delay: 400 }
        }
    );
    let third = RetryState { attempt: 2, delay: 400 }.on_failure_with(&config, 500);
    assert_eq!(third, RetryDecision::GiveUp);

    // States beyond the attempts give up too, at any count.
    assert_eq!(
        RetryState { attempt: u32::MAX, delay: 1 }.on_failure_with(&config, 0),
        RetryDecision::GiveUp
    );
    let zero = RetryConfig { max_attempts: 0, ..config };
    assert_eq!(RetryState::start(&zero).on_failure_with(&zero, 0), RetryDecision::GiveUp);
    let most = RetryConfig { max_attempts: u32::MAX, ..config };
    assert_eq!(
        RetryState { attempt: u32::MAX - 1, delay: 1 }.on_failure_with(&most, 0),
        RetryDecision::GiveUp
    );
    assert!(matches!(
        RetryState { attempt: u32::MAX - 2, delay: 1 }.on_failure_with(&most, 0),
        RetryDecision::RetryAfter { .. }
    ));
}

#[test]
fn a_failure_answered_by_the_clock_waits_within_the_jitter() {
    let config = RetryConfig::default();
    for _ in 0..50 {
        match RetryState::start(&config).on_failure(&config) {
            RetryDecision::RetryAfter { wait, next } => {
                assert!((90..=110).contains(&wait));
                assert_eq!(next, RetryState { attempt: 1, delay: 200 });
            }
            RetryDecision::GiveUp => panic!("gave up with attempts left"),
        }
    }
    let steady = RetryConfig {
        jitter_percentage: Ratio::from_millionths(0),
        ..config
    };
    assert_eq!(
        RetryState::start(&steady).on_failure(&steady),
        RetryDecision::RetryAfter {
            wait: 100,
            next: RetryState { attempt: 1, delay: 200 }
        }
    );
    assert_eq!(
        RetryState { attempt: 2, delay: 400 }.on_failure(&config),
        RetryDecision::GiveUp
    );
}

#[test]
fn a_fresh_cache_answers_without_the_provider() {
    let mut provider = FlakyProvider::failing(0);
    provider.expires_at = Some(10_000);
    let mut cache = CredentialCache::new();

    // Empty cache: the provider is called.
    assert_eq!(get(&provider, &mut cache, 100).unwrap().token, "token-1");
    assert_eq!(provider.calls.get(), 1);

    // Fresh cache: the cached value is returned and the provider is left alone.
    for now in [100, 5_000, 7_999] {
        assert_eq!(get(&provider, &mut cache, now).unwrap().token, "token-1");
    }
    assert_eq!(provider.calls.get(), 1);

    // Eight tenths of the lifetime have passed: the provider is called again.
    assert_eq!(get(&provider, &mut cache, 8_000).unwrap().token, "token-2");
    assert_eq!(provider.calls.get(), 2);

    // Expired: again.
    assert_eq!(get(&provider, &mut cache, 10_000).unwrap().token, "token-3");
    assert_eq!(provider.calls.get(), 3);
}

#[test]
fn a_cache_of_credentials_without_expiry_stays_fresh() {
    let provider = FlakyProvider::failing(0);
    let mut cache = CredentialCache::new();
    assert!(cache.usable().is_none());
    assert_eq!(get(&provider, &mut cache, 0).unwrap().token, "token-1");
    assert_eq!(get(&provider, &mut cache, u64::MAX).unwrap().token, "token-1");
    assert_eq!(cache.usable().unwrap().token, "token-1");
    assert_eq!(provider.calls.get(), 1);
}

#[test]
fn a_failed_refresh_leaves_the_cache_as_it_was() {
    let mut cache = CredentialCache::new();
    cache.store(AuthCredentials::received_with_expiration("old".to_string(), 1_000, 0));
    let provider = FlakyProvider::failing(u32::MAX);
    assert!(get(&provider, &mut cache, 900).is_err());
    assert_eq!(provider.calls.get(), 3);
    // The stale credential is still there, and still not handed out.
    assert!(cache.usable_at(900).is_none());
    assert_eq!(cache.usable_at(100).unwrap().token, "old");
}

#[test]
fn storing_replaces_the_cached_credential() {
    let mut cache = CredentialCache::with_config(config_with_attempts(4));
    assert_eq!(cache.config().retry_config.max_attempts, 4);
    assert_eq!(cache.begin_refresh(), RetryState { attempt: 0, delay: 100 });
    cache.store(AuthCredentials::received("first".to_string(), 0));
    cache.store(AuthCredentials::received("second".to_string(), 0));
    assert_eq!(cache.usable_at(0).unwrap().token, "second");
    assert_eq!(cache.config().retry_config.max_attempts, 4);
}

#[test]
fn a_new_cache_has_the_default_configuration() {
    let cache = CredentialCache::new();
    assert_eq!(cache.config(), TokenRefreshConfig::default());
    assert_eq!(cache.config().retry_config, RetryConfig::default());
    assert_eq!(cache.config().retry_config.max_attempts, 3);
    assert_eq!(cache.config().retry_config.initial_delay, 100);
    assert_eq!(cache.config().retry_config.max_delay, 30_000);
    assert!(cache.usable_at(0).is_none());
}
