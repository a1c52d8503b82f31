use redis_toolkit::auth::AuthCredentials;
use redis_toolkit::auth_management::apply_jitter;
use redis_toolkit::auth_management::apply_jitter_with;
use redis_toolkit::auth_management::calculate_next_delay;
use redis_toolkit::auth_management::should_refresh_credentials_at;
use redis_toolkit::auth_management::should_refresh_credentials_based_on_config;
use redis_toolkit::auth_management::LifetimeBasis;
use redis_toolkit::auth_management::RetryConfig;
use redis_toolkit::auth_management::TokenRefreshConfig;
use redis_toolkit::auth_management::TokenRefreshServiceConfig;
use redis_toolkit::clock::now_millis;
use redis_toolkit::ratio::Ratio;

fn ratio(millionths: u64) -> Ratio {
    Ratio::from_millionths(millionths)
}

#[test]
fn the_defaults_are_the_documented_ones() {
    let retry = RetryConfig::default();
    assert_eq!(retry.max_attempts, 3);
    assert_eq!(retry.initial_delay, 100);
    assert_eq!(retry.max_delay, 30_000);
    assert_eq!(retry.backoff_multiplier, ratio(2_000_000));
    assert_eq!(retry.jitter_percentage, ratio(100_000));
    assert!(retry.validate());

    let refresh = TokenRefreshConfig::default();
    assert_eq!(refresh.expiration_refresh_ratio, ratio(800_000));
    assert_eq!(refresh.retry_config, retry);
    assert!(refresh.validate());

    let service = TokenRefreshServiceConfig::default();
    assert_eq!(service.refresh_interval, 60_000);
    assert_eq!(service.token_refresh_config, refresh);
}

#[test]
fn the_setters_replace_one_field() {
    let retry = RetryConfig {
        max_attempts: 5,
        ..RetryConfig::default()
    };
    let refresh = TokenRefreshConfig::default()
        .set_expiration_refresh_ratio(ratio(500_000))
        .set_retry_config(retry);
    assert_eq!(refresh.expiration_refresh_ratio, ratio(500_000));
    assert_eq!(refresh.retry_config.max_attempts, 5);

    let service = TokenRefreshServiceConfig::new(10, TokenRefreshConfig::default())
        .set_refresh_interval(1_000)
        .set_token_refresh_config(refresh);
    assert_eq!(service.refresh_interval, 1_000);
    assert_eq!(service.token_refresh_config, refresh);
}

#[test]
fn configurations_outside_their_ranges_are_not_valid() {
    let good = RetryConfig::default();
    assert!(!RetryConfig { max_attempts: 0, ..good }.validate());
    assert!(!RetryConfig { max_delay: 99, ..good }.validate());
    assert!(RetryConfig { max_delay: 100, ..good }.validate());
    assert!(!RetryConfig { backoff_multiplier: ratio(999_999), ..good }.validate());
    assert!(RetryConfig { backoff_multiplier: ratio(1_000_000), ..good }.validate());
    assert!(!RetryConfig { jitter_percentage: ratio(1_000_001), ..good }.validate());
    assert!(RetryConfig { jitter_percentage: ratio(0), ..good }.validate());

    let refresh = TokenRefreshConfig::default();
    assert!(!refresh.set_expiration_refresh_ratio(ratio(0)).validate());
    assert!(refresh.set_expiration_refresh_ratio(ratio(1_000_000)).validate());
    assert!(!refresh.set_expiration_refresh_ratio(ratio(1_000_001)).validate());
    assert!(!refresh
        .set_retry_config(RetryConfig { max_attempts: 0, ..good })
        .validate());
}

#[test]
fn a_ratio_scales_amounts_rounding_down() {
    assert_eq!(ratio(800_000).apply(1_000), 800);
    assert_eq!(ratio(800_000).apply(1_001), 800);
    assert_eq!(ratio(800_000).apply(1_004), 803);
    assert_eq!(ratio(1_000_000).apply(u64::MAX), u64::MAX);
    assert_eq!(ratio(2_000_000).apply(u64::MAX), u64::MAX);
    assert_eq!(ratio(0).apply(u64::MAX), 0);
    assert_eq!(
        ratio(u64::MAX).apply_wide(u64::MAX),
        (u64::MAX as u128) * (u64::MAX as u128) / 1_000_000
    );
}

#[test]
fn expired_credentials_are_due_whatever_the_ratio() {
    let creds = AuthCredentials::received_with_expiration("t".to_string(), 2_000, 1_000);
    for millionths in [1, 500_000, 800_000, 1_000_000, u64::MAX] {
        let config = TokenRefreshConfig::default().set_expiration_refresh_ratio(ratio(millionths));
        for basis in [LifetimeBasis::SinceIssuance, LifetimeBasis::Remaining] {
            assert!(should_refresh_credentials_at(&creds, &config, basis, 2_000));
            assert!(should_refresh_credentials_at(&creds, &config, basis, 5_000));
        }
    }
    let creds = AuthCredentials::with_expiration("t".to_string(), now_millis() - 1);
    assert!(should_refresh_credentials_based_on_config(
        &creds,
        &TokenRefreshConfig::default()
    ));
}

#[test]
fn credentials_are_due_once_the_ratio_of_their_lifetime_has_passed() {
    let config = TokenRefreshConfig::default();
    let creds = AuthCredentials::received_with_expiration("t".to_string(), 11_000, 1_000);
    let basis = LifetimeBasis::SinceIssuance;
    assert!(!should_refresh_credentials_at(&creds, &config, basis, 1_000));
    assert!(!should_refresh_credentials_at(&creds, &config, basis, 8_999));
    assert!(should_refresh_credentials_at(&creds, &config, basis, 9_000));
    assert!(should_refresh_credentials_at(&creds, &config, basis, 10_999));

    let half = config.set_expiration_refresh_ratio(ratio(500_000));
    assert!(!should_refresh_credentials_at(&creds, &half, basis, 5_999));
    assert!(should_refresh_credentials_at(&creds, &half, basis, 6_000));

    let fresh = AuthCredentials::with_expiration("t".to_string(), now_millis() + 3_600_000);
    assert!(!should_refresh_credentials_based_on_config(&fresh, &config));
}

#[test]
fn the_remaining_lifetime_can_be_the_basis() {
    let config = TokenRefreshConfig::default().set_expiration_refresh_ratio(ratio(500_000));
    let creds = AuthCredentials::received_with_expiration("t".to_string(), 10_000, 1_000);
    let basis = LifetimeBasis::Remaining;
    // At 3_999 the remaining 6_001 ms give a threshold of 3_000, and 2_999 have passed.
    assert!(!should_refresh_credentials_at(&creds, &config, basis, 3_999));
    // At 4_000 the remaining 6_000 ms give a threshold of 3_000, and 3_000 have passed.
    assert!(should_refresh_credentials_at(&creds, &config, basis, 4_000));
}

#[test]
fn credentials_without_expiry_are_never_due() {
    let config = TokenRefreshConfig::default();
    let creds = AuthCredentials::received("t".to_string(), 1_000);
    for now in [0, 1_000, u64::MAX] {
        for basis in [LifetimeBasis::SinceIssuance, LifetimeBasis::Remaining] {
            assert!(!should_refresh_credentials_at(&creds, &config, basis, now));
        }
    }
    assert!(!should_refresh_credentials_based_on_config(
        &AuthCredentials::new("t".to_string()),
        &config
    ));
}

#[test]
fn an_inconsistent_lifetime_forces_a_refresh() {
    let config = TokenRefreshConfig::default();
    // Received after the expiry, and the clock reads before both.
    let creds = AuthCredentials::received_with_expiration("t".to_string(), 5_000, 9_000);
    assert!(should_refresh_credentials_at(
        &creds,
        &config,
        LifetimeBasis::SinceIssuance,
        4_000
    ));
    // The clock reads before the time of receipt.
    let creds = AuthCredentials::received_with_expiration("t".to_string(), 50_000, 9_000);
    assert!(should_refresh_credentials_at(
        &creds,
        &config,
        LifetimeBasis::SinceIssuance,
        8_000
    ));
}

#[test]
fn jitter_of_zero_leaves_the_delay() {
    for delay in [0, 1, 100, 30_000, u64::MAX] {
        for random in [0, 1, 499, 500, 999, 123_456_789, u64::MAX] {
            assert_eq!(apply_jitter_with(delay, ratio(0), random), delay);
        }
        assert_eq!(apply_jitter(delay, ratio(0)), delay);
    }
}

#[test]
fn jitter_moves_the_delay_by_the_random_step() {
    let tenth = ratio(100_000);
    assert_eq!(apply_jitter_with(1_000, tenth, 0), 900);
    assert_eq!(apply_jitter_with(1_000, tenth, 250), 950);
    assert_eq!(apply_jitter_with(1_000, tenth, 500), 1_000);
    assert_eq!(apply_jitter_with(1_000, tenth, 750), 1_050);
    assert_eq!(apply_jitter_with(1_000, tenth, 999), 1_099);
    // Only the last three digits of the random value count.
    assert_eq!(apply_jitter_with(1_000, tenth, 7_250), 950);
    // Rounding is towards the delay.
    assert_eq!(apply_jitter_with(15, tenth, 0), 14);
    assert_eq!(apply_jitter_with(15, tenth, 999), 15);
    assert_eq!(apply_jitter_with(9, tenth, 0), 9);
}

#[test]
fn jitter_is_clamped_at_zero_and_at_the_largest_delay() {
    assert_eq!(apply_jitter_with(1_000, ratio(2_000_000), 0), 0);
    assert_eq!(apply_jitter_with(1_000, ratio(1_000_000), 0), 0);
    assert_eq!(apply_jitter_with(1_000, ratio(1_000_000), 250), 500);
    assert_eq!(apply_jitter_with(u64::MAX, ratio(1_000_000), 999), u64::MAX);
    assert_eq!(apply_jitter_with(u64::MAX, ratio(u64::MAX), 999), u64::MAX);
    assert_eq!(apply_jitter_with(u64::MAX, ratio(u64::MAX), 0), 0);
}

#[test]
fn jitter_from_the_clock_stays_within_its_range() {
    for _ in 0..200 {
        let jittered = apply_jitter(1_000, ratio(100_000));
        assert!((900..=1_100).contains(&jittered));
        let jittered = apply_jitter(100, ratio(1_000_000));
        assert!(jittered <= 200);
    }
}

#[test]
fn backoff_multiplies_and_caps() {
    let double = ratio(2_000_000);
    assert_eq!(calculate_next_delay(100, double, 30_000), 200);
    assert_eq!(calculate_next_delay(15_000, double, 30_000), 30_000);
    assert_eq!(calculate_next_delay(15_001, double, 30_000), 30_000);
    assert_eq!(calculate_next_delay(30_000, double, 30_000), 30_000);
    assert_eq!(calculate_next_delay(100, ratio(1_500_000), 30_000), 150);
    assert_eq!(calculate_next_delay(101, ratio(1_500_000), 30_000), 151);
    assert_eq!(calculate_next_delay(100, ratio(1_000_000), 30_000), 100);
    assert_eq!(calculate_next_delay(0, double, 30_000), 0);
    assert_eq!(calculate_next_delay(u64::MAX, ratio(u64::MAX), u64::MAX), u64::MAX);
    assert_eq!(calculate_next_delay(40_000, double, 30_000), 30_000);
}

#[test]
fn backoff_never_shrinks_and_never_exceeds_the_maximum() {
    let config = RetryConfig::default();
    let mut delay = config.initial_delay;
    let mut seen = vec![delay];
    for _ in 0..12 {
        let next = calculate_next_delay(delay, config.backoff_multiplier, config.max_delay);
        assert!(next >= delay);
        assert!(next <= config.max_delay);
        delay = next;
        seen.push(delay);
    }
    assert_eq!(
        seen,
        vec![100, 200, 400, 800, 1_600, 3_200, 6_400, 12_800, 25_600, 30_000, 30_000, 30_000, 30_000]
    );
}

#[test]
fn the_share_of_the_lifetime_is_not_rounded_down() {
    let config = TokenRefreshConfig::default();
    let received = 1_700_000_000_000;
    let creds = AuthCredentials::received_with_expiration(
        "t".to_string(),
        received + 3_600_001,
        received,
    );
    let basis = LifetimeBasis::SinceIssuance;
    // Eight tenths of 3,600,001 ms are 2,880,000.8 ms.
    assert!(!should_refresh_credentials_at(&creds, &config, basis, received + 2_879_999));
    assert!(!should_refresh_credentials_at(&creds, &config, basis, received + 2_880_000));
    assert!(should_refresh_credentials_at(&creds, &config, basis, received + 2_880_001));

    // A third of 10 ms is reached after 4 ms, not after 3.
    let third = config.set_expiration_refresh_ratio(ratio(333_334));
    let creds = AuthCredentials::received_with_expiration("t".to_string(), 110, 100);
    assert!(!should_refresh_credentials_at(&creds, &third, basis, 103));
    assert!(should_refresh_credentials_at(&creds, &third, basis, 104));

    // The same holds of the remaining lifetime: at 1,000 ms after receipt
    // 2,001 ms remain, and half of them are 1,000.5 ms.
    let half = config.set_expiration_refresh_ratio(ratio(500_000));
    let creds = AuthCredentials::received_with_expiration("t".to_string(), 3_001, 0);
    let remaining = LifetimeBasis::Remaining;
    assert!(!should_refresh_credentials_at(&creds, &half, remaining, 1_000));
    assert!(should_refresh_credentials_at(&creds, &half, remaining, 1_001));
}

#[test]
fn ratios_beyond_one_and_the_longest_lifetimes_are_compared_without_overflow() {
    let basis = LifetimeBasis::SinceIssuance;
    let creds = AuthCredentials::received_with_expiration("t".to_string(), u64::MAX, 0);
    let most = TokenRefreshConfig::default().set_expiration_refresh_ratio(ratio(u64::MAX));
    assert!(!should_refresh_credentials_at(&creds, &most, basis, u64::MAX - 1));
    let whole = TokenRefreshConfig::default().set_expiration_refresh_ratio(ratio(1_000_000));
    assert!(!should_refresh_credentials_at(&creds, &whole, basis, u64::MAX - 1));
    let tiny = TokenRefreshConfig::default().set_expiration_refresh_ratio(ratio(1));
    assert!(!should_refresh_credentials_at(&creds, &tiny, basis, 18_446_744_073_709));
    assert!(should_refresh_credentials_at(&creds, &tiny, basis, 18_446_744_073_710));
    let none = TokenRefreshConfig::default().set_expiration_refresh_ratio(ratio(0));
    assert!(should_refresh_credentials_at(&creds, &none, basis, 0));
}
