//! Refresh policy: when a cached credential is due for renewal, and how long
//! to wait between failed renewal attempts.

use crate::auth::AuthCredentials;
use crate::auth::AuthCredentialsView;
use crate::clock::clock_entropy;
use crate::clock::now_millis;
use crate::ratio::lemma_ratio_at_least_one_grows;
use crate::ratio::Ratio;
use crate::ratio::RATIO_SCALE;
use vstd::prelude::*;

verus! {

/// How failed refresh attempts are retried.
#[derive(Debug, Clone, Copy, PartialEq, Eq, Structural)]
pub struct RetryConfig {
    /// How many times the provider is called before giving up.
    pub max_attempts: u32,
    /// The delay before the first retry, in milliseconds.
    pub initial_delay: u64,
    /// The longest delay between retries, in milliseconds.
    pub max_delay: u64,
    /// The factor by which the delay grows after each failure.
    pub backoff_multiplier: Ratio,
    /// The largest random perturbation of a delay, as a share of that delay.
    pub jitter_percentage: Ratio,
}

impl RetryConfig {
    /// Whether the configuration is well formed: at least one attempt, a
    /// maximum delay no shorter than the initial one, a multiplier of at
    /// least one and a jitter share of at most one.
    pub open spec fn is_valid(self) -> bool {
        &&& self.max_attempts >= 1
        &&& self.max_delay >= self.initial_delay
        &&& self.backoff_multiplier.at_least_one()
        &&& self.jitter_percentage.at_most_one()
    }

    /// Tests [`Self::is_valid`].
    pub fn validate(&self) -> (valid: bool)
        ensures
            valid == self.is_valid(),
    {
        self.max_attempts >= 1 && self.max_delay >= self.initial_delay
            && self.backoff_multiplier.millionths >= 1_000_000
            && self.jitter_percentage.millionths <= 1_000_000
    }
}

impl RetryConfig {
    /// The default configuration: three attempts, starting at 100 ms,
    /// doubling up to 30 s, with a jitter of a tenth.
    pub open spec fn standard() -> RetryConfig {
        RetryConfig {
            max_attempts: 3,
            initial_delay: 100,
            max_delay: 30_000,
            backoff_multiplier: Ratio { millionths: 2_000_000 },
            jitter_percentage: Ratio { millionths: 100_000 },
        }
    }
}

impl Default for RetryConfig {
    /// Three attempts, starting at 100 ms, doubling up to 30 s, with a
    /// jitter of a tenth.
    fn default() -> (config: Self)
        ensures
            config == RetryConfig::standard(),
            config.is_valid(),
    {
        RetryConfig {
            max_attempts: 3,
            initial_delay: 100,
            max_delay: 30_000,
            backoff_multiplier: Ratio { millionths: 2_000_000 },
            jitter_percentage: Ratio { millionths: 100_000 },
        }
    }
}

/// When a credential is renewed, and how renewal is retried.
#[derive(Debug, Clone, Copy, PartialEq, Eq, Structural)]
pub struct TokenRefreshConfig {
    /// The share of a credential's lifetime after which it is renewed.
    pub expiration_refresh_ratio: Ratio,
    /// How failed renewals are retried.
    pub retry_config: RetryConfig,
}

impl TokenRefreshConfig {
    /// Whether the configuration is well formed: a refresh ratio above zero
    /// and at most one, and a well-formed retry configuration.
    pub open spec fn is_valid(self) -> bool {
        &&& self.expiration_refresh_ratio.millionths > 0
        &&& self.expiration_refresh_ratio.at_most_one()
        &&& self.retry_config.is_valid()
    }

    /// Tests [`Self::is_valid`].
    pub fn validate(&self) -> (valid: bool)
        ensures
            valid == self.is_valid(),
    {
        self.expiration_refresh_ratio.millionths > 0 && self.expiration_refresh_ratio.millionths
            <= 1_000_000 && self.retry_config.validate()
    }

    /// The same configuration with another refresh ratio.
    pub fn set_expiration_refresh_ratio(self, ratio: Ratio) -> (config: Self)
        ensures
            config == (TokenRefreshConfig { expiration_refresh_ratio: ratio, ..self }),
    {
        TokenRefreshConfig { expiration_refresh_ratio: ratio, retry_config: self.retry_config }
    }

    /// The same configuration with another retry configuration.
    pub fn set_retry_config(self, retry_config: RetryConfig) -> (config: Self)
        ensures
            config == (TokenRefreshConfig { retry_config, ..self }),
    {
        TokenRefreshConfig {
            expiration_refresh_ratio: self.expiration_refresh_ratio,
            retry_config,
        }
    }
}

impl TokenRefreshConfig {
    /// The default configuration: renewal after eight tenths of the
    /// lifetime, with the default retries.
    pub open spec fn standard() -> TokenRefreshConfig {
        TokenRefreshConfig {
            expiration_refresh_ratio: Ratio { millionths: 800_000 },
            retry_config: RetryConfig::standard(),
        }
    }
}

impl Default for TokenRefreshConfig {
    /// Renewal after eight tenths of the lifetime, with the default retries.
    fn default() -> (config: Self)
        ensures
            config == TokenRefreshConfig::standard(),
            config.is_valid(),
    {
        TokenRefreshConfig {
            expiration_refresh_ratio: Ratio { millionths: 800_000 },
            retry_config: RetryConfig::default(),
        }
    }
}

/// How often the background service looks at the cached credential.
#[derive(Debug, Clone, Copy, PartialEq, Eq, Structural)]
pub struct TokenRefreshServiceConfig {
    /// The time between two looks, in milliseconds.
    pub refresh_interval: u64,
    /// When a credential is renewed, and how renewal is retried.
    pub token_refresh_config: TokenRefreshConfig,
}

impl TokenRefreshServiceConfig {
    /// A configuration with the given interval and refresh configuration.
    pub fn new(refresh_interval: u64, token_refresh_config: TokenRefreshConfig) -> (config: Self)
        ensures
            config == (TokenRefreshServiceConfig { refresh_interval, token_refresh_config }),
    {
        TokenRefreshServiceConfig { refresh_interval, token_refresh_config }
    }

    /// The same configuration with another interval.
    pub fn set_refresh_interval(self, refresh_interval: u64) -> (config: Self)
        ensures
            config == (TokenRefreshServiceConfig { refresh_interval, ..self }),
    {
        TokenRefreshServiceConfig {
            refresh_interval,
            token_refresh_config: self.token_refresh_config,
        }
    }

    /// The same configuration with another refresh configuration.
    pub fn set_token_refresh_config(self, token_refresh_config: TokenRefreshConfig) -> (config:
        Self)
        ensures
            config == (TokenRefreshServiceConfig { token_refresh_config, ..self }),
    {
        TokenRefreshServiceConfig { refresh_interval: self.refresh_interval, token_refresh_config }
    }
}

impl TokenRefreshServiceConfig {
    /// The default configuration: a look every 60 s, with the default
    /// refresh configuration.
    pub open spec fn standard() -> TokenRefreshServiceConfig {
        TokenRefreshServiceConfig {
            refresh_interval: 60_000,
            token_refresh_config: TokenRefreshConfig::standard(),
        }
    }
}

impl Default for TokenRefreshServiceConfig {
    /// A look every 60 s, with the default refresh configuration.
    fn default() -> (config: Self)
        ensures
            config == TokenRefreshServiceConfig::standard(),
            config.token_refresh_config.is_valid(),
    {
        TokenRefreshServiceConfig {
            refresh_interval: 60_000,
            token_refresh_config: TokenRefreshConfig::default(),
        }
    }
}

/// Which span of time the refresh ratio is a share of.
#[derive(Debug, Clone, Copy, PartialEq, Eq, Structural)]
pub enum LifetimeBasis {
    /// From the receipt of the credential to its expiry.
    SinceIssuance,
    /// From the present moment to its expiry.
    Remaining,
}

/// The span of which the refresh ratio is taken, for a credential that
/// expires at `expires_at` and has not yet expired at `now`. `None` when the
/// span would be negative.
pub open spec fn lifetime_span(
    basis: LifetimeBasis,
    received_at: u64,
    expires_at: u64,
    now: u64,
) -> Option<u64> {
    match basis {
        LifetimeBasis::SinceIssuance => if expires_at >= received_at {
            Some((expires_at - received_at) as u64)
        } else {
            None
        },
        LifetimeBasis::Remaining => if expires_at >= now {
            Some((expires_at - now) as u64)
        } else {
            None
        },
    }
}

/// Whether `elapsed` has reached the ratio's share of `lifetime`. The two
/// are compared exactly, without rounding the share.
pub open spec fn share_reached(elapsed: int, lifetime: int, ratio: Ratio) -> bool {
    elapsed * (RATIO_SCALE as int) >= lifetime * (ratio.millionths as int)
}

/// The refresh threshold for a lifetime: the ratio's share of it, rounded up
/// to whole milliseconds. It is the shortest whole time that reaches the
/// share.
pub open spec fn refresh_threshold(lifetime: u64, ratio: Ratio) -> int {
    (lifetime * (ratio.millionths as int) + (RATIO_SCALE as int - 1)) / (RATIO_SCALE as int)
}

/// Whether a credential is due for renewal at `now`: it has expired; or it
/// has an expiry and the time since its receipt has reached the refresh
/// ratio's share of its lifetime; or its lifetime is negative, or the clock
/// reads earlier than the time of receipt. A credential without an expiry is
/// never due.
pub open spec fn should_refresh_at(
    creds: AuthCredentialsView,
    ratio: Ratio,
    basis: LifetimeBasis,
    now: u64,
) -> bool {
    if creds.expired_at(now) {
        true
    } else {
        match creds.expires_at {
            Some(expires_at) => match lifetime_span(basis, creds.received_at, expires_at, now) {
                Some(lifetime) => now < creds.received_at || share_reached(
                    now - creds.received_at,
                    lifetime as int,
                    ratio,
                ),
                None => true,
            },
            None => false,
        }
    }
}

/// Decides at `now` whether `credentials` are due for renewal, the refresh
/// ratio being a share of the span that `basis` names.
pub fn should_refresh_credentials_at(
    credentials: &AuthCredentials,
    config: &TokenRefreshConfig,
    basis: LifetimeBasis,
    now: u64,
) -> (due: bool)
    ensures
        due == should_refresh_at(credentials@, config.expiration_refresh_ratio, basis, now),
{
    if credentials.is_expired_at(now) {
        return true;
    }
    match credentials.expires_at {
        Some(expires_at) => {
            let start: u64 = match basis {
                LifetimeBasis::SinceIssuance => credentials.received_at,
                LifetimeBasis::Remaining => now,
            };
            if expires_at < start || now < credentials.received_at {
                true
            } else {
                let elapsed: u128 = (now - credentials.received_at) as u128;
                let lifetime: u128 = (expires_at - start) as u128;
                let share: u128 = config.expiration_refresh_ratio.millionths as u128;
                assert(lifetime * share <= 0xFFFF_FFFF_FFFF_FFFF * 0xFFFF_FFFF_FFFF_FFFF)
                    by (nonlinear_arith)
                    requires
                        lifetime <= 0xFFFF_FFFF_FFFF_FFFF,
                        share <= 0xFFFF_FFFF_FFFF_FFFF,
                ;
                elapsed * 1_000_000 >= lifetime * share
            }
        },
        None => false,
    }
}

/// Decides by the system clock whether `credentials` are due for renewal,
/// the refresh ratio being a share of the lifetime since issuance. The answer
/// is the one [`should_refresh_credentials_at`] gives for some clock reading.
pub fn should_refresh_credentials_based_on_config(
    credentials: &AuthCredentials,
    config: &TokenRefreshConfig,
) -> (due: bool)
    ensures
        exists|now: u64|
            due == #[trigger] should_refresh_at(
                credentials@,
                config.expiration_refresh_ratio,
                LifetimeBasis::SinceIssuance,
                now,
            ),
        credentials@.expires_at is None ==> !due,
{
    let now = now_millis();
    let due = should_refresh_credentials_at(credentials, config, LifetimeBasis::SinceIssuance, now);
    assert(due == should_refresh_at(
        credentials@,
        config.expiration_refresh_ratio,
        LifetimeBasis::SinceIssuance,
        now,
    ));
    due
}

/// The share of a lifetime is reached exactly when the refresh threshold is:
/// a credential that has not expired, whose lifetime is not negative and
/// whose time of receipt the clock has passed, is due exactly when it is
/// eligible for refresh at the threshold.
pub proof fn lemma_due_when_threshold_reached(
    creds: AuthCredentialsView,
    ratio: Ratio,
    basis: LifetimeBasis,
    now: u64,
)
    requires
        creds.expires_at is Some,
        !creds.expired_at(now),
        lifetime_span(basis, creds.received_at, creds.expires_at->0, now) is Some,
    ensures
        ({
            let lifetime = lifetime_span(basis, creds.received_at, creds.expires_at->0, now)->0;
            let threshold = refresh_threshold(lifetime, ratio);
            &&& share_reached(now - creds.received_at, lifetime as int, ratio) <==> now
                - creds.received_at >= threshold
            &&& should_refresh_at(creds, ratio, basis, now) <==> now < creds.received_at || now
                - creds.received_at >= threshold
            &&& threshold <= u64::MAX ==> (should_refresh_at(creds, ratio, basis, now)
                <==> creds.eligible_at(threshold as u64, now))
        }),
{
    let lifetime = lifetime_span(basis, creds.received_at, creds.expires_at->0, now)->0;
    let product = lifetime * (ratio.millionths as int);
    assert(product >= 0) by (nonlinear_arith)
        requires
            product == lifetime * (ratio.millionths as int),
            lifetime >= 0,
            ratio.millionths >= 0,
    ;
}

/// An expired credential is due for renewal whatever the ratio and the basis.
pub proof fn lemma_expired_is_due(
    creds: AuthCredentialsView,
    ratio: Ratio,
    basis: LifetimeBasis,
    now: u64,
)
    requires
        creds.expired_at(now),
    ensures
        should_refresh_at(creds, ratio, basis, now),
{
}

/// A credential without an expiry is never due for renewal.
pub proof fn lemma_no_expiry_never_due(
    creds: AuthCredentialsView,
    ratio: Ratio,
    basis: LifetimeBasis,
    now: u64,
)
    requires
        creds.expires_at is None,
    ensures
        !should_refresh_at(creds, ratio, basis, now),
{
}

/// The number of steps the random factor of a jitter is drawn from.
pub const JITTER_STEPS: u64 = 1000;

/// The largest perturbation of `delay`: the jitter share of it, rounded down.
pub open spec fn jitter_range(delay: u64, jitter_percentage: Ratio) -> int {
    jitter_percentage.of(delay as int)
}

/// The delay perturbed by the random value `random`. The value is reduced to
/// one of a thousand steps; step 500 leaves the delay as it is, lower steps
/// shorten it by up to the whole jitter range and higher steps lengthen it by
/// less than that. The result is kept between zero and the largest `u64`.
pub open spec fn jittered_delay(delay: u64, jitter_percentage: Ratio, random: u64) -> int {
    let step = (random % JITTER_STEPS) as int;
    let range = jitter_range(delay, jitter_percentage);
    if jitter_percentage.millionths == 0 {
        delay as int
    } else if step >= 500 {
        let longer = delay + range * (2 * step - 1000) / 1000;
        if longer > u64::MAX as int {
            u64::MAX as int
        } else {
            longer
        }
    } else {
        let shorter = delay - range * (1000 - 2 * step) / 1000;
        if shorter < 0 {
            0
        } else {
            shorter
        }
    }
}

/// The perturbed delay stays within the jitter range of the delay, and is
/// never negative.
pub proof fn lemma_jitter_within_range(delay: u64, jitter_percentage: Ratio, random: u64)
    ensures
        jitter_percentage.millionths == 0 ==> jittered_delay(delay, jitter_percentage, random)
            == delay,
        0 <= jitter_range(delay, jitter_percentage),
        jittered_delay(delay, jitter_percentage, random) >= 0,
        jittered_delay(delay, jitter_percentage, random) >= delay - jitter_range(
            delay,
            jitter_percentage,
        ),
        jittered_delay(delay, jitter_percentage, random) <= delay + jitter_range(
            delay,
            jitter_percentage,
        ),
        jittered_delay(delay, jitter_percentage, random) <= u64::MAX,
{
    let step = (random % JITTER_STEPS) as int;
    let range = jitter_range(delay, jitter_percentage);
    let d = delay as int;
    let m = jitter_percentage.millionths as int;
    assert(d * m >= 0) by (nonlinear_arith)
        requires
            d >= 0,
            m >= 0,
    ;
    if step >= 500 {
        let k = 2 * step - 1000;
        assert(0 <= range * k <= range * 1000) by (nonlinear_arith)
            requires
                range >= 0,
                0 <= k <= 1000,
        ;
    } else {
        let k = 1000 - 2 * step;
        assert(0 <= range * k <= range * 1000) by (nonlinear_arith)
            requires
                range >= 0,
                0 <= k <= 1000,
        ;
    }
}

/// Perturbs `delay` by the random value `random`.
pub fn apply_jitter_with(delay: u64, jitter_percentage: Ratio, random: u64) -> (jittered: u64)
    ensures
        jittered as int == jittered_delay(delay, jitter_percentage, random),
{
    if jitter_percentage.millionths == 0 {
        return delay;
    }
    let step: u64 = random % 1000;
    let range: u128 = jitter_percentage.apply_wide(delay);
    proof {
        let d = delay as int;
        let m = jitter_percentage.millionths as int;
        assert(0 <= d * m <= 0xFFFF_FFFF_FFFF_FFFF * 0xFFFF_FFFF_FFFF_FFFF) by (nonlinear_arith)
            requires
                0 <= d <= 0xFFFF_FFFF_FFFF_FFFF,
                0 <= m <= 0xFFFF_FFFF_FFFF_FFFF,
        ;
    }
    if step >= 500 {
        let factor: u128 = (2 * step - 1000) as u128;
        assert(range * factor <= 0xFFFF_FFFF_FFFF_FFFF * 0xFFFF_FFFF_FFFF_FFFF / 1_000_000 * 1000)
            by (nonlinear_arith)
            requires
                range <= 0xFFFF_FFFF_FFFF_FFFF * 0xFFFF_FFFF_FFFF_FFFF / 1_000_000,
                factor <= 1000,
        ;
        let offset: u128 = range * factor / 1000;
        let longer: u128 = delay as u128 + offset;
        if longer > u64::MAX as u128 {
            u64::MAX
        } else {
            longer as u64
        }
    } else {
        let factor: u128 = (1000 - 2 * step) as u128;
        assert(range * factor <= 0xFFFF_FFFF_FFFF_FFFF * 0xFFFF_FFFF_FFFF_FFFF / 1_000_000 * 1000)
            by (nonlinear_arith)
            requires
                range <= 0xFFFF_FFFF_FFFF_FFFF * 0xFFFF_FFFF_FFFF_FFFF / 1_000_000,
                factor <= 1000,
        ;
        let offset: u128 = range * factor / 1000;
        if offset > delay as u128 {
            0
        } else {
            delay - offset as u64
        }
    }
}

/// Perturbs `delay` by a pseudo-random value drawn from the system clock.
/// The result is the one [`apply_jitter_with`] gives for some random value,
/// so it lies within the jitter range of `delay`.
pub fn apply_jitter(delay: u64, jitter_percentage: Ratio) -> (jittered: u64)
    ensures
        exists|random: u64|
            jittered as int == #[trigger] jittered_delay(delay, jitter_percentage, random),
        jitter_percentage.millionths == 0 ==> jittered == delay,
        jittered >= delay - jitter_range(delay, jitter_percentage),
        jittered <= delay + jitter_range(delay, jitter_percentage),
{
    let random = clock_entropy();
    let jittered = apply_jitter_with(delay, jitter_percentage, random);
    proof {
        lemma_jitter_within_range(delay, jitter_percentage, random);
    }
    jittered
}

/// The delay that follows `current_delay`: the multiple of it, rounded down,
/// but no more than `max_delay`.
pub open spec fn next_delay(current_delay: u64, backoff_multiplier: Ratio, max_delay: u64) -> u64 {
    if backoff_multiplier.of(current_delay as int) > max_delay as int {
        max_delay
    } else {
        backoff_multiplier.of(current_delay as int) as u64
    }
}

/// Computes the delay that follows `current_delay` under exponential
/// backoff.
pub fn calculate_next_delay(current_delay: u64, backoff_multiplier: Ratio, max_delay: u64) -> (next:
    u64)
    ensures
        next == next_delay(current_delay, backoff_multiplier, max_delay),
        next <= max_delay,
{
    let multiplied: u128 = backoff_multiplier.apply_wide(current_delay);
    if multiplied > max_delay as u128 {
        max_delay
    } else {
        multiplied as u64
    }
}

/// The next delay never exceeds the maximum, and with a multiplier of at
/// least one it is no shorter than the current delay unless the maximum
/// cuts it.
pub proof fn lemma_next_delay_bounds(current_delay: u64, backoff_multiplier: Ratio, max_delay: u64)
    ensures
        next_delay(current_delay, backoff_multiplier, max_delay) <= max_delay,
        backoff_multiplier.at_least_one() && current_delay <= max_delay ==> next_delay(
            current_delay,
            backoff_multiplier,
            max_delay,
        ) >= current_delay,
        backoff_multiplier.at_least_one() && current_delay > max_delay ==> next_delay(
            current_delay,
            backoff_multiplier,
            max_delay,
        ) == max_delay,
{
    if backoff_multiplier.at_least_one() {
        lemma_ratio_at_least_one_grows(backoff_multiplier, current_delay);
    }
}

/// The delay in force after `failures` failed attempts.
pub open spec fn delay_after(config: RetryConfig, failures: nat) -> u64
    decreases failures,
{
    if failures == 0 {
        config.initial_delay
    } else {
        next_delay(
            delay_after(config, (failures - 1) as nat),
            config.backoff_multiplier,
            config.max_delay,
        )
    }
}

/// Under a well-formed configuration the delays never exceed the maximum and
/// never shrink from one failure to the next.
pub proof fn lemma_delays_non_decreasing(config: RetryConfig, failures: nat)
    requires
        config.is_valid(),
    ensures
        delay_after(config, failures) <= config.max_delay,
        delay_after(config, failures) <= delay_after(config, failures + 1),
{
    lemma_next_delay_bounds(
        delay_after(config, failures),
        config.backoff_multiplier,
        config.max_delay,
    );
}

} // verus!
