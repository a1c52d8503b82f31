//! The decisions of a token manager: whether the cached credential can be
//! used, and what to do after a failed call to the provider.
//!
//! A manager calls its provider, sleeps between attempts and guards its cache
//! with a lock. Those steps belong to the caller; what is decided between
//! them is decided here.

use crate::auth::AuthCredentials;
use crate::auth::AuthCredentialsView;
use crate::auth_management::apply_jitter;
use crate::auth_management::apply_jitter_with;
use crate::auth_management::calculate_next_delay;
use crate::auth_management::jitter_range;
use crate::auth_management::jittered_delay;
use crate::auth_management::next_delay;
use crate::auth_management::should_refresh_at;
use crate::auth_management::should_refresh_credentials_at;
use crate::auth_management::LifetimeBasis;
use crate::auth_management::RetryConfig;
use crate::auth_management::TokenRefreshConfig;
use crate::clock::now_millis;
use vstd::prelude::*;

verus! {

/// Where a refresh stands: how many calls to the provider have failed, and
/// the delay in force.
#[derive(Debug, Clone, Copy, PartialEq, Eq, Structural)]
pub struct RetryState {
    /// The number of failed calls so far.
    pub attempt: u32,
    /// The delay to wait, before jitter, if the next call fails too.
    pub delay: u64,
}

/// What to do after a failed call to the provider.
#[derive(Debug, Clone, Copy, PartialEq, Eq, Structural)]
pub enum RetryDecision {
    /// The attempts are used up: report the failure.
    GiveUp,
    /// Wait `wait` milliseconds, then call the provider again in state
    /// `next`.
    RetryAfter { wait: u64, next: RetryState },
}

impl RetryState {
    /// The state before the first call.
    pub open spec fn initial(config: RetryConfig) -> RetryState {
        RetryState { attempt: 0, delay: config.initial_delay }
    }

    /// Whether one more failure uses up the attempts.
    pub open spec fn exhausted(self, config: RetryConfig) -> bool {
        self.attempt + 1 >= config.max_attempts
    }

    /// The state after one more failure that did not use up the attempts.
    pub open spec fn advanced(self, config: RetryConfig) -> RetryState {
        RetryState {
            attempt: (self.attempt + 1) as u32,
            delay: next_delay(self.delay, config.backoff_multiplier, config.max_delay),
        }
    }

    /// The state before the first call.
    pub fn start(config: &RetryConfig) -> (state: Self)
        ensures
            state == Self::initial(*config),
    {
        RetryState { attempt: 0, delay: config.initial_delay }
    }

    /// Decides what follows a failed call, perturbing the wait by the random
    /// value `random`.
    pub fn on_failure_with(&self, config: &RetryConfig, random: u64) -> (decision: RetryDecision)
        ensures
            self.exhausted(*config) ==> decision == RetryDecision::GiveUp,
            !self.exhausted(*config) ==> decision == (RetryDecision::RetryAfter {
                wait: jittered_delay(self.delay, config.jitter_percentage, random) as u64,
                next: self.advanced(*config),
            }),
    {
        if self.attempt >= config.max_attempts || self.attempt + 1 >= config.max_attempts {
            RetryDecision::GiveUp
        } else {
            let wait = apply_jitter_with(self.delay, config.jitter_percentage, random);
            let delay = calculate_next_delay(
                self.delay,
                config.backoff_multiplier,
                config.max_delay,
            );
            RetryDecision::RetryAfter {
                wait,
                next: RetryState { attempt: self.attempt + 1, delay },
            }
        }
    }

    /// Decides what follows a failed call, perturbing the wait by a
    /// pseudo-random value drawn from the system clock.
    pub fn on_failure(&self, config: &RetryConfig) -> (decision: RetryDecision)
        ensures
            self.exhausted(*config) <==> decision == RetryDecision::GiveUp,
            !self.exhausted(*config) ==> decision is RetryAfter && decision->next
                == self.advanced(*config) && decision->wait >= self.delay - jitter_range(
                self.delay,
                config.jitter_percentage,
            ) && decision->wait <= self.delay + jitter_range(self.delay, config.jitter_percentage),
            !self.exhausted(*config) && config.jitter_percentage.millionths == 0
                ==> decision->wait == self.delay,
    {
        if self.attempt >= config.max_attempts || self.attempt + 1 >= config.max_attempts {
            RetryDecision::GiveUp
        } else {
            let wait = apply_jitter(self.delay, config.jitter_percentage);
            let delay = calculate_next_delay(
                self.delay,
                config.backoff_multiplier,
                config.max_delay,
            );
            RetryDecision::RetryAfter {
                wait,
                next: RetryState { attempt: self.attempt + 1, delay },
            }
        }
    }
}

/// How a refresh ended, and after how many calls to the provider.
pub enum RefreshRun {
    /// A call succeeded; `calls` counts it.
    Succeeded { calls: nat },
    /// The attempts were used up; `calls` counts them.
    Failed { calls: nat },
}

/// The course of a refresh that is in state `state` after `calls_so_far`
/// calls, when the provider succeeds on the call numbered `succeeds_on`
/// (counting from zero) and fails on every other: each failure is answered as
/// [`RetryState::on_failure`] decides.
pub open spec fn refresh_run(
    state: RetryState,
    config: RetryConfig,
    succeeds_on: Option<nat>,
    calls_so_far: nat,
) -> RefreshRun
    decreases config.max_attempts - state.attempt,
{
    if succeeds_on == Some(calls_so_far) {
        RefreshRun::Succeeded { calls: calls_so_far + 1 }
    } else if state.exhausted(config) {
        RefreshRun::Failed { calls: calls_so_far + 1 }
    } else {
        refresh_run(state.advanced(config), config, succeeds_on, calls_so_far + 1)
    }
}

/// From a state in which `attempt` failures have been counted after as many
/// calls, a refresh succeeds exactly if the provider succeeds on a call
/// within the attempts that are left, and fails after `max_attempts` calls
/// otherwise.
pub proof fn lemma_refresh_run_from(state: RetryState, config: RetryConfig, succeeds_on: Option<nat>)
    requires
        state.attempt < config.max_attempts,
        succeeds_on is Some ==> succeeds_on->0 >= state.attempt,
    ensures
        succeeds_on is Some && succeeds_on->0 < config.max_attempts ==> refresh_run(
            state,
            config,
            succeeds_on,
            state.attempt as nat,
        ) == (RefreshRun::Succeeded { calls: succeeds_on->0 + 1 }),
        succeeds_on is None || succeeds_on->0 >= config.max_attempts ==> refresh_run(
            state,
            config,
            succeeds_on,
            state.attempt as nat,
        ) == (RefreshRun::Failed { calls: config.max_attempts as nat }),
    decreases config.max_attempts - state.attempt,
{
    if succeeds_on == Some(state.attempt as nat) {
    } else if state.exhausted(config) {
    } else {
        lemma_refresh_run_from(state.advanced(config), config, succeeds_on);
    }
}

/// With a provider that always fails, a refresh with `max_attempts` of at
/// least one calls the provider exactly `max_attempts` times and fails.
pub proof fn lemma_always_failing_provider_is_called_max_attempts_times(config: RetryConfig)
    requires
        config.max_attempts >= 1,
    ensures
        refresh_run(RetryState::initial(config), config, None, 0) == (RefreshRun::Failed {
            calls: config.max_attempts as nat,
        }),
{
    lemma_refresh_run_from(RetryState::initial(config), config, None);
}

/// With a provider that fails `failures` times and then succeeds, a refresh
/// with more than `failures` attempts succeeds on call `failures + 1`.
pub proof fn lemma_success_within_attempts_is_returned(config: RetryConfig, failures: nat)
    requires
        failures < config.max_attempts,
    ensures
        refresh_run(RetryState::initial(config), config, Some(failures), 0) == (
        RefreshRun::Succeeded { calls: failures + 1 }),
{
    lemma_refresh_run_from(RetryState::initial(config), config, Some(failures));
}

/// The slot in which a token manager keeps the last credential it fetched,
/// with the configuration that says when the credential is stale.
#[derive(Debug)]
pub struct CredentialCache {
    config: TokenRefreshConfig,
    cached_credentials: Option<AuthCredentials>,
}

/// The mathematical content of a [`CredentialCache`].
pub struct CredentialCacheView {
    pub config: TokenRefreshConfig,
    pub cached: Option<AuthCredentialsView>,
}

impl CredentialCacheView {
    /// Whether the cache holds a credential that is not due for renewal at
    /// `now`.
    pub open spec fn fresh_at(self, now: u64) -> bool {
        self.cached is Some && !should_refresh_at(
            self.cached->0,
            self.config.expiration_refresh_ratio,
            LifetimeBasis::SinceIssuance,
            now,
        )
    }
}

impl View for CredentialCache {
    type V = CredentialCacheView;

    closed spec fn view(&self) -> CredentialCacheView {
        CredentialCacheView {
            config: self.config,
            cached: match self.cached_credentials {
                Some(creds) => Some(creds@),
                None => None,
            },
        }
    }
}

impl CredentialCache {
    /// An empty cache with the default configuration.
    pub fn new() -> (cache: Self)
        ensures
            cache@ == (CredentialCacheView { config: TokenRefreshConfig::standard(), cached: None }),
            cache@.config.is_valid(),
    {
        CredentialCache { config: TokenRefreshConfig::default(), cached_credentials: None }
    }

    /// An empty cache with the given configuration.
    pub fn with_config(config: TokenRefreshConfig) -> (cache: Self)
        ensures
            cache@ == (CredentialCacheView { config, cached: None }),
    {
        CredentialCache { config, cached_credentials: None }
    }

    /// The configuration of the cache.
    pub fn config(&self) -> (config: TokenRefreshConfig)
        ensures
            config == self@.config,
    {
        self.config
    }

    /// The cached credential if it can still be used at `now`: `Some` exactly
    /// if the cache holds a credential that is not due for renewal, and then
    /// a copy of it. On `None` the caller has to refresh.
    pub fn usable_at(&self, now: u64) -> (usable: Option<AuthCredentials>)
        ensures
            usable is Some <==> self@.fresh_at(now),
            usable is Some ==> Some(usable->0@) == self@.cached,
    {
        match &self.cached_credentials {
            Some(creds) => {
                if should_refresh_credentials_at(
                    creds,
                    &self.config,
                    LifetimeBasis::SinceIssuance,
                    now,
                ) {
                    None
                } else {
                    Some(creds.clone())
                }
            },
            None => None,
        }
    }

    /// The cached credential if it can still be used by the system clock.
    /// The answer is the one [`Self::usable_at`] gives for some clock
    /// reading; an empty cache gives `None`.
    pub fn usable(&self) -> (usable: Option<AuthCredentials>)
        ensures
            exists|now: u64| usable is Some <==> #[trigger] self@.fresh_at(now),
            usable is Some ==> Some(usable->0@) == self@.cached,
            self@.cached is None ==> usable is None,
    {
        let now = now_millis();
        let usable = self.usable_at(now);
        usable
    }

    /// Replaces the cached credential by `credentials`.
    pub fn store(&mut self, credentials: AuthCredentials)
        ensures
            final(self)@ == (CredentialCacheView {
                config: old(self)@.config,
                cached: Some(credentials@),
            }),
    {
        self.cached_credentials = Some(credentials);
    }

    /// The state in which a refresh of this cache starts.
    pub fn begin_refresh(&self) -> (state: RetryState)
        ensures
            state == RetryState::initial(self@.config.retry_config),
    {
        RetryState::start(&self.config.retry_config)
    }
}

/// A credential that has just been stored is used again as long as it is not
/// due for renewal, and a stale or missing one is not.
pub proof fn lemma_cache_answers_only_when_fresh(cache: CredentialCacheView, now: u64)
    ensures
        cache.cached is None ==> !cache.fresh_at(now),
        cache.cached is Some && cache.cached->0.expired_at(now) ==> !cache.fresh_at(now),
        cache.cached is Some && cache.cached->0.expires_at is None ==> cache.fresh_at(now),
{
}

} // verus!
