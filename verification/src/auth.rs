//! The credential value, its expiry policy, and the provider capability.

use crate::clock::now_millis;
use crate::types::RedisError;
use vstd::prelude::*;

verus! {

/// An immutable snapshot of a secret, with the instant it was received and
/// the instant at which it expires, if it does.
#[derive(Debug)]
pub struct AuthCredentials {
    /// The secret presented when authenticating.
    pub token: String,
    /// When the secret stops being valid; `None` means never.
    pub expires_at: Option<u64>,
    /// When the secret was received.
    pub received_at: u64,
}

/// The mathematical content of an [`AuthCredentials`].
pub struct AuthCredentialsView {
    pub token: Seq<char>,
    pub expires_at: Option<u64>,
    pub received_at: u64,
}

impl View for AuthCredentials {
    type V = AuthCredentialsView;

    open spec fn view(&self) -> AuthCredentialsView {
        AuthCredentialsView {
            token: self.token@,
            expires_at: self.expires_at,
            received_at: self.received_at,
        }
    }
}

impl AuthCredentialsView {
    /// Whether the credential has expired at `now`: it has an expiry and
    /// `now` has reached it.
    pub open spec fn expired_at(self, now: u64) -> bool {
        match self.expires_at {
            Some(expires_at) => now >= expires_at,
            None => false,
        }
    }

    /// Whether the credential may be renewed at `now`: it has an expiry and
    /// at least `refresh_threshold` has passed since it was received. A
    /// clock that reads earlier than the time of receipt counts as eligible.
    pub open spec fn eligible_at(self, refresh_threshold: u64, now: u64) -> bool {
        self.expires_at is Some && (now < self.received_at || now - self.received_at
            >= refresh_threshold)
    }
}

impl Clone for AuthCredentials {
    fn clone(&self) -> (copy: Self)
        ensures
            copy == *self,
    {
        AuthCredentials {
            token: self.token.clone(),
            expires_at: self.expires_at,
            received_at: self.received_at,
        }
    }
}

impl AuthCredentials {
    /// Credentials that never expire, received at `received_at`.
    pub fn received(token: String, received_at: u64) -> (creds: Self)
        ensures
            creds@ == (AuthCredentialsView { token: token@, expires_at: None, received_at }),
    {
        AuthCredentials { token, expires_at: None, received_at }
    }

    /// Credentials that expire at `expires_at`, received at `received_at`.
    pub fn received_with_expiration(token: String, expires_at: u64, received_at: u64) -> (creds:
        Self)
        ensures
            creds@ == (AuthCredentialsView {
                token: token@,
                expires_at: Some(expires_at),
                received_at,
            }),
    {
        AuthCredentials { token, expires_at: Some(expires_at), received_at }
    }

    /// Credentials that never expire, received now.
    pub fn new(token: String) -> (creds: Self)
        ensures
            creds@.token == token@,
            creds@.expires_at is None,
    {
        Self::received(token, now_millis())
    }

    /// Credentials that expire at `expires_at`, received now.
    pub fn with_expiration(token: String, expires_at: u64) -> (creds: Self)
        ensures
            creds@.token == token@,
            creds@.expires_at == Some(expires_at),
    {
        Self::received_with_expiration(token, expires_at, now_millis())
    }

    /// Whether the credentials have expired at `now`.
    pub fn is_expired_at(&self, now: u64) -> (expired: bool)
        ensures
            expired == self@.expired_at(now),
    {
        match self.expires_at {
            Some(expires_at) => now >= expires_at,
            None => false,
        }
    }

    /// Whether the credentials have expired by the system clock. The answer
    /// is the one [`Self::is_expired_at`] gives for some clock reading.
    pub fn is_expired(&self) -> (expired: bool)
        ensures
            exists|now: u64| expired == #[trigger] self@.expired_at(now),
            self@.expires_at is None ==> !expired,
    {
        let now = now_millis();
        let expired = self.is_expired_at(now);
        expired
    }

    /// Whether the credentials are eligible for refresh at `now`, given how
    /// long after receipt a refresh becomes due.
    pub fn eligible_for_refresh_at(&self, refresh_threshold: u64, now: u64) -> (eligible: bool)
        ensures
            eligible == self@.eligible_at(refresh_threshold, now),
    {
        match self.expires_at {
            Some(_) => now < self.received_at || now - self.received_at >= refresh_threshold,
            None => false,
        }
    }

    /// Whether the credentials are eligible for refresh by the system clock.
    /// The answer is the one [`Self::eligible_for_refresh_at`] gives for some
    /// clock reading.
    pub fn eligible_for_refresh(&self, refresh_threshold: u64) -> (eligible: bool)
        ensures
            exists|now: u64| eligible == #[trigger] self@.eligible_at(refresh_threshold, now),
            self@.expires_at is None ==> !eligible,
            self@.expires_at is Some && refresh_threshold == 0 ==> eligible,
    {
        let now = now_millis();
        let eligible = self.eligible_for_refresh_at(refresh_threshold, now);
        eligible
    }
}

/// A credential without an expiry is never expired and never eligible for
/// refresh, whatever the threshold and the time.
pub proof fn lemma_no_expiry_never_stale(creds: AuthCredentialsView, refresh_threshold: u64, now: u64)
    requires
        creds.expires_at is None,
    ensures
        !creds.expired_at(now),
        !creds.eligible_at(refresh_threshold, now),
{
}

/// A credential whose expiry lies in the past is expired.
pub proof fn lemma_past_expiry_is_expired(creds: AuthCredentialsView, now: u64)
    requires
        creds.expires_at is Some,
        creds.expires_at->0 <= now,
    ensures
        creds.expired_at(now),
{
}

/// A source of credentials. Implementations may consult a network service
/// and may fail; nothing is promised about what they return.
pub trait CredentialsProvider {
    /// Produces credentials that can be used to authenticate.
    fn get_credentials(&self) -> Result<AuthCredentials, RedisError>;
}

/// A provider that always returns the credentials it was made with.
#[derive(Debug)]
pub struct StaticCredentialsProvider {
    credentials: AuthCredentials,
}

impl View for StaticCredentialsProvider {
    type V = AuthCredentialsView;

    closed spec fn view(&self) -> AuthCredentialsView {
        self.credentials@
    }
}

impl Clone for StaticCredentialsProvider {
    fn clone(&self) -> (copy: Self)
        ensures
            copy == *self,
    {
        StaticCredentialsProvider { credentials: self.credentials.clone() }
    }
}

impl StaticCredentialsProvider {
    /// A provider of credentials that never expire.
    pub fn new(token: String) -> (provider: Self)
        ensures
            provider@.token == token@,
            provider@.expires_at is None,
    {
        StaticCredentialsProvider { credentials: AuthCredentials::new(token) }
    }

    /// A provider of credentials that expire at `expires_at`.
    pub fn with_expiration(token: String, expires_at: u64) -> (provider: Self)
        ensures
            provider@.token == token@,
            provider@.expires_at == Some(expires_at),
    {
        StaticCredentialsProvider { credentials: AuthCredentials::with_expiration(token, expires_at) }
    }

    /// A provider of the given credentials.
    pub fn from_credentials(credentials: AuthCredentials) -> (provider: Self)
        ensures
            provider@ == credentials@,
    {
        StaticCredentialsProvider { credentials }
    }

    /// The credentials this provider hands out.
    pub fn credentials(&self) -> (creds: AuthCredentials)
        ensures
            creds@ == self@,
    {
        self.credentials.clone()
    }
}

impl CredentialsProvider for StaticCredentialsProvider {
    fn get_credentials(&self) -> (result: Result<AuthCredentials, RedisError>)
        ensures
            result is Ok,
            result->Ok_0@ == self@,
    {
        Ok(self.credentials.clone())
    }
}

} // verus!
