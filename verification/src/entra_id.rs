//! Credentials from Azure Entra ID.
//!
//! A provider is made of a credential of Azure Identity and the scopes to ask
//! tokens for. This module checks the scopes, has Azure Identity make the
//! credential, and turns what the identity service answers into the values
//! the rest of the crate works on. Asking for a token is left to the caller.

use crate::auth::AuthCredentials;
use crate::auth::AuthCredentialsView;
use crate::clock::MILLIS_PER_SECOND;
use crate::text::texts;
use crate::types::ErrorKind;
use crate::types::RedisError;
use crate::types::RedisErrorView;
use azure_identity::ClientCertificateCredential;
use azure_identity::ClientCertificateCredentialOptions;
use azure_identity::ClientSecretCredential;
use azure_identity::DefaultAzureCredential;
use azure_identity::ManagedIdentityCredential;
use azure_identity::ManagedIdentityCredentialOptions;
use azure_identity::TokenCredentialOptions;
use azure_identity::UserAssignedId;
use std::sync::Arc;
use vstd::prelude::*;
use vstd::string::StrSliceExecFns;
use vstd::string::StringExecFns;

verus! {

/// The scope asked for when none is given.
pub const REDIS_SCOPE_DEFAULT: &'static str = "https://redis.azure.com/.default";

/// The description of the error for an empty list of scopes.
pub const SCOPES_EMPTY: &'static str = "Scopes cannot be empty for Entra ID authentication";

/// The description of the error for a blank scope.
pub const SCOPE_BLANK: &'static str = "Scope cannot be empty or whitespace-only";

/// The description of the error for a failed token acquisition.
pub const AUTHENTICATION_FAILED: &'static str = "Entra ID authentication failed";

/// A client certificate and its private key, both in PEM format.
#[derive(Debug)]
pub struct ClientCertificateConfig {
    /// The client certificate in PEM format.
    pub certificate_pem: String,
    /// The private key in PEM format.
    pub private_key_pem: String,
}

impl Clone for ClientCertificateConfig {
    fn clone(&self) -> (copy: Self)
        ensures
            copy == *self,
    {
        ClientCertificateConfig {
            certificate_pem: self.certificate_pem.clone(),
            private_key_pem: self.private_key_pem.clone(),
        }
    }
}

/// Whether `c` has the Unicode property White_Space.
pub open spec fn is_whitespace(c: char) -> bool {
    let code = c as u32;
    ||| 0x0009 <= code <= 0x000D
    ||| code == 0x0020
    ||| code == 0x0085
    ||| code == 0x00A0
    ||| code == 0x1680
    ||| 0x2000 <= code <= 0x200A
    ||| code == 0x2028
    ||| code == 0x2029
    ||| code == 0x202F
    ||| code == 0x205F
    ||| code == 0x3000
}

/// Whether `text` is empty or made of white space only.
pub open spec fn is_blank(text: Seq<char>) -> bool {
    forall|i: int| 0 <= i < text.len() ==> is_whitespace(#[trigger] text[i])
}

/// Whether `scopes` can be used: there is at least one, and none is blank.
pub open spec fn scopes_valid(scopes: Seq<Seq<char>>) -> bool {
    scopes.len() > 0 && forall|i: int| 0 <= i < scopes.len() ==> !is_blank(#[trigger] scopes[i])
}

/// The error that reports unusable scopes: an empty list, or else a blank
/// scope.
pub open spec fn scopes_error(scopes: Seq<Seq<char>>) -> RedisErrorView {
    RedisErrorView {
        kind: ErrorKind::InvalidClientConfig,
        description: if scopes.len() == 0 {
            SCOPES_EMPTY@
        } else {
            SCOPE_BLANK@
        },
        detail: None,
    }
}

/// Tests whether `c` has the Unicode property White_Space.
pub fn char_is_whitespace(c: char) -> (white: bool)
    ensures
        white == is_whitespace(c),
{
    let code: u32 = c as u32;
    (0x0009 <= code && code <= 0x000D) || code == 0x0020 || code == 0x0085 || code == 0x00A0
        || code == 0x1680 || (0x2000 <= code && code <= 0x200A) || code == 0x2028 || code
        == 0x2029 || code == 0x202F || code == 0x205F || code == 0x3000
}

/// Tests whether `text` is empty or made of white space only.
pub fn text_is_blank(text: &str) -> (blank: bool)
    ensures
        blank == is_blank(text@),
{
    let len = text.unicode_len();
    let mut i: usize = 0;
    while i < len
        invariant
            len == text@.len(),
            i <= len,
            forall|j: int| 0 <= j < i ==> is_whitespace(#[trigger] text@[j]),
        decreases len - i,
    {
        if !char_is_whitespace(text.get_char(i)) {
            return false;
        }
        i = i + 1;
    }
    true
}

/// Checks that `scopes` holds at least one scope and no blank one. An empty
/// list is reported first; otherwise a blank scope is.
pub fn validate_scopes(scopes: &Vec<String>) -> (result: Result<(), RedisError>)
    ensures
        result is Ok <==> scopes_valid(texts(scopes@)),
        result is Err ==> result->Err_0@ == scopes_error(texts(scopes@)),
{
    if scopes.len() == 0 {
        return Err(RedisError::new(ErrorKind::InvalidClientConfig, SCOPES_EMPTY));
    }
    let mut i: usize = 0;
    while i < scopes.len()
        invariant
            i <= scopes.len(),
            scopes@.len() > 0,
            forall|j: int| 0 <= j < i ==> !is_blank(#[trigger] texts(scopes@)[j]),
        decreases scopes.len() - i,
    {
        if text_is_blank(scopes[i].as_str()) {
            assert(is_blank(texts(scopes@)[i as int]));
            return Err(RedisError::new(ErrorKind::InvalidClientConfig, SCOPE_BLANK));
        }
        i = i + 1;
    }
    Ok(())
}

/// The list that holds the default scope and nothing else.
pub fn default_scopes() -> (scopes: Vec<String>)
    ensures
        texts(scopes@) == seq![REDIS_SCOPE_DEFAULT@],
        scopes_valid(texts(scopes@)),
{
    let mut scopes: Vec<String> = Vec::new();
    scopes.push(String::from_str(REDIS_SCOPE_DEFAULT));
    proof {
        reveal_strlit("https://redis.azure.com/.default");
        assert(!is_whitespace(REDIS_SCOPE_DEFAULT@[0]));
    }
    scopes
}

/// The error type of Azure Core.
#[verifier::external_type_specification]
#[verifier::external_body]
pub struct ExAzureError(azure_core::Error);

/// The credential of Azure Identity that tries the sources of the
/// environment.
#[verifier::external_type_specification]
#[verifier::external_body]
pub struct ExDefaultAzureCredential(DefaultAzureCredential);

/// The credential of Azure Identity for a service principal with a secret.
#[verifier::external_type_specification]
#[verifier::external_body]
pub struct ExClientSecretCredential(ClientSecretCredential);

/// The credential of Azure Identity for a service principal with a
/// certificate.
#[verifier::external_type_specification]
#[verifier::external_body]
pub struct ExClientCertificateCredential(ClientCertificateCredential);

/// The credential of Azure Identity for a managed identity.
#[verifier::external_type_specification]
#[verifier::external_body]
pub struct ExManagedIdentityCredential(ManagedIdentityCredential);

/// Calls `DefaultAzureCredential::new`. Its source returns a credential over
/// the two command-line tools on every target but wasm32, where it returns
/// an error. As the target decides, nothing is claimed of the result.
#[verifier::external_body]
fn default_azure_credential() -> (made: Result<Arc<DefaultAzureCredential>, azure_core::Error>) {
    DefaultAzureCredential::new()
}

/// Calls `ClientSecretCredential::new` without options. It refuses an empty
/// tenant id, an empty client id and an empty secret; what it makes of other
/// values depends on the environment, and nothing is claimed of it.
#[verifier::external_body]
fn client_secret_credential(tenant_id: &str, client_id: String, client_secret: String) -> (made:
    Result<Arc<ClientSecretCredential>, azure_core::Error>)
    ensures
        tenant_id@.len() == 0 || client_id@.len() == 0 || client_secret@.len() == 0
            ==> made is Err,
{
    ClientSecretCredential::new(tenant_id, client_id, client_secret.into(), None)
}

/// Calls `ClientCertificateCredential::new` with the default options and
/// without sending the certificate chain. Whether a credential is made
/// depends on the environment, so nothing is claimed of the result.
#[verifier::external_body]
fn client_certificate_credential(
    tenant_id: String,
    client_id: String,
    certificate_pem: String,
    private_key_pem: String,
) -> (made: Result<Arc<ClientCertificateCredential>, azure_core::Error>) {
    ClientCertificateCredential::new(
        tenant_id,
        client_id,
        certificate_pem,
        private_key_pem,
        ClientCertificateCredentialOptions::new(TokenCredentialOptions::default(), false),
    )
}

/// Calls `ManagedIdentityCredential::new`: without options for the identity
/// assigned to the host, with the client id as the user-assigned identity
/// otherwise. Whether a credential is made depends on the environment, so
/// nothing is claimed of the result.
#[verifier::external_body]
fn managed_identity_credential(user_assigned_client_id: Option<String>) -> (made: Result<
    Arc<ManagedIdentityCredential>,
    azure_core::Error,
>) {
    ManagedIdentityCredential::new(
        user_assigned_client_id.map(
            |client_id|
                ManagedIdentityCredentialOptions {
                    user_assigned_id: Some(UserAssignedId::ClientId(client_id)),
                    ..Default::default()
                },
        ),
    )
}

/// Renders an error of Azure Core with its `Display` implementation. The
/// text is whatever Azure Core writes; nothing is claimed of it.
#[verifier::external_body]
fn error_message(err: &azure_core::Error) -> (text: String) {
    format!("{err}")
}

/// The credential a provider asks for tokens.
#[derive(Debug)]
pub enum IdentityCredential {
    /// The sources of the environment, tried in turn.
    DefaultChain(Arc<DefaultAzureCredential>),
    /// A service principal with a client secret.
    ClientSecret(Arc<ClientSecretCredential>),
    /// A service principal with a client certificate.
    ClientCertificate(Arc<ClientCertificateCredential>),
    /// A managed identity, assigned to the host or by the user.
    ManagedIdentity(Arc<ManagedIdentityCredential>),
    /// An identity capability that the caller keeps.
    Custom,
}

/// The way a credential is made.
#[derive(Debug, Clone, Copy, PartialEq, Eq, Structural)]
pub enum IdentityFlow {
    /// Try the credential sources of the environment in turn.
    DefaultChain,
    /// A service principal with a client secret.
    ClientSecret,
    /// A service principal with a client certificate.
    ClientCertificate,
    /// A managed identity, assigned to the host or by the user.
    ManagedIdentity,
    /// An identity capability that the caller keeps.
    Custom,
}

impl IdentityCredential {
    /// The way the credential was made.
    pub open spec fn flow(self) -> IdentityFlow {
        match self {
            IdentityCredential::DefaultChain(_) => IdentityFlow::DefaultChain,
            IdentityCredential::ClientSecret(_) => IdentityFlow::ClientSecret,
            IdentityCredential::ClientCertificate(_) => IdentityFlow::ClientCertificate,
            IdentityCredential::ManagedIdentity(_) => IdentityFlow::ManagedIdentity,
            IdentityCredential::Custom => IdentityFlow::Custom,
        }
    }
}

/// The error that reports a failed token acquisition or a credential that
/// could not be made, with the text of Azure's own error as its detail.
pub fn authentication_failed(detail: String) -> (err: RedisError)
    ensures
        err@ == (RedisErrorView {
            kind: ErrorKind::AuthenticationFailed,
            description: AUTHENTICATION_FAILED@,
            detail: Some(detail@),
        }),
{
    RedisError::with_detail(ErrorKind::AuthenticationFailed, AUTHENTICATION_FAILED, detail)
}

/// Whether `err` reports a failure of Azure: an authentication failure whose
/// detail is Azure's own message.
pub open spec fn is_azure_failure(err: RedisErrorView) -> bool {
    err.kind == ErrorKind::AuthenticationFailed && err.description == AUTHENTICATION_FAILED@
        && err.detail is Some
}

/// Turns an error of Azure Core into an error of this crate.
pub fn convert_error(err: azure_core::Error) -> (converted: RedisError)
    ensures
        is_azure_failure(converted@),
{
    authentication_failed(error_message(&err))
}

/// A provider of credentials from Azure Entra ID: the credential of Azure
/// Identity that is asked for tokens, and the scopes the tokens are for.
#[derive(Debug)]
pub struct EntraIdCredentialsProvider {
    credential_provider: IdentityCredential,
    scopes: Vec<String>,
}

impl EntraIdCredentialsProvider {
    #[verifier::type_invariant]
    spec fn has_usable_scopes(&self) -> bool {
        scopes_valid(texts(self.scopes@))
    }

    /// The way the credential of the provider was made.
    pub closed spec fn flow(&self) -> IdentityFlow {
        self.credential_provider.flow()
    }

    /// The scopes of the provider.
    pub closed spec fn scopes_spec(&self) -> Seq<Seq<char>> {
        texts(self.scopes@)
    }

    /// What a constructor returns for the scopes `scopes` and the flow
    /// `flow`: with unusable scopes the error that names the fault; with
    /// usable ones a provider of that flow and those scopes, unless Azure
    /// could not make the credential.
    pub open spec fn constructed(
        result: Result<Self, RedisError>,
        flow: IdentityFlow,
        scopes: Seq<Seq<char>>,
    ) -> bool {
        match result {
            Ok(provider) => scopes_valid(scopes) && provider.flow() == flow
                && provider.scopes_spec() == scopes,
            Err(err) => if scopes_valid(scopes) {
                is_azure_failure(err@)
            } else {
                err@ == scopes_error(scopes)
            },
        }
    }

    /// The provider of the credential `made` and the scopes `scopes`, or the
    /// error that says why there is none: unusable scopes are reported
    /// before a credential that could not be made.
    pub fn assemble(made: Result<IdentityCredential, RedisError>, scopes: Vec<String>) -> (result:
        Result<Self, RedisError>)
        ensures
            result is Ok <==> scopes_valid(texts(scopes@)) && made is Ok,
            result is Ok ==> result->Ok_0.flow() == made->Ok_0.flow()
                && result->Ok_0.scopes_spec() == texts(scopes@),
            !scopes_valid(texts(scopes@)) ==> result->Err_0@ == scopes_error(texts(scopes@)),
            scopes_valid(texts(scopes@)) && made is Err ==> result->Err_0 == made->Err_0,
    {
        match validate_scopes(&scopes) {
            Ok(()) => match made {
                Ok(credential_provider) => Ok(
                    EntraIdCredentialsProvider { credential_provider, scopes },
                ),
                Err(err) => Err(err),
            },
            Err(err) => Err(err),
        }
    }

    /// A provider that tries the credential sources of the environment, for
    /// the default scope.
    pub fn new_default() -> (result: Result<Self, RedisError>)
        ensures
            Self::constructed(result, IdentityFlow::DefaultChain, seq![REDIS_SCOPE_DEFAULT@]),
    {
        Self::new_default_with_scopes(default_scopes())
    }

    /// A provider that tries the credential sources of the environment, for
    /// the given scopes.
    pub fn new_default_with_scopes(scopes: Vec<String>) -> (result: Result<Self, RedisError>)
        ensures
            Self::constructed(result, IdentityFlow::DefaultChain, texts(scopes@)),
    {
        match validate_scopes(&scopes) {
            Ok(()) => {
                let made = match default_azure_credential() {
                    Ok(credential) => Ok(IdentityCredential::DefaultChain(credential)),
                    Err(err) => Err(convert_error(err)),
                };
                Self::assemble(made, scopes)
            },
            Err(err) => Err(err),
        }
    }

    /// A provider for a service principal with a client secret, for the
    /// default scope.
    pub fn new_client_secret(tenant_id: String, client_id: String, client_secret: String) -> (result:
        Result<Self, RedisError>)
        ensures
            Self::constructed(result, IdentityFlow::ClientSecret, seq![REDIS_SCOPE_DEFAULT@]),
            tenant_id@.len() == 0 || client_id@.len() == 0 || client_secret@.len() == 0
                ==> result is Err,
    {
        Self::new_client_secret_with_scopes(tenant_id, client_id, client_secret, default_scopes())
    }

    /// A provider for a service principal with a client secret, for the
    /// given scopes. An empty tenant id, client id or secret is refused.
    pub fn new_client_secret_with_scopes(
        tenant_id: String,
        client_id: String,
        client_secret: String,
        scopes: Vec<String>,
    ) -> (result: Result<Self, RedisError>)
        ensures
            Self::constructed(result, IdentityFlow::ClientSecret, texts(scopes@)),
            tenant_id@.len() == 0 || client_id@.len() == 0 || client_secret@.len() == 0
                ==> result is Err,
    {
        match validate_scopes(&scopes) {
            Ok(()) => {
                let made = match client_secret_credential(
                    tenant_id.as_str(),
                    client_id,
                    client_secret,
                ) {
                    Ok(credential) => Ok(IdentityCredential::ClientSecret(credential)),
                    Err(err) => Err(convert_error(err)),
                };
                Self::assemble(made, scopes)
            },
            Err(err) => Err(err),
        }
    }

    /// A provider for a service principal with a client certificate, for the
    /// default scope.
    pub fn new_client_certificate(
        tenant_id: String,
        client_id: String,
        certificate_config: ClientCertificateConfig,
    ) -> (result: Result<Self, RedisError>)
        ensures
            Self::constructed(result, IdentityFlow::ClientCertificate, seq![REDIS_SCOPE_DEFAULT@]),
    {
        Self::new_client_certificate_with_scopes(
            tenant_id,
            client_id,
            certificate_config,
            default_scopes(),
        )
    }

    /// A provider for a service principal with a client certificate, for the
    /// given scopes.
    pub fn new_client_certificate_with_scopes(
        tenant_id: String,
        client_id: String,
        certificate_config: ClientCertificateConfig,
        scopes: Vec<String>,
    ) -> (result: Result<Self, RedisError>)
        ensures
            Self::constructed(result, IdentityFlow::ClientCertificate, texts(scopes@)),
    {
        match validate_scopes(&scopes) {
            Ok(()) => {
                let made = match client_certificate_credential(
                    tenant_id,
                    client_id,
                    certificate_config.certificate_pem,
                    certificate_config.private_key_pem,
                ) {
                    Ok(credential) => Ok(IdentityCredential::ClientCertificate(credential)),
                    Err(err) => Err(convert_error(err)),
                };
                Self::assemble(made, scopes)
            },
            Err(err) => Err(err),
        }
    }

    /// A provider for the managed identity assigned to the host, for the
    /// default scope.
    pub fn new_system_assigned_managed_identity() -> (result: Result<Self, RedisError>)
        ensures
            Self::constructed(result, IdentityFlow::ManagedIdentity, seq![REDIS_SCOPE_DEFAULT@]),
    {
        Self::new_system_assigned_managed_identity_with_scopes(default_scopes())
    }

    /// A provider for the managed identity assigned to the host, for the
    /// given scopes.
    pub fn new_system_assigned_managed_identity_with_scopes(scopes: Vec<String>) -> (result: Result<
        Self,
        RedisError,
    >)
        ensures
            Self::constructed(result, IdentityFlow::ManagedIdentity, texts(scopes@)),
    {
        Self::managed_identity(None, scopes)
    }

    /// A provider for a managed identity assigned by the user, for the
    /// default scope.
    pub fn new_user_assigned_managed_identity(client_id: String) -> (result: Result<
        Self,
        RedisError,
    >)
        ensures
            Self::constructed(result, IdentityFlow::ManagedIdentity, seq![REDIS_SCOPE_DEFAULT@]),
    {
        Self::new_user_assigned_managed_identity_with_scopes(client_id, default_scopes())
    }

    /// A provider for a managed identity assigned by the user, for the given
    /// scopes.
    pub fn new_user_assigned_managed_identity_with_scopes(
        client_id: String,
        scopes: Vec<String>,
    ) -> (result: Result<Self, RedisError>)
        ensures
            Self::constructed(result, IdentityFlow::ManagedIdentity, texts(scopes@)),
    {
        Self::managed_identity(Some(client_id), scopes)
    }

    fn managed_identity(user_assigned_client_id: Option<String>, scopes: Vec<String>) -> (result:
        Result<Self, RedisError>)
        ensures
            Self::constructed(result, IdentityFlow::ManagedIdentity, texts(scopes@)),
    {
        match validate_scopes(&scopes) {
            Ok(()) => {
                let made = match managed_identity_credential(user_assigned_client_id) {
                    Ok(credential) => Ok(IdentityCredential::ManagedIdentity(credential)),
                    Err(err) => Err(convert_error(err)),
                };
                Self::assemble(made, scopes)
            },
            Err(err) => Err(err),
        }
    }

    /// A provider for an identity capability that the caller keeps, for the
    /// given scopes: `Ok` exactly if the scopes are usable.
    pub fn new_with_credential(scopes: Vec<String>) -> (result: Result<Self, RedisError>)
        ensures
            Self::constructed(result, IdentityFlow::Custom, texts(scopes@)),
            result is Ok <==> scopes_valid(texts(scopes@)),
    {
        Self::assemble(Ok(IdentityCredential::Custom), scopes)
    }

    /// The credential that is asked for tokens.
    pub fn credential(&self) -> (credential: &IdentityCredential)
        ensures
            credential.flow() == self.flow(),
    {
        &self.credential_provider
    }

    /// The scopes tokens are asked for: at least one, and none of them
    /// blank.
    pub fn scopes(&self) -> (scopes: &Vec<String>)
        ensures
            texts(scopes@) == self.scopes_spec(),
            scopes_valid(texts(scopes@)),
    {
        proof {
            use_type_invariant(self);
        }
        &self.scopes
    }
}

/// The instant, in milliseconds since the Unix epoch, that lies
/// `unix_seconds` seconds after it: an instant before the epoch is taken as
/// the epoch, and one beyond the largest `u64` as that.
pub open spec fn expiry_millis(unix_seconds: i64) -> u64 {
    if unix_seconds <= 0 {
        0
    } else if unix_seconds * MILLIS_PER_SECOND > u64::MAX {
        u64::MAX
    } else {
        (unix_seconds * MILLIS_PER_SECOND) as u64
    }
}

/// The credentials for a token that an identity service issued: the secret,
/// its expiry as the service gives it (in seconds since the Unix epoch), and
/// the instant of receipt.
pub fn credentials_from_token(secret: String, expires_on: i64, received_at: u64) -> (creds:
    AuthCredentials)
    ensures
        creds@ == (AuthCredentialsView {
            token: secret@,
            expires_at: Some(expiry_millis(expires_on)),
            received_at,
        }),
{
    let expires_at: u64 = if expires_on <= 0 {
        0
    } else {
        let seconds: u128 = expires_on as u128;
        let millis: u128 = seconds * 1000;
        if millis > u64::MAX as u128 {
            u64::MAX
        } else {
            millis as u64
        }
    };
    AuthCredentials::received_with_expiration(secret, expires_at, received_at)
}

} // verus!
