use redis_toolkit::entra_id::authentication_failed;
use redis_toolkit::entra_id::credentials_from_token;
use redis_toolkit::entra_id::default_scopes;
use redis_toolkit::entra_id::text_is_blank;
use redis_toolkit::entra_id::validate_scopes;
use redis_toolkit::entra_id::ClientCertificateConfig;
use redis_toolkit::entra_id::EntraIdCredentialsProvider;
use redis_toolkit::entra_id::IdentityCredential;
use redis_toolkit::entra_id::REDIS_SCOPE_DEFAULT;
use redis_toolkit::types::ErrorKind;
use redis_toolkit::types::RedisError;

#[test]
fn test_entra_id_provider_creation() {
    // Test that we can create providers without panicking
    // Note: These will fail at runtime without proper Azure credentials

    let _default_provider = EntraIdCredentialsProvider::new_default();

    let _client_secret_provider = EntraIdCredentialsProvider::new_client_secret(
        "tenant".to_string(),
        "client".to_string(),
        "secret".to_string(),
    );

    let _managed_identity_provider =
        EntraIdCredentialsProvider::new_system_assigned_managed_identity();
}

#[test]
fn test_custom_scopes() {
    let custom_scopes = vec!["https://custom.scope/.default".to_string()];
    let provider =
        EntraIdCredentialsProvider::new_default_with_scopes(custom_scopes.clone()).unwrap();
    assert_eq!(provider.scopes(), &custom_scopes);
}

#[test]
fn test_scope_validation() {
    // Test empty scopes
    let result = EntraIdCredentialsProvider::new_default_with_scopes(vec![]);
    assert!(result.is_err());
    assert!(result
        .unwrap_err()
        .to_string()
        .contains("Scopes cannot be empty"));

    // Test empty string scope
    let result = EntraIdCredentialsProvider::new_default_with_scopes(vec!["".to_string()]);
    assert!(result.is_err());
    assert!(result
        .unwrap_err()
        .to_string()
        .contains("Scope cannot be empty"));

    // Test whitespace-only scope
    let result = EntraIdCredentialsProvider::new_default_with_scopes(vec!["   ".to_string()]);
    assert!(result.is_err());
    assert!(result
        .unwrap_err()
        .to_string()
        .contains("Scope cannot be empty"));

    // Test valid scope
    let result = EntraIdCredentialsProvider::new_default_with_scopes(vec![
        "https://valid.scope/.default".to_string(),
    ]);
    assert!(result.is_ok());
}

fn certificate() -> ClientCertificateConfig {
    ClientCertificateConfig {
        certificate_pem: "cert".to_string(),
        private_key_pem: "key".to_string(),
    }
}

#[test]
fn default_constructors_use_the_default_scope() {
    let expected = vec![REDIS_SCOPE_DEFAULT.to_string()];
    assert_eq!(REDIS_SCOPE_DEFAULT, "https://redis.azure.com/.default");
    assert_eq!(default_scopes(), expected);
    let provider = EntraIdCredentialsProvider::new_default().unwrap();
    assert_eq!(provider.scopes(), &expected);
    assert!(matches!(provider.credential(), IdentityCredential::DefaultChain(_)));

    let provider = EntraIdCredentialsProvider::new_client_secret(
        "tenant".to_string(),
        "client".to_string(),
        "secret".to_string(),
    )
    .unwrap();
    assert_eq!(provider.scopes(), &expected);
    assert!(matches!(provider.credential(), IdentityCredential::ClientSecret(_)));

    let provider = EntraIdCredentialsProvider::new_client_certificate(
        "tenant".to_string(),
        "client".to_string(),
        certificate(),
    )
    .unwrap();
    assert_eq!(provider.scopes(), &expected);
    assert!(matches!(provider.credential(), IdentityCredential::ClientCertificate(_)));
}

#[test]
fn a_managed_identity_is_made_or_refused_by_azure() {
    let scopes = vec!["api://scope".to_string()];
    let results = [
        EntraIdCredentialsProvider::new_system_assigned_managed_identity(),
        EntraIdCredentialsProvider::new_system_assigned_managed_identity_with_scopes(scopes.clone()),
        EntraIdCredentialsProvider::new_user_assigned_managed_identity("id".to_string()),
        EntraIdCredentialsProvider::new_user_assigned_managed_identity_with_scopes(
            "id".to_string(),
            scopes,
        ),
    ];
    for result in results {
        match result {
            Ok(provider) => {
                assert!(matches!(provider.credential(), IdentityCredential::ManagedIdentity(_)));
                assert_eq!(provider.scopes().len(), 1);
            }
            Err(err) => {
                assert_eq!(err.kind(), ErrorKind::AuthenticationFailed);
                assert_eq!(err.description, "Entra ID authentication failed");
                assert!(err.detail.is_some());
            }
        }
    }
}

#[test]
fn a_client_secret_credential_needs_tenant_client_and_secret() {
    for (tenant, client, secret) in [("", "client", "secret"), ("tenant", "", "secret"), ("tenant", "client", "")] {
        let err = EntraIdCredentialsProvider::new_client_secret(
            tenant.to_string(),
            client.to_string(),
            secret.to_string(),
        )
        .unwrap_err();
        assert_eq!(err.kind(), ErrorKind::AuthenticationFailed);
        assert_eq!(err.description, "Entra ID authentication failed");
        assert!(!err.detail.unwrap().is_empty());
    }
    // Unusable scopes are reported before a credential that cannot be made.
    let err = EntraIdCredentialsProvider::new_client_secret_with_scopes(
        String::new(),
        String::new(),
        String::new(),
        vec![],
    )
    .unwrap_err();
    assert_eq!(err.kind(), ErrorKind::InvalidClientConfig);
}

#[test]
fn a_custom_credential_needs_usable_scopes_only() {
    let scopes = vec!["a".to_string(), "b".to_string()];
    let provider = EntraIdCredentialsProvider::new_with_credential(scopes.clone()).unwrap();
    assert_eq!(provider.scopes(), &scopes);
    assert!(matches!(provider.credential(), IdentityCredential::Custom));
    assert!(EntraIdCredentialsProvider::new_with_credential(vec![" ".to_string()]).is_err());
}

#[test]
fn a_provider_is_assembled_from_a_credential_and_usable_scopes() {
    let scopes = vec!["a".to_string()];
    let provider =
        EntraIdCredentialsProvider::assemble(Ok(IdentityCredential::Custom), scopes.clone())
            .unwrap();
    assert_eq!(provider.scopes(), &scopes);

    let refused = || Err(RedisError::new(ErrorKind::IoError, "refused"));
    let err = EntraIdCredentialsProvider::assemble(refused(), scopes).unwrap_err();
    assert_eq!(err.kind(), ErrorKind::IoError);
    assert_eq!(err.description, "refused");
    // Unusable scopes come first.
    let err = EntraIdCredentialsProvider::assemble(refused(), vec![]).unwrap_err();
    assert_eq!(err.kind(), ErrorKind::InvalidClientConfig);
    let err = EntraIdCredentialsProvider::assemble(Ok(IdentityCredential::Custom), vec![])
        .unwrap_err();
    assert_eq!(
        err.description,
        "Scopes cannot be empty for Entra ID authentication"
    );
}

#[test]
fn every_constructor_rejects_unusable_scopes() {
    let blank = vec!["ok".to_string(), " \t".to_string()];
    let err = EntraIdCredentialsProvider::new_client_secret_with_scopes(
        "t".to_string(),
        "c".to_string(),
        "s".to_string(),
        blank.clone(),
    )
    .unwrap_err();
    assert_eq!(err.kind(), ErrorKind::InvalidClientConfig);
    assert_eq!(err.description, "Scope cannot be empty or whitespace-only");
    assert_eq!(err.detail, None);

    let err = EntraIdCredentialsProvider::new_with_credential(vec![]).unwrap_err();
    assert_eq!(err.kind(), ErrorKind::InvalidClientConfig);
    assert_eq!(
        err.description,
        "Scopes cannot be empty for Entra ID authentication"
    );

    let results = [
        EntraIdCredentialsProvider::new_default_with_scopes(blank.clone()),
        EntraIdCredentialsProvider::new_system_assigned_managed_identity_with_scopes(blank.clone()),
        EntraIdCredentialsProvider::new_user_assigned_managed_identity_with_scopes(
            "id".to_string(),
            blank.clone(),
        ),
        EntraIdCredentialsProvider::new_client_certificate_with_scopes(
            "t".to_string(),
            "c".to_string(),
            certificate(),
            blank,
        ),
    ];
    for result in results {
        let err = result.unwrap_err();
        assert_eq!(err.kind(), ErrorKind::InvalidClientConfig);
        assert_eq!(err.description, "Scope cannot be empty or whitespace-only");
    }
}

#[test]
fn validate_scopes_reports_the_empty_list_before_a_blank_scope() {
    assert!(validate_scopes(&vec!["a".to_string(), "b".to_string()]).is_ok());
    let err = validate_scopes(&vec![]).unwrap_err();
    assert_eq!(
        err.to_string(),
        "Scopes cannot be empty for Entra ID authentication - InvalidClientConfig"
    );
    let err = validate_scopes(&vec!["a".to_string(), "".to_string()]).unwrap_err();
    assert_eq!(
        err.to_string(),
        "Scope cannot be empty or whitespace-only - InvalidClientConfig"
    );
}

#[test]
fn blank_texts_are_those_of_white_space_only() {
    assert!(text_is_blank(""));
    assert!(text_is_blank(" \t\r\n"));
    assert!(text_is_blank("\u{00A0}\u{2003}\u{3000}\u{0085}\u{1680}\u{2028}\u{205F}"));
    assert!(!text_is_blank(" x "));
    assert!(!text_is_blank("\u{200B}"));
    assert!(!text_is_blank("\u{001C}"));
    for c in ['\u{0}', ' ', 'a', '\u{200A}', '\u{200B}', '\u{2029}', '\u{202F}', '\u{FEFF}'] {
        assert_eq!(
            redis_toolkit::entra_id::char_is_whitespace(c),
            c.is_whitespace()
        );
    }
}

#[test]
fn a_token_becomes_credentials_that_expire() {
    let creds = credentials_from_token("secret".to_string(), 1_700_000_000, 5);
    assert_eq!(creds.token, "secret");
    assert_eq!(creds.expires_at, Some(1_700_000_000_000));
    assert_eq!(creds.received_at, 5);

    let creds = credentials_from_token("secret".to_string(), -1, 5);
    assert_eq!(creds.expires_at, Some(0));
    let creds = credentials_from_token("secret".to_string(), 0, 5);
    assert_eq!(creds.expires_at, Some(0));
    let creds = credentials_from_token("secret".to_string(), i64::MAX, 5);
    assert_eq!(creds.expires_at, Some(u64::MAX));
    let creds = credentials_from_token("secret".to_string(), 18_446_744_073_709_551, 5);
    assert_eq!(creds.expires_at, Some(18_446_744_073_709_551_000));
    let creds = credentials_from_token("secret".to_string(), 18_446_744_073_709_552, 5);
    assert_eq!(creds.expires_at, Some(u64::MAX));
}

#[test]
fn a_failed_acquisition_is_an_authentication_failure() {
    let err = authentication_failed("connection refused".to_string());
    assert_eq!(err.kind(), ErrorKind::AuthenticationFailed);
    assert_eq!(err.description, "Entra ID authentication failed");
    assert_eq!(err.detail.as_deref(), Some("connection refused"));
    assert_eq!(
        err.to_string(),
        "Entra ID authentication failed - AuthenticationFailed: connection refused"
    );
}
