use vsn::auth::{
    create_oidc_pkce_transaction, create_recovery_codes, create_totp_enrollment, default_saml_name_id,
    default_scopes, hash_password, match_recovery_code, recovery_code_text, requires_step_up, validate_oidc,
    validate_oidc_transaction, validate_policy, validate_saml, verify_password, verify_totp,
    AuthPolicyError, EnterpriseAuthPolicy, OidcProviderConfig, SamlProviderConfig, SessionAssurance,
};

fn oidc() -> OidcProviderConfig {
    OidcProviderConfig {
        id: "corp".into(),
        issuer: "https://id.example.com".into(),
        client_id: "vsn".into(),
        redirect_url: "https://control.example.com/callback".into(),
        authorization_endpoint: Some("https://id.example.com/authorize".into()),
        end_session_endpoint: Some("https://id.example.com/logout".into()),
        post_logout_redirect_url: Some("https://control.example.com/logout-complete".into()),
        client_secret_env: None,
        mfa_assured: false,
        scopes: default_scopes(),
        pkce_required: true,
    }
}

#[test]
fn oidc_requires_https_and_pkce() {
    let mut p = oidc();
    assert!(validate_oidc(&p).is_ok());
    p.pkce_required = false;
    assert!(validate_oidc(&p).is_err());
}

#[test]
fn oidc_rejections_name_the_field() {
    let mut p = oidc();
    p.issuer = "http://id.example.com".into();
    assert_eq!(validate_oidc(&p), Err(AuthPolicyError::Invalid("OIDC issuer must use HTTPS".into())));
    let mut q = oidc();
    q.redirect_url = "http://localhost:8080/cb".into();
    assert!(validate_oidc(&q).is_ok());
    q.scopes = vec!["profile".into()];
    assert_eq!(validate_oidc(&q), Err(AuthPolicyError::Invalid("OIDC openid scope is required".into())));
    let mut r = oidc();
    r.client_secret_env = Some("lower".into());
    assert!(validate_oidc(&r).is_err());
}

#[test]
fn high_risk_can_require_passkey() {
    let mut p = EnterpriseAuthPolicy::default();
    p.require_passkey_for_high_risk = true;
    let s = SessionAssurance {
        authenticated: true,
        mfa_verified: true,
        passkey_verified: false,
        admin: true,
        authenticated_at_unix_ms: 0,
        last_activity_unix_ms: 0,
    };
    assert!(requires_step_up(&p, &s, true));
}

#[test]
fn verified_session_needs_no_step_up() {
    let p = EnterpriseAuthPolicy::default();
    let s = SessionAssurance {
        authenticated: true,
        mfa_verified: true,
        passkey_verified: false,
        admin: true,
        authenticated_at_unix_ms: 0,
        last_activity_unix_ms: 0,
    };
    assert!(!requires_step_up(&p, &s, true));
    let anonymous = SessionAssurance { authenticated: false, ..s };
    assert!(requires_step_up(&p, &anonymous, false));
}

#[test]
fn saml_policy_requires_https_and_secret_indirection() {
    let p = SamlProviderConfig {
        id: "corp-saml".into(),
        entity_id: "urn:vsn:corp".into(),
        idp_entity_id: "https://id.example.com/entity".into(),
        sso_url: "https://id.example.com/sso".into(),
        slo_url: Some("https://id.example.com/slo".into()),
        acs_url: "https://control.example.com/v1/auth/saml/callback".into(),
        audience: "urn:vsn:corp".into(),
        x509_certificate_pem_env: "VSN_SAML_CORP_CERT".into(),
        name_id_format: default_saml_name_id(),
        email_attribute: "email".into(),
        mfa_assured: true,
    };
    assert!(validate_saml(&p).is_ok());
    let mut q = p.clone();
    q.idp_entity_id = " ".into();
    assert_eq!(
        validate_saml(&q),
        Err(AuthPolicyError::Invalid("SAML idp_entity_id is required and invalid".into()))
    );
}

#[test]
fn policy_limits() {
    let mut p = EnterpriseAuthPolicy::default();
    assert!(validate_policy(&p).is_ok());
    p.idle_ttl_minutes = 600;
    p.session_ttl_minutes = 300;
    assert_eq!(
        validate_policy(&p),
        Err(AuthPolicyError::Invalid("idle_ttl_minutes must be <= session ttl".into()))
    );
    let mut q = EnterpriseAuthPolicy::default();
    q.allowed_factors.clear();
    assert!(validate_policy(&q).is_err());
    let mut r = EnterpriseAuthPolicy::default();
    let mut bad = oidc();
    bad.id = "x".into();
    r.oidc_providers.push(bad);
    assert_eq!(
        validate_policy(&r),
        Err(AuthPolicyError::Invalid("provider id must be a safe identifier".into()))
    );
}

#[test]
fn password_hash_roundtrip() {
    let h = hash_password("correct horse battery staple").unwrap();
    assert!(verify_password("correct horse battery staple", &h).unwrap());
    assert!(!verify_password("wrong-password-value", &h).unwrap());
}

#[test]
fn password_rules() {
    assert!(hash_password("short").is_err());
    assert_eq!(
        verify_password("whatever-password", "not a phc string"),
        Err(AuthPolicyError::Invalid("stored password hash is malformed".into()))
    );
}

#[test]
fn totp_enrollment_has_secret_and_url() {
    let e = create_totp_enrollment("user@example.com", "VSN").unwrap();
    assert!(!e.secret_base32.is_empty());
    assert!(e.otpauth_url.starts_with("otpauth://totp/"));
    assert_eq!(e.secret_base32.len(), 32);
    assert!(e.otpauth_url.contains(&e.secret_base32));
}

#[test]
fn totp_labels_refuse_colons() {
    assert_eq!(
        create_totp_enrollment("a:b", "VSN").map(|_| ()),
        Err(AuthPolicyError::Invalid("TOTP account name is invalid".into()))
    );
}

#[test]
fn totp_code_matches_its_step() {
    let secret = "GEZDGNBVGY3TQOJQGEZDGNBVGY3TQOJQ";
    let v = verify_totp(secret, "287082", 59).unwrap();
    assert!(v.valid);
    assert_eq!(v.matched_step, Some(1));
    let w = verify_totp(secret, "000000", 59).unwrap();
    assert!(!w.valid);
    let x = verify_totp(secret, "12a456", 59).unwrap();
    assert!(!x.valid && x.matched_step.is_none());
    assert!(verify_totp("not base32!", "123456", 59).is_err());
}

#[test]
fn recovery_codes_are_single_use_ready() {
    let set = create_recovery_codes(4).unwrap();
    assert_eq!(set.codes.len(), 4);
    assert_eq!(match_recovery_code(&set.codes[0], &set.hashes).unwrap(), Some(0));
    assert_eq!(match_recovery_code("AAAA-BBBB-CCCC-DDDD", &set.hashes).unwrap(), None);
}

#[test]
fn recovery_code_shape_and_count() {
    assert!(create_recovery_codes(3).is_err());
    let set = create_recovery_codes(4).unwrap();
    let code = &set.codes[1];
    assert_eq!(code.len(), 19);
    assert_eq!(match_recovery_code(&format!("  {}  ", code.to_lowercase()), &set.hashes).unwrap(), Some(1));
    assert_eq!(match_recovery_code("short", &set.hashes).unwrap(), None);
}

#[test]
fn oidc_pkce_has_s256_material() {
    let t = create_oidc_pkce_transaction(1_700_000_000_000).unwrap();
    assert!(t.code_verifier.len() >= 43);
    assert_eq!(t.code_challenge.len(), 43);
    assert!(validate_oidc_transaction(&t, &t.state, t.created_at_unix_ms + 1000, 300000).is_ok());
}

#[test]
fn oidc_transaction_expiry_and_state() {
    let t = create_oidc_pkce_transaction(1000).unwrap();
    assert_eq!(
        validate_oidc_transaction(&t, "other", 1000, 300000),
        Err(AuthPolicyError::Invalid("OIDC state mismatch".into()))
    );
    assert_eq!(
        validate_oidc_transaction(&t, &t.state, 1000 + 300001, 300000),
        Err(AuthPolicyError::Invalid("OIDC transaction expired".into()))
    );
    assert_eq!(
        validate_oidc_transaction(&t, &t.state, 1000, 0),
        Err(AuthPolicyError::Invalid("OIDC transaction TTL is invalid".into()))
    );
}

#[test]
fn recovery_code_groups_base32_of_its_bytes() {
    assert_eq!(recovery_code_text(&[0u8; 10]), "AAAA-AAAA-AAAA-AAAA");
    assert_eq!(recovery_code_text(&[255u8; 10]), "7777-7777-7777-7777");
}

#[test]
fn malformed_hash_refuses_every_password() {
    for p in ["whatever-password", "correct horse battery staple", ""] {
        assert_eq!(
            verify_password(p, "plainly not a hash"),
            Err(AuthPolicyError::Invalid("stored password hash is malformed".into()))
        );
    }
}

#[test]
fn totp_enrollment_with_plain_labels_succeeds() {
    let e = create_totp_enrollment("  dev@example.com ", " VSN Local ").unwrap();
    assert!(e.otpauth_url.starts_with("otpauth://totp/"));
    assert_eq!(e.secret_base32.len(), 32);
}
