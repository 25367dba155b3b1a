//! Enterprise authentication policy: the checks on session lifetimes, MFA
//! factors and OIDC/SAML providers, when a session must step up, and the
//! credential material (password hashes, TOTP, recovery codes, OIDC PKCE).
use crate::text::{
    blen, concat, has_control, has_prefix, is_token, starts_with, str_eq, token_ok, trim,
    trim_text, ByteClass,
};
use vstd::prelude::*;

verus! {

#[derive(Debug, Clone, PartialEq, Eq)]
pub enum AuthPolicyError {
    Invalid(String),
}

impl AuthPolicyError {
    /// The error as it is reported.
    pub fn message(&self) -> (r: String)
        ensures
            r@ == match self {
                AuthPolicyError::Invalid(m) => "invalid enterprise auth configuration: "@ + m@,
            },
    {
        match self {
            AuthPolicyError::Invalid(m) => concat("invalid enterprise auth configuration: ", m.as_str()),
        }
    }
}

/// Whether `r` failed with `Invalid(msg)`.
pub open spec fn auth_invalid<T>(r: Result<T, AuthPolicyError>, msg: Seq<char>) -> bool {
    r matches Err(AuthPolicyError::Invalid(m)) && m@ == msg
}

fn invalid(msg: &str) -> (e: AuthPolicyError)
    ensures
        e matches AuthPolicyError::Invalid(m) && m@ == msg@,
{
    AuthPolicyError::Invalid(msg.to_owned())
}

fn text(v: &str) -> (r: String)
    ensures
        r@ == v@,
{
    v.to_owned()
}

/// The result of a check that fails with `Invalid(m)` exactly when `refusal`
/// is `Some(m)`.
pub open spec fn refused_as<T>(r: Result<T, AuthPolicyError>, refusal: Option<Seq<char>>) -> bool {
    match refusal {
        Some(m) => auth_invalid(r, m),
        None => r is Ok,
    }
}

#[derive(Debug, Clone, PartialEq, Eq)]
pub struct OidcProviderConfig {
    pub id: String,
    pub issuer: String,
    pub client_id: String,
    pub redirect_url: String,
    pub authorization_endpoint: Option<String>,
    pub end_session_endpoint: Option<String>,
    pub post_logout_redirect_url: Option<String>,
    pub client_secret_env: Option<String>,
    pub mfa_assured: bool,
    pub scopes: Vec<String>,
    pub pkce_required: bool,
}

/// The scopes asked for when none are configured: `openid`, `profile`, `email`.
pub fn default_scopes() -> (r: Vec<String>)
    ensures
        r@.map_values(|s: String| s@) =~= seq!["openid"@, "profile"@, "email"@],
{
    let mut v: Vec<String> = Vec::new();
    v.push(text("openid"));
    v.push(text("profile"));
    v.push(text("email"));
    v
}

#[derive(Debug, Clone, PartialEq, Eq)]
pub struct SamlProviderConfig {
    pub id: String,
    /// The service provider's entity id, sent as the AuthnRequest issuer.
    pub entity_id: String,
    /// The identity provider's expected entity id; it must be set.
    pub idp_entity_id: String,
    pub sso_url: String,
    pub slo_url: Option<String>,
    pub acs_url: String,
    pub audience: String,
    pub x509_certificate_pem_env: String,
    pub name_id_format: String,
    pub email_attribute: String,
    pub mfa_assured: bool,
}

/// The NameID format asked for when none is configured.
pub fn default_saml_name_id() -> (r: String)
    ensures
        r@ == "urn:oasis:names:tc:SAML:1.1:nameid-format:emailAddress"@,
{
    text("urn:oasis:names:tc:SAML:1.1:nameid-format:emailAddress")
}

/// The attribute read as the e-mail address when none is configured.
pub fn default_email_attribute() -> (r: String)
    ensures
        r@ == "email"@,
{
    text("email")
}

#[derive(Debug, Clone, Copy, PartialEq, Eq, Structural)]
pub enum MfaFactor {
    Passkey,
    Totp,
    SecurityKey,
    RecoveryCode,
}

#[derive(Debug, Clone, PartialEq, Eq)]
pub struct EnterpriseAuthPolicy {
    pub session_ttl_minutes: u32,
    pub idle_ttl_minutes: u32,
    pub require_mfa_for_admin: bool,
    pub require_step_up_for_high_risk: bool,
    pub require_passkey_for_high_risk: bool,
    pub allowed_factors: Vec<MfaFactor>,
    pub oidc_providers: Vec<OidcProviderConfig>,
    pub saml_providers: Vec<SamlProviderConfig>,
}

impl Default for EnterpriseAuthPolicy {
    /// Sessions of 8 hours with 1 hour idle, MFA for administrators, step-up
    /// for high-risk actions, every factor allowed, no federated provider.
    fn default() -> (r: Self)
        ensures
            r.session_ttl_minutes == 480,
            r.idle_ttl_minutes == 60,
            r.require_mfa_for_admin,
            r.require_step_up_for_high_risk,
            !r.require_passkey_for_high_risk,
            r.allowed_factors@ == seq![
                MfaFactor::Passkey,
                MfaFactor::Totp,
                MfaFactor::SecurityKey,
                MfaFactor::RecoveryCode,
            ],
            r.oidc_providers@.len() == 0,
            r.saml_providers@.len() == 0,
    {
        let mut factors: Vec<MfaFactor> = Vec::new();
        factors.push(MfaFactor::Passkey);
        factors.push(MfaFactor::Totp);
        factors.push(MfaFactor::SecurityKey);
        factors.push(MfaFactor::RecoveryCode);
        EnterpriseAuthPolicy {
            session_ttl_minutes: 480,
            idle_ttl_minutes: 60,
            require_mfa_for_admin: true,
            require_step_up_for_high_risk: true,
            require_passkey_for_high_risk: false,
            allowed_factors: factors,
            oidc_providers: Vec::new(),
            saml_providers: Vec::new(),
        }
    }
}

#[derive(Debug, Clone, Copy, PartialEq, Eq, Structural)]
pub struct SessionAssurance {
    pub authenticated: bool,
    pub mfa_verified: bool,
    pub passkey_verified: bool,
    pub admin: bool,
    pub authenticated_at_unix_ms: u128,
    pub last_activity_unix_ms: u128,
}

// ---------------------------------------------------------------------------
// Provider checks
// ---------------------------------------------------------------------------

/// Provider ids: 2 to 96 bytes of letters, digits, `-`, `_` and `.`.
pub open spec fn is_safe_id(v: Seq<char>) -> bool {
    is_token(v, 2, 96, ByteClass::DottedIdent)
}

/// Environment-variable names: 3 to 128 bytes of upper-case letters, digits
/// and `_`.
pub open spec fn is_env_name(v: Seq<char>) -> bool {
    is_token(v, 3, 128, ByteClass::EnvName)
}

/// HTTPS, or (where `loopback_ok`) plain HTTP to 127.0.0.1 or localhost.
pub open spec fn secure_url(v: Seq<char>, loopback_ok: bool) -> bool {
    starts_with(v, "https://"@) || (loopback_ok && (starts_with(v, "http://127.0.0.1"@)
        || starts_with(v, "http://localhost"@)))
}

pub fn is_secure_url(value: &str, loopback_ok: bool) -> (r: bool)
    ensures
        r == secure_url(value@, loopback_ok),
{
    has_prefix(value, "https://") || (loopback_ok && (has_prefix(value, "http://127.0.0.1")
        || has_prefix(value, "http://localhost")))
}

pub fn safe_id(value: &str) -> (r: Result<(), AuthPolicyError>)
    ensures
        is_safe_id(value@) ==> r is Ok,
        !is_safe_id(value@) ==> auth_invalid(r, "provider id must be a safe identifier"@),
{
    if token_ok(value, 2, 96, ByteClass::DottedIdent) {
        Ok(())
    } else {
        Err(invalid("provider id must be a safe identifier"))
    }
}

/// A text field that is blank, longer than `max` bytes, or (where
/// `no_control`) holds a control character.
pub open spec fn bad_text(v: Seq<char>, max: int, no_control: bool) -> bool {
    trim(v).len() == 0 || blen(v) > max || (no_control && has_control(v))
}

fn text_bad(v: &str, max: usize, no_control: bool) -> (r: bool)
    ensures
        r == bad_text(v@, max as int, no_control),
{
    trim_text(v).as_str().unicode_len() == 0 || v.as_bytes().len() > max || (no_control
        && crate::text::any_control(v))
}

pub open spec fn oview(o: Option<String>) -> Option<Seq<char>> {
    match o {
        Some(s) => Some(s@),
        None => None,
    }
}

/// An optional URL that is set and not secure.
pub open spec fn insecure_opt(o: Option<Seq<char>>, loopback_ok: bool) -> bool {
    o matches Some(u) && !secure_url(u, loopback_ok)
}

fn opt_insecure(o: &Option<String>, loopback_ok: bool) -> (r: bool)
    ensures
        r == insecure_opt(oview(*o), loopback_ok),
{
    match o {
        Some(u) => !is_secure_url(u.as_str(), loopback_ok),
        None => false,
    }
}

/// Why an OIDC provider is refused, if it is.
pub open spec fn oidc_refusal(p: OidcProviderConfig) -> Option<Seq<char>> {
    let scopes = p.scopes@.map_values(|s: String| s@);
    if !is_safe_id(p.id@) {
        Some("provider id must be a safe identifier"@)
    } else if !secure_url(p.issuer@, false) {
        Some("OIDC issuer must use HTTPS"@)
    } else if trim(p.client_id@).len() == 0 || blen(p.client_id@) > 512 {
        Some("OIDC client_id is invalid"@)
    } else if !secure_url(p.redirect_url@, true) {
        Some("OIDC redirect_url must use HTTPS except loopback development"@)
    } else if insecure_opt(oview(p.authorization_endpoint), false) {
        Some("OIDC authorization_endpoint must use HTTPS"@)
    } else if insecure_opt(oview(p.end_session_endpoint), false) {
        Some("OIDC end_session_endpoint must use HTTPS"@)
    } else if insecure_opt(oview(p.post_logout_redirect_url), true) {
        Some("OIDC post_logout_redirect_url must use HTTPS except loopback development"@)
    } else if (oview(p.client_secret_env) matches Some(n) && !is_env_name(n)) {
        Some("OIDC client_secret_env must be an uppercase environment-variable name"@)
    } else if !p.pkce_required {
        Some("OIDC PKCE must remain enabled"@)
    } else if !scopes.contains("openid"@) {
        Some("OIDC openid scope is required"@)
    } else if scopes.len() > 32 || exists|i: int|
        0 <= i < scopes.len() && ((#[trigger] scopes[i]).len() == 0 || blen(scopes[i]) > 96) {
        Some("OIDC scope list is invalid"@)
    } else {
        None
    }
}

/// An OIDC provider: HTTPS endpoints (plain HTTP only for loopback
/// redirects), PKCE on, the `openid` scope, and sane ids and names.
pub fn validate_oidc(provider: &OidcProviderConfig) -> (r: Result<(), AuthPolicyError>)
    ensures
        refused_as(r, oidc_refusal(*provider)),
{
    safe_id(provider.id.as_str())?;
    if !is_secure_url(provider.issuer.as_str(), false) {
        return Err(invalid("OIDC issuer must use HTTPS"));
    }
    if trim_text(provider.client_id.as_str()).as_str().unicode_len() == 0
        || provider.client_id.as_str().as_bytes().len() > 512 {
        return Err(invalid("OIDC client_id is invalid"));
    }
    if !is_secure_url(provider.redirect_url.as_str(), true) {
        return Err(invalid("OIDC redirect_url must use HTTPS except loopback development"));
    }
    if opt_insecure(&provider.authorization_endpoint, false) {
        return Err(invalid("OIDC authorization_endpoint must use HTTPS"));
    }
    if opt_insecure(&provider.end_session_endpoint, false) {
        return Err(invalid("OIDC end_session_endpoint must use HTTPS"));
    }
    if opt_insecure(&provider.post_logout_redirect_url, true) {
        return Err(
            invalid("OIDC post_logout_redirect_url must use HTTPS except loopback development"),
        );
    }
    if let Some(name) = &provider.client_secret_env {
        if !token_ok(name.as_str(), 3, 128, ByteClass::EnvName) {
            return Err(
                invalid("OIDC client_secret_env must be an uppercase environment-variable name"),
            );
        }
    }
    if !provider.pkce_required {
        return Err(invalid("OIDC PKCE must remain enabled"));
    }
    let ghost scopes = provider.scopes@.map_values(|s: String| s@);
    let mut has_openid = false;
    let mut bad = false;
    let mut i: usize = 0;
    while i < provider.scopes.len()
        invariant
            scopes == provider.scopes@.map_values(|s: String| s@),
            0 <= i <= scopes.len(),
            has_openid == exists|j: int| 0 <= j < i && scopes[j] == "openid"@,
            bad == exists|j: int|
                0 <= j < i && ((#[trigger] scopes[j]).len() == 0 || blen(scopes[j]) > 96),
        decreases scopes.len() - i,
    {
        let sc = provider.scopes[i].as_str();
        assert(scopes[i as int] == sc@);
        if str_eq(sc, "openid") {
            has_openid = true;
        }
        if sc.unicode_len() == 0 || sc.as_bytes().len() > 96 {
            bad = true;
        }
        i += 1;
    }
    if !has_openid {
        return Err(invalid("OIDC openid scope is required"));
    }
    assert(scopes.contains("openid"@));
    if provider.scopes.len() > 32 || bad {
        return Err(invalid("OIDC scope list is invalid"));
    }
    Ok(())
}

/// Why a SAML provider is refused, if it is.
pub open spec fn saml_refusal(p: SamlProviderConfig) -> Option<Seq<char>> {
    if !is_safe_id(p.id@) {
        Some("provider id must be a safe identifier"@)
    } else if bad_text(p.entity_id@, 1024, true) {
        Some("SAML SP entity_id is invalid"@)
    } else if bad_text(p.idp_entity_id@, 1024, true) {
        Some("SAML idp_entity_id is required and invalid"@)
    } else if !secure_url(p.sso_url@, false) {
        Some("SAML SSO URL must use HTTPS"@)
    } else if insecure_opt(oview(p.slo_url), false) {
        Some("SAML SLO URL must use HTTPS"@)
    } else if !secure_url(p.acs_url@, true) {
        Some("SAML ACS URL must use HTTPS except loopback development"@)
    } else if bad_text(p.audience@, 1024, true) {
        Some("SAML audience is invalid"@)
    } else if !is_env_name(p.x509_certificate_pem_env@) {
        Some("SAML certificate environment variable name is invalid"@)
    } else if bad_text(p.name_id_format@, 512, false) {
        Some("SAML NameID format is invalid"@)
    } else if bad_text(p.email_attribute@, 256, true) {
        Some("SAML email attribute is invalid"@)
    } else {
        None
    }
}

/// A SAML provider: HTTPS endpoints (plain HTTP only for a loopback ACS),
/// both entity ids set, and the certificate named by an environment
/// variable rather than inlined.
pub fn validate_saml(provider: &SamlProviderConfig) -> (r: Result<(), AuthPolicyError>)
    ensures
        refused_as(r, saml_refusal(*provider)),
{
    safe_id(provider.id.as_str())?;
    if text_bad(provider.entity_id.as_str(), 1024, true) {
        return Err(invalid("SAML SP entity_id is invalid"));
    }
    if text_bad(provider.idp_entity_id.as_str(), 1024, true) {
        return Err(invalid("SAML idp_entity_id is required and invalid"));
    }
    if !is_secure_url(provider.sso_url.as_str(), false) {
        return Err(invalid("SAML SSO URL must use HTTPS"));
    }
    if opt_insecure(&provider.slo_url, false) {
        return Err(invalid("SAML SLO URL must use HTTPS"));
    }
    if !is_secure_url(provider.acs_url.as_str(), true) {
        return Err(invalid("SAML ACS URL must use HTTPS except loopback development"));
    }
    if text_bad(provider.audience.as_str(), 1024, true) {
        return Err(invalid("SAML audience is invalid"));
    }
    if !token_ok(provider.x509_certificate_pem_env.as_str(), 3, 128, ByteClass::EnvName) {
        return Err(invalid("SAML certificate environment variable name is invalid"));
    }
    if text_bad(provider.name_id_format.as_str(), 512, false) {
        return Err(invalid("SAML NameID format is invalid"));
    }
    if text_bad(provider.email_attribute.as_str(), 256, true) {
        return Err(invalid("SAML email attribute is invalid"));
    }
    Ok(())
}

/// The first refusal among OIDC providers, in order.
pub open spec fn oidc_list_refusal(s: Seq<OidcProviderConfig>) -> Option<Seq<char>>
    decreases s.len(),
{
    if s.len() == 0 {
        None
    } else if oidc_refusal(s[0]) is Some {
        oidc_refusal(s[0])
    } else {
        oidc_list_refusal(s.drop_first())
    }
}

/// The first refusal among SAML providers, in order.
pub open spec fn saml_list_refusal(s: Seq<SamlProviderConfig>) -> Option<Seq<char>>
    decreases s.len(),
{
    if s.len() == 0 {
        None
    } else if saml_refusal(s[0]) is Some {
        saml_refusal(s[0])
    } else {
        saml_list_refusal(s.drop_first())
    }
}

/// Why a policy is refused, if it is.
pub open spec fn policy_refusal(p: EnterpriseAuthPolicy) -> Option<Seq<char>> {
    if !(5 <= p.session_ttl_minutes <= 10080) {
        Some("session_ttl_minutes must be 5..10080"@)
    } else if !(1 <= p.idle_ttl_minutes <= 1440) || p.idle_ttl_minutes > p.session_ttl_minutes {
        Some("idle_ttl_minutes must be <= session ttl"@)
    } else if p.allowed_factors@.len() == 0 {
        Some("at least one MFA factor must be allowed"@)
    } else if p.require_passkey_for_high_risk && !p.allowed_factors@.contains(MfaFactor::Passkey) {
        Some("passkey is required for high-risk actions but not allowed"@)
    } else if p.oidc_providers@.len() > 32 {
        Some("too many OIDC providers"@)
    } else if p.saml_providers@.len() > 32 {
        Some("too many SAML providers"@)
    } else if oidc_list_refusal(p.oidc_providers@) is Some {
        oidc_list_refusal(p.oidc_providers@)
    } else {
        saml_list_refusal(p.saml_providers@)
    }
}

/// A policy: a session lifetime of 5 minutes to 7 days, an idle timeout of
/// at most a day and no longer than the session, at least one MFA factor
/// (the passkey among them when high-risk actions need one), at most 32
/// providers of each kind, every one of them valid.
pub fn validate_policy(policy: &EnterpriseAuthPolicy) -> (r: Result<(), AuthPolicyError>)
    ensures
        refused_as(r, policy_refusal(*policy)),
{
    if !(5 <= policy.session_ttl_minutes && policy.session_ttl_minutes <= 10080) {
        return Err(invalid("session_ttl_minutes must be 5..10080"));
    }
    if !(1 <= policy.idle_ttl_minutes && policy.idle_ttl_minutes <= 1440)
        || policy.idle_ttl_minutes > policy.session_ttl_minutes {
        return Err(invalid("idle_ttl_minutes must be <= session ttl"));
    }
    if policy.allowed_factors.len() == 0 {
        return Err(invalid("at least one MFA factor must be allowed"));
    }
    if policy.require_passkey_for_high_risk {
        let mut found = false;
        let mut i: usize = 0;
        while i < policy.allowed_factors.len()
            invariant
                0 <= i <= policy.allowed_factors@.len(),
                found == exists|j: int|
                    0 <= j < i && policy.allowed_factors@[j] == MfaFactor::Passkey,
            decreases policy.allowed_factors@.len() - i,
        {
            if policy.allowed_factors[i] == MfaFactor::Passkey {
                found = true;
            }
            i += 1;
        }
        if !found {
            return Err(invalid("passkey is required for high-risk actions but not allowed"));
        }
    }
    if policy.oidc_providers.len() > 32 {
        return Err(invalid("too many OIDC providers"));
    }
    if policy.saml_providers.len() > 32 {
        return Err(invalid("too many SAML providers"));
    }
    let ghost os = policy.oidc_providers@;
    let ghost tail = if oidc_list_refusal(os) is Some {
        oidc_list_refusal(os)
    } else {
        saml_list_refusal(policy.saml_providers@)
    };
    assert(policy_refusal(*policy) == tail);
    let mut i: usize = 0;
    assert(os.skip(0) =~= os);
    while i < policy.oidc_providers.len()
        invariant
            policy_refusal(*policy) == tail,
            tail == if oidc_list_refusal(os) is Some {
                oidc_list_refusal(os)
            } else {
                saml_list_refusal(policy.saml_providers@)
            },
            os == policy.oidc_providers@,
            0 <= i <= os.len(),
            oidc_list_refusal(os) == oidc_list_refusal(os.skip(i as int)),
        decreases os.len() - i,
    {
        assert(os.skip(i as int)[0] == os[i as int]);
        assert(os.skip(i as int).drop_first() =~= os.skip(i + 1));
        validate_oidc(&policy.oidc_providers[i])?;
        i += 1;
    }
    assert(os.skip(os.len() as int) =~= Seq::<OidcProviderConfig>::empty());
    let ghost ss = policy.saml_providers@;
    let mut k: usize = 0;
    assert(ss.skip(0) =~= ss);
    while k < policy.saml_providers.len()
        invariant
            policy_refusal(*policy) == saml_list_refusal(ss),
            ss == policy.saml_providers@,
            0 <= k <= ss.len(),
            saml_list_refusal(ss) == saml_list_refusal(ss.skip(k as int)),
        decreases ss.len() - k,
    {
        assert(ss.skip(k as int)[0] == ss[k as int]);
        assert(ss.skip(k as int).drop_first() =~= ss.skip(k + 1));
        validate_saml(&policy.saml_providers[k])?;
        k += 1;
    }
    assert(ss.skip(ss.len() as int) =~= Seq::<SamlProviderConfig>::empty());
    Ok(())
}

/// Whether a session must authenticate again (or further) before acting:
/// it is not authenticated; it is an administrator's without MFA where the
/// policy asks MFA of administrators; or the action is high-risk and the
/// policy asks MFA or a passkey that the session has not shown.
pub open spec fn step_up_needed(p: EnterpriseAuthPolicy, s: SessionAssurance, high_risk: bool) -> bool {
    !s.authenticated || (s.admin && p.require_mfa_for_admin && !s.mfa_verified) || (high_risk
        && p.require_step_up_for_high_risk && !s.mfa_verified) || (high_risk
        && p.require_passkey_for_high_risk && !s.passkey_verified)
}

pub fn requires_step_up(policy: &EnterpriseAuthPolicy, session: &SessionAssurance, high_risk: bool) -> (r:
    bool)
    ensures
        r == step_up_needed(*policy, *session, high_risk),
{
    if !session.authenticated {
        return true;
    }
    if session.admin && policy.require_mfa_for_admin && !session.mfa_verified {
        return true;
    }
    if high_risk && policy.require_step_up_for_high_risk && !session.mfa_verified {
        return true;
    }
    if high_risk && policy.require_passkey_for_high_risk && !session.passkey_verified {
        return true;
    }
    false
}


/// When a session must step up. An unauthenticated session always must. An
/// authenticated administrator session without verified MFA must when the
/// policy asks MFA of administrators, whether the action is high-risk or not.
/// A high-risk action must step up without verified MFA when the policy asks
/// step-up for high-risk actions, and without a verified passkey when it asks
/// a passkey for them. An authenticated session that none of these cases
/// catches need not step up.
pub proof fn lemma_step_up_cases(p: EnterpriseAuthPolicy, s: SessionAssurance, high_risk: bool)
    ensures
        !s.authenticated ==> step_up_needed(p, s, high_risk),
        s.admin && !s.mfa_verified && p.require_mfa_for_admin ==> step_up_needed(p, s, false)
            && step_up_needed(p, s, true),
        high_risk && !s.mfa_verified && p.require_step_up_for_high_risk ==> step_up_needed(
            p,
            s,
            high_risk,
        ),
        high_risk && !s.passkey_verified && p.require_passkey_for_high_risk ==> step_up_needed(
            p,
            s,
            high_risk,
        ),
        s.authenticated && !(s.admin && !s.mfa_verified && p.require_mfa_for_admin) && !(high_risk
            && !s.mfa_verified && p.require_step_up_for_high_risk) && !(high_risk
            && !s.passkey_verified && p.require_passkey_for_high_risk) ==> !step_up_needed(
            p,
            s,
            high_risk,
        ),
{
}

/// A high-risk action asks at least as much as an ordinary one: whatever
/// must step up for an ordinary action must step up for a high-risk one.
pub proof fn lemma_high_risk_asks_more(p: EnterpriseAuthPolicy, s: SessionAssurance)
    ensures
        step_up_needed(p, s, false) ==> step_up_needed(p, s, true),
{
}

/// Verifying MFA and a passkey is all a session can do: an authenticated
/// session with both verified never needs to step up.
pub proof fn lemma_fully_verified_passes(p: EnterpriseAuthPolicy, s: SessionAssurance, high_risk: bool)
    requires
        s.authenticated,
        s.mfa_verified,
        s.passkey_verified,
    ensures
        !step_up_needed(p, s, high_risk),
{
}

// ---------------------------------------------------------------------------
// Passwords
// ---------------------------------------------------------------------------

/// What the Argon2 verifier says of `password` against the PHC string `phc`:
/// `None` when `phc` is not a PHC string, else whether it matches.
pub uninterp spec fn argon2_verdict(password: Seq<char>, phc: Seq<char>) -> Option<bool>;

/// The PHC string that Argon2id with default parameters makes of `password`
/// and the salt bytes `salt`, or the text of its error.
pub uninterp spec fn argon2_phc(password: Seq<char>, salt: Seq<u8>) -> Result<Seq<char>, Seq<char>>;

/// `argon2::password_hash::PasswordHash::new(phc)` and then
/// `Argon2::default().verify_password`. Trusted: the result is
/// `argon2_verdict(password, phc)`; whether it is `None` depends on `phc`
/// alone (only the parse of `phc` can give `None`).
#[verifier::external_body]
fn argon2_verify(password: &str, phc: &str) -> (r: Option<bool>)
    ensures
        r == argon2_verdict(password@, phc@),
        r is None ==> forall|p: Seq<char>| #[trigger] argon2_verdict(p, phc@) is None,
        r is Some ==> forall|p: Seq<char>| #[trigger] argon2_verdict(p, phc@) is Some,
{
    let parsed = argon2::PasswordHash::new(phc).ok()?;
    Some(
        argon2::PasswordVerifier::verify_password(
            &argon2::Argon2::default(),
            password.as_bytes(),
            &parsed,
        ).is_ok(),
    )
}

/// `SaltString::encode_b64(salt)` and `Argon2::default().hash_password`.
/// Trusted: the result is `argon2_phc(password, salt)`, and a hash it makes
/// verifies the password it was made from (the verifier recomputes the hash
/// with the parameters and salt that the PHC string records). With the
/// default parameters and a 16-byte salt the PHC string has a fixed shape of
/// 97 ASCII characters; only its bound, 4096 bytes, is stated.
#[verifier::external_body]
fn argon2_hash(password: &str, salt: &[u8]) -> (r: Result<String, String>)
    requires
        salt@.len() == 16,
    ensures
        match r {
            Ok(h) => argon2_phc(password@, salt@) == Ok::<Seq<char>, Seq<char>>(h@)
                && argon2_verdict(password@, h@) == Some(true) && blen(h@) <= 4096,
            Err(e) => argon2_phc(password@, salt@) == Err::<Seq<char>, Seq<char>>(e@),
        },
{
    let salt = argon2::password_hash::SaltString::encode_b64(salt).map_err(|e| e.to_string())?;
    argon2::PasswordHasher::hash_password(&argon2::Argon2::default(), password.as_bytes(), &salt)
        .map(|h| h.to_string())
        .map_err(|e| e.to_string())
}

/// Why a new password is refused, if it is: 12 to 4096 bytes.
pub open spec fn password_refusal(password: Seq<char>) -> Option<Seq<char>> {
    if blen(password) < 12 {
        Some("password must be at least 12 characters"@)
    } else if blen(password) > 4096 {
        Some("password exceeds safety limit"@)
    } else {
        None
    }
}

pub fn validate_password_input(password: &str) -> (r: Result<(), AuthPolicyError>)
    ensures
        refused_as(r, password_refusal(password@)),
{
    let n = password.as_bytes().len();
    if n < 12 {
        return Err(invalid("password must be at least 12 characters"));
    }
    if n > 4096 {
        return Err(invalid("password exceeds safety limit"));
    }
    Ok(())
}

/// Hashes a new password into a PHC string (Argon2id, default parameters,
/// a fresh random salt). Whatever the salt, the hash verifies the password.
pub fn hash_password(password: &str) -> (r: Result<String, AuthPolicyError>)
    ensures
        password_refusal(password@) matches Some(m) ==> auth_invalid(r, m),
        password_refusal(password@) is None ==> match r {
            Ok(h) => argon2_verdict(password@, h@) == Some(true) && blen(h@) <= 4096 && (exists|salt: Seq<u8>|
                salt.len() == 16 && #[trigger] argon2_phc(password@, salt) == Ok::<Seq<char>, Seq<char>>(h@)),
            Err(AuthPolicyError::Invalid(m)) => starts_with(m@, "password hashing failed: "@),
        },
{
    validate_password_input(password)?;
    let salt = match crate::digest::os_random(16) {
        Some(s) => s,
        None => {
            let m = concat("password hashing failed: ", "operating-system random source unavailable");
            proof {
                crate::text::lemma_prefix_starts(
                    "password hashing failed: "@,
                    "operating-system random source unavailable"@,
                );
            }
            return Err(AuthPolicyError::Invalid(m));
        },
    };
    match argon2_hash(password, salt.as_slice()) {
        Ok(h) => {
            assert(salt@.len() == 16 && argon2_phc(password@, salt@) == Ok::<Seq<char>, Seq<char>>(h@));
            Ok(h)
        },
        Err(e) => {
            proof {
                crate::text::lemma_prefix_starts("password hashing failed: "@, e@);
            }
            Err(AuthPolicyError::Invalid(concat("password hashing failed: ", e.as_str())))
        },
    }
}

/// What checking `password` against the stored hash `phc` gives.
pub open spec fn verify_outcome(password: Seq<char>, phc: Seq<char>) -> Result<bool, Seq<char>> {
    if blen(password) > 4096 || blen(phc) > 4096 {
        Err("password credential exceeds safety limit"@)
    } else {
        match argon2_verdict(password, phc) {
            None => Err("stored password hash is malformed"@),
            Some(b) => Ok(b),
        }
    }
}

/// Whether `r` is the outcome `o`, an error text standing for `Invalid`.
pub open spec fn outcome_is<T>(r: Result<T, AuthPolicyError>, o: Result<T, Seq<char>>) -> bool {
    match o {
        Ok(v) => r == Ok::<T, AuthPolicyError>(v),
        Err(m) => auth_invalid(r, m),
    }
}

/// Checks a password against a stored PHC hash.
pub fn verify_password(password: &str, phc_hash: &str) -> (r: Result<bool, AuthPolicyError>)
    ensures
        outcome_is(r, verify_outcome(password@, phc_hash@)),
        verify_outcome(password@, phc_hash@) == Err::<bool, Seq<char>>("stored password hash is malformed"@)
            ==> forall|p: Seq<char>| blen(p) <= 4096 ==> #[trigger] verify_outcome(p, phc_hash@)
            == Err::<bool, Seq<char>>("stored password hash is malformed"@),
{
    if password.as_bytes().len() > 4096 || phc_hash.as_bytes().len() > 4096 {
        proof {
            reveal_strlit("password credential exceeds safety limit");
            reveal_strlit("stored password hash is malformed");
            assert("password credential exceeds safety limit"@.len() != "stored password hash is malformed"@.len());
            assert(verify_outcome(password@, phc_hash@) != Err::<bool, Seq<char>>("stored password hash is malformed"@));
        }
        return Err(invalid("password credential exceeds safety limit"));
    }
    match argon2_verify(password, phc_hash) {
        None => Err(invalid("stored password hash is malformed")),
        Some(b) => Ok(b),
    }
}

/// A hash made of a password verifies that password (for hashes of at most
/// 4096 bytes, the most that the verifier reads).
pub proof fn lemma_password_roundtrip(password: Seq<char>, phc: Seq<char>)
    requires
        password_refusal(password) is None,
        argon2_verdict(password, phc) == Some(true),
        blen(phc) <= 4096,
    ensures
        verify_outcome(password, phc) == Ok::<bool, Seq<char>>(true),
{
}


// ---------------------------------------------------------------------------
// TOTP
// ---------------------------------------------------------------------------

#[derive(Debug, Clone, PartialEq, Eq)]
pub struct TotpEnrollment {
    pub secret_base32: String,
    pub otpauth_url: String,
    pub issuer: String,
    pub account_name: String,
    pub digits: u8,
    pub step_seconds: u64,
}

#[derive(Debug, Clone, Copy, PartialEq, Eq, Structural)]
pub struct TotpVerification {
    pub valid: bool,
    pub matched_step: Option<u64>,
}

/// The `otpauth://` URL of a SHA-1, 6-digit, 30-second TOTP with `secret`,
/// `issuer` and `account`, or the text of the error in building it.
pub uninterp spec fn totp_url_of(secret: Seq<u8>, issuer: Seq<char>, account: Seq<char>) -> Result<
    Seq<char>,
    Seq<char>,
>;

/// The 6-digit SHA-1 TOTP code of `secret` for the 30-second step holding
/// the Unix time `time`.
pub uninterp spec fn totp_code_of(secret: Seq<u8>, time: u64) -> Seq<char>;

/// `totp_rs::TOTP::new(SHA1, 6, 1, 30, secret, Some(issuer), account)` and
/// `get_url`. Trusted: the result is `totp_url_of(secret, issuer, account)`;
/// a URL it returns begins `otpauth://totp/` (the host of every non-Steam
/// TOTP in the crate's `get_url`); with 6 digits, `new` fails exactly when
/// the secret is shorter than 16 bytes or the issuer or the account name
/// holds a `:`.
#[verifier::external_body]
fn totp_otpauth_url(secret: &[u8], issuer: &str, account: &str) -> (r: Result<String, String>)
    ensures
        r is Ok <==> (secret@.len() >= 16 && !issuer@.contains(':') && !account@.contains(':')),
        match r {
            Ok(u) => totp_url_of(secret@, issuer@, account@) == Ok::<Seq<char>, Seq<char>>(u@)
                && u@.len() >= 15 && u@.subrange(0, 15) == "otpauth://totp/"@,
            Err(e) => totp_url_of(secret@, issuer@, account@) == Err::<Seq<char>, Seq<char>>(e@),
        },
{
    totp_rs::TOTP::new(
        totp_rs::Algorithm::SHA1,
        6,
        1,
        30,
        secret.to_vec(),
        Some(issuer.to_string()),
        account.to_string(),
    ).map(|t| t.get_url()).map_err(|e| e.to_string())
}

/// `totp_rs::TOTP::new_unchecked(SHA1, 6, 1, 30, secret, ..).generate(time)`.
/// Trusted: the result is `totp_code_of(secret, time)`.
#[verifier::external_body]
fn totp_code(secret: &[u8], time: u64) -> (r: String)
    ensures
        r@ == totp_code_of(secret@, time),
{
    totp_rs::TOTP::new_unchecked(
        totp_rs::Algorithm::SHA1,
        6,
        1,
        30,
        secret.to_vec(),
        None,
        String::new(),
    ).generate(time)
}

/// A TOTP label (issuer or account name): after trimming, 1 to 254 bytes,
/// no `:`, no control character.
pub open spec fn is_totp_label(v: Seq<char>) -> bool {
    let t = trim(v);
    t.len() > 0 && blen(t) <= 254 && !t.contains(':') && !has_control(t)
}

pub fn validate_totp_label(value: &str, field: &str) -> (r: Result<(), AuthPolicyError>)
    ensures
        is_totp_label(value@) ==> r is Ok,
        !is_totp_label(value@) ==> auth_invalid(r, "TOTP "@ + field@ + " is invalid"@),
{
    let t = trim_text(value);
    let tv = t.as_str();
    let mut colon = false;
    for c in it: tv.chars()
        invariant
            it.seq() == t@,
            colon == exists|j: int| 0 <= j < it.index() && t@[j] == ':',
    {
        assert(c == t@[it.index() as int]);
        if c == ':' {
            colon = true;
        }
    }
    proof {
        if colon {
            let j = choose|j: int| 0 <= j < t@.len() && t@[j] == ':';
            assert(t@.contains(':'));
        }
    }
    if tv.unicode_len() == 0 || tv.as_bytes().len() > 254 || colon || crate::text::any_control(tv) {
        let mut m = concat("TOTP ", field);
        vstd::string::StringExecFns::append(&mut m, " is invalid");
        return Err(AuthPolicyError::Invalid(m));
    }
    Ok(())
}

/// The enrollment of `secret` (20 bytes) for `account_name` at `issuer`.
pub open spec fn enrollment_of(e: TotpEnrollment, secret: Seq<u8>, account: Seq<char>, issuer: Seq<char>) -> bool {
    &&& e.secret_base32@ == crate::digest::base32_nopad_of(secret)
    &&& crate::digest::base32_nopad_decoded(crate::text::utf8(e.secret_base32@)) == Some(secret)
    &&& totp_url_of(secret, issuer, account) == Ok::<Seq<char>, Seq<char>>(e.otpauth_url@)
    &&& e.issuer@ == issuer && e.account_name@ == account
    &&& e.digits == 6 && e.step_seconds == 30
}

/// A new TOTP enrollment for a checked account name and issuer: a fresh
/// 160-bit secret, its Base32 text and its `otpauth://totp/` URL.
pub fn create_totp_enrollment(account_name: &str, issuer: &str) -> (r: Result<
    TotpEnrollment,
    AuthPolicyError,
>)
    ensures
        !is_totp_label(account_name@) ==> auth_invalid(
            r,
            "TOTP "@ + "account name"@ + " is invalid"@,
        ),
        is_totp_label(account_name@) && !is_totp_label(issuer@) ==> auth_invalid(
            r,
            "TOTP "@ + "issuer"@ + " is invalid"@,
        ),
        r matches Ok(e) ==> (exists|s: Seq<u8>| s.len() == 20 && #[trigger] enrollment_of(e, s, account_name@, issuer@))
            && e.secret_base32@.len() == 32 && e.otpauth_url@.subrange(0, 15) == "otpauth://totp/"@,
        is_totp_label(account_name@) && is_totp_label(issuer@) ==> (r is Ok || (r matches Err(
            AuthPolicyError::Invalid(m),
        ) && m@ == "TOTP enrollment failed: "@ + "operating-system random source unavailable"@)),
{
    validate_totp_label(account_name, "account name")?;
    validate_totp_label(issuer, "issuer")?;
    let secret = match crate::digest::os_random(20) {
        Some(s) => s,
        None => {
            return Err(
                AuthPolicyError::Invalid(
                    concat("TOTP enrollment failed: ", "operating-system random source unavailable"),
                ),
            );
        },
    };
    proof {
        if issuer@.contains(':') {
            crate::text::lemma_trim_keeps(issuer@, ':');
        }
        if account_name@.contains(':') {
            crate::text::lemma_trim_keeps(account_name@, ':');
        }
    }
    let url = match totp_otpauth_url(secret.as_slice(), issuer, account_name) {
        Ok(u) => u,
        Err(e) => {
            return Err(AuthPolicyError::Invalid(concat("TOTP enrollment failed: ", e.as_str())));
        },
    };
    let e = TotpEnrollment {
        secret_base32: crate::digest::base32_nopad(secret.as_slice()),
        otpauth_url: url,
        issuer: text(issuer),
        account_name: text(account_name),
        digits: 6,
        step_seconds: 30,
    };
    assert(enrollment_of(e, secret@, account_name@, issuer@));
    Ok(e)
}

/// The first of the three steps around `now` (the one before, the current
/// one, the one after) whose code is `token`.
pub open spec fn matched_step(secret: Seq<u8>, token: Seq<char>, now: u64) -> Option<u64> {
    let base: int = if now / 30 >= 1 {
        now / 30 - 1
    } else {
        0
    };
    if base * 30 <= u64::MAX && totp_code_of(secret, (base * 30) as u64) == token {
        Some(base as u64)
    } else if (base + 1) * 30 <= u64::MAX && totp_code_of(secret, ((base + 1) * 30) as u64) == token {
        Some((base + 1) as u64)
    } else if (base + 2) * 30 <= u64::MAX && totp_code_of(secret, ((base + 2) * 30) as u64) == token {
        Some((base + 2) as u64)
    } else {
        None
    }
}

/// A token of six ASCII digits.
pub open spec fn is_totp_token(token: Seq<char>) -> bool {
    blen(token) == 6 && crate::text::all_in_class(crate::text::utf8(token), ByteClass::Digit)
}

/// What checking `token` against the Base32 secret at Unix time `now` gives.
pub open spec fn totp_outcome(secret_base32: Seq<char>, token: Seq<char>, now: u64) -> Result<
    (bool, Option<u64>),
    Seq<char>,
> {
    if !is_totp_token(token) {
        Ok((false, None))
    } else if blen(secret_base32) > 256 {
        Err("TOTP secret exceeds safety limit"@)
    } else {
        match crate::digest::base32_nopad_decoded(
            crate::text::utf8(crate::text::upper_chars(trim(secret_base32))),
        ) {
            None => Err("TOTP secret is not valid base32"@),
            Some(secret) => if secret.len() < 16 || secret.len() > 64 {
                Err("TOTP secret length is invalid"@)
            } else {
                let m = matched_step(secret, token, now);
                Ok((m is Some, m))
            },
        }
    }
}

fn code_matches(secret: &Vec<u8>, token: &str, step: u64) -> (r: bool)
    ensures
        r == (step * 30 <= u64::MAX && totp_code_of(secret@, (step * 30) as u64) == token@),
{
    match step.checked_mul(30) {
        Some(t) => str_eq(totp_code(secret.as_slice(), t).as_str(), token),
        None => false,
    }
}

/// Checks a TOTP code at the Unix time `now_unix_secs`, one step of skew
/// either way, and reports the step (the time divided by 30) it matched so
/// that a caller can refuse the same step twice.
pub fn verify_totp(secret_base32: &str, token: &str, now_unix_secs: u64) -> (r: Result<
    TotpVerification,
    AuthPolicyError,
>)
    ensures
        match totp_outcome(secret_base32@, token@, now_unix_secs) {
            Ok((valid, step)) => r == Ok::<TotpVerification, AuthPolicyError>(
                TotpVerification { valid, matched_step: step },
            ),
            Err(m) => auth_invalid(r, m),
        },
{
    if !token_ok(token, 6, 6, ByteClass::Digit) {
        return Ok(TotpVerification { valid: false, matched_step: None });
    }
    if secret_base32.as_bytes().len() > 256 {
        return Err(invalid("TOTP secret exceeds safety limit"));
    }
    let normalized = crate::text::to_upper(trim_text(secret_base32).as_str());
    let secret = match crate::digest::base32_nopad_decode(normalized.as_str().as_bytes()) {
        Some(s) => s,
        None => {
            return Err(invalid("TOTP secret is not valid base32"));
        },
    };
    if secret.len() < 16 || secret.len() > 64 {
        return Err(invalid("TOTP secret length is invalid"));
    }
    let base: u64 = if now_unix_secs / 30 >= 1 {
        now_unix_secs / 30 - 1
    } else {
        0
    };
    if code_matches(&secret, token, base) {
        return Ok(TotpVerification { valid: true, matched_step: Some(base) });
    }
    if code_matches(&secret, token, base + 1) {
        return Ok(TotpVerification { valid: true, matched_step: Some(base + 1) });
    }
    if code_matches(&secret, token, base + 2) {
        return Ok(TotpVerification { valid: true, matched_step: Some(base + 2) });
    }
    Ok(TotpVerification { valid: false, matched_step: None })
}


// ---------------------------------------------------------------------------
// Recovery codes
// ---------------------------------------------------------------------------

#[derive(Debug, Clone, PartialEq, Eq)]
pub struct RecoveryCodeSet {
    pub codes: Vec<String>,
    pub hashes: Vec<String>,
}

/// A recovery code made of 16 Base32 characters: four groups of four joined
/// by `-`.
pub open spec fn grouped(c: Seq<char>) -> Seq<char> {
    c.subrange(0, 4) + seq!['-'] + c.subrange(4, 8) + seq!['-'] + c.subrange(8, 12) + seq!['-']
        + c.subrange(12, 16)
}

/// The form of a recovery code: 19 characters, `-` at 4, 9 and 14, Base32
/// characters (`A-Z2-7`) everywhere else.
pub open spec fn recovery_code_form(c: Seq<char>) -> bool {
    c.len() == 19 && forall|i: int|
        0 <= i < 19 ==> (if i == 4 || i == 9 || i == 14 {
            #[trigger] c[i] == '-'
        } else {
            crate::digest::is_base32_char(c[i])
        })
}

/// The recovery code that ten random bytes give: their Base32 text in four
/// groups of four.
pub fn recovery_code_text(raw: &[u8]) -> (r: String)
    requires
        raw@.len() == 10,
    ensures
        r@ == grouped(crate::digest::base32_nopad_of(raw@)),
        r@.len() == 19,
        recovery_code_form(r@),
{
    let compact = crate::digest::base32_nopad(raw);
    let v = crate::text::chars_of(compact.as_str());
    let mut code = crate::text::string_of_chars(&v, 0, 4);
    crate::digest::string_push(&mut code, '-');
    vstd::string::StringExecFns::append(&mut code, crate::text::string_of_chars(&v, 4, 8).as_str());
    crate::digest::string_push(&mut code, '-');
    vstd::string::StringExecFns::append(&mut code, crate::text::string_of_chars(&v, 8, 12).as_str());
    crate::digest::string_push(&mut code, '-');
    vstd::string::StringExecFns::append(&mut code, crate::text::string_of_chars(&v, 12, 16).as_str());
    assert(code@ =~= grouped(crate::digest::base32_nopad_of(raw@)));
    proof {
        let g = code@;
        let c = compact@;
        assert forall|i: int| 0 <= i < 19 implies (if i == 4 || i == 9 || i == 14 {
            #[trigger] g[i] == '-'
        } else {
            crate::digest::is_base32_char(g[i])
        }) by {
            if i < 4 {
                assert(g[i] == c[i]);
            } else if 4 < i < 9 {
                assert(g[i] == c[i - 1]);
            } else if 9 < i < 14 {
                assert(g[i] == c[i - 2]);
            } else if 14 < i {
                assert(g[i] == c[i - 3]);
            }
        }
    }
    code
}

/// One recovery code from ten random bytes, and its hash. It fails only when
/// the random source or the hashing does.
fn recovery_code() -> (r: Result<(String, String), AuthPolicyError>)
    ensures
        r matches Ok((code, hash)) ==> argon2_verdict(code@, hash@) == Some(true) && (exists|raw: Seq<u8>|
            raw.len() == 10 && code@ == grouped(#[trigger] crate::digest::base32_nopad_of(raw)))
            && recovery_code_form(code@) && blen(hash@) <= 4096,
        r matches Err(AuthPolicyError::Invalid(m)) ==> m@
            == "recovery code generation failed: operating-system random source unavailable"@
            || starts_with(m@, "password hashing failed: "@),
{
    let raw = match crate::digest::os_random(10) {
        Some(b) => b,
        None => {
            return Err(
                invalid("recovery code generation failed: operating-system random source unavailable"),
            );
        },
    };
    let code = recovery_code_text(raw.as_slice());
    proof {
        crate::text::lemma_blen_bounds(code@);
        assert(password_refusal(code@) is None);
    }
    let hash = hash_password(code.as_str())?;
    Ok((code, hash))
}

/// Makes `count` (4 to 20) one-time recovery codes and their hashes; the
/// codes are shown once, the hashes kept, each verifying its code.
pub fn create_recovery_codes(count: usize) -> (r: Result<RecoveryCodeSet, AuthPolicyError>)
    ensures
        !(4 <= count <= 20) ==> auth_invalid(r, "recovery code count must be 4..20"@),
        4 <= count <= 20 ==> (r is Ok || (r matches Err(AuthPolicyError::Invalid(m)) && (m@
            == "recovery code generation failed: operating-system random source unavailable"@
            || starts_with(m@, "password hashing failed: "@)))),
        r matches Ok(set) ==> {
            &&& set.codes@.len() == count && set.hashes@.len() == count
            &&& forall|i: int|
                0 <= i < count ==> {
                    &&& argon2_verdict((#[trigger] set.codes@[i])@, set.hashes@[i]@) == Some(true)
                    &&& recovery_code_form(set.codes@[i]@)
                    &&& blen(set.hashes@[i]@) <= 4096
                    &&& exists|raw: Seq<u8>|
                        raw.len() == 10 && set.codes@[i]@ == grouped(
                            #[trigger] crate::digest::base32_nopad_of(raw),
                        )
                }
        },
{
    if !(4 <= count && count <= 20) {
        return Err(invalid("recovery code count must be 4..20"));
    }
    let mut codes: Vec<String> = Vec::new();
    let mut hashes: Vec<String> = Vec::new();
    let mut i: usize = 0;
    while i < count
        invariant
            4 <= count <= 20,
            0 <= i <= count,
            codes@.len() == i && hashes@.len() == i,
            forall|j: int|
                0 <= j < i ==> {
                    &&& argon2_verdict((#[trigger] codes@[j])@, hashes@[j]@) == Some(true)
                    &&& recovery_code_form(codes@[j]@)
                    &&& blen(hashes@[j]@) <= 4096
                    &&& exists|raw: Seq<u8>|
                        raw.len() == 10 && codes@[j]@ == grouped(
                            #[trigger] crate::digest::base32_nopad_of(raw),
                        )
                },
        decreases count - i,
    {
        let (code, hash) = match recovery_code() {
            Ok(p) => p,
            Err(e) => {
                return Err(e);
            },
        };
        codes.push(code);
        hashes.push(hash);
        i += 1;
    }
    Ok(RecoveryCodeSet { codes, hashes })
}

pub open spec fn texts(v: Seq<String>) -> Seq<Seq<char>> {
    v.map_values(|h: String| h@)
}

/// What a presented recovery code becomes before it is compared: trimmed
/// and upper-cased.
pub open spec fn normalized_code(code: Seq<char>) -> Seq<char> {
    crate::text::upper_chars(trim(code))
}

/// The shape of a recovery code: 19 bytes of letters, digits and `-`.
pub open spec fn code_shaped(n: Seq<char>) -> bool {
    blen(n) == 19 && forall|i: int|
        0 <= i < n.len() ==> ('0' <= #[trigger] n[i] <= '9' || 'A' <= n[i] <= 'Z' || 'a' <= n[i]
            <= 'z' || n[i] == '-')
}

/// Matching `code` against `hashes[i..]`: the first hash it verifies
/// against, or the first error of the verifier.
pub open spec fn first_matching(code: Seq<char>, hashes: Seq<Seq<char>>, i: int) -> Result<
    Option<int>,
    Seq<char>,
>
    decreases hashes.len() - i,
{
    if i < 0 || i >= hashes.len() {
        Ok(None)
    } else {
        match verify_outcome(code, hashes[i]) {
            Err(m) => Err(m),
            Ok(true) => Ok(Some(i)),
            Ok(false) => first_matching(code, hashes, i + 1),
        }
    }
}

/// What matching a presented recovery code gives.
pub open spec fn recovery_outcome(code: Seq<char>, hashes: Seq<Seq<char>>) -> Result<
    Option<int>,
    Seq<char>,
> {
    let n = normalized_code(code);
    if !code_shaped(n) {
        Ok(None)
    } else if hashes.len() > 20 {
        Err("too many stored recovery codes"@)
    } else {
        first_matching(n, hashes, 0)
    }
}

/// A newly made recovery code, presented as it was shown, matches the hash
/// stored first when that hash verifies it.
pub proof fn lemma_new_code_matches_first(code: Seq<char>, hashes: Seq<Seq<char>>)
    requires
        recovery_code_form(code),
        1 <= hashes.len() <= 20,
        argon2_verdict(code, hashes[0]) == Some(true),
        blen(hashes[0]) <= 4096,
    ensures
        recovery_outcome(code, hashes) == Ok::<Option<int>, Seq<char>>(Some(0)),
{
    assert forall|i: int| 0 <= i < code.len() implies (#[trigger] code[i] as u32) < 128 by {
        assert(code[i] == '-' || crate::digest::is_base32_char(code[i]));
    }
    crate::text::lemma_ascii_blen(code);
    assert(code[0] != '-' && crate::digest::is_base32_char(code[0]));
    assert(code[18] != '-' && crate::digest::is_base32_char(code[18]));
    assert(crate::text::first_non_ws(code, 0) == 0);
    assert(crate::text::last_non_ws_end(code, 19) == 19);
    assert(trim(code) =~= code);
    assert(crate::text::upper_chars(code) =~= code) by {
        assert forall|i: int| 0 <= i < code.len() implies crate::text::upper_chars(code)[i] == code[i] by {
            assert(code[i] == '-' || crate::digest::is_base32_char(code[i]));
        }
    }
    assert(normalized_code(code) == code);
    assert(code_shaped(code)) by {
        assert forall|i: int| 0 <= i < code.len() implies ('0' <= #[trigger] code[i] <= '9' || 'A'
            <= code[i] <= 'Z' || 'a' <= code[i] <= 'z' || code[i] == '-') by {
            assert(code[i] == '-' || crate::digest::is_base32_char(code[i]));
        }
    }
    assert(verify_outcome(code, hashes[0]) == Ok::<bool, Seq<char>>(true));
}

/// The index of the stored hash that a presented recovery code verifies
/// against (the caller removes it: each code is good once).
pub fn match_recovery_code(code: &str, hashes: &Vec<String>) -> (r: Result<
    Option<usize>,
    AuthPolicyError,
>)
    ensures
        match recovery_outcome(code@, texts(hashes@)) {
            Ok(None) => r == Ok::<Option<usize>, AuthPolicyError>(None),
            Ok(Some(i)) => r matches Ok(Some(k)) && k == i,
            Err(m) => auth_invalid(r, m),
        },
{
    let normalized = crate::text::to_upper(trim_text(code).as_str());
    let n = normalized.as_str();
    if n.as_bytes().len() != 19 {
        return Ok(None);
    }
    let mut shaped = true;
    for c in it: n.chars()
        invariant
            it.seq() == normalized@,
            shaped == forall|j: int|
                0 <= j < it.index() ==> ('0' <= #[trigger] normalized@[j] <= '9' || 'A'
                    <= normalized@[j] <= 'Z' || 'a' <= normalized@[j] <= 'z' || normalized@[j]
                    == '-'),
    {
        assert(c == normalized@[it.index() as int]);
        if !(('0' <= c && c <= '9') || ('A' <= c && c <= 'Z') || ('a' <= c && c <= 'z') || c
            == '-') {
            shaped = false;
        }
    }
    if !shaped {
        return Ok(None);
    }
    if hashes.len() > 20 {
        return Err(invalid("too many stored recovery codes"));
    }
    let ghost hs = texts(hashes@);
    assert(recovery_outcome(code@, hs) == first_matching(normalized@, hs, 0));
    let mut i: usize = 0;
    while i < hashes.len()
        invariant
            hs == texts(hashes@),
            n@ == normalized@,
            recovery_outcome(code@, hs) == first_matching(normalized@, hs, 0),
            0 <= i <= hashes@.len(),
            code_shaped(normalized@),
            hashes@.len() <= 20,
            normalized@ == normalized_code(code@),
            first_matching(normalized@, hs, 0) == first_matching(normalized@, hs, i as int),
        decreases hashes@.len() - i,
    {
        assert(hs[i as int] == hashes@[i as int]@);
        let res = verify_password(n, hashes[i].as_str());
        assert(first_matching(normalized@, hs, i as int) == match verify_outcome(
            normalized@,
            hs[i as int],
        ) {
            Err(m) => Err(m),
            Ok(true) => Ok(Some(i as int)),
            Ok(false) => first_matching(normalized@, hs, i + 1),
        });
        match res {
            Err(e) => {
                return Err(e);
            },
            Ok(true) => {
                return Ok(Some(i));
            },
            Ok(false) => {},
        }
        i += 1;
    }
    Ok(None)
}

// ---------------------------------------------------------------------------
// OIDC authorization transactions
// ---------------------------------------------------------------------------

#[derive(Debug, Clone, PartialEq, Eq)]
pub struct OidcPkceTransaction {
    pub state: String,
    pub nonce: String,
    pub code_verifier: String,
    pub code_challenge: String,
    pub created_at_unix_ms: u128,
}

/// The transaction made from the random `state`, `nonce` and `verifier`
/// bytes at `now_ms`: each Base64url-encoded, and the S256 challenge (the
/// Base64url SHA-256 of the verifier's text).
pub open spec fn pkce_of(
    t: OidcPkceTransaction,
    state: Seq<u8>,
    nonce: Seq<u8>,
    verifier: Seq<u8>,
    now_ms: u128,
) -> bool {
    &&& t.state@ == crate::digest::base64_url_of(state)
    &&& t.nonce@ == crate::digest::base64_url_of(nonce)
    &&& t.code_verifier@ == crate::digest::base64_url_of(verifier)
    &&& t.code_challenge@ == crate::digest::base64_url_of(
        crate::digest::sha256_of(crate::text::utf8(t.code_verifier@)),
    )
    &&& t.created_at_unix_ms == now_ms
}

pub fn pkce_transaction(state: &[u8], nonce: &[u8], verifier: &[u8], now_ms: u128) -> (r:
    OidcPkceTransaction)
    ensures
        pkce_of(r, state@, nonce@, verifier@, now_ms),
        r.code_verifier@.len() == (4 * verifier@.len() + 2) / 3,
        r.code_challenge@.len() == 43,
        blen(r.state@) == (4 * state@.len() + 2) / 3,
{
    let code_verifier = crate::digest::base64_url(verifier);
    let challenge = crate::digest::sha256_digest(code_verifier.as_str().as_bytes());
    let st = crate::digest::base64_url(state);
    proof {
        assert forall|i: int| 0 <= i < st@.len() implies (#[trigger] st@[i] as u32) < 128 by {
            assert(crate::digest::is_base64url_char(st@[i]));
        }
        crate::text::lemma_ascii_blen(st@);
    }
    OidcPkceTransaction {
        state: st,
        nonce: crate::digest::base64_url(nonce),
        code_verifier,
        code_challenge: crate::digest::base64_url(challenge.as_slice()),
        created_at_unix_ms: now_ms,
    }
}

/// A new authorization transaction opened at `now_ms`, from 24 random bytes
/// of state, 24 of nonce and 32 of verifier.
pub fn create_oidc_pkce_transaction(now_ms: u128) -> (r: Result<
    OidcPkceTransaction,
    AuthPolicyError,
>)
    ensures
        r matches Ok(t) ==> (exists|s: Seq<u8>, n: Seq<u8>, v: Seq<u8>|
            s.len() == 24 && n.len() == 24 && v.len() == 32 && #[trigger] pkce_of(t, s, n, v, now_ms))
            && t.code_verifier@.len() == 43 && t.code_challenge@.len() == 43 && blen(t.state@) == 32,
        r is Err ==> auth_invalid(
            r,
            "OIDC transaction generation failed: operating-system random source unavailable"@,
        ),
{
    let s = crate::digest::os_random(24);
    let n = crate::digest::os_random(24);
    let v = crate::digest::os_random(32);
    match (s, n, v) {
        (Some(s), Some(n), Some(v)) => {
            let t = pkce_transaction(s.as_slice(), n.as_slice(), v.as_slice(), now_ms);
            assert(pkce_of(t, s@, n@, v@, now_ms));
            Ok(t)
        },
        _ => Err(invalid("OIDC transaction generation failed: operating-system random source unavailable")),
    }
}

/// Why a returning authorization is refused, if it is.
pub open spec fn oidc_return_refusal(
    t: OidcPkceTransaction,
    returned_state: Seq<char>,
    now: u128,
    max_age: u128,
) -> Option<Seq<char>> {
    if blen(returned_state) > 256 || returned_state != t.state@ {
        Some("OIDC state mismatch"@)
    } else if max_age == 0 || max_age > 1800000 {
        Some("OIDC transaction TTL is invalid"@)
    } else if now < t.created_at_unix_ms || now - t.created_at_unix_ms > max_age {
        Some("OIDC transaction expired"@)
    } else {
        None
    }
}

/// A returning authorization must carry the transaction's state, within a
/// lifetime of at most 30 minutes.
pub fn validate_oidc_transaction(
    transaction: &OidcPkceTransaction,
    returned_state: &str,
    now_unix_ms: u128,
    max_age_ms: u128,
) -> (r: Result<(), AuthPolicyError>)
    ensures
        refused_as(r, oidc_return_refusal(*transaction, returned_state@, now_unix_ms, max_age_ms)),
{
    if returned_state.as_bytes().len() > 256 || !str_eq(returned_state, transaction.state.as_str()) {
        return Err(invalid("OIDC state mismatch"));
    }
    if max_age_ms == 0 || max_age_ms > 1800000 {
        return Err(invalid("OIDC transaction TTL is invalid"));
    }
    if now_unix_ms < transaction.created_at_unix_ms || now_unix_ms - transaction.created_at_unix_ms
        > max_age_ms {
        return Err(invalid("OIDC transaction expired"));
    }
    Ok(())
}

/// A transaction accepts its own state for as long as its lifetime lasts.
pub proof fn lemma_transaction_accepts_own_state(t: OidcPkceTransaction, elapsed: u128, max_age: u128)
    requires
        blen(t.state@) <= 256,
        0 < max_age <= 1800000,
        elapsed <= max_age,
        t.created_at_unix_ms + elapsed <= u128::MAX,
    ensures
        oidc_return_refusal(t, t.state@, (t.created_at_unix_ms + elapsed) as u128, max_age) is None,
{
}

} // verus!

