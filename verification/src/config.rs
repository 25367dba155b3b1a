//! The local configuration: its defaults, the rules a saved configuration
//! must meet, and the changes the library makes to it (migration, remote
//! settings, workspace roots).
use crate::text::{has_prefix, starts_with, str_eq, trim, trim_text};
use vstd::prelude::*;

verus! {

/// The configuration version this library writes.
pub const CURRENT_CONFIG_VERSION: u32 = 3;

#[derive(Debug, Clone, PartialEq, Eq)]
pub enum ConfigError {
    NoConfigDir,
    Io(String),
    Json(String),
    Invalid(String),
}

impl ConfigError {
    /// The error as it is reported.
    pub fn message(&self) -> (r: String)
        ensures
            r@ == match self {
                ConfigError::NoConfigDir => "unable to resolve VSN config directory"@,
                ConfigError::Io(m) => "I/O error: "@ + m@,
                ConfigError::Json(m) => "config JSON error: "@ + m@,
                ConfigError::Invalid(m) => "invalid config value: "@ + m@,
            },
    {
        match self {
            ConfigError::NoConfigDir => "unable to resolve VSN config directory".to_owned(),
            ConfigError::Io(m) => crate::text::concat("I/O error: ", m.as_str()),
            ConfigError::Json(m) => crate::text::concat("config JSON error: ", m.as_str()),
            ConfigError::Invalid(m) => crate::text::concat("invalid config value: ", m.as_str()),
        }
    }
}

/// Whether `r` failed with `Invalid(msg)`.
pub open spec fn config_invalid<T>(r: Result<T, ConfigError>, msg: Seq<char>) -> bool {
    r matches Err(ConfigError::Invalid(m)) && m@ == msg
}

fn invalid(msg: &str) -> (e: ConfigError)
    ensures
        e matches ConfigError::Invalid(m) && m@ == msg@,
{
    ConfigError::Invalid(msg.to_owned())
}

#[derive(Debug, Clone, PartialEq, Eq)]
pub struct RemoteConfig {
    pub enabled: bool,
    pub control_plane_url: Option<String>,
    pub control_plane_public_key: Option<String>,
    pub poll_interval_ms: u64,
    pub allow_remote_terminal: bool,
    pub allow_remote_file_write: bool,
    pub allow_remote_database_query: bool,
    pub allow_remote_preview_interactive: bool,
}

impl Default for RemoteConfig {
    /// Remote control off, polling every 2.5 s, every remote capability off.
    fn default() -> (r: Self)
        ensures
            !r.enabled,
            r.control_plane_url is None,
            r.control_plane_public_key is None,
            r.poll_interval_ms == 2500,
            !r.allow_remote_terminal && !r.allow_remote_file_write
                && !r.allow_remote_database_query && !r.allow_remote_preview_interactive,
    {
        RemoteConfig {
            enabled: false,
            control_plane_url: None,
            control_plane_public_key: None,
            poll_interval_ms: 2500,
            allow_remote_terminal: false,
            allow_remote_file_write: false,
            allow_remote_database_query: false,
            allow_remote_preview_interactive: false,
        }
    }
}

#[derive(Debug, Clone, PartialEq, Eq)]
pub struct AppConfig {
    pub version: u32,
    pub workspace_roots: Vec<String>,
    pub default_domain_suffix: String,
    pub default_execution_backend: String,
    pub telemetry_enabled: bool,
    pub remote: RemoteConfig,
}

/// The remote settings of a fresh configuration.
pub open spec fn remote_default(r: RemoteConfig) -> bool {
    &&& !r.enabled
    &&& r.control_plane_url is None
    &&& r.control_plane_public_key is None
    &&& r.poll_interval_ms == 2500
    &&& !r.allow_remote_terminal && !r.allow_remote_file_write && !r.allow_remote_database_query
        && !r.allow_remote_preview_interactive
}

impl Default for AppConfig {
    /// Local first and private: the current version, no workspace roots,
    /// `.test` domains, native execution, no telemetry, remote control off.
    fn default() -> (r: Self)
        ensures
            r.version == CURRENT_CONFIG_VERSION,
            r.workspace_roots@.len() == 0,
            r.default_domain_suffix@ == ".test"@,
            r.default_execution_backend@ == "native"@,
            !r.telemetry_enabled,
            remote_default(r.remote),
    {
        AppConfig {
            version: CURRENT_CONFIG_VERSION,
            workspace_roots: Vec::new(),
            default_domain_suffix: ".test".to_owned(),
            default_execution_backend: "native".to_owned(),
            telemetry_enabled: false,
            remote: RemoteConfig::default(),
        }
    }
}

/// HTTPS, or plain HTTP to a loopback host for development.
pub open spec fn control_plane_url_ok(url: Seq<char>) -> bool {
    starts_with(url, "https://"@) || starts_with(url, "http://127.0.0.1"@) || starts_with(
        url,
        "http://localhost"@,
    )
}

/// Why a configuration is refused, if it is.
pub open spec fn config_refusal(c: AppConfig) -> Option<Seq<char>> {
    let r = c.remote;
    if c.version != CURRENT_CONFIG_VERSION {
        Some("config version must be 3"@)
    } else if c.default_domain_suffix@ != ".test"@ {
        Some("baseline local domain suffix must remain .test"@)
    } else if !(c.default_execution_backend@ == "native"@ || c.default_execution_backend@
        == "container"@ || c.default_execution_backend@ == "remote"@) {
        Some("default_execution_backend must be native, container, or remote"@)
    } else if !(500 <= r.poll_interval_ms <= 60000) {
        Some("remote poll_interval_ms must be between 500 and 60000"@)
    } else if r.enabled {
        match r.control_plane_url {
            None => Some("remote control plane URL is required"@),
            Some(u) => if !control_plane_url_ok(u@) {
                Some("remote control plane must use HTTPS except for loopback development"@)
            } else if !(r.control_plane_public_key matches Some(k) && trim(k@).len() > 0) {
                Some("remote control plane public key is required"@)
            } else {
                None
            },
        }
    } else {
        None
    }
}

/// A configuration is saved only at the current version, with `.test`
/// domains, a known execution backend, a poll interval of 0.5 to 60 s, and,
/// when remote control is on, a secure control-plane URL and its public key.
pub fn validate(config: &AppConfig) -> (r: Result<(), ConfigError>)
    ensures
        config_refusal(*config) is None ==> r is Ok,
        config_refusal(*config) matches Some(m) ==> config_invalid(r, m),
{
    if config.version != CURRENT_CONFIG_VERSION {
        return Err(invalid("config version must be 3"));
    }
    if !str_eq(config.default_domain_suffix.as_str(), ".test") {
        return Err(invalid("baseline local domain suffix must remain .test"));
    }
    let b = config.default_execution_backend.as_str();
    if !(str_eq(b, "native") || str_eq(b, "container") || str_eq(b, "remote")) {
        return Err(invalid("default_execution_backend must be native, container, or remote"));
    }
    if !(500 <= config.remote.poll_interval_ms && config.remote.poll_interval_ms <= 60000) {
        return Err(invalid("remote poll_interval_ms must be between 500 and 60000"));
    }
    if config.remote.enabled {
        let url = match &config.remote.control_plane_url {
            Some(u) => u.as_str(),
            None => {
                return Err(invalid("remote control plane URL is required"));
            },
        };
        if !has_prefix(url, "https://") && !has_prefix(url, "http://127.0.0.1") && !has_prefix(
            url,
            "http://localhost",
        ) {
            return Err(
                invalid("remote control plane must use HTTPS except for loopback development"),
            );
        }
        let key_ok = match &config.remote.control_plane_public_key {
            Some(k) => trim_text(k.as_str()).as_str().unicode_len() > 0,
            None => false,
        };
        if !key_ok {
            return Err(invalid("remote control plane public key is required"));
        }
    }
    Ok(())
}

/// A fresh configuration is accepted with any of the three execution
/// backends: at the current version, with `.test` domains and the default
/// remote settings, choosing `native`, `container` or `remote` as the default
/// execution backend gives no refusal.
pub proof fn lemma_every_backend_accepted(c: AppConfig)
    requires
        c.version == CURRENT_CONFIG_VERSION,
        c.default_domain_suffix@ == ".test"@,
        remote_default(c.remote),
        c.default_execution_backend@ == "native"@ || c.default_execution_backend@ == "container"@
            || c.default_execution_backend@ == "remote"@,
    ensures
        config_refusal(c) is None,
{
}

/// The choice among the three execution backends changes nothing else in
/// the check: two configurations that differ only in which of `native`,
/// `container` and `remote` they run by default are refused alike.
pub proof fn lemma_backend_choice_is_neutral(c: AppConfig, d: AppConfig)
    requires
        c.version == d.version,
        c.default_domain_suffix@ == d.default_domain_suffix@,
        c.remote == d.remote,
        c.default_execution_backend@ == "native"@ || c.default_execution_backend@ == "container"@
            || c.default_execution_backend@ == "remote"@,
        d.default_execution_backend@ == "native"@ || d.default_execution_backend@ == "container"@
            || d.default_execution_backend@ == "remote"@,
    ensures
        config_refusal(c) == config_refusal(d),
{
}

/// A configuration read from disk at an older version is brought to the
/// current one (and must then be saved again: the second result).
pub fn migrate(config: AppConfig) -> (r: (AppConfig, bool))
    ensures
        r.1 == (config.version < CURRENT_CONFIG_VERSION),
        r.0.version == (if config.version < CURRENT_CONFIG_VERSION {
            CURRENT_CONFIG_VERSION
        } else {
            config.version
        }),
        r.0.workspace_roots == config.workspace_roots,
        r.0.default_domain_suffix == config.default_domain_suffix,
        r.0.default_execution_backend == config.default_execution_backend,
        r.0.telemetry_enabled == config.telemetry_enabled,
        r.0.remote == config.remote,
{
    let mut c = config;
    let older = c.version < CURRENT_CONFIG_VERSION;
    if older {
        c.version = CURRENT_CONFIG_VERSION;
    }
    (c, older)
}

/// The configuration with new remote settings, at the current version.
pub fn update_remote(config: AppConfig, remote: RemoteConfig) -> (r: AppConfig)
    ensures
        r.remote == remote,
        r.version == CURRENT_CONFIG_VERSION,
        r.workspace_roots == config.workspace_roots,
        r.default_domain_suffix == config.default_domain_suffix,
        r.default_execution_backend == config.default_execution_backend,
        r.telemetry_enabled == config.telemetry_enabled,
{
    let mut c = config;
    c.remote = remote;
    c.version = CURRENT_CONFIG_VERSION;
    c
}

pub open spec fn texts(v: Seq<String>) -> Seq<Seq<char>> {
    v.map_values(|x: String| x@)
}

/// `s` without repeats, each kept where it first occurs.
pub open spec fn dedup(s: Seq<Seq<char>>) -> Seq<Seq<char>>
    decreases s.len(),
{
    if s.len() == 0 {
        s
    } else {
        let d = dedup(s.drop_last());
        if d.contains(s.last()) {
            d
        } else {
            d.push(s.last())
        }
    }
}

fn contains_text(v: &Vec<String>, t: &str) -> (r: bool)
    ensures
        r == texts(v@).contains(t@),
{
    let mut i: usize = 0;
    while i < v.len()
        invariant
            0 <= i <= v@.len(),
            forall|j: int| 0 <= j < i ==> texts(v@)[j] != t@,
        decreases v@.len() - i,
    {
        assert(texts(v@)[i as int] == v@[i as int]@);
        if str_eq(v[i].as_str(), t) {
            return true;
        }
        i += 1;
    }
    false
}

/// Workspace roots (already canonical) without repeats, in the order given.
pub fn normalize_roots(roots: &Vec<String>) -> (r: Vec<String>)
    ensures
        texts(r@) =~= dedup(texts(roots@)),
{
    let mut out: Vec<String> = Vec::new();
    let mut i: usize = 0;
    assert(texts(roots@).take(0) =~= Seq::<Seq<char>>::empty());
    while i < roots.len()
        invariant
            0 <= i <= roots@.len(),
            texts(out@) =~= dedup(texts(roots@).take(i as int)),
        decreases roots@.len() - i,
    {
        assert(texts(roots@).take(i + 1).drop_last() =~= texts(roots@).take(i as int));
        assert(texts(roots@)[i as int] == roots@[i as int]@);
        if !contains_text(&out, roots[i].as_str()) {
            let ghost before = texts(out@);
            out.push(roots[i].clone());
            assert(texts(out@) =~= before.push(roots@[i as int]@));
        }
        i += 1;
    }
    assert(texts(roots@).take(roots@.len() as int) =~= texts(roots@));
    out
}

/// The configuration with its workspace roots replaced by `roots` (already
/// canonical), each kept once, in the order given.
pub fn update_workspace_roots(config: AppConfig, roots: &Vec<String>) -> (r: AppConfig)
    ensures
        texts(r.workspace_roots@) =~= dedup(texts(roots@)),
        r.version == config.version,
        r.remote == config.remote,
        r.default_domain_suffix == config.default_domain_suffix,
        r.default_execution_backend == config.default_execution_backend,
        r.telemetry_enabled == config.telemetry_enabled,
{
    let mut c = config;
    c.workspace_roots = normalize_roots(roots);
    c
}

/// The roots after adding `x`: unchanged if it is there, else `x` at the end.
pub open spec fn with_root(s: Seq<Seq<char>>, x: Seq<char>) -> Seq<Seq<char>> {
    if s.contains(x) {
        s
    } else {
        s.push(x)
    }
}

/// The configuration with one more workspace root (kept once).
pub fn add_workspace_root(config: AppConfig, canonical: &str) -> (r: AppConfig)
    ensures
        texts(r.workspace_roots@) =~= with_root(texts(config.workspace_roots@), canonical@),
        r.version == config.version,
        r.remote == config.remote,
        r.default_domain_suffix == config.default_domain_suffix,
        r.default_execution_backend == config.default_execution_backend,
        r.telemetry_enabled == config.telemetry_enabled,
{
    let mut c = config;
    if !contains_text(&c.workspace_roots, canonical) {
        let ghost before = texts(c.workspace_roots@);
        c.workspace_roots.push(canonical.to_owned());
        assert(texts(c.workspace_roots@) =~= before.push(canonical@));
    }
    c
}

/// The roots other than `canonical`, in order.
pub open spec fn without(s: Seq<Seq<char>>, x: Seq<char>) -> Seq<Seq<char>>
    decreases s.len(),
{
    if s.len() == 0 {
        s
    } else if s.last() == x {
        without(s.drop_last(), x)
    } else {
        without(s.drop_last(), x).push(s.last())
    }
}

/// The configuration without a workspace root.
pub fn remove_workspace_root(config: AppConfig, canonical: &str) -> (r: AppConfig)
    ensures
        texts(r.workspace_roots@) =~= without(texts(config.workspace_roots@), canonical@),
        r.version == config.version,
        r.remote == config.remote,
        r.default_domain_suffix == config.default_domain_suffix,
        r.default_execution_backend == config.default_execution_backend,
        r.telemetry_enabled == config.telemetry_enabled,
{
    let mut c = config;
    let ghost all = texts(c.workspace_roots@);
    let mut kept: Vec<String> = Vec::new();
    let mut i: usize = 0;
    assert(all.take(0) =~= Seq::<Seq<char>>::empty());
    while i < c.workspace_roots.len()
        invariant
            all == texts(c.workspace_roots@),
            0 <= i <= all.len(),
            texts(kept@) =~= without(all.take(i as int), canonical@),
        decreases all.len() - i,
    {
        assert(all.take(i + 1).drop_last() =~= all.take(i as int));
        assert(all[i as int] == c.workspace_roots@[i as int]@);
        if !str_eq(c.workspace_roots[i].as_str(), canonical) {
            let ghost before = texts(kept@);
            kept.push(c.workspace_roots[i].clone());
            assert(texts(kept@) =~= before.push(all[i as int]));
        }
        i += 1;
    }
    assert(all.take(all.len() as int) =~= all);
    c.workspace_roots = kept;
    c
}

/// A root that is not a directory is refused.
pub fn root_is_directory(root: &str, is_dir: bool) -> (r: Result<(), ConfigError>)
    ensures
        is_dir ==> r is Ok,
        !is_dir ==> config_invalid(r, "workspace root is not a directory: "@ + root@),
{
    if !is_dir {
        return Err(ConfigError::Invalid(crate::text::concat("workspace root is not a directory: ", root)));
    }
    Ok(())
}

/// Whether canonical path `p` lies within canonical directory `base`,
/// comparing whole path components: `p` is `base`, or goes on from it
/// after a `/`.
pub open spec fn path_within(p: Seq<char>, base: Seq<char>) -> bool {
    let a = crate::text::utf8(p);
    let b = crate::text::utf8(base);
    a == b || (b.len() <= a.len() && a.subrange(0, b.len() as int) == b && ((b.len() > 0 && b.last()
        == 47) || (a.len() > b.len() && a[b.len() as int] == 47)))
}

/// Whether path `p` lies within directory `base` (both canonical).
pub fn is_within(p: &str, base: &str) -> (r: bool)
    ensures
        r == path_within(p@, base@),
{
    let a = p.as_bytes();
    let b = base.as_bytes();
    if b.len() > a.len() {
        return false;
    }
    let mut i: usize = 0;
    while i < b.len()
        invariant
            a@ == crate::text::utf8(p@),
            b@ == crate::text::utf8(base@),
            b@.len() <= a@.len(),
            0 <= i <= b@.len(),
            forall|k: int| 0 <= k < i ==> a@[k] == b@[k],
        decreases b@.len() - i,
    {
        if a[i] != b[i] {
            assert(a@.subrange(0, b@.len() as int)[i as int] != b@[i as int]);
            return false;
        }
        i += 1;
    }
    assert(a@.subrange(0, b@.len() as int) =~= b@);
    if a.len() == b.len() {
        assert(a@ =~= b@);
        return true;
    }
    (b.len() > 0 && b[b.len() - 1] == 47) || a[b.len()] == 47
}

/// Whether a database credential file may be used: its canonical path lies
/// within the data directory, or within one of the workspace roots (each
/// canonical; those that could not be resolved are left out).
pub fn credential_file_allowed(requested: &str, data_dir: Option<&str>, roots: &Vec<String>) -> (r: bool)
    ensures
        r == ((data_dir matches Some(d) && path_within(requested@, d@)) || exists|i: int|
            0 <= i < roots@.len() && path_within(requested@, #[trigger] roots@[i]@)),
{
    if let Some(d) = data_dir {
        if is_within(requested, d) {
            return true;
        }
    }
    let mut i: usize = 0;
    while i < roots.len()
        invariant
            0 <= i <= roots@.len(),
            !(data_dir matches Some(d) && path_within(requested@, d@)),
            forall|k: int| 0 <= k < i ==> !path_within(requested@, #[trigger] roots@[k]@),
        decreases roots@.len() - i,
    {
        if is_within(requested, roots[i].as_str()) {
            return true;
        }
        i += 1;
    }
    false
}

/// Adding a workspace root that is already there changes nothing: adding
/// the same root twice gives what adding it once gives.
pub proof fn lemma_add_root_idempotent(s: Seq<Seq<char>>, x: Seq<char>)
    ensures
        with_root(with_root(s, x), x) == with_root(s, x),
{
    assert(with_root(s, x).contains(x)) by {
        if !s.contains(x) {
            assert(s.push(x)[s.len() as int] == x);
        }
    }
}

/// After a root is removed it is not among the roots, and every other root
/// stays.
pub proof fn lemma_removed_root_absent(s: Seq<Seq<char>>, x: Seq<char>)
    ensures
        !without(s, x).contains(x),
        forall|y: Seq<char>| y != x ==> (s.contains(y) <==> #[trigger] without(s, x).contains(y)),
    decreases s.len(),
{
    if s.len() > 0 {
        lemma_removed_root_absent(s.drop_last(), x);
        let d = without(s.drop_last(), x);
        assert forall|y: Seq<char>| y != x implies (s.contains(y) <==> #[trigger] without(s, x).contains(
            y,
        )) by {
            let w = without(s, x);
            if s.contains(y) {
                let j = choose|j: int| 0 <= j < s.len() && s[j] == y;
                if j < s.len() - 1 {
                    assert(s.drop_last()[j] == y);
                    assert(s.drop_last().contains(y));
                    assert(d.contains(y));
                    let k = choose|k: int| 0 <= k < d.len() && d[k] == y;
                    assert(w[k] == y);
                } else {
                    assert(s.last() == y);
                    assert(w[d.len() as int] == y);
                }
                assert(w.contains(y));
            }
            if w.contains(y) {
                let j = choose|j: int| 0 <= j < w.len() && w[j] == y;
                if j < d.len() {
                    assert(d[j] == y);
                    assert(d.contains(y));
                    assert(s.drop_last().contains(y));
                    let k = choose|k: int| 0 <= k < s.drop_last().len() && s.drop_last()[k] == y;
                    assert(s[k] == y);
                } else {
                    assert(s[s.len() - 1] == y);
                }
                assert(s.contains(y));
            }
        }
        if without(s, x).contains(x) {
            let j = choose|j: int| 0 <= j < without(s, x).len() && without(s, x)[j] == x;
            if s.last() != x {
                assert(j != d.len());
                assert(d[j] == x);
            }
        }
    }
}

/// Removing a root that was just added gives the roots without it, as
/// removing it from the roots before gives.
pub proof fn lemma_remove_undoes_add(s: Seq<Seq<char>>, x: Seq<char>)
    ensures
        without(with_root(s, x), x) == without(s, x),
{
    if !s.contains(x) {
        assert(s.push(x).drop_last() =~= s);
    }
}

} // verus!
