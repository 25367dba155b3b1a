use vsn::config::{
    credential_file_allowed, is_within,
    add_workspace_root, migrate, normalize_roots, remove_workspace_root, update_remote, update_workspace_roots, validate,
    AppConfig, ConfigError,
    RemoteConfig, CURRENT_CONFIG_VERSION,
};

#[test]
fn defaults_are_local_first_and_private() {
    let c = AppConfig::default();
    assert_eq!(c.default_execution_backend, "native");
    assert!(!c.telemetry_enabled);
    assert!(!c.remote.enabled);
}

#[test]
fn current_config_version_is_stable() {
    assert_eq!(AppConfig::default().version, CURRENT_CONFIG_VERSION);
}

#[test]
fn public_plain_http_remote_is_rejected() {
    let mut c = AppConfig::default();
    c.remote.enabled = true;
    c.remote.control_plane_url = Some("http://example.com".into());
    c.remote.control_plane_public_key = Some("abc".into());
    assert!(validate(&c).is_err());
}

#[test]
fn defaults_validate_and_loopback_remote_is_allowed() {
    assert!(validate(&AppConfig::default()).is_ok());
    let mut c = AppConfig::default();
    c.remote.enabled = true;
    c.remote.control_plane_url = Some("http://127.0.0.1:7000".into());
    c.remote.control_plane_public_key = Some("  ".into());
    assert_eq!(
        validate(&c),
        Err(ConfigError::Invalid("remote control plane public key is required".into()))
    );
    c.remote.control_plane_public_key = Some("key".into());
    assert!(validate(&c).is_ok());
}

#[test]
fn old_versions_are_migrated() {
    let mut c = AppConfig::default();
    c.version = 1;
    let (m, changed) = migrate(c);
    assert!(changed);
    assert_eq!(m.version, 3);
    let (n, again) = migrate(m);
    assert!(!again);
    assert_eq!(n.version, 3);
}

#[test]
fn remote_update_sets_current_version() {
    let mut c = AppConfig::default();
    c.version = 2;
    let r = RemoteConfig { poll_interval_ms: 1000, ..RemoteConfig::default() };
    let u = update_remote(c, r.clone());
    assert_eq!(u.remote, r);
    assert_eq!(u.version, 3);
}

#[test]
fn workspace_roots_are_kept_once() {
    let roots = normalize_roots(&vec!["/a".into(), "/b".into(), "/a".into()]);
    assert_eq!(roots, vec!["/a", "/b"]);
    let c = add_workspace_root(AppConfig::default(), "/w");
    let c = add_workspace_root(c, "/w");
    assert_eq!(c.workspace_roots, vec!["/w"]);
    let c = remove_workspace_root(c, "/w");
    assert!(c.workspace_roots.is_empty());
}

#[test]
fn replacing_roots_keeps_each_once_and_the_rest() {
    let mut c = AppConfig::default();
    c.telemetry_enabled = true;
    c.workspace_roots = vec!["/old".into()];
    let u = update_workspace_roots(c, &vec!["/x".into(), "/y".into(), "/x".into()]);
    assert_eq!(u.workspace_roots, vec!["/x", "/y"]);
    assert!(u.telemetry_enabled);
}

#[test]
fn removing_a_root_keeps_the_others_in_order() {
    let mut c = AppConfig::default();
    c.workspace_roots = vec!["/a".into(), "/b".into(), "/c".into()];
    let c = add_workspace_root(c, "/b");
    assert_eq!(c.workspace_roots, vec!["/a", "/b", "/c"]);
    let c = remove_workspace_root(c, "/b");
    assert_eq!(c.workspace_roots, vec!["/a", "/c"]);
}

#[test]
fn credential_file_must_lie_in_a_known_directory() {
    assert!(is_within("/data/vsn/creds.json", "/data/vsn"));
    assert!(is_within("/data/vsn", "/data/vsn"));
    assert!(!is_within("/data/vsnx/creds.json", "/data/vsn"));
    assert!(is_within("/etc/passwd", "/"));
    let roots = vec!["/work/a".to_string(), "/work/b".to_string()];
    assert!(credential_file_allowed("/work/b/.pgpass", None, &roots));
    assert!(credential_file_allowed("/data/vsn/db.cnf", Some("/data/vsn"), &roots));
    assert!(!credential_file_allowed("/home/u/.pgpass", Some("/data/vsn"), &roots));
}
