use vsn::container::{
    backend_from_probes, container_action, info_probe, list_containers, remove_resource,
    tag_and_push, unavailable_backend, validate_backend, version_probe,
    validate_exec_program, ContainerError, RegistryPushRequest, image_pull, image_pull_result,
    container_logs, compose_action_result,
};

#[test]
fn registry_target_must_be_structured() {
    let r = RegistryPushRequest { backend: "sh".into(), source: "a".into(), target: "b".into(), push: false };
    assert!(tag_and_push(&r).is_err());
}

#[test]
fn exec_program_rejects_control_chars() {
    assert!(validate_exec_program("/bin/echo").is_ok());
    assert!(validate_exec_program("bad\ncmd").is_err());
}

#[test]
fn removal_kind_is_allowlisted() {
    assert!(remove_resource("sh", "image", "x", false).is_err());
}

#[test]
fn backend_is_allowlisted() {
    assert!(validate_backend("docker").is_ok());
    assert!(validate_backend("sh").is_err());
}

#[test]
fn invalid_backend_and_target_are_rejected_before_execution() {
    assert!(matches!(list_containers("sh", true), Err(ContainerError::Unsupported(_))));
    assert!(matches!(container_action("docker", "start", "bad target"), Err(ContainerError::Invalid(_))));
}

#[test]
fn listing_runs_the_backend() {
    let c = list_containers("podman", true).unwrap();
    assert_eq!(c.program, "podman");
    assert!(!c.args.is_empty());
}

#[test]
fn unsupported_backend_message() {
    let e = validate_backend("sh").unwrap_err();
    assert!(e.message().starts_with("unsupported container backend: "));
}

#[test]
fn backend_probes_and_their_reading() {
    let v = version_probe("docker");
    assert_eq!(v.program, "docker");
    assert_eq!(v.args, vec!["--version"]);
    assert_eq!(v.timeout_ms, 3000);
    let i = info_probe("podman");
    assert_eq!(i.args, vec!["info", "--format", "{{.ServerVersion}}"]);
    assert_eq!(i.timeout_ms, 5000);
    let b = backend_from_probes("docker", Some("  Docker version 27.1\n".into()), false);
    assert!(b.installed);
    assert_eq!(b.version.as_deref(), Some("Docker version 27.1"));
    assert_eq!(b.daemon_reachable, Some(false));
    let none = backend_from_probes("podman", Some("   ".into()), true);
    assert_eq!(none, unavailable_backend("podman"));
    assert_eq!(backend_from_probes("podman", None, true).daemon_reachable, None);
}

#[test]
fn unknown_backend_is_unsupported_and_bad_target_invalid() {
    assert_eq!(image_pull("lxc", "alpine"), Err(ContainerError::Unsupported("lxc".into())));
    assert_eq!(container_logs("docker", "bad target", 10), Err(ContainerError::Invalid("unsafe container target".into())));
    let r = image_pull_result("docker", "alpine", "  pulled\n");
    assert_eq!(r.action, "image.pull");
    assert_eq!(r.output, "pulled");
}

#[test]
fn compose_action_result_names_the_project_and_action() {
    let r = compose_action_result("docker", "/srv/app", "up", "  started\n");
    assert_eq!(r.backend, "docker");
    assert_eq!(r.target, "/srv/app");
    assert_eq!(r.action, "compose.up");
    assert_eq!(r.output, "started");
}
