use std::collections::BTreeMap;
use vsn::cloud::{generic_ssh_plan, validate_cloud_resource_name, validate_provider_arg, validate_workspace_spec, CloudError, WorkspaceSpec};
use vsn::cloud_cli::{
    cloud_cli_create, cloud_cli_status, CloudCliCreateRequest, LocalFileCheck,
    cloud_cli_destroy, CloudCliCloneRequest, CloudCliDestroyRequest, CloudCliImageCopyRequest,
    CloudCliInstanceRef, CloudCliProvider, CloudCliSnapshotRequest,
};
use vsn::cloud_copy::{azure_copy_after_show, azure_direct_copy_cleanup, cloud_cli_copy_image, AzureCopyNext, DirectCopyStage};
use vsn::cloud_release::ssh_release_artifact_digest;
use vsn::cloud_ssh::{ExistingSshTarget, SshReleaseUploadRequest};
use vsn::cloud_cli::CloudArtifactKind;
use vsn::digest::{sha256_hex, Sha256Stream};
use vsn::cloud_images::{cloud_cli_clone, cloud_cli_snapshot};
use vsn::cloud_ssh::{validate_health_path, validate_release_id, validate_sha256};

#[test]
fn workspace_requires_safe_name_and_reasonable_disk() {
    let mut spec = WorkspaceSpec {
        name: "dev-1".into(),
        provider: "generic-ssh".into(),
        region: "local".into(),
        machine_type: "vm".into(),
        os_image: "ubuntu".into(),
        disk_gb: 64,
        runtime_requirements: BTreeMap::new(),
        services: vec![],
        labels: BTreeMap::new(),
    };
    assert!(generic_ssh_plan(&spec).is_ok());
    spec.name = "../bad".into();
    assert!(generic_ssh_plan(&spec).is_err());
}

#[test]
fn release_id_is_strict() {
    assert!(validate_release_id("release_2026-08-18").is_ok());
    assert!(validate_release_id("../release").is_err());
}

#[test]
fn sha256_validation_is_exact() {
    assert!(validate_sha256(&"a".repeat(64)).is_ok());
    assert!(validate_sha256("bad").is_err());
}

#[test]
fn health_path_is_bounded() {
    assert!(validate_health_path("/health/ready").is_ok());
    assert!(validate_health_path("/../secret").is_err());
    assert!(validate_health_path("/health?x=1").is_err());
}

#[test]
fn resource_names_reject_flag_and_delimiter_shapes() {
    assert!(validate_cloud_resource_name("vsn-dev-01").is_ok());
    assert!(validate_cloud_resource_name("--region").is_err());
    assert!(validate_cloud_resource_name("x,Tags=[evil]").is_err());
    assert!(validate_cloud_resource_name("a").is_err());
}

#[test]
fn provider_args_reject_leading_flags_controls_and_whitespace() {
    assert!(validate_provider_arg("location", "us-east-1", 160).is_ok());
    assert!(validate_provider_arg("location", "--output", 160).is_err());
    assert!(validate_provider_arg("location", " us-east-1", 160).is_err());
    assert!(validate_provider_arg("location", "us-east-1\n--output", 160).is_err());
}

#[test]
fn destroy_is_explicitly_confirmed() {
    let request = CloudCliDestroyRequest {
        instance: CloudCliInstanceRef {
            provider: CloudCliProvider::Aws,
            instance_id: "i-1234567890abcdef0".into(),
            location: "us-east-1".into(),
            scope: None,
        },
        confirm_destroy: false,
    };
    let error = cloud_cli_destroy(&request).expect_err("destroy without confirmation must fail");
    assert!(error.message().contains("confirm_destroy"));
}

#[test]
fn snapshot_requires_explicit_consistency_ack() {
    let req = CloudCliSnapshotRequest {
        instance: CloudCliInstanceRef {
            provider: CloudCliProvider::Aws,
            instance_id: "i-1234567890abcdef0".into(),
            location: "us-east-1".into(),
            scope: None,
        },
        snapshot_name: "vsn-snap-01".into(),
        acknowledge_crash_consistency: false,
    };
    assert!(cloud_cli_snapshot(&req).is_err());
}

#[test]
fn clone_requires_confirmation() {
    let req = CloudCliCloneRequest {
        source: CloudCliInstanceRef {
            provider: CloudCliProvider::Gcp,
            instance_id: "vm-01".into(),
            location: "us-central1-a".into(),
            scope: Some("project-1".into()),
        },
        snapshot_or_image_id: "image-01".into(),
        target_name: "clone-01".into(),
        target_location: None,
        subnet: None,
        network: None,
        machine_type: None,
        os_type: None,
        confirm_new_instance: false,
    };
    assert!(cloud_cli_clone(&req).is_err());
}

#[test]
fn image_copy_requires_confirmation() {
    let r = CloudCliImageCopyRequest {
        provider: CloudCliProvider::Aws,
        source_artifact_id: "ami-1234567890abcdef0".into(),
        source_location: "us-east-1".into(),
        target_location: "us-west-2".into(),
        target_name: "vsn-copy-01".into(),
        confirm_copy: false,
        artifact_kind: None,
        source_scope: None,
        target_scope: None,
        os_type: None,
        sku: None,
    };
    assert!(cloud_cli_copy_image(&r).is_err());
}

#[test]
fn confirmed_destroy_names_the_instance() {
    let request = CloudCliDestroyRequest {
        instance: CloudCliInstanceRef {
            provider: CloudCliProvider::Aws,
            instance_id: "i-1234567890abcdef0".into(),
            location: "us-east-1".into(),
            scope: None,
        },
        confirm_destroy: true,
    };
    let command = cloud_cli_destroy(&request).unwrap();
    assert_eq!(command.program, "aws");
    assert!(command.args.iter().any(|a| a == "i-1234567890abcdef0"));
}

#[test]
fn resource_name_error_names_the_rule() {
    let e = validate_cloud_resource_name("--region").unwrap_err();
    assert!(e.message().starts_with("invalid workspace specification: "));
}

#[test]
fn azure_create_needs_network_and_subnet_together() {
    let r = CloudCliCreateRequest {
        provider: CloudCliProvider::Azure,
        name: "vsn-dev-01".into(),
        location: "eastus".into(),
        machine_type: "Standard_B2s".into(),
        image: "Ubuntu2204".into(),
        scope: Some("rg-1".into()),
        subnet: None,
        network: Some("vnet-1".into()),
        admin_username: Some("azureuser".into()),
        ssh_public_key_file: None,
    };
    assert_eq!(
        cloud_cli_create(&r, LocalFileCheck::Fine),
        Err(CloudError::Invalid("Azure private network selection requires both network and subnet together".into()))
    );
}

#[test]
fn bad_instance_reference_names_its_field() {
    let i = CloudCliInstanceRef {
        provider: CloudCliProvider::Aws,
        instance_id: "i-1".into(),
        location: " us-east-1".into(),
        scope: None,
    };
    assert_eq!(cloud_cli_status(&i), Err(CloudError::Invalid("location is invalid".into())));
}

#[test]
fn workspace_refusals_are_invalid_with_their_message() {
    let spec = WorkspaceSpec {
        name: "dev-1".into(),
        provider: "generic-ssh".into(),
        region: "local".into(),
        machine_type: "vm".into(),
        os_image: "ubuntu".into(),
        disk_gb: 4,
        runtime_requirements: BTreeMap::new(),
        services: vec![],
        labels: BTreeMap::new(),
    };
    assert_eq!(
        validate_workspace_spec(&spec),
        Err(CloudError::Invalid("disk_gb must be between 8 and 16384".into()))
    );
}

#[test]
fn direct_copy_cleanup_revokes_then_deletes() {
    let r = CloudCliImageCopyRequest {
        provider: CloudCliProvider::Azure,
        source_artifact_id: "/subscriptions/s/resourceGroups/rg/providers/Microsoft.Compute/snapshots/snap".into(),
        source_location: "eastus".into(),
        target_location: "westus".into(),
        target_name: "copy-1".into(),
        confirm_copy: true,
        artifact_kind: None,
        source_scope: None,
        target_scope: None,
        os_type: None,
        sku: None,
    };
    let failed = azure_direct_copy_cleanup(&r, "rg2", "disk-id", "snapshot", DirectCopyStage::CopyFailed);
    assert_eq!(failed.len(), 3);
    assert_eq!(failed[0].args[0], "snapshot");
    assert_eq!(failed[1].args[3], "disk-id");
    assert_eq!(failed[2].args[1], "delete");
    let ok = azure_direct_copy_cleanup(&r, "rg2", "disk-id", "snapshot", DirectCopyStage::Copied);
    assert_eq!(ok.len(), 2);
    let early = azure_direct_copy_cleanup(&r, "rg2", "disk-id", "snapshot", DirectCopyStage::SourceGrantFailed);
    assert_eq!(early[0].args[0], "disk");
    assert_eq!(early[1].args[5], "copy-1");
}

fn azure_copy_request(os_type: Option<&str>, sku: Option<&str>) -> CloudCliImageCopyRequest {
    CloudCliImageCopyRequest {
        provider: CloudCliProvider::Azure,
        source_artifact_id: "/subscriptions/s/resourceGroups/rg/providers/Microsoft.Compute/snapshots/snap".into(),
        source_location: "eastus".into(),
        target_location: "westus".into(),
        target_name: "copy-1".into(),
        confirm_copy: true,
        artifact_kind: Some(CloudArtifactKind::Snapshot),
        source_scope: Some("rg".into()),
        target_scope: Some("rg2".into()),
        os_type: os_type.map(Into::into),
        sku: sku.map(Into::into),
    }
}

fn strings(v: &[&str]) -> Vec<String> {
    v.iter().map(|s| s.to_string()).collect()
}

#[test]
fn azure_direct_copy_creates_the_target_disk_for_upload() {
    let r = azure_copy_request(None, None);
    let next = azure_copy_after_show(&r, &"rg2".to_string(), CloudArtifactKind::Snapshot, br#"{"size":1024,"os":"linux","incremental":false}"#)
        .unwrap();
    match next {
        AzureCopyNext::Direct { create_target, source_kind } => {
            assert_eq!(source_kind, "snapshot");
            assert_eq!(create_target.program, "az");
            assert_eq!(create_target.timeout_ms, 180000);
            assert!(!create_target.allow_empty);
            assert_eq!(
                create_target.args,
                strings(&[
                    "disk", "create", "--resource-group", "rg2", "--name", "copy-1", "--location", "westus",
                    "--os-type", "Linux", "--for-upload", "--upload-size-bytes", "1536", "--sku", "Standard_LRS",
                    "--output", "json",
                ])
            );
        }
        other => panic!("expected a direct copy, got {other:?}"),
    }
}

#[test]
fn azure_incremental_snapshot_copy_names_source_and_target() {
    let r = azure_copy_request(None, None);
    let next = azure_copy_after_show(&r, &"rg2".to_string(), CloudArtifactKind::Snapshot, br#"{"size":1024,"incremental":true}"#)
        .unwrap();
    match next {
        AzureCopyNext::Incremental(c) => {
            assert_eq!(c.program, "az");
            assert_eq!(c.timeout_ms, 180000);
            assert_eq!(
                c.args,
                strings(&[
                    "snapshot", "create", "--resource-group", "rg2", "--name", "copy-1", "--location", "westus",
                    "--source", "/subscriptions/s/resourceGroups/rg/providers/Microsoft.Compute/snapshots/snap",
                    "--incremental", "--copy-start", "--output", "json",
                ])
            );
        }
        other => panic!("expected an incremental copy, got {other:?}"),
    }
}

#[test]
fn azure_direct_copy_refusals_name_their_cause() {
    let g = "rg2".to_string();
    let kind = CloudArtifactKind::Snapshot;
    assert_eq!(
        azure_copy_after_show(&azure_copy_request(None, None), &g, kind, br#"{"os":"linux"}"#),
        Err(CloudError::Invalid("Azure source artifact returned no diskSizeBytes".into()))
    );
    assert_eq!(
        azure_copy_after_show(&azure_copy_request(None, None), &g, kind, br#"{"size":18446744073709551615}"#),
        Err(CloudError::Invalid("Azure disk size overflow".into()))
    );
    assert_eq!(
        azure_copy_after_show(&azure_copy_request(None, None), &g, kind, br#"{"size":1024}"#),
        Err(CloudError::Invalid(
            "Azure direct artifact copy requires os_type=linux|windows when source metadata does not expose it".into()
        ))
    );
    assert_eq!(
        azure_copy_after_show(&azure_copy_request(Some("solaris"), None), &g, kind, br#"{"size":1024}"#),
        Err(CloudError::Invalid("Azure os_type must be linux or windows".into()))
    );
    assert_eq!(
        azure_copy_after_show(&azure_copy_request(Some("windows"), Some("Gold_LRS")), &g, kind, br#"{"size":1024}"#),
        Err(CloudError::Invalid("Azure target disk sku is unsupported for direct copy".into()))
    );
}

#[test]
fn azure_clone_refuses_unknown_os_type() {
    let req = CloudCliCloneRequest {
        source: CloudCliInstanceRef {
            provider: CloudCliProvider::Azure,
            instance_id: "vm-01".into(),
            location: "eastus".into(),
            scope: Some("rg".into()),
        },
        snapshot_or_image_id: "snap-01".into(),
        target_name: "clone-01".into(),
        target_location: None,
        subnet: None,
        network: None,
        machine_type: Some("Standard_B2s".into()),
        os_type: Some("solaris".into()),
        confirm_new_instance: true,
    };
    assert_eq!(
        cloud_cli_clone(&req),
        Err(CloudError::Invalid("Azure clone os_type must be linux or windows".into()))
    );
}

#[test]
fn gcp_clone_requires_project_scope() {
    let req = CloudCliCloneRequest {
        source: CloudCliInstanceRef {
            provider: CloudCliProvider::Gcp,
            instance_id: "vm-01".into(),
            location: "us-central1-a".into(),
            scope: None,
        },
        snapshot_or_image_id: "image-01".into(),
        target_name: "clone-01".into(),
        target_location: None,
        subnet: None,
        network: None,
        machine_type: None,
        os_type: None,
        confirm_new_instance: true,
    };
    assert_eq!(cloud_cli_clone(&req), Err(CloudError::Invalid("GCP clone requires scope=project id".into())));
}

#[test]
fn refused_workspace_plan_is_invalid_with_the_refusal() {
    let spec = WorkspaceSpec {
        name: "../bad".into(),
        provider: "generic-ssh".into(),
        region: "local".into(),
        machine_type: "vm".into(),
        os_image: "ubuntu".into(),
        disk_gb: 64,
        runtime_requirements: BTreeMap::new(),
        services: vec![],
        labels: BTreeMap::new(),
    };
    let expected = validate_workspace_spec(&spec).unwrap_err();
    assert!(matches!(expected, CloudError::Invalid(_)));
    assert_eq!(generic_ssh_plan(&spec).unwrap_err(), expected);
}

fn upload_request(expected: Option<String>) -> SshReleaseUploadRequest {
    SshReleaseUploadRequest {
        target: ExistingSshTarget {
            host: "example.com".into(),
            port: 22,
            user: "deploy".into(),
            identity_file: "/home/u/.ssh/id".into(),
            known_hosts_file: "/home/u/.ssh/known_hosts".into(),
        },
        workspace_name: "dev-1".into(),
        release_id: "release_1".into(),
        artifact_path: "/tmp/app.tar".into(),
        expected_sha256: expected,
        activate: false,
    }
}

fn streamed(parts: &[&[u8]]) -> Sha256Stream {
    let mut h = Sha256Stream::new();
    for p in parts {
        h.update(p);
    }
    h
}

#[test]
fn release_digest_is_the_sha256_of_the_artifact_bytes() {
    let whole = sha256_hex(b"hello world");
    assert_eq!(whole, "b94d27b9934d3e08a52e52d7da7dabfac484efe37a5380ee9088f7ace2efcde9");
    let d = ssh_release_artifact_digest(&upload_request(None), streamed(&[b"hello ", b"world"])).unwrap();
    assert_eq!(d, whole);
    let upper = whole.to_uppercase();
    assert_eq!(
        ssh_release_artifact_digest(&upload_request(Some(upper)), streamed(&[b"hello world"])).unwrap(),
        whole
    );
    assert!(ssh_release_artifact_digest(&upload_request(Some("0".repeat(64))), streamed(&[b"hello world"])).is_err());
    assert!(ssh_release_artifact_digest(&upload_request(Some("bad".into())), streamed(&[b"x"])).is_err());
}
