//! Snapshots, clones and cross-location image copies through the provider
//! CLIs. Operations that take several invocations are planned one step at a
//! time: each step is decided from what the previous invocation answered.
use crate::cloud::{
    cloud_err, cloud_invalid, is_provider_arg, is_resource_name, validate_cloud_resource_name,
    validate_provider_arg, CloudError,
};
use crate::cloud_cli::{
    arg, arg_refusal, argv, first_of, opt_arg_refusal, ref_refusal, resource_name_refusal, cli_json, cli_json_spec, opt_arg_ok, opt_joined, opt_pair, ref_ok, runs,
    validate_cloud_cli_ref, CloudArtifactKind, CloudCliArtifactRef, CloudCliCloneRequest,
    CloudCliCommand, CloudCliImageCopyRequest, CloudCliOutput, CloudCliProvider, CloudCliResult,
    CloudCliSnapshotRequest,
};
use crate::json::{json_first_field_text, json_first_text_at, json_str_at, json_str_field};
use crate::text::{
    concat, concat3, eq_ignore_ascii_case, eq_ignore_case, has_prefix, lower_chars, starts_with,
    str_eq, to_lower, trim, trim_text, utf8, utf8_decode, blen,
};
use vstd::prelude::*;

verus! {

fn cmd(program: &str, args: Vec<String>, timeout_ms: u64, allow_empty: bool) -> (r:
    CloudCliCommand)
    ensures
        r.program@ == program@,
        r.args == args,
        r.timeout_ms == timeout_ms,
        r.allow_empty == allow_empty,
{
    CloudCliCommand { program: arg(program), args, timeout_ms, allow_empty }
}

fn text_some(s: &String) -> (r: Option<String>)
    ensures
        r matches Some(t) && t@ == s@,
{
    Some(s.clone())
}

/// The checks a snapshot makes before any invocation.
pub open spec fn snapshot_ok(r: CloudCliSnapshotRequest) -> bool {
    r.acknowledge_crash_consistency && ref_ok(r.instance) && is_resource_name(r.snapshot_name@)
}

/// Why a snapshot is refused before any invocation, if it is.
pub open spec fn snapshot_refusal(r: CloudCliSnapshotRequest) -> Option<Seq<char>> {
    if !r.acknowledge_crash_consistency {
        Some(
            "snapshot requires acknowledge_crash_consistency=true; VSN does not claim application-consistent quiescing"@,
        )
    } else {
        first_of(ref_refusal(r.instance), resource_name_refusal(r.snapshot_name@))
    }
}

/// The first invocation of a snapshot: on AWS an AMI is created, on GCP a
/// machine image; on Azure the VM's OS disk is looked up first.
pub fn cloud_cli_snapshot(request: &CloudCliSnapshotRequest) -> (r: Result<
    CloudCliCommand,
    CloudError,
>)
    ensures
        !request.acknowledge_crash_consistency ==> cloud_invalid(
            r,
            "snapshot requires acknowledge_crash_consistency=true; VSN does not claim application-consistent quiescing"@,
        ),
        !snapshot_ok(*request) ==> r is Err,
        snapshot_refusal(*request) matches Some(m) ==> cloud_invalid(r, m),
        snapshot_ok(*request) ==> match request.instance.provider {
            CloudCliProvider::Aws => r matches Ok(c) && runs(
                c,
                "aws"@,
                seq![
                    "ec2"@,
                    "create-image"@,
                    "--region"@,
                    request.instance.location@,
                    "--instance-id"@,
                    request.instance.instance_id@,
                    "--name"@,
                    request.snapshot_name@,
                    "--no-reboot"@,
                    "--query"@,
                    "{artifact_id:ImageId}"@,
                    "--output"@,
                    "json"@,
                ],
                180000,
                false,
            ),
            CloudCliProvider::Azure => match request.instance.scope {
                None => cloud_invalid(r, "Azure snapshot requires scope=resource group"@),
                Some(g) => r matches Ok(c) && runs(
                    c,
                    "az"@,
                    seq![
                        "vm"@,
                        "show"@,
                        "--resource-group"@,
                        g@,
                        "--name"@,
                        request.instance.instance_id@,
                        "--query"@,
                        "storageProfile.osDisk.managedDisk.id"@,
                        "--output"@,
                        "tsv"@,
                    ],
                    60000,
                    true,
                ),
            },
            CloudCliProvider::Gcp => match request.instance.scope {
                None => cloud_invalid(r, "GCP snapshot requires scope=project id"@),
                Some(p) => r matches Ok(c) && runs(
                    c,
                    "gcloud"@,
                    seq![
                        "compute"@,
                        "machine-images"@,
                        "create"@,
                        request.snapshot_name@,
                        "--project"@,
                        p@,
                        "--source-instance"@,
                        request.instance.instance_id@,
                        "--source-instance-zone"@,
                        request.instance.location@,
                        "--quiet"@,
                        "--format=json"@,
                    ],
                    300000,
                    true,
                ),
            },
        },
{
    if !request.acknowledge_crash_consistency {
        return Err(
            cloud_err(
                "snapshot requires acknowledge_crash_consistency=true; VSN does not claim application-consistent quiescing",
            ),
        );
    }
    if let Err(e) = validate_cloud_cli_ref(&request.instance) {
        return Err(e);
    }
    if let Err(e) = validate_cloud_resource_name(request.snapshot_name.as_str()) {
        return Err(e);
    }
    let i = &request.instance;
    match i.provider {
        CloudCliProvider::Aws => Ok(
            cmd(
                "aws",
                vec![
                    arg("ec2"),
                    arg("create-image"),
                    arg("--region"),
                    i.location.clone(),
                    arg("--instance-id"),
                    i.instance_id.clone(),
                    arg("--name"),
                    request.snapshot_name.clone(),
                    arg("--no-reboot"),
                    arg("--query"),
                    arg("{artifact_id:ImageId}"),
                    arg("--output"),
                    arg("json"),
                ],
                180000,
                false,
            ),
        ),
        CloudCliProvider::Azure => {
            let g = match &i.scope {
                Some(g) => g,
                None => return Err(cloud_err("Azure snapshot requires scope=resource group")),
            };
            Ok(
                cmd(
                    "az",
                    vec![
                        arg("vm"),
                        arg("show"),
                        arg("--resource-group"),
                        g.clone(),
                        arg("--name"),
                        i.instance_id.clone(),
                        arg("--query"),
                        arg("storageProfile.osDisk.managedDisk.id"),
                        arg("--output"),
                        arg("tsv"),
                    ],
                    60000,
                    true,
                ),
            )
        },
        CloudCliProvider::Gcp => {
            let p = match &i.scope {
                Some(p) => p,
                None => return Err(cloud_err("GCP snapshot requires scope=project id")),
            };
            Ok(
                cmd(
                    "gcloud",
                    vec![
                        arg("compute"),
                        arg("machine-images"),
                        arg("create"),
                        request.snapshot_name.clone(),
                        arg("--project"),
                        p.clone(),
                        arg("--source-instance"),
                        i.instance_id.clone(),
                        arg("--source-instance-zone"),
                        i.location.clone(),
                        arg("--quiet"),
                        arg("--format=json"),
                    ],
                    300000,
                    true,
                ),
            )
        },
    }
}

/// Text a CLI printed, with surrounding white space removed; `None` when it
/// is not UTF-8.
pub open spec fn printed_text(bytes: Seq<u8>) -> Option<Seq<char>> {
    if vstd::utf8::valid_utf8(bytes) {
        Some(trim(vstd::utf8::decode_utf8(bytes)))
    } else {
        None
    }
}

fn printed(bytes: &[u8]) -> (r: Option<String>)
    ensures
        match printed_text(bytes@) {
            Some(t) => r matches Some(s) && s@ == t,
            None => r is None,
        },
{
    match utf8_decode(bytes) {
        Some(s) => Some(trim_text(s)),
        None => None,
    }
}

/// The second Azure snapshot step: the OS disk the lookup printed becomes the
/// snapshot's source.
pub fn cloud_cli_snapshot_from_os_disk(request: &CloudCliSnapshotRequest, show_output: &[u8]) -> (r:
    Result<CloudCliCommand, CloudError>)
    ensures
        request.instance.scope is None ==> cloud_invalid(
            r,
            "Azure snapshot requires scope=resource group"@,
        ),
        request.instance.scope is Some ==> match printed_text(show_output@) {
            None => cloud_invalid(r, "Azure OS disk id is not UTF-8"@),
            Some(source) => if !is_provider_arg(source, 1024) {
                cloud_invalid(r, "azure_os_disk_id"@ + " is invalid"@)
            } else {
                r matches Ok(c) && runs(
                    c,
                    "az"@,
                    seq![
                        "snapshot"@,
                        "create"@,
                        "--resource-group"@,
                        request.instance.scope->0@,
                        "--name"@,
                        request.snapshot_name@,
                        "--source"@,
                        source,
                        "--output"@,
                        "json"@,
                    ],
                    180000,
                    false,
                )
            },
        },
{
    let g = match &request.instance.scope {
        Some(g) => g,
        None => return Err(cloud_err("Azure snapshot requires scope=resource group")),
    };
    let source = match printed(show_output) {
        Some(s) => s,
        None => return Err(cloud_err("Azure OS disk id is not UTF-8")),
    };
    if let Err(e) = validate_provider_arg("azure_os_disk_id", source.as_str(), 1024) {
        return Err(e);
    }
    Ok(
        cmd(
            "az",
            vec![
                arg("snapshot"),
                arg("create"),
                arg("--resource-group"),
                g.clone(),
                arg("--name"),
                request.snapshot_name.clone(),
                arg("--source"),
                source,
                arg("--output"),
                arg("json"),
            ],
            180000,
            false,
        ),
    )
}

/// The artifact a snapshot reports: AWS must name the AMI; Azure reports the
/// snapshot id or its name; GCP its name.
pub open spec fn snapshot_id(request: CloudCliSnapshotRequest, output: Seq<u8>) -> Option<
    Seq<char>,
> {
    match request.instance.provider {
        CloudCliProvider::Aws => json_str_at(output, "artifact_id"@),
        CloudCliProvider::Azure => match json_str_at(output, "id"@) {
            Some(id) => Some(id),
            None => Some(request.snapshot_name@),
        },
        CloudCliProvider::Gcp => Some(request.snapshot_name@),
    }
}

/// Reads what the last snapshot invocation answered.
pub fn cloud_cli_snapshot_result(request: &CloudCliSnapshotRequest, output: &[u8]) -> (r: Result<
    CloudCliResult,
    CloudError,
>)
    ensures
        ({
            let allow_empty = request.instance.provider == CloudCliProvider::Gcp;
            match cli_json_spec(output@, allow_empty) {
                Err(m) => cloud_invalid(r, m),
                Ok(b) => match snapshot_id(*request, output@) {
                    None => cloud_invalid(r, "AWS create-image returned no AMI id"@),
                    Some(id) => r matches Ok(res) && res.operation@ == "snapshot"@
                        && res.provider == request.instance.provider && (res.instance_id matches Some(
                        i,
                    ) && i@ == id) && (b ==> (res.output matches CloudCliOutput::Document(d) && d@
                        == output@)) && (!b ==> res.output == CloudCliOutput::Empty),
                },
            }
        }),
{
    let allow_empty = request.instance.provider == CloudCliProvider::Gcp;
    let out = match cli_json(output, allow_empty) {
        Ok(o) => o,
        Err(e) => return Err(e),
    };
    let id = match request.instance.provider {
        CloudCliProvider::Aws => json_str_field(output, "artifact_id"),
        CloudCliProvider::Azure => match json_str_field(output, "id") {
            Some(id) => Some(id),
            None => text_some(&request.snapshot_name),
        },
        CloudCliProvider::Gcp => text_some(&request.snapshot_name),
    };
    if id.is_none() {
        return Err(cloud_err("AWS create-image returned no AMI id"));
    }
    Ok(
        CloudCliResult {
            provider: request.instance.provider,
            operation: arg("snapshot"),
            instance_id: id,
            output: out,
        },
    )
}

/// Where a clone goes: the requested location, or the source's.
pub open spec fn clone_location(r: CloudCliCloneRequest) -> Seq<char> {
    match r.target_location {
        Some(l) => l@,
        None => r.source.location@,
    }
}

/// The checks every clone makes before any invocation.
pub open spec fn clone_base_ok(r: CloudCliCloneRequest) -> bool {
    r.confirm_new_instance && ref_ok(r.source) && is_resource_name(r.target_name@)
        && is_provider_arg(r.snapshot_or_image_id@, 1024)
}

/// The settings an Azure clone needs: the source's location, a machine type
/// and a Linux or Windows OS type, and a network and subnet together or neither.
pub open spec fn azure_clone_ok(r: CloudCliCloneRequest) -> bool {
    &&& r.source.scope is Some
    &&& is_provider_arg(clone_location(r), 160)
    &&& clone_location(r) == r.source.location@
    &&& r.machine_type is Some
    &&& is_provider_arg(r.machine_type->0@, 160)
    &&& r.os_type is Some
    &&& (lower_chars(r.os_type->0@) == "linux"@ || lower_chars(r.os_type->0@) == "windows"@)
    &&& (r.network is Some == r.subnet is Some)
    &&& is_provider_arg(r.target_name@ + "-osdisk"@, 80)
}

fn location_of(r: &CloudCliCloneRequest) -> (l: &String)
    ensures
        l@ == clone_location(*r),
{
    match &r.target_location {
        Some(l) => l,
        None => &r.source.location,
    }
}

/// Why an Azure clone is refused as invalid after the checks every clone
/// makes, if it is (a target location other than the source's is refused as
/// unsupported, apart).
pub open spec fn azure_clone_refusal(r: CloudCliCloneRequest) -> Option<Seq<char>> {
    if r.source.scope is None {
        Some("Azure clone requires scope=resource group"@)
    } else if !is_provider_arg(clone_location(r), 160) {
        Some("target_location"@ + " is invalid"@)
    } else if clone_location(r) != r.source.location@ {
        None
    } else if r.machine_type is None {
        Some("Azure clone requires machine_type"@)
    } else if !is_provider_arg(r.machine_type->0@, 160) {
        Some("machine_type"@ + " is invalid"@)
    } else if r.os_type is None {
        Some("Azure clone requires os_type=linux|windows"@)
    } else if !(lower_chars(r.os_type->0@) == "linux"@ || lower_chars(r.os_type->0@) == "windows"@) {
        Some("Azure clone os_type must be linux or windows"@)
    } else if r.network is Some != r.subnet is Some {
        Some("Azure clone private network selection requires both network and subnet"@)
    } else if !is_provider_arg(r.target_name@ + "-osdisk"@, 80) {
        Some("azure_disk_name"@ + " is invalid"@)
    } else {
        None
    }
}

/// Why a GCP clone is refused after the checks every clone makes, if it is.
pub open spec fn gcp_clone_refusal(r: CloudCliCloneRequest) -> Option<Seq<char>> {
    if r.source.scope is None {
        Some("GCP clone requires scope=project id"@)
    } else {
        first_of(
            arg_refusal("target_location"@, clone_location(r), 160),
            first_of(opt_arg_refusal("network"@, r.network, 512), opt_arg_refusal("subnet"@, r.subnet, 512)),
        )
    }
}

/// Why a clone is refused by the checks every clone makes, if it is.
pub open spec fn clone_refusal(r: CloudCliCloneRequest) -> Option<Seq<char>> {
    if !r.confirm_new_instance {
        Some("clone requires confirm_new_instance=true"@)
    } else {
        first_of(
            ref_refusal(r.source),
            first_of(
                resource_name_refusal(r.target_name@),
                arg_refusal("snapshot_or_image_id"@, r.snapshot_or_image_id@, 1024),
            ),
        )
    }
}

/// The first invocation of a clone: on AWS and GCP the instance itself; on
/// Azure the OS disk made from the snapshot.
pub fn cloud_cli_clone(request: &CloudCliCloneRequest) -> (r: Result<CloudCliCommand, CloudError>)
    ensures
        !request.confirm_new_instance ==> cloud_invalid(
            r,
            "clone requires confirm_new_instance=true"@,
        ),
        !clone_base_ok(*request) ==> r is Err,
        clone_refusal(*request) matches Some(m) ==> cloud_invalid(r, m),
        clone_refusal(*request) is None && request.source.provider == CloudCliProvider::Aws ==> (
        first_of(
            arg_refusal("target_location"@, clone_location(*request), 160),
            opt_arg_refusal("subnet"@, request.subnet, 512),
        ) matches Some(m) ==> cloud_invalid(r, m)),
        clone_refusal(*request) is None && request.source.provider == CloudCliProvider::Gcp ==> (
        gcp_clone_refusal(*request) matches Some(m) ==> cloud_invalid(r, m)),
        clone_refusal(*request) is None && request.source.provider == CloudCliProvider::Azure ==> (
        azure_clone_refusal(*request) matches Some(m) ==> cloud_invalid(r, m)),
        clone_base_ok(*request) ==> match request.source.provider {
            CloudCliProvider::Aws => if !is_provider_arg(clone_location(*request), 160)
                || !opt_arg_ok(request.subnet, 512) {
                r is Err
            } else {
                r matches Ok(c) && runs(
                    c,
                    "aws"@,
                    seq![
                        "ec2"@,
                        "run-instances"@,
                        "--region"@,
                        clone_location(*request),
                        "--image-id"@,
                        request.snapshot_or_image_id@,
                        "--count"@,
                        "1"@,
                        "--no-associate-public-ip-address"@,
                        "--tag-specifications"@,
                        crate::cloud_cli::aws_tags(request.target_name@),
                        "--query"@,
                        "Instances[0].{id:InstanceId,state:State.Name,private_ip:PrivateIpAddress}"@,
                        "--output"@,
                        "json"@,
                    ] + opt_pair("--subnet-id"@, request.subnet),
                    180000,
                    false,
                )
            },
            CloudCliProvider::Gcp => if request.source.scope is None {
                cloud_invalid(r, "GCP clone requires scope=project id"@)
            } else if !is_provider_arg(clone_location(*request), 160) || !opt_arg_ok(
                request.network,
                512,
            ) || !opt_arg_ok(request.subnet, 512) {
                r is Err
            } else {
                r matches Ok(c) && runs(
                    c,
                    "gcloud"@,
                    seq![
                        "compute"@,
                        "instances"@,
                        "create"@,
                        request.target_name@,
                        "--project"@,
                        request.source.scope->0@,
                        "--zone"@,
                        clone_location(*request),
                        "--source-machine-image"@,
                        request.snapshot_or_image_id@,
                        "--no-address"@,
                        "--quiet"@,
                        "--format=json"@,
                    ] + opt_joined("--network="@, request.network) + opt_joined(
                        "--subnet="@,
                        request.subnet,
                    ),
                    300000,
                    false,
                )
            },
            CloudCliProvider::Azure => if !azure_clone_ok(*request) {
                r is Err
            } else {
                r matches Ok(c) && runs(
                    c,
                    "az"@,
                    seq![
                        "disk"@,
                        "create"@,
                        "--resource-group"@,
                        request.source.scope->0@,
                        "--name"@,
                        request.target_name@ + "-osdisk"@,
                        "--source"@,
                        request.snapshot_or_image_id@,
                        "--location"@,
                        clone_location(*request),
                        "--output"@,
                        "json"@,
                    ],
                    240000,
                    false,
                )
            },
        },
        request.source.provider == CloudCliProvider::Azure && clone_base_ok(*request)
            && request.source.scope is Some && is_provider_arg(clone_location(*request), 160)
            && clone_location(*request) != request.source.location@ ==> (r matches Err(
            CloudError::Unsupported(m),
        ) && m@ == "Azure cross-region clone requires an explicit snapshot-copy step before VM creation"@),
{
    if !request.confirm_new_instance {
        return Err(cloud_err("clone requires confirm_new_instance=true"));
    }
    if let Err(e) = validate_cloud_cli_ref(&request.source) {
        return Err(e);
    }
    if let Err(e) = validate_cloud_resource_name(request.target_name.as_str()) {
        return Err(e);
    }
    if let Err(e) = validate_provider_arg(
        "snapshot_or_image_id",
        request.snapshot_or_image_id.as_str(),
        1024,
    ) {
        return Err(e);
    }
    match request.source.provider {
        CloudCliProvider::Aws => {
            let location = location_of(request);
            if let Err(e) = validate_provider_arg("target_location", location.as_str(), 160) {
                return Err(e);
            }
            let mut args = vec![
                arg("ec2"),
                arg("run-instances"),
                arg("--region"),
                location.clone(),
                arg("--image-id"),
                request.snapshot_or_image_id.clone(),
                arg("--count"),
                arg("1"),
                arg("--no-associate-public-ip-address"),
                arg("--tag-specifications"),
                concat3(
                    "ResourceType=instance,Tags=[{Key=Name,Value=",
                    request.target_name.as_str(),
                    "},{Key=vsn-managed,Value=true}]",
                ),
                arg("--query"),
                arg("Instances[0].{id:InstanceId,state:State.Name,private_ip:PrivateIpAddress}"),
                arg("--output"),
                arg("json"),
            ];
            if let Some(subnet) = &request.subnet {
                if let Err(e) = validate_provider_arg("subnet", subnet.as_str(), 512) {
                    return Err(e);
                }
                args.push(arg("--subnet-id"));
                args.push(subnet.clone());
            }
            Ok(cmd("aws", args, 180000, false))
        },
        CloudCliProvider::Gcp => {
            let project = match &request.source.scope {
                Some(p) => p,
                None => return Err(cloud_err("GCP clone requires scope=project id")),
            };
            let location = location_of(request);
            if let Err(e) = validate_provider_arg("target_location", location.as_str(), 160) {
                return Err(e);
            }
            let mut args = vec![
                arg("compute"),
                arg("instances"),
                arg("create"),
                request.target_name.clone(),
                arg("--project"),
                project.clone(),
                arg("--zone"),
                location.clone(),
                arg("--source-machine-image"),
                request.snapshot_or_image_id.clone(),
                arg("--no-address"),
                arg("--quiet"),
                arg("--format=json"),
            ];
            if let Some(network) = &request.network {
                if let Err(e) = validate_provider_arg("network", network.as_str(), 512) {
                    return Err(e);
                }
                args.push(concat("--network=", network.as_str()));
            }
            if let Some(subnet) = &request.subnet {
                if let Err(e) = validate_provider_arg("subnet", subnet.as_str(), 512) {
                    return Err(e);
                }
                args.push(concat("--subnet=", subnet.as_str()));
            }
            Ok(cmd("gcloud", args, 300000, false))
        },
        CloudCliProvider::Azure => {
            let group = match &request.source.scope {
                Some(g) => g,
                None => return Err(cloud_err("Azure clone requires scope=resource group")),
            };
            let location = location_of(request);
            if let Err(e) = validate_provider_arg("target_location", location.as_str(), 160) {
                return Err(e);
            }
            if !str_eq(location.as_str(), request.source.location.as_str()) {
                return Err(
                    CloudError::Unsupported(
                        arg(
                            "Azure cross-region clone requires an explicit snapshot-copy step before VM creation",
                        ),
                    ),
                );
            }
            let machine_type = match &request.machine_type {
                Some(m) => m,
                None => return Err(cloud_err("Azure clone requires machine_type")),
            };
            if let Err(e) = validate_provider_arg("machine_type", machine_type.as_str(), 160) {
                return Err(e);
            }
            let os_type = match &request.os_type {
                Some(o) => to_lower(o.as_str()),
                None => return Err(cloud_err("Azure clone requires os_type=linux|windows")),
            };
            if !(str_eq(os_type.as_str(), "linux") || str_eq(os_type.as_str(), "windows")) {
                return Err(cloud_err("Azure clone os_type must be linux or windows"));
            }
            if request.network.is_some() != request.subnet.is_some() {
                return Err(
                    cloud_err(
                        "Azure clone private network selection requires both network and subnet",
                    ),
                );
            }
            let disk_name = concat(request.target_name.as_str(), "-osdisk");
            if let Err(e) = validate_provider_arg("azure_disk_name", disk_name.as_str(), 80) {
                return Err(e);
            }
            Ok(
                cmd(
                    "az",
                    vec![
                        arg("disk"),
                        arg("create"),
                        arg("--resource-group"),
                        group.clone(),
                        arg("--name"),
                        disk_name,
                        arg("--source"),
                        request.snapshot_or_image_id.clone(),
                        arg("--location"),
                        location.clone(),
                        arg("--output"),
                        arg("json"),
                    ],
                    240000,
                    false,
                ),
            )
        },
    }
}

/// The second Azure clone step: the VM attached to the disk the first step
/// created. Yields the invocation and the disk's id.
pub fn cloud_cli_clone_vm(request: &CloudCliCloneRequest, disk_output: &[u8]) -> (r: Result<
    (CloudCliCommand, String),
    CloudError,
>)
    requires
        azure_clone_ok(*request),
    ensures
        match cli_json_spec(disk_output@, false) {
            Err(m) => cloud_invalid(r, m),
            Ok(_) => match json_str_at(disk_output@, "id"@) {
                None => cloud_invalid(r, "Azure disk create returned no disk id"@),
                Some(id) => if !is_provider_arg(id, 2048) {
                    cloud_invalid(r, "azure_disk_id"@ + " is invalid"@)
                } else if request.network is Some && !(is_provider_arg(
                    request.network->0@,
                    512,
                ) && is_provider_arg(request.subnet->0@, 512)) {
                    r is Err
                } else {
                    r matches Ok((c, d)) && d@ == id && runs(
                        c,
                        "az"@,
                        seq![
                            "vm"@,
                            "create"@,
                            "--resource-group"@,
                            request.source.scope->0@,
                            "--name"@,
                            request.target_name@,
                            "--location"@,
                            clone_location(*request),
                            "--attach-os-disk"@,
                            id,
                            "--os-type"@,
                            lower_chars(request.os_type->0@),
                            "--size"@,
                            request.machine_type->0@,
                            "--public-ip-address"@,
                            ""@,
                            "--output"@,
                            "json"@,
                        ] + (if request.network is Some {
                            seq![
                                "--vnet-name"@,
                                request.network->0@,
                                "--subnet"@,
                                request.subnet->0@,
                            ]
                        } else {
                            Seq::empty()
                        }),
                        300000,
                        false,
                    )
                },
            },
        },
{
    if let Err(e) = cli_json(disk_output, false) {
        return Err(e);
    }
    let disk_id = match json_str_field(disk_output, "id") {
        Some(id) => id,
        None => return Err(cloud_err("Azure disk create returned no disk id")),
    };
    if let Err(e) = validate_provider_arg("azure_disk_id", disk_id.as_str(), 2048) {
        return Err(e);
    }
    let group = match &request.source.scope {
        Some(g) => g,
        None => return Err(cloud_err("Azure clone requires scope=resource group")),
    };
    let machine_type = match &request.machine_type {
        Some(m) => m,
        None => return Err(cloud_err("Azure clone requires machine_type")),
    };
    let os_type = match &request.os_type {
        Some(o) => to_lower(o.as_str()),
        None => return Err(cloud_err("Azure clone requires os_type=linux|windows")),
    };
    let mut args = vec![
        arg("vm"),
        arg("create"),
        arg("--resource-group"),
        group.clone(),
        arg("--name"),
        request.target_name.clone(),
        arg("--location"),
        location_of(request).clone(),
        arg("--attach-os-disk"),
        disk_id.clone(),
        arg("--os-type"),
        os_type,
        arg("--size"),
        machine_type.clone(),
        arg("--public-ip-address"),
        arg(""),
        arg("--output"),
        arg("json"),
    ];
    if let (Some(network), Some(subnet)) = (&request.network, &request.subnet) {
        if let Err(e) = validate_provider_arg("network", network.as_str(), 512) {
            return Err(e);
        }
        if let Err(e) = validate_provider_arg("subnet", subnet.as_str(), 512) {
            return Err(e);
        }
        args.push(arg("--vnet-name"));
        args.push(network.clone());
        args.push(arg("--subnet"));
        args.push(subnet.clone());
    }
    Ok((cmd("az", args, 300000, false), disk_id))
}

/// When the Azure VM cannot be created, the disk made for it is deleted.
pub fn cloud_cli_clone_cleanup(request: &CloudCliCloneRequest) -> (r: CloudCliCommand)
    requires
        request.source.scope is Some,
    ensures
        runs(
            r,
            "az"@,
            seq![
                "disk"@,
                "delete"@,
                "--resource-group"@,
                request.source.scope->0@,
                "--name"@,
                request.target_name@ + "-osdisk"@,
                "--yes"@,
                "--output"@,
                "json"@,
            ],
            120000,
            true,
        ),
{
    let group = match &request.source.scope {
        Some(g) => g.clone(),
        None => arg(""),
    };
    cmd(
        "az",
        vec![
            arg("disk"),
            arg("delete"),
            arg("--resource-group"),
            group,
            arg("--name"),
            concat(request.target_name.as_str(), "-osdisk"),
            arg("--yes"),
            arg("--output"),
            arg("json"),
        ],
        120000,
        true,
    )
}

/// Reads what the last clone invocation answered. On Azure the report holds
/// the VM document and the OS disk's id.
pub fn cloud_cli_clone_result(request: &CloudCliCloneRequest, output: &[u8], os_disk_id: &str) -> (r:
    Result<CloudCliResult, CloudError>)
    ensures
        match cli_json_spec(output@, false) {
            Err(m) => cloud_invalid(r, m),
            Ok(_) => match crate::cloud_cli::reported_id(
                request.source.provider,
                output@,
                request.target_name@,
            ) {
                None => cloud_invalid(r, "AWS clone returned no instance id"@),
                Some(id) => r matches Ok(res) && {
                    &&& res.operation@ == "clone"@
                    &&& res.provider == request.source.provider
                    &&& (res.instance_id matches Some(i) && i@ == id)
                    &&& (request.source.provider == CloudCliProvider::Azure ==> (
                    res.output matches CloudCliOutput::AzureClone { vm, os_disk_id: d } && vm@
                        == output@ && d@ == os_disk_id@))
                    &&& (request.source.provider != CloudCliProvider::Azure ==> (
                    res.output matches CloudCliOutput::Document(d) && d@ == output@))
                },
            },
        },
{
    if let Err(e) = cli_json(output, false) {
        return Err(e);
    }
    let id = match request.source.provider {
        CloudCliProvider::Aws => json_str_field(output, "id"),
        CloudCliProvider::Azure => match json_str_field(output, "id") {
            Some(id) => Some(id),
            None => text_some(&request.target_name),
        },
        CloudCliProvider::Gcp => match json_first_field_text(output, "id") {
            Some(id) => Some(id),
            None => text_some(&request.target_name),
        },
    };
    if id.is_none() {
        return Err(cloud_err("AWS clone returned no instance id"));
    }
    let out = if request.source.provider == CloudCliProvider::Azure {
        CloudCliOutput::AzureClone {
            vm: vstd::slice::slice_to_vec(output),
            os_disk_id: arg(os_disk_id),
        }
    } else {
        CloudCliOutput::Document(vstd::slice::slice_to_vec(output))
    };
    Ok(CloudCliResult { provider: request.source.provider, operation: arg("clone"), instance_id: id, output: out })
}

} // verus!
