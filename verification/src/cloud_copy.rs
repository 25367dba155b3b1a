//! Copying machine images and disks across locations, and following a copy.
use crate::cloud::{cloud_err, cloud_invalid, is_provider_arg, is_resource_name, validate_cloud_resource_name, validate_provider_arg, CloudError};
use crate::cloud_cli::{
    arg, arg_refusal, argv, cli_json, cli_json_spec, first_of, opt_arg_ok, opt_arg_refusal,
    refused_with, resource_name_refusal, runs, CloudArtifactKind, CloudCliArtifactRef,
    CloudCliCommand, CloudCliImageCopyRequest, CloudCliOutput, CloudCliProvider, CloudCliResult,
};
use crate::cloud_images::printed_text;
use crate::json::{json_bool_at, json_bool_field, json_check, json_error_of, json_str_at, json_str_field, json_u64_at, json_u64_field};
use crate::text::{
    blen, chars_of, dec_chars, eq_ignore_ascii_case, eq_ignore_case, has_prefix, starts_with,
    str_eq, string_of_chars, u64_text_of, utf8,
};
use vstd::prelude::*;

verus! {

fn cmd(program: &str, args: Vec<String>, timeout_ms: u64, allow_empty: bool) -> (r:
    CloudCliCommand)
    ensures
        r.program@ == program@,
        r.args == args,
        r.timeout_ms == timeout_ms,
        r.allow_empty == allow_empty,
{
    CloudCliCommand { program: arg(program), args, timeout_ms, allow_empty }
}

// ---------------------------------------------------------------------------
// Azure resource ids
// ---------------------------------------------------------------------------
/// Splitting `s[i..]` on `/`, given the segment `cur` being read and the
/// segments `acc` already read; empty segments are dropped.
pub open spec fn split_from(s: Seq<char>, i: int, cur: Seq<char>, acc: Seq<Seq<char>>) -> Seq<
    Seq<char>,
>
    decreases s.len() - i,
{
    if i < 0 || i >= s.len() {
        if cur.len() > 0 {
            acc.push(cur)
        } else {
            acc
        }
    } else if s[i] == '/' {
        split_from(s, i + 1, Seq::empty(), if cur.len() > 0 {
            acc.push(cur)
        } else {
            acc
        })
    } else {
        split_from(s, i + 1, cur.push(s[i]), acc)
    }
}

/// `s.split('/').filter(|v| !v.is_empty())`.
pub open spec fn segments(s: Seq<char>) -> Seq<Seq<char>> {
    split_from(s, 0, Seq::empty(), Seq::empty())
}

/// The segments of `s` between its slashes, empty ones dropped.
pub fn split_segments(s: &str) -> (r: Vec<String>)
    ensures
        r@.map_values(|x: String| x@) =~= segments(s@),
{
    let v = chars_of(s);
    let n = v.len();
    let mut acc: Vec<String> = Vec::new();
    let mut start: usize = 0;
    let mut i: usize = 0;
    assert(s@.subrange(0, 0) =~= Seq::<char>::empty());
    assert(acc@.map_values(|x: String| x@) =~= Seq::<Seq<char>>::empty());
    while i < n
        invariant
            v@ == s@,
            n == v@.len(),
            0 <= start <= i <= n,
            segments(s@) == split_from(
                s@,
                i as int,
                s@.subrange(start as int, i as int),
                acc@.map_values(|x: String| x@),
            ),
        decreases n - i,
    {
        let ghost cur = s@.subrange(start as int, i as int);
        let ghost accv = acc@.map_values(|x: String| x@);
        assert(split_from(s@, i as int, cur, accv) == (if s@[i as int] == '/' {
            split_from(s@, i + 1, Seq::empty(), if cur.len() > 0 {
                accv.push(cur)
            } else {
                accv
            })
        } else {
            split_from(s@, i + 1, cur.push(s@[i as int]), accv)
        }));
        if v[i] == '/' {
            assert(s@.subrange(i + 1, i + 1) =~= Seq::<char>::empty());
            if start < i {
                let seg = string_of_chars(&v, start, i);
                proof {
                    assert(acc@.push(seg).map_values(|x: String| x@) =~= acc@.map_values(
                        |x: String| x@,
                    ).push(s@.subrange(start as int, i as int)));
                }
                acc.push(seg);
            }
            start = i + 1;
        } else {
            assert(s@.subrange(start as int, i + 1) =~= s@.subrange(start as int, i as int).push(
                s@[i as int],
            ));
        }
        i += 1;
    }
    let ghost cur = s@.subrange(start as int, n as int);
    let ghost accv = acc@.map_values(|x: String| x@);
    assert(split_from(s@, n as int, cur, accv) == (if cur.len() > 0 {
        accv.push(cur)
    } else {
        accv
    }));
    if start < n {
        let seg = string_of_chars(&v, start, n);
        proof {
            assert(acc@.push(seg).map_values(|x: String| x@) =~= acc@.map_values(|x: String| x@).push(
                s@.subrange(start as int, n as int),
            ));
        }
        acc.push(seg);
    }
    acc
}

/// The first index at or after `i` of a segment equal to `word` ignoring ASCII case.
pub open spec fn index_of_from(parts: Seq<Seq<char>>, word: Seq<char>, i: int) -> Option<int>
    decreases parts.len() - i,
{
    if i < 0 || i >= parts.len() {
        None
    } else if eq_ignore_case(parts[i], word) {
        Some(i)
    } else {
        index_of_from(parts, word, i + 1)
    }
}

fn position_of(parts: &Vec<String>, word: &str) -> (r: Option<usize>)
    ensures
        r matches Some(k) ==> k < parts@.len() && index_of_from(
            parts@.map_values(|x: String| x@),
            word@,
            0,
        ) == Some(k as int),
        r is None ==> index_of_from(parts@.map_values(|x: String| x@), word@, 0) is None,
{
    let ghost p = parts@.map_values(|x: String| x@);
    let mut i: usize = 0;
    while i < parts.len()
        invariant
            p == parts@.map_values(|x: String| x@),
            0 <= i <= parts@.len(),
            index_of_from(p, word@, 0) == index_of_from(p, word@, i as int),
        decreases parts@.len() - i,
    {
        assert(p[i as int] == parts@[i as int]@);
        if eq_ignore_ascii_case(parts[i].as_str(), word) {
            assert(p[i as int] == parts@[i as int]@);
            return Some(i);
        }
        i += 1;
    }
    None
}

/// A parsed Azure resource id.
#[derive(Debug, Clone, PartialEq, Eq)]
pub struct AzureResourceRef {
    pub resource_group: String,
    pub resource_type: String,
    pub name: String,
}

/// The resource group, type and name an Azure resource id names:
/// `.../resourceGroups/<group>/.../providers/Microsoft.Compute/<type>/<name>`.
pub open spec fn azure_resource(id: Seq<char>) -> Option<(Seq<char>, Seq<char>, Seq<char>)> {
    let parts = segments(id);
    match (index_of_from(parts, "resourceGroups"@, 0), index_of_from(parts, "providers"@, 0)) {
        (Some(rg), Some(pi)) => if rg + 1 < parts.len() && pi + 3 < parts.len() && eq_ignore_case(
            parts[pi + 1],
            "Microsoft.Compute"@,
        ) {
            Some((parts[rg + 1], parts[pi + 2], parts[pi + 3]))
        } else {
            None
        },
        _ => None,
    }
}

/// Parses an Azure resource id; its group and name must be provider arguments
/// of at most 256 bytes.
pub fn azure_parse_resource_id(id: &str) -> (r: Result<AzureResourceRef, CloudError>)
    ensures
        match azure_resource(id@) {
            None => r is Err,
            Some((g, t, n)) => if is_provider_arg(g, 256) && is_provider_arg(n, 256) {
                r matches Ok(x) && x.resource_group@ == g && x.resource_type@ == t && x.name@ == n
            } else {
                r is Err
            },
        },
{
    let parts = split_segments(id);
    let ghost p = parts@.map_values(|x: String| x@);
    let rg = match position_of(&parts, "resourceGroups") {
        Some(k) => k,
        None => return Err(cloud_err("Azure artifact id must include resourceGroups/<group>")),
    };
    let pi = match position_of(&parts, "providers") {
        Some(k) => k,
        None => return Err(
            cloud_err("Azure artifact id must include providers/Microsoft.Compute/<type>/<name>"),
        ),
    };
    assert(p =~= segments(id@));
    assert(index_of_from(p, "resourceGroups"@, 0) == Some(rg as int));
    assert(index_of_from(p, "providers"@, 0) == Some(pi as int));
    if parts.len() - rg <= 1 || parts.len() - pi <= 3 {
        assert(azure_resource(id@) is None);
        return Err(cloud_err("Azure artifact resource id is malformed"));
    }
    assert(p[pi + 1] == parts@[pi + 1]@);
    assert(p[rg + 1] == parts@[rg + 1]@);
    assert(p[pi + 2] == parts@[pi + 2]@);
    assert(p[pi + 3] == parts@[pi + 3]@);
    if !eq_ignore_ascii_case(
        parts[pi + 1].as_str(),
        "Microsoft.Compute",
    ) {
        return Err(cloud_err("Azure artifact resource id is malformed"));
    }
    let r = AzureResourceRef {
        resource_group: parts[rg + 1].clone(),
        resource_type: parts[pi + 2].clone(),
        name: parts[pi + 3].clone(),
    };
    if let Err(e) = validate_provider_arg("azure_resource_group", r.resource_group.as_str(), 256) {
        return Err(e);
    }
    if let Err(e) = validate_provider_arg("azure_resource_name", r.name.as_str(), 256) {
        return Err(e);
    }
    Ok(r)
}

/// The kind an Azure resource id names: `snapshots` or `disks`, in any case.
pub open spec fn azure_kind(id: Seq<char>) -> Option<CloudArtifactKind> {
    match azure_resource(id) {
        Some((g, t, n)) => if is_provider_arg(g, 256) && is_provider_arg(n, 256) {
            if eq_ignore_case(t, "snapshots"@) {
                Some(CloudArtifactKind::Snapshot)
            } else if eq_ignore_case(t, "disks"@) {
                Some(CloudArtifactKind::ManagedDisk)
            } else {
                None
            }
        } else {
            None
        },
        None => None,
    }
}

pub fn azure_resource_kind(id: &str) -> (r: Option<CloudArtifactKind>)
    ensures
        r == azure_kind(id@),
{
    match azure_parse_resource_id(id) {
        Ok(x) => {
            if eq_ignore_ascii_case(x.resource_type.as_str(), "snapshots") {
                Some(CloudArtifactKind::Snapshot)
            } else if eq_ignore_ascii_case(x.resource_type.as_str(), "disks") {
                Some(CloudArtifactKind::ManagedDisk)
            } else {
                None
            }
        },
        Err(_) => None,
    }
}

/// `"Linux"` or `"Windows"` for an OS type given in any case.
pub open spec fn azure_os_type(value: Seq<char>) -> Option<Seq<char>> {
    if eq_ignore_case(value, "linux"@) {
        Some("Linux"@)
    } else if eq_ignore_case(value, "windows"@) {
        Some("Windows"@)
    } else {
        None
    }
}

pub fn normalize_azure_os_type(value: &str) -> (r: Result<String, CloudError>)
    ensures
        match azure_os_type(value@) {
            Some(t) => r matches Ok(s) && s@ == t,
            None => cloud_invalid(r, "Azure os_type must be linux or windows"@),
        },
{
    if eq_ignore_ascii_case(value, "linux") {
        Ok(arg("Linux"))
    } else if eq_ignore_ascii_case(value, "windows") {
        Ok(arg("Windows"))
    } else {
        Err(cloud_err("Azure os_type must be linux or windows"))
    }
}

/// The disk SKUs a direct copy may target, in any case.
pub open spec fn is_disk_sku(v: Seq<char>) -> bool {
    eq_ignore_case(v, "standard_lrs"@) || eq_ignore_case(v, "premium_lrs"@) || eq_ignore_case(
        v,
        "standardssd_lrs"@,
    ) || eq_ignore_case(v, "standardssd_zrs"@) || eq_ignore_case(v, "premium_zrs"@)
        || eq_ignore_case(v, "premiumv2_lrs"@) || eq_ignore_case(v, "ultrassd_lrs"@)
}

pub fn validate_azure_disk_sku(value: &str) -> (r: Result<(), CloudError>)
    ensures
        r is Ok <==> is_disk_sku(value@),
        r is Err ==> cloud_invalid(r, "Azure target disk sku is unsupported for direct copy"@),
{
    if eq_ignore_ascii_case(value, "standard_lrs") || eq_ignore_ascii_case(value, "premium_lrs")
        || eq_ignore_ascii_case(value, "standardssd_lrs") || eq_ignore_ascii_case(
        value,
        "standardssd_zrs",
    ) || eq_ignore_ascii_case(value, "premium_zrs") || eq_ignore_ascii_case(
        value,
        "premiumv2_lrs",
    ) || eq_ignore_ascii_case(value, "ultrassd_lrs") {
        Ok(())
    } else {
        Err(cloud_err("Azure target disk sku is unsupported for direct copy"))
    }
}

// ---------------------------------------------------------------------------
// Image copy
// ---------------------------------------------------------------------------
/// The first step of an image copy.
#[derive(Debug, Clone, PartialEq, Eq)]
pub enum CopyImageStep {
    /// Run this invocation and read it with [`cloud_cli_copy_image_result`].
    Run(CloudCliCommand),
    /// Nothing to run: the copy is already what it reports.
    Done(CloudCliResult),
    /// An Azure copy into `target_group`: run `command`, then continue by `kind`.
    Azure { target_group: String, kind: CloudArtifactKind, command: CloudCliCommand },
}

/// The checks an image copy makes before any invocation.
pub open spec fn copy_ok(r: CloudCliImageCopyRequest) -> bool {
    &&& r.confirm_copy
    &&& is_resource_name(r.target_name@)
    &&& is_provider_arg(r.source_artifact_id@, 2048)
    &&& is_provider_arg(r.source_location@, 160)
    &&& is_provider_arg(r.target_location@, 160)
    &&& opt_arg_ok(r.source_scope, 512)
    &&& opt_arg_ok(r.target_scope, 512)
    &&& opt_arg_ok(r.os_type, 512)
    &&& opt_arg_ok(r.sku, 512)
}

/// Why an image copy is refused before any invocation, if it is: the first
/// check it fails.
pub open spec fn copy_refusal(r: CloudCliImageCopyRequest) -> Option<Seq<char>> {
    if !r.confirm_copy {
        Some("image copy requires confirm_copy=true"@)
    } else {
        first_of(
            resource_name_refusal(r.target_name@),
            first_of(
                arg_refusal("source_artifact_id"@, r.source_artifact_id@, 2048),
                first_of(
                    arg_refusal("source_location"@, r.source_location@, 160),
                    first_of(
                        arg_refusal("target_location"@, r.target_location@, 160),
                        first_of(
                            opt_arg_refusal("source_scope"@, r.source_scope, 512),
                            first_of(
                                opt_arg_refusal("target_scope"@, r.target_scope, 512),
                                first_of(
                                    opt_arg_refusal("os_type"@, r.os_type, 512),
                                    opt_arg_refusal("sku"@, r.sku, 512),
                                ),
                            ),
                        ),
                    ),
                ),
            ),
        )
    }
}

/// Why a copy-status request is refused, if it is.
pub open spec fn copy_status_refusal(r: CloudCliArtifactRef) -> Option<Seq<char>> {
    first_of(
        arg_refusal("artifact_id"@, r.artifact_id@, 2048),
        first_of(arg_refusal("location"@, r.location@, 160), opt_arg_refusal("scope"@, r.scope, 512)),
    )
}

fn check_opt(name: &str, o: &Option<String>, max: usize) -> (r: Result<(), CloudError>)
    ensures
        r is Ok <==> opt_arg_ok(*o, max as int),
        refused_with(r, opt_arg_refusal(name@, *o, max as int)),
{
    match o {
        Some(v) => validate_provider_arg(name, v.as_str(), max),
        None => Ok(()),
    }
}

/// The arguments of an incremental snapshot copy into `group`.
pub open spec fn incremental_args(request: CloudCliImageCopyRequest, group: Seq<char>) -> Seq<Seq<char>> {
    seq![
        "snapshot"@,
        "create"@,
        "--resource-group"@,
        group,
        "--name"@,
        request.target_name@,
        "--location"@,
        request.target_location@,
        "--source"@,
        request.source_artifact_id@,
        "--incremental"@,
        "--copy-start"@,
        "--output"@,
        "json"@,
    ]
}

/// The OS type a direct copy uses: the requested one, else the one the
/// source reports.
pub open spec fn chosen_os(request: CloudCliImageCopyRequest, show: Seq<u8>) -> Option<Seq<char>> {
    match request.os_type {
        Some(o) => Some(o@),
        None => json_str_at(show, "os"@),
    }
}

/// The disk SKU a direct copy uses: the requested one, else `Standard_LRS`.
pub open spec fn chosen_sku(request: CloudCliImageCopyRequest) -> Seq<char> {
    match request.sku {
        Some(s) => s@,
        None => "Standard_LRS"@,
    }
}

/// The arguments that create the target disk of a direct copy for upload.
pub open spec fn direct_args(
    request: CloudCliImageCopyRequest,
    group: Seq<char>,
    os: Seq<char>,
    upload: nat,
) -> Seq<Seq<char>> {
    seq![
        "disk"@,
        "create"@,
        "--resource-group"@,
        group,
        "--name"@,
        request.target_name@,
        "--location"@,
        request.target_location@,
        "--os-type"@,
        os,
        "--for-upload"@,
        "--upload-size-bytes"@,
        dec_chars(upload),
        "--sku"@,
        chosen_sku(request),
        "--output"@,
        "json"@,
    ]
}

/// What follows the showing of an Azure source, as `azure_copy_after_show`
/// decides it (the refusal's message on `Err`).
pub open spec fn after_show_ok(
    request: CloudCliImageCopyRequest,
    group: Seq<char>,
    kind: CloudArtifactKind,
    show: Seq<u8>,
    r: Result<AzureCopyNext, CloudError>,
) -> bool {
    match cli_json_spec(show, false) {
        Err(m) => cloud_invalid(r, m),
        Ok(_) => if kind == CloudArtifactKind::Snapshot && json_bool_at(show, "incremental"@) == Some(
            true,
        ) {
            r matches Ok(AzureCopyNext::Incremental(c)) && runs(
                c,
                "az"@,
                incremental_args(request, group),
                180000,
                false,
            )
        } else {
            match json_u64_at(show, "size"@) {
                None => cloud_invalid(r, "Azure source artifact returned no diskSizeBytes"@),
                Some(size) => if size + 512 > u64::MAX {
                    cloud_invalid(r, "Azure disk size overflow"@)
                } else {
                    match chosen_os(request, show) {
                        None => cloud_invalid(
                            r,
                            "Azure direct artifact copy requires os_type=linux|windows when source metadata does not expose it"@,
                        ),
                        Some(o) => match azure_os_type(o) {
                            None => cloud_invalid(r, "Azure os_type must be linux or windows"@),
                            Some(t) => if !is_disk_sku(chosen_sku(request)) {
                                cloud_invalid(r, "Azure target disk sku is unsupported for direct copy"@)
                            } else {
                                r matches Ok(AzureCopyNext::Direct { create_target, source_kind })
                                    && source_kind@ == (if kind == CloudArtifactKind::ManagedDisk {
                                    "disk"@
                                } else {
                                    "snapshot"@
                                }) && runs(
                                    create_target,
                                    "az"@,
                                    direct_args(request, group, t, (size + 512) as nat),
                                    180000,
                                    false,
                                )
                            },
                        },
                    }
                },
            }
        },
    }
}

fn incremental_command(request: &CloudCliImageCopyRequest, target_group: &String) -> (r:
    CloudCliCommand)
    ensures
        runs(r, "az"@, incremental_args(*request, target_group@), 180000, false),
{
    cmd(
        "az",
        vec![
            arg("snapshot"),
            arg("create"),
            arg("--resource-group"),
            target_group.clone(),
            arg("--name"),
            request.target_name.clone(),
            arg("--location"),
            request.target_location.clone(),
            arg("--source"),
            request.source_artifact_id.clone(),
            arg("--incremental"),
            arg("--copy-start"),
            arg("--output"),
            arg("json"),
        ],
        180000,
        false,
    )
}

/// The invocation that shows an Azure snapshot or disk.
pub open spec fn show_args(disk: bool, id: Seq<char>) -> Seq<Seq<char>> {
    seq![
        if disk {
            "disk"@
        } else {
            "snapshot"@
        },
        "show"@,
        "--ids"@,
        id,
        "--query"@,
        if disk {
            "{size:diskSizeBytes,os:osType,id:id,location:location}"@
        } else {
            "{size:diskSizeBytes,os:osType,incremental:incremental,id:id,location:location}"@
        },
        "--output"@,
        "json"@,
    ]
}

fn show_command(disk: bool, id: &String) -> (r: CloudCliCommand)
    ensures
        runs(r, "az"@, show_args(disk, id@), 60000, false),
{
    cmd(
        "az",
        vec![
            if disk {
                arg("disk")
            } else {
                arg("snapshot")
            },
            arg("show"),
            arg("--ids"),
            id.clone(),
            arg("--query"),
            if disk {
                arg("{size:diskSizeBytes,os:osType,id:id,location:location}")
            } else {
                arg("{size:diskSizeBytes,os:osType,incremental:incremental,id:id,location:location}")
            },
            arg("--output"),
            arg("json"),
        ],
        60000,
        false,
    )
}

/// The group an Azure copy lands in: the target scope, else the source
/// scope, else the source's own group.
pub open spec fn copy_group(r: CloudCliImageCopyRequest, source_group: Seq<char>) -> Seq<char> {
    match r.target_scope {
        Some(t) => t@,
        None => match r.source_scope {
            Some(s) => s@,
            None => source_group,
        },
    }
}

/// The first step of an image copy: AWS copies the AMI into the target
/// region; GCP machine images are global and need no copy; Azure starts an
/// incremental snapshot copy, or first inspects the snapshot or disk.
pub fn cloud_cli_copy_image(request: &CloudCliImageCopyRequest) -> (r: Result<
    CopyImageStep,
    CloudError,
>)
    ensures
        !request.confirm_copy ==> cloud_invalid(r, "image copy requires confirm_copy=true"@),
        !copy_ok(*request) ==> r is Err,
        copy_refusal(*request) matches Some(m) ==> cloud_invalid(r, m),
        copy_ok(*request) && request.provider == CloudCliProvider::Aws ==> if request.source_location@
            == request.target_location@ {
            cloud_invalid(r, "AWS image copy target region must differ from source region"@)
        } else {
            r matches Ok(CopyImageStep::Run(c)) && runs(
                c,
                "aws"@,
                seq![
                    "ec2"@,
                    "copy-image"@,
                    "--region"@,
                    request.target_location@,
                    "--source-region"@,
                    request.source_location@,
                    "--source-image-id"@,
                    request.source_artifact_id@,
                    "--name"@,
                    request.target_name@,
                    "--query"@,
                    "{artifact_id:ImageId}"@,
                    "--output"@,
                    "json"@,
                ],
                180000,
                false,
            )
        },
        copy_ok(*request) && request.provider == CloudCliProvider::Gcp ==> (r matches Ok(
            CopyImageStep::Done(res),
        ) && {
            &&& res.provider == CloudCliProvider::Gcp
            &&& res.operation@ == "copy_image"@
            &&& (res.instance_id matches Some(i) && i@ == request.source_artifact_id@)
            &&& (res.output matches CloudCliOutput::GcpGlobalImage { artifact_id, target_location }
                && artifact_id@ == request.source_artifact_id@ && target_location@
                == request.target_location@)
        }),
        copy_ok(*request) && request.provider == CloudCliProvider::Azure && azure_resource(
            request.source_artifact_id@,
        ) is None ==> r is Err,
        r matches Ok(CopyImageStep::Azure { target_group, kind, command }) ==> {
            &&& request.provider == CloudCliProvider::Azure
            &&& azure_resource(request.source_artifact_id@) matches Some((g, _, _)) && target_group@
                == copy_group(*request, g)
            &&& kind == (match request.artifact_kind {
                Some(k) => k,
                None => azure_kind(request.source_artifact_id@)->0,
            })
            &&& (kind == CloudArtifactKind::IncrementalSnapshot ==> runs(
                command,
                "az"@,
                incremental_args(*request, target_group@),
                180000,
                false,
            ))
            &&& (kind == CloudArtifactKind::Snapshot ==> runs(
                command,
                "az"@,
                show_args(false, request.source_artifact_id@),
                60000,
                false,
            ))
            &&& (kind == CloudArtifactKind::ManagedDisk ==> runs(
                command,
                "az"@,
                show_args(true, request.source_artifact_id@),
                60000,
                false,
            ))
        },
{
    if !request.confirm_copy {
        return Err(cloud_err("image copy requires confirm_copy=true"));
    }
    if let Err(e) = validate_cloud_resource_name(request.target_name.as_str()) {
        return Err(e);
    }
    if let Err(e) = validate_provider_arg(
        "source_artifact_id",
        request.source_artifact_id.as_str(),
        2048,
    ) {
        return Err(e);
    }
    if let Err(e) = validate_provider_arg("source_location", request.source_location.as_str(), 160) {
        return Err(e);
    }
    if let Err(e) = validate_provider_arg("target_location", request.target_location.as_str(), 160) {
        return Err(e);
    }
    if let Err(e) = check_opt("source_scope", &request.source_scope, 512) {
        return Err(e);
    }
    if let Err(e) = check_opt("target_scope", &request.target_scope, 512) {
        return Err(e);
    }
    if let Err(e) = check_opt("os_type", &request.os_type, 512) {
        return Err(e);
    }
    if let Err(e) = check_opt("sku", &request.sku, 512) {
        return Err(e);
    }
    match request.provider {
        CloudCliProvider::Aws => {
            if str_eq(request.source_location.as_str(), request.target_location.as_str()) {
                return Err(cloud_err("AWS image copy target region must differ from source region"));
            }
            Ok(
                CopyImageStep::Run(
                    cmd(
                        "aws",
                        vec![
                            arg("ec2"),
                            arg("copy-image"),
                            arg("--region"),
                            request.target_location.clone(),
                            arg("--source-region"),
                            request.source_location.clone(),
                            arg("--source-image-id"),
                            request.source_artifact_id.clone(),
                            arg("--name"),
                            request.target_name.clone(),
                            arg("--query"),
                            arg("{artifact_id:ImageId}"),
                            arg("--output"),
                            arg("json"),
                        ],
                        180000,
                        false,
                    ),
                ),
            )
        },
        CloudCliProvider::Gcp => Ok(
            CopyImageStep::Done(
                CloudCliResult {
                    provider: CloudCliProvider::Gcp,
                    operation: arg("copy_image"),
                    instance_id: Some(request.source_artifact_id.clone()),
                    output: CloudCliOutput::GcpGlobalImage {
                        artifact_id: request.source_artifact_id.clone(),
                        target_location: request.target_location.clone(),
                    },
                },
            ),
        ),
        CloudCliProvider::Azure => {
            let source = match azure_parse_resource_id(request.source_artifact_id.as_str()) {
                Ok(s) => s,
                Err(e) => return Err(e),
            };
            let target_group = match &request.target_scope {
                Some(t) => t.clone(),
                None => match &request.source_scope {
                    Some(s) => s.clone(),
                    None => source.resource_group.clone(),
                },
            };
            if let Err(e) = validate_provider_arg("target_scope", target_group.as_str(), 256) {
                return Err(e);
            }
            let kind = match request.artifact_kind {
                Some(k) => k,
                None => match azure_resource_kind(request.source_artifact_id.as_str()) {
                    Some(k) => k,
                    None => return Err(
                        cloud_err(
                            "Azure artifact copy requires artifact_kind or a full snapshot/disk resource id",
                        ),
                    ),
                },
            };
            let command = match kind {
                CloudArtifactKind::IncrementalSnapshot => incremental_command(
                    request,
                    &target_group,
                ),
                CloudArtifactKind::Snapshot => show_command(false, &request.source_artifact_id),
                CloudArtifactKind::ManagedDisk => show_command(true, &request.source_artifact_id),
                CloudArtifactKind::Ami => return Err(
                    cloud_err("Azure copy does not accept artifact kind Ami"),
                ),
                CloudArtifactKind::MachineImage => return Err(
                    cloud_err("Azure copy does not accept artifact kind MachineImage"),
                ),
            };
            Ok(CopyImageStep::Azure { target_group, kind, command })
        },
    }
}

/// Reads what the AWS copy answered: the new AMI must be named.
pub fn cloud_cli_copy_image_result(request: &CloudCliImageCopyRequest, output: &[u8]) -> (r:
    Result<CloudCliResult, CloudError>)
    ensures
        match cli_json_spec(output@, false) {
            Err(m) => cloud_invalid(r, m),
            Ok(_) => match json_str_at(output@, "artifact_id"@) {
                None => cloud_invalid(r, "AWS copy-image returned no AMI id"@),
                Some(id) => r matches Ok(res) && res.operation@ == "copy_image"@ && (
                res.instance_id matches Some(i) && i@ == id) && (
                res.output matches CloudCliOutput::Document(d) && d@ == output@),
            },
        },
{
    let out = match cli_json(output, false) {
        Ok(o) => o,
        Err(e) => return Err(e),
    };
    let id = match json_str_field(output, "artifact_id") {
        Some(id) => id,
        None => return Err(cloud_err("AWS copy-image returned no AMI id")),
    };
    Ok(CloudCliResult { provider: request.provider, operation: arg("copy_image"), instance_id: Some(id), output: out })
}

/// The step after an Azure snapshot or disk was shown.
#[derive(Debug, Clone, PartialEq, Eq)]
pub enum AzureCopyNext {
    /// The snapshot is incremental: start an incremental copy.
    Incremental(CloudCliCommand),
    /// Copy directly: create the target disk for upload with this invocation;
    /// `source_kind` is `snapshot` or `disk`.
    Direct { create_target: CloudCliCommand, source_kind: String },
}

/// The upload size of a direct copy: the source's size plus the 512-byte footer.
pub open spec fn upload_size(show: Seq<u8>) -> Option<int> {
    match json_u64_at(show, "size"@) {
        Some(s) => Some(s + 512),
        None => None,
    }
}

/// Decides how to copy after the source was shown.
pub fn azure_copy_after_show(
    request: &CloudCliImageCopyRequest,
    target_group: &String,
    kind: CloudArtifactKind,
    show_output: &[u8],
) -> (r: Result<AzureCopyNext, CloudError>)
    ensures
        after_show_ok(*request, target_group@, kind, show_output@, r),
{
    if let Err(e) = cli_json(show_output, false) {
        return Err(e);
    }
    if kind == CloudArtifactKind::Snapshot {
        let incremental = match json_bool_field(show_output, "incremental") {
            Some(b) => b,
            None => false,
        };
        if incremental {
            return Ok(AzureCopyNext::Incremental(incremental_command(request, target_group)));
        }
    }
    let size = match json_u64_field(show_output, "size") {
        Some(s) => s,
        None => return Err(cloud_err("Azure source artifact returned no diskSizeBytes")),
    };
    let upload = match size.checked_add(512) {
        Some(u) => u,
        None => return Err(cloud_err("Azure disk size overflow")),
    };
    let os_type = match &request.os_type {
        Some(o) => o.clone(),
        None => match json_str_field(show_output, "os") {
            Some(o) => o,
            None => return Err(
                cloud_err(
                    "Azure direct artifact copy requires os_type=linux|windows when source metadata does not expose it",
                ),
            ),
        },
    };
    let os_type = match normalize_azure_os_type(os_type.as_str()) {
        Ok(o) => o,
        Err(e) => return Err(e),
    };
    let sku = match &request.sku {
        Some(s) => s.clone(),
        None => arg("Standard_LRS"),
    };
    if let Err(e) = validate_azure_disk_sku(sku.as_str()) {
        return Err(e);
    }
    let create_target = cmd(
        "az",
        vec![
            arg("disk"),
            arg("create"),
            arg("--resource-group"),
            target_group.clone(),
            arg("--name"),
            request.target_name.clone(),
            arg("--location"),
            request.target_location.clone(),
            arg("--os-type"),
            os_type,
            arg("--for-upload"),
            arg("--upload-size-bytes"),
            u64_text_of(upload),
            arg("--sku"),
            sku,
            arg("--output"),
            arg("json"),
        ],
        180000,
        false,
    );
    let source_kind = if kind == CloudArtifactKind::ManagedDisk {
        arg("disk")
    } else {
        arg("snapshot")
    };
    Ok(AzureCopyNext::Direct { create_target, source_kind })
}

/// The id of the target disk a direct copy created.
pub fn azure_target_disk_id(create_output: &[u8]) -> (r: Result<String, CloudError>)
    ensures
        cli_json_spec(create_output@, false) matches Err(m) ==> cloud_invalid(r, m),
        cli_json_spec(create_output@, false) is Ok ==> match json_str_at(create_output@, "id"@) {
            Some(id) => r matches Ok(s) && s@ == id,
            None => cloud_invalid(r, "Azure target managed disk create returned no id"@),
        },
{
    if let Err(e) = cli_json(create_output, false) {
        return Err(e);
    }
    match json_str_field(create_output, "id") {
        Some(id) => Ok(id),
        None => Err(cloud_err("Azure target managed disk create returned no id")),
    }
}

/// The invocation that grants a one-hour SAS on a snapshot or disk (disks
/// say whether the access is for writing or reading).
pub fn azure_grant_sas_command(kind: &str, id: &str, write: bool) -> (r: CloudCliCommand)
    ensures
        runs(
            r,
            "az"@,
            seq![kind@, "grant-access"@, "--ids"@, id@, "--duration-in-seconds"@, "3600"@] + (if kind@
                == "disk"@ {
                seq![
                    "--access-level"@,
                    if write {
                        "Write"@
                    } else {
                        "Read"@
                    },
                ]
            } else {
                Seq::empty()
            }) + seq!["--query"@, "accessSas"@, "--output"@, "tsv"@],
            60000,
            true,
        ),
{
    let mut args = vec![
        arg(kind),
        arg("grant-access"),
        arg("--ids"),
        arg(id),
        arg("--duration-in-seconds"),
        arg("3600"),
    ];
    if str_eq(kind, "disk") {
        args.push(arg("--access-level"));
        args.push(
            if write {
                arg("Write")
            } else {
                arg("Read")
            },
        );
    }
    args.push(arg("--query"));
    args.push(arg("accessSas"));
    args.push(arg("--output"));
    args.push(arg("tsv"));
    cmd("az", args, 60000, true)
}

/// The SAS a grant printed: UTF-8, trimmed, an `https://` URL of at most 8192 bytes.
pub fn azure_sas_from_output(output: &[u8]) -> (r: Result<String, CloudError>)
    ensures
        match printed_text(output@) {
            None => cloud_invalid(r, "Azure SAS response is not UTF-8"@),
            Some(t) => if starts_with(t, "https://"@) && blen(t) <= 8192 {
                r matches Ok(s) && s@ == t
            } else {
                cloud_invalid(r, "Azure CLI returned an invalid managed-disk SAS"@)
            },
        },
{
    let text = match crate::text::utf8_decode(output) {
        Some(s) => crate::text::trim_text(s),
        None => return Err(cloud_err("Azure SAS response is not UTF-8")),
    };
    if !has_prefix(text.as_str(), "https://") || text.as_str().as_bytes().len() > 8192 {
        return Err(cloud_err("Azure CLI returned an invalid managed-disk SAS"));
    }
    Ok(text)
}

/// The invocation that revokes the SAS on a snapshot or disk.
pub fn azure_revoke_sas_command(kind: &str, id: &str) -> (r: CloudCliCommand)
    ensures
        runs(
            r,
            "az"@,
            seq![kind@, "revoke-access"@, "--ids"@, id@, "--output"@, "json"@],
            60000,
            true,
        ),
{
    cmd("az", vec![arg(kind), arg("revoke-access"), arg("--ids"), arg(id), arg("--output"), arg("json")], 60000, true)
}

/// Where a direct Azure copy stands when it tidies up.
#[derive(Debug, Clone, Copy, PartialEq, Eq, Structural)]
pub enum DirectCopyStage {
    /// The target disk was made and its SAS granted, but the source's SAS
    /// could not be granted.
    SourceGrantFailed,
    /// AzCopy ran and succeeded.
    Copied,
    /// AzCopy failed.
    CopyFailed,
}

/// The revoke-access arguments for a snapshot or disk.
pub open spec fn revoke_args(kind: Seq<char>, id: Seq<char>) -> Seq<Seq<char>> {
    seq![kind, "revoke-access"@, "--ids"@, id, "--output"@, "json"@]
}

/// The disk-delete arguments for the target disk.
pub open spec fn delete_disk_args(group: Seq<char>, name: Seq<char>) -> Seq<Seq<char>> {
    seq!["disk"@, "delete"@, "--resource-group"@, group, "--name"@, name, "--yes"@, "--output"@, "json"@]
}

/// The invocations that tidy up a direct Azure copy, in order. When the
/// source's SAS cannot be granted, the target's SAS is revoked and the
/// target disk deleted. After AzCopy ran, both SAS grants are revoked (the
/// source's first); when it failed, the target disk is then deleted.
pub fn azure_direct_copy_cleanup(
    request: &CloudCliImageCopyRequest,
    target_group: &str,
    target_id: &str,
    source_kind: &str,
    stage: DirectCopyStage,
) -> (r: Vec<CloudCliCommand>)
    ensures
        stage == DirectCopyStage::SourceGrantFailed ==> r@.len() == 2 && runs(
            r@[0],
            "az"@,
            revoke_args("disk"@, target_id@),
            60000,
            true,
        ) && runs(r@[1], "az"@, delete_disk_args(target_group@, request.target_name@), 120000, true),
        stage != DirectCopyStage::SourceGrantFailed ==> {
            &&& r@.len() == (if stage == DirectCopyStage::CopyFailed {
                3int
            } else {
                2int
            })
            &&& runs(r@[0], "az"@, revoke_args(source_kind@, request.source_artifact_id@), 60000, true)
            &&& runs(r@[1], "az"@, revoke_args("disk"@, target_id@), 60000, true)
            &&& (stage == DirectCopyStage::CopyFailed ==> runs(
                r@[2],
                "az"@,
                delete_disk_args(target_group@, request.target_name@),
                120000,
                true,
            ))
        },
{
    let mut out: Vec<CloudCliCommand> = Vec::new();
    match stage {
        DirectCopyStage::SourceGrantFailed => {
            out.push(azure_revoke_sas_command("disk", target_id));
            out.push(azure_delete_disk_command(target_group, request.target_name.as_str()));
        },
        _ => {
            out.push(azure_revoke_sas_command(source_kind, request.source_artifact_id.as_str()));
            out.push(azure_revoke_sas_command("disk", target_id));
            if stage == DirectCopyStage::CopyFailed {
                out.push(azure_delete_disk_command(target_group, request.target_name.as_str()));
            }
        },
    }
    out
}

/// The invocation that deletes a managed disk.
pub fn azure_delete_disk_command(group: &str, name: &str) -> (r: CloudCliCommand)
    ensures
        runs(
            r,
            "az"@,
            seq![
                "disk"@,
                "delete"@,
                "--resource-group"@,
                group@,
                "--name"@,
                name@,
                "--yes"@,
                "--output"@,
                "json"@,
            ],
            120000,
            true,
        ),
{
    cmd(
        "az",
        vec![
            arg("disk"),
            arg("delete"),
            arg("--resource-group"),
            arg(group),
            arg("--name"),
            arg(name),
            arg("--yes"),
            arg("--output"),
            arg("json"),
        ],
        120000,
        true,
    )
}

/// The AzCopy invocation that copies the source blob onto the target disk.
pub fn azcopy_command(source_sas: &str, target_sas: &str) -> (r: CloudCliCommand)
    ensures
        runs(
            r,
            "azcopy"@,
            seq![
                "copy"@,
                source_sas@,
                target_sas@,
                "--blob-type"@,
                "PageBlob"@,
                "--check-length=true"@,
                "--output-type=json"@,
            ],
            300000,
            true,
        ),
{
    cmd(
        "azcopy",
        vec![
            arg("copy"),
            arg(source_sas),
            arg(target_sas),
            arg("--blob-type"),
            arg("PageBlob"),
            arg("--check-length=true"),
            arg("--output-type=json"),
        ],
        300000,
        true,
    )
}

/// Reads a finished direct copy. The copy only counts when both SAS grants
/// were revoked afterwards; AzCopy's output is kept when it is JSON.
pub fn azure_direct_copy_result(
    target_id: &String,
    target_disk: &[u8],
    azcopy_output: &[u8],
    revoked: bool,
) -> (r: Result<CloudCliResult, CloudError>)
    ensures
        !revoked ==> cloud_invalid(
            r,
            "Azure copy completed but one or more managed-disk SAS grants could not be revoked; operator review is required"@,
        ),
        revoked ==> (r matches Ok(res) && {
            &&& res.provider == CloudCliProvider::Azure
            &&& res.operation@ == "copy_image"@
            &&& (res.instance_id matches Some(i) && i@ == target_id@)
            &&& (res.output matches CloudCliOutput::AzureDirectCopy {
                artifact_id,
                target_disk: t,
                azcopy,
            } && artifact_id@ == target_id@ && t@ == target_disk@ && azcopy@ == (
            if azcopy_output@.len() == 0 || json_error_of(azcopy_output@) is Some {
                Seq::<u8>::empty()
            } else {
                azcopy_output@
            }))
        }),
{
    if !revoked {
        return Err(
            cloud_err(
                "Azure copy completed but one or more managed-disk SAS grants could not be revoked; operator review is required",
            ),
        );
    }
    let azcopy = if azcopy_output.len() == 0 {
        Vec::new()
    } else {
        match json_check(azcopy_output) {
            None => vstd::slice::slice_to_vec(azcopy_output),
            Some(_) => Vec::new(),
        }
    };
    Ok(
        CloudCliResult {
            provider: CloudCliProvider::Azure,
            operation: arg("copy_image"),
            instance_id: Some(target_id.clone()),
            output: CloudCliOutput::AzureDirectCopy {
                artifact_id: target_id.clone(),
                target_disk: vstd::slice::slice_to_vec(target_disk),
                azcopy,
            },
        },
    )
}

/// Reads a started incremental copy: the new snapshot's id, or its name.
pub fn azure_incremental_copy_result(request: &CloudCliImageCopyRequest, output: &[u8]) -> (r:
    Result<CloudCliResult, CloudError>)
    ensures
        match cli_json_spec(output@, false) {
            Err(m) => cloud_invalid(r, m),
            Ok(_) => r matches Ok(res) && res.operation@ == "copy_image"@ && (
            res.instance_id matches Some(i) && i@ == (match json_str_at(output@, "id"@) {
                Some(id) => id,
                None => request.target_name@,
            })) && (res.output matches CloudCliOutput::AzureIncrementalCopy { artifact }
                && artifact@ == output@),
        },
{
    if let Err(e) = cli_json(output, false) {
        return Err(e);
    }
    let id = match json_str_field(output, "id") {
        Some(id) => id,
        None => request.target_name.clone(),
    };
    Ok(
        CloudCliResult {
            provider: CloudCliProvider::Azure,
            operation: arg("copy_image"),
            instance_id: Some(id),
            output: CloudCliOutput::AzureIncrementalCopy {
                artifact: vstd::slice::slice_to_vec(output),
            },
        },
    )
}

/// The invocation that reports how a copy is going.
pub fn cloud_cli_copy_status(reference: &CloudCliArtifactRef) -> (r: Result<
    CloudCliCommand,
    CloudError,
>)
    ensures
        !(is_provider_arg(reference.artifact_id@, 2048) && is_provider_arg(
            reference.location@,
            160,
        ) && opt_arg_ok(reference.scope, 512)) ==> r is Err,
        copy_status_refusal(*reference) matches Some(m) ==> cloud_invalid(r, m),
        is_provider_arg(reference.artifact_id@, 2048) && is_provider_arg(reference.location@, 160)
            && opt_arg_ok(reference.scope, 512) ==> match reference.provider {
            CloudCliProvider::Aws => r matches Ok(c) && runs(
                c,
                "aws"@,
                seq![
                    "ec2"@,
                    "describe-images"@,
                    "--region"@,
                    reference.location@,
                    "--image-ids"@,
                    reference.artifact_id@,
                    "--query"@,
                    "Images[0].{artifact_id:ImageId,state:State,state_reason:StateReason.Message}"@,
                    "--output"@,
                    "json"@,
                ],
                60000,
                false,
            ),
            CloudCliProvider::Gcp => match reference.scope {
                None => cloud_invalid(r, "GCP artifact status requires scope=project id"@),
                Some(p) => r matches Ok(c) && runs(
                    c,
                    "gcloud"@,
                    seq![
                        "compute"@,
                        "machine-images"@,
                        "describe"@,
                        reference.artifact_id@,
                        "--project"@,
                        p@,
                        "--format=json"@,
                    ],
                    60000,
                    false,
                ),
            },
            CloudCliProvider::Azure => r matches Ok(c) && runs(
                c,
                "az"@,
                seq![
                    if (match reference.artifact_kind {
                        Some(k) => k,
                        None => match azure_kind(reference.artifact_id@) {
                            Some(k) => k,
                            None => CloudArtifactKind::Snapshot,
                        },
                    }) == CloudArtifactKind::ManagedDisk {
                        "disk"@
                    } else {
                        "snapshot"@
                    },
                    "show"@,
                    "--ids"@,
                    reference.artifact_id@,
                    "--query"@,
                    "{id:id,location:location,provisioning_state:provisioningState,completion_percent:completionPercent,disk_state:diskState}"@,
                    "--output"@,
                    "json"@,
                ],
                60000,
                false,
            ),
        },
{
    if let Err(e) = validate_provider_arg("artifact_id", reference.artifact_id.as_str(), 2048) {
        return Err(e);
    }
    if let Err(e) = validate_provider_arg("location", reference.location.as_str(), 160) {
        return Err(e);
    }
    if let Err(e) = check_opt("scope", &reference.scope, 512) {
        return Err(e);
    }
    match reference.provider {
        CloudCliProvider::Aws => Ok(
            cmd(
                "aws",
                vec![
                    arg("ec2"),
                    arg("describe-images"),
                    arg("--region"),
                    reference.location.clone(),
                    arg("--image-ids"),
                    reference.artifact_id.clone(),
                    arg("--query"),
                    arg("Images[0].{artifact_id:ImageId,state:State,state_reason:StateReason.Message}"),
                    arg("--output"),
                    arg("json"),
                ],
                60000,
                false,
            ),
        ),
        CloudCliProvider::Gcp => {
            let project = match &reference.scope {
                Some(p) => p,
                None => return Err(cloud_err("GCP artifact status requires scope=project id")),
            };
            Ok(
                cmd(
                    "gcloud",
                    vec![
                        arg("compute"),
                        arg("machine-images"),
                        arg("describe"),
                        reference.artifact_id.clone(),
                        arg("--project"),
                        project.clone(),
                        arg("--format=json"),
                    ],
                    60000,
                    false,
                ),
            )
        },
        CloudCliProvider::Azure => {
            let kind = match reference.artifact_kind {
                Some(k) => k,
                None => match azure_resource_kind(reference.artifact_id.as_str()) {
                    Some(k) => k,
                    None => CloudArtifactKind::Snapshot,
                },
            };
            let command = if kind == CloudArtifactKind::ManagedDisk {
                arg("disk")
            } else {
                arg("snapshot")
            };
            Ok(
                cmd(
                    "az",
                    vec![
                        command,
                        arg("show"),
                        arg("--ids"),
                        reference.artifact_id.clone(),
                        arg("--query"),
                        arg(
                            "{id:id,location:location,provisioning_state:provisioningState,completion_percent:completionPercent,disk_state:diskState}",
                        ),
                        arg("--output"),
                        arg("json"),
                    ],
                    60000,
                    false,
                ),
            )
        },
    }
}

/// Reads what a copy status query answered.
pub fn cloud_cli_copy_status_result(reference: &CloudCliArtifactRef, output: &[u8]) -> (r: Result<
    CloudCliResult,
    CloudError,
>)
    ensures
        match cli_json_spec(output@, false) {
            Err(m) => cloud_invalid(r, m),
            Ok(_) => r matches Ok(res) && res.operation@ == "copy_status"@ && res.provider
                == reference.provider && (res.instance_id matches Some(i) && i@
                == reference.artifact_id@) && (res.output matches CloudCliOutput::Document(d) && d@
                == output@),
        },
{
    let out = match cli_json(output, false) {
        Ok(o) => o,
        Err(e) => return Err(e),
    };
    Ok(
        CloudCliResult {
            provider: reference.provider,
            operation: arg("copy_status"),
            instance_id: Some(reference.artifact_id.clone()),
            output: out,
        },
    )
}

} // verus!
