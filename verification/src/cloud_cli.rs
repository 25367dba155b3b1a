//! Planning of cloud provider CLI invocations (AWS, Azure, GCP) and the
//! reading of what they answer. Every invocation is a fixed program with a
//! structured argument list: no shell, no user text in flag position.
use crate::cloud::{
    cloud_err, cloud_invalid, is_provider_arg, is_resource_name, validate_cloud_resource_name,
    validate_provider_arg, CloudError,
};
use crate::json::{
    json_check, json_error_of, json_first_field_text, json_first_text_at, json_str_at,
    json_str_field,
};
use crate::text::{concat, concat3, lower_chars, str_eq, to_lower};
use vstd::prelude::*;

verus! {

#[derive(Debug, Clone, Copy, PartialEq, Eq, Structural)]
pub enum CloudCliProvider {
    Aws,
    Azure,
    Gcp,
}

#[derive(Debug, Clone, PartialEq, Eq)]
pub struct CloudCliCreateRequest {
    pub provider: CloudCliProvider,
    pub name: String,
    pub location: String,
    pub machine_type: String,
    pub image: String,
    pub scope: Option<String>,
    pub subnet: Option<String>,
    pub network: Option<String>,
    pub admin_username: Option<String>,
    pub ssh_public_key_file: Option<String>,
}

#[derive(Debug, Clone, PartialEq, Eq)]
pub struct CloudCliInstanceRef {
    pub provider: CloudCliProvider,
    pub instance_id: String,
    pub location: String,
    pub scope: Option<String>,
}

#[derive(Debug, Clone, PartialEq, Eq)]
pub struct CloudCliDestroyRequest {
    pub instance: CloudCliInstanceRef,
    pub confirm_destroy: bool,
}

#[derive(Debug, Clone, PartialEq, Eq)]
pub struct CloudCliSnapshotRequest {
    pub instance: CloudCliInstanceRef,
    pub snapshot_name: String,
    pub acknowledge_crash_consistency: bool,
}

#[derive(Debug, Clone, PartialEq, Eq)]
pub struct CloudCliCloneRequest {
    pub source: CloudCliInstanceRef,
    pub snapshot_or_image_id: String,
    pub target_name: String,
    pub target_location: Option<String>,
    pub subnet: Option<String>,
    pub network: Option<String>,
    pub machine_type: Option<String>,
    pub os_type: Option<String>,
    pub confirm_new_instance: bool,
}

#[derive(Debug, Clone, Copy, PartialEq, Eq, Structural)]
pub enum CloudArtifactKind {
    Ami,
    MachineImage,
    Snapshot,
    IncrementalSnapshot,
    ManagedDisk,
}

#[derive(Debug, Clone, PartialEq, Eq)]
pub struct CloudCliImageCopyRequest {
    pub provider: CloudCliProvider,
    pub source_artifact_id: String,
    pub source_location: String,
    pub target_location: String,
    pub target_name: String,
    pub confirm_copy: bool,
    pub artifact_kind: Option<CloudArtifactKind>,
    pub source_scope: Option<String>,
    pub target_scope: Option<String>,
    pub os_type: Option<String>,
    pub sku: Option<String>,
}

#[derive(Debug, Clone, PartialEq, Eq)]
pub struct CloudCliArtifactRef {
    pub provider: CloudCliProvider,
    pub artifact_id: String,
    pub location: String,
    pub scope: Option<String>,
    pub artifact_kind: Option<CloudArtifactKind>,
}

/// One CLI invocation: the program, its arguments, how long it may run and
/// whether an empty answer is acceptable.
#[derive(Debug, Clone, PartialEq, Eq)]
pub struct CloudCliCommand {
    pub program: String,
    pub args: Vec<String>,
    pub timeout_ms: u64,
    pub allow_empty: bool,
}

/// The JSON a CLI operation reports.
#[derive(Debug, Clone, PartialEq, Eq)]
pub enum CloudCliOutput {
    /// The document the CLI printed.
    Document(Vec<u8>),
    /// The CLI printed nothing where that is acceptable: `{"ok":true}`.
    Empty,
    /// A GCP machine image needs no regional copy.
    GcpGlobalImage { artifact_id: String, target_location: String },
    /// An Azure clone: the VM document and the OS disk it was made from.
    AzureClone { vm: Vec<u8>, os_disk_id: String },
    /// An Azure incremental snapshot copy that was started.
    AzureIncrementalCopy { artifact: Vec<u8> },
    /// An Azure managed disk copied directly with AzCopy.
    AzureDirectCopy { artifact_id: String, target_disk: Vec<u8>, azcopy: Vec<u8> },
}

/// The outcome of a CLI operation.
#[derive(Debug, Clone, PartialEq, Eq)]
pub struct CloudCliResult {
    pub provider: CloudCliProvider,
    pub operation: String,
    pub instance_id: Option<String>,
    pub output: CloudCliOutput,
}

/// What the application found of a local file that a request names.
#[derive(Debug, Clone, Copy, PartialEq, Eq, Structural)]
pub enum LocalFileCheck {
    /// An existing absolute file of at most 1 MiB.
    Fine,
    /// Not absolute, or not an existing file.
    NotAbsoluteFile,
    /// Larger than 1 MiB.
    TooLarge,
}

/// The text of every argument.
pub open spec fn argv(v: Seq<String>) -> Seq<Seq<char>> {
    v.map_values(|s: String| s@)
}

/// `[flag, value]` when there is a value.
pub open spec fn opt_pair(flag: Seq<char>, o: Option<String>) -> Seq<Seq<char>> {
    match o {
        Some(s) => seq![flag, s@],
        None => Seq::empty(),
    }
}

/// `[prefix + value]` when there is a value.
pub open spec fn opt_joined(prefix: Seq<char>, o: Option<String>) -> Seq<Seq<char>> {
    match o {
        Some(s) => seq![prefix + s@],
        None => Seq::empty(),
    }
}

pub open spec fn opt_arg_ok(o: Option<String>, max: int) -> bool {
    match o {
        Some(s) => is_provider_arg(s@, max),
        None => true,
    }
}

/// The refusal of provider argument `name` holding `v`: `"{name} is invalid"`.
pub open spec fn arg_refusal(name: Seq<char>, v: Seq<char>, max: int) -> Option<Seq<char>> {
    if is_provider_arg(v, max) {
        None
    } else {
        Some(name + " is invalid"@)
    }
}

/// The refusal of an optional provider argument, if it is given.
pub open spec fn opt_arg_refusal(name: Seq<char>, o: Option<String>, max: int) -> Option<Seq<char>> {
    match o {
        Some(v) => arg_refusal(name, v@, max),
        None => None,
    }
}

/// The first of two refusals.
pub open spec fn first_of(a: Option<Seq<char>>, b: Option<Seq<char>>) -> Option<Seq<char>> {
    if a is Some {
        a
    } else {
        b
    }
}

/// The result a check gives for a refusal: `Ok` for none, else `Invalid`
/// with its message.
pub open spec fn refused_with<T>(r: Result<T, CloudError>, refusal: Option<Seq<char>>) -> bool {
    match refusal {
        None => r is Ok,
        Some(m) => cloud_invalid(r, m),
    }
}

/// Why an instance reference is refused, if it is.
pub open spec fn ref_refusal(r: CloudCliInstanceRef) -> Option<Seq<char>> {
    first_of(
        arg_refusal("instance_id"@, r.instance_id@, 512),
        first_of(arg_refusal("location"@, r.location@, 160), opt_arg_refusal("scope"@, r.scope, 512)),
    )
}

/// The message of an invalid cloud resource name.
pub open spec fn resource_name_msg() -> Seq<char> {
    "cloud resource name must be a 2..63 character identifier using letters, digits, '-' or '_'"@
}

/// The refusal of a cloud resource name, if it is not one.
pub open spec fn resource_name_refusal(v: Seq<char>) -> Option<Seq<char>> {
    if is_resource_name(v) {
        None
    } else {
        Some(resource_name_msg())
    }
}

/// Why a create request is refused, if it is: the first check it fails.
pub open spec fn create_refusal(r: CloudCliCreateRequest, key_file: LocalFileCheck) -> Option<Seq<char>> {
    if !is_resource_name(r.name@) {
        Some(resource_name_msg())
    } else if !is_provider_arg(r.location@, 160) {
        Some("location"@ + " is invalid"@)
    } else if !is_provider_arg(r.machine_type@, 160) {
        Some("machine_type"@ + " is invalid"@)
    } else if !is_provider_arg(r.image@, 512) {
        Some("image"@ + " is invalid"@)
    } else if !opt_arg_ok(r.scope, 512) {
        Some("scope"@ + " is invalid"@)
    } else if !opt_arg_ok(r.subnet, 512) {
        Some("subnet"@ + " is invalid"@)
    } else if !opt_arg_ok(r.network, 512) {
        Some("network"@ + " is invalid"@)
    } else if !opt_arg_ok(r.admin_username, 512) {
        Some("admin_username"@ + " is invalid"@)
    } else if r.ssh_public_key_file is Some && key_file == LocalFileCheck::NotAbsoluteFile {
        Some("ssh_public_key_file must be an existing absolute file"@)
    } else if r.ssh_public_key_file is Some && key_file == LocalFileCheck::TooLarge {
        Some("ssh public key file exceeds 1 MiB"@)
    } else if r.provider == CloudCliProvider::Azure && (r.network is Some != r.subnet is Some) {
        Some("Azure private network selection requires both network and subnet together"@)
    } else {
        None
    }
}

/// Whether `c` runs `program` with `args` and the given limits.
pub open spec fn runs(
    c: CloudCliCommand,
    program: Seq<char>,
    args: Seq<Seq<char>>,
    timeout_ms: u64,
    allow_empty: bool,
) -> bool {
    c.program@ == program && argv(c.args@) =~= args && c.timeout_ms == timeout_ms
        && c.allow_empty == allow_empty
}

pub fn arg(s: &str) -> (r: String)
    ensures
        r@ == s@,
{
    s.to_owned()
}

fn push_pair(args: &mut Vec<String>, flag: &str, o: &Option<String>)
    ensures
        argv(final(args)@) =~= argv(old(args)@) + opt_pair(flag@, *o),
{
    if let Some(v) = o {
        args.push(arg(flag));
        args.push(v.clone());
    }
}

fn push_joined(args: &mut Vec<String>, prefix: &str, o: &Option<String>)
    ensures
        argv(final(args)@) =~= argv(old(args)@) + opt_joined(prefix@, *o),
{
    if let Some(v) = o {
        args.push(concat(prefix, v.as_str()));
    }
}

fn command(program: &str, args: Vec<String>, timeout_ms: u64, allow_empty: bool) -> (r:
    CloudCliCommand)
    ensures
        r.program@ == program@,
        r.args == args,
        r.timeout_ms == timeout_ms,
        r.allow_empty == allow_empty,
{
    CloudCliCommand { program: arg(program), args, timeout_ms, allow_empty }
}

fn check_opt_arg(name: &str, o: &Option<String>, max: usize) -> (r: Result<(), CloudError>)
    ensures
        r is Ok <==> opt_arg_ok(*o, max as int),
        refused_with(r, opt_arg_refusal(name@, *o, max as int)),
{
    match o {
        Some(v) => validate_provider_arg(name, v.as_str(), max),
        None => Ok(()),
    }
}

/// The AWS instance tag list naming an instance.
pub open spec fn aws_tags(name: Seq<char>) -> Seq<char> {
    "ResourceType=instance,Tags=[{Key=Name,Value="@ + name + "},{Key=vsn-managed,Value=true}]"@
}

/// What a CLI answered, read as JSON: an empty answer is `{"ok":true}` where
/// that is acceptable (`Ok(false)`) and an error elsewhere; anything else must
/// parse, and is then the document reported (`Ok(true)`).
pub open spec fn cli_json_spec(output: Seq<u8>, allow_empty: bool) -> Result<bool, Seq<char>> {
    if output.len() == 0 {
        if allow_empty {
            Ok(false)
        } else {
            Err("cloud CLI returned an empty JSON response"@)
        }
    } else {
        match json_error_of(output) {
            Some(e) => Err("cloud CLI returned invalid JSON: "@ + e),
            None => Ok(true),
        }
    }
}

pub fn cli_json(output: &[u8], allow_empty: bool) -> (r: Result<CloudCliOutput, CloudError>)
    ensures
        match cli_json_spec(output@, allow_empty) {
            Ok(true) => r matches Ok(CloudCliOutput::Document(d)) && d@ == output@,
            Ok(false) => r == Ok::<CloudCliOutput, CloudError>(CloudCliOutput::Empty),
            Err(m) => cloud_invalid(r, m),
        },
{
    if output.len() == 0 {
        if allow_empty {
            return Ok(CloudCliOutput::Empty);
        }
        return Err(cloud_err("cloud CLI returned an empty JSON response"));
    }
    match json_check(output) {
        Some(e) => Err(CloudError::Invalid(concat("cloud CLI returned invalid JSON: ", e.as_str()))),
        None => Ok(CloudCliOutput::Document(vstd::slice::slice_to_vec(output))),
    }
}

/// Everything a create request must satisfy, in the order it is checked.
pub open spec fn create_ok(r: CloudCliCreateRequest, key_file: LocalFileCheck) -> bool {
    &&& is_resource_name(r.name@)
    &&& is_provider_arg(r.location@, 160)
    &&& is_provider_arg(r.machine_type@, 160)
    &&& is_provider_arg(r.image@, 512)
    &&& opt_arg_ok(r.scope, 512)
    &&& opt_arg_ok(r.subnet, 512)
    &&& opt_arg_ok(r.network, 512)
    &&& opt_arg_ok(r.admin_username, 512)
    &&& (r.ssh_public_key_file is Some ==> key_file == LocalFileCheck::Fine)
    &&& (r.provider == CloudCliProvider::Azure ==> (r.network is Some == r.subnet is Some))
}

/// Checks a create request; `key_file` is what the application found of
/// `ssh_public_key_file`.
pub fn validate_cloud_cli_create(r: &CloudCliCreateRequest, key_file: LocalFileCheck) -> (res:
    Result<(), CloudError>)
    ensures
        res is Ok <==> create_ok(*r, key_file),
        refused_with(res, create_refusal(*r, key_file)),
{
    if let Err(e) = validate_cloud_resource_name(r.name.as_str()) {
        return Err(e);
    }
    if let Err(e) = validate_provider_arg("location", r.location.as_str(), 160) {
        return Err(e);
    }
    if let Err(e) = validate_provider_arg("machine_type", r.machine_type.as_str(), 160) {
        return Err(e);
    }
    if let Err(e) = validate_provider_arg("image", r.image.as_str(), 512) {
        return Err(e);
    }
    if let Err(e) = check_opt_arg("scope", &r.scope, 512) {
        return Err(e);
    }
    if let Err(e) = check_opt_arg("subnet", &r.subnet, 512) {
        return Err(e);
    }
    if let Err(e) = check_opt_arg("network", &r.network, 512) {
        return Err(e);
    }
    if let Err(e) = check_opt_arg("admin_username", &r.admin_username, 512) {
        return Err(e);
    }
    if r.ssh_public_key_file.is_some() {
        match key_file {
            LocalFileCheck::Fine => {},
            LocalFileCheck::NotAbsoluteFile => {
                return Err(cloud_err("ssh_public_key_file must be an existing absolute file"));
            },
            LocalFileCheck::TooLarge => {
                return Err(cloud_err("ssh public key file exceeds 1 MiB"));
            },
        }
    }
    if r.provider == CloudCliProvider::Azure && r.network.is_some() != r.subnet.is_some() {
        return Err(
            cloud_err("Azure private network selection requires both network and subnet together"),
        );
    }
    Ok(())
}

/// An instance reference: its id (512), location (160) and scope (512) are
/// provider arguments.
pub open spec fn ref_ok(r: CloudCliInstanceRef) -> bool {
    is_provider_arg(r.instance_id@, 512) && is_provider_arg(r.location@, 160) && opt_arg_ok(
        r.scope,
        512,
    )
}

pub fn validate_cloud_cli_ref(r: &CloudCliInstanceRef) -> (res: Result<(), CloudError>)
    ensures
        res is Ok <==> ref_ok(*r),
        refused_with(res, ref_refusal(*r)),
{
    if let Err(e) = validate_provider_arg("instance_id", r.instance_id.as_str(), 512) {
        return Err(e);
    }
    if let Err(e) = validate_provider_arg("location", r.location.as_str(), 160) {
        return Err(e);
    }
    check_opt_arg("scope", &r.scope, 512)
}

/// The invocation that creates an instance.
pub fn cloud_cli_create(request: &CloudCliCreateRequest, key_file: LocalFileCheck) -> (r: Result<
    CloudCliCommand,
    CloudError,
>)
    ensures
        !create_ok(*request, key_file) ==> r is Err,
        create_refusal(*request, key_file) matches Some(m) ==> cloud_invalid(r, m),
        create_ok(*request, key_file) ==> match request.provider {
            CloudCliProvider::Aws => r matches Ok(c) && runs(
                c,
                "aws"@,
                seq![
                    "ec2"@,
                    "run-instances"@,
                    "--region"@,
                    request.location@,
                    "--image-id"@,
                    request.image@,
                    "--instance-type"@,
                    request.machine_type@,
                    "--count"@,
                    "1"@,
                    "--no-associate-public-ip-address"@,
                    "--tag-specifications"@,
                    aws_tags(request.name@),
                    "--query"@,
                    "Instances[0].{id:InstanceId,state:State.Name,private_ip:PrivateIpAddress}"@,
                    "--output"@,
                    "json"@,
                ] + opt_pair("--subnet-id"@, request.subnet),
                120000,
                false,
            ),
            CloudCliProvider::Azure => if request.scope is None {
                cloud_invalid(r, "Azure create requires scope=resource group"@)
            } else if request.admin_username is None {
                cloud_invalid(r, "Azure create requires admin_username"@)
            } else if request.ssh_public_key_file is None {
                cloud_invalid(r, "Azure create requires ssh_public_key_file"@)
            } else {
                r matches Ok(c) && runs(
                    c,
                    "az"@,
                    seq![
                        "vm"@,
                        "create"@,
                        "--resource-group"@,
                        request.scope->0@,
                        "--name"@,
                        request.name@,
                        "--location"@,
                        request.location@,
                        "--image"@,
                        request.image@,
                        "--size"@,
                        request.machine_type@,
                        "--admin-username"@,
                        request.admin_username->0@,
                        "--ssh-key-values"@,
                        "@"@ + request.ssh_public_key_file->0@,
                        "--public-ip-address"@,
                        ""@,
                        "--output"@,
                        "json"@,
                    ] + opt_pair("--vnet-name"@, request.network) + opt_pair(
                        "--subnet"@,
                        request.subnet,
                    ),
                    180000,
                    false,
                )
            },
            CloudCliProvider::Gcp => if request.scope is None {
                cloud_invalid(r, "GCP create requires scope=project id"@)
            } else {
                r matches Ok(c) && runs(
                    c,
                    "gcloud"@,
                    seq![
                        "compute"@,
                        "instances"@,
                        "create"@,
                        request.name@,
                        "--project"@,
                        request.scope->0@,
                        "--zone"@,
                        request.location@,
                        "--machine-type"@,
                        request.machine_type@,
                        "--image"@,
                        request.image@,
                        "--no-address"@,
                        "--quiet"@,
                        "--format=json"@,
                    ] + opt_joined("--network="@, request.network) + opt_joined(
                        "--subnet="@,
                        request.subnet,
                    ),
                    180000,
                    false,
                )
            },
        },
{
    if let Err(e) = validate_cloud_cli_create(request, key_file) {
        return Err(e);
    }
    match request.provider {
        CloudCliProvider::Aws => {
            let mut args = vec![
                arg("ec2"),
                arg("run-instances"),
                arg("--region"),
                request.location.clone(),
                arg("--image-id"),
                request.image.clone(),
                arg("--instance-type"),
                request.machine_type.clone(),
                arg("--count"),
                arg("1"),
                arg("--no-associate-public-ip-address"),
                arg("--tag-specifications"),
                concat3(
                    "ResourceType=instance,Tags=[{Key=Name,Value=",
                    request.name.as_str(),
                    "},{Key=vsn-managed,Value=true}]",
                ),
                arg("--query"),
                arg("Instances[0].{id:InstanceId,state:State.Name,private_ip:PrivateIpAddress}"),
                arg("--output"),
                arg("json"),
            ];
            push_pair(&mut args, "--subnet-id", &request.subnet);
            Ok(command("aws", args, 120000, false))
        },
        CloudCliProvider::Azure => {
            let group = match &request.scope {
                Some(g) => g,
                None => return Err(cloud_err("Azure create requires scope=resource group")),
            };
            let user = match &request.admin_username {
                Some(u) => u,
                None => return Err(cloud_err("Azure create requires admin_username")),
            };
            let key = match &request.ssh_public_key_file {
                Some(k) => k,
                None => return Err(cloud_err("Azure create requires ssh_public_key_file")),
            };
            let mut args = vec![
                arg("vm"),
                arg("create"),
                arg("--resource-group"),
                group.clone(),
                arg("--name"),
                request.name.clone(),
                arg("--location"),
                request.location.clone(),
                arg("--image"),
                request.image.clone(),
                arg("--size"),
                request.machine_type.clone(),
                arg("--admin-username"),
                user.clone(),
                arg("--ssh-key-values"),
                concat("@", key.as_str()),
                arg("--public-ip-address"),
                arg(""),
                arg("--output"),
                arg("json"),
            ];
            push_pair(&mut args, "--vnet-name", &request.network);
            push_pair(&mut args, "--subnet", &request.subnet);
            Ok(command("az", args, 180000, false))
        },
        CloudCliProvider::Gcp => {
            let project = match &request.scope {
                Some(p) => p,
                None => return Err(cloud_err("GCP create requires scope=project id")),
            };
            let mut args = vec![
                arg("compute"),
                arg("instances"),
                arg("create"),
                request.name.clone(),
                arg("--project"),
                project.clone(),
                arg("--zone"),
                request.location.clone(),
                arg("--machine-type"),
                request.machine_type.clone(),
                arg("--image"),
                request.image.clone(),
                arg("--no-address"),
                arg("--quiet"),
                arg("--format=json"),
            ];
            push_joined(&mut args, "--network=", &request.network);
            push_joined(&mut args, "--subnet=", &request.subnet);
            Ok(command("gcloud", args, 180000, false))
        },
    }
}

fn some_text(s: &String) -> (r: Option<String>)
    ensures
        r matches Some(t) && t@ == s@,
{
    Some(s.clone())
}

/// The id a create or clone reports: AWS must name one; Azure falls back to
/// the requested name; GCP reports the first instance's id as JSON text, or
/// the requested name.
pub open spec fn reported_id(provider: CloudCliProvider, output: Seq<u8>, name: Seq<char>) -> Option<
    Seq<char>,
> {
    match provider {
        CloudCliProvider::Aws => json_str_at(output, "id"@),
        CloudCliProvider::Azure => match json_str_at(output, "id"@) {
            Some(id) => Some(id),
            None => Some(name),
        },
        CloudCliProvider::Gcp => match json_first_text_at(output, "id"@) {
            Some(id) => Some(id),
            None => Some(name),
        },
    }
}

fn report_id(provider: CloudCliProvider, output: &[u8], name: &String) -> (r: Option<String>)
    ensures
        match reported_id(provider, output@, name@) {
            Some(id) => r matches Some(s) && s@ == id,
            None => r is None,
        },
{
    match provider {
        CloudCliProvider::Aws => json_str_field(output, "id"),
        CloudCliProvider::Azure => match json_str_field(output, "id") {
            Some(id) => Some(id),
            None => some_text(name),
        },
        CloudCliProvider::Gcp => match json_first_field_text(output, "id") {
            Some(id) => Some(id),
            None => some_text(name),
        },
    }
}

/// Reads what a create answered.
pub fn cloud_cli_create_result(request: &CloudCliCreateRequest, output: &[u8]) -> (r: Result<
    CloudCliResult,
    CloudError,
>)
    ensures
        cli_json_spec(output@, false) matches Err(m) ==> cloud_invalid(r, m),
        cli_json_spec(output@, false) is Ok ==> match reported_id(
            request.provider,
            output@,
            request.name@,
        ) {
            None => cloud_invalid(r, "AWS create returned no instance id"@),
            Some(id) => r matches Ok(res) && {
                &&& res.provider == request.provider
                &&& res.operation@ == "create"@
                &&& (res.instance_id matches Some(i) && i@ == id)
                &&& (res.output matches CloudCliOutput::Document(d) && d@ == output@)
            },
        },
{
    let out = match cli_json(output, false) {
        Ok(o) => o,
        Err(e) => return Err(e),
    };
    let id = report_id(request.provider, output, &request.name);
    if id.is_none() {
        return Err(cloud_err("AWS create returned no instance id"));
    }
    Ok(
        CloudCliResult {
            provider: request.provider,
            operation: arg("create"),
            instance_id: id,
            output: out,
        },
    )
}

/// The four single-step instance operations.
#[derive(Debug, Clone, Copy, PartialEq, Eq, Structural)]
pub enum InstanceOp {
    Status,
    Start,
    Stop,
    Destroy,
}

/// The name an operation reports.
pub open spec fn op_name(op: InstanceOp) -> Seq<char> {
    match op {
        InstanceOp::Status => "status"@,
        InstanceOp::Start => "start"@,
        InstanceOp::Stop => "stop"@,
        InstanceOp::Destroy => "destroy"@,
    }
}

fn op_label(op: InstanceOp) -> (r: String)
    ensures
        r@ == op_name(op),
{
    match op {
        InstanceOp::Status => arg("status"),
        InstanceOp::Start => arg("start"),
        InstanceOp::Stop => arg("stop"),
        InstanceOp::Destroy => arg("destroy"),
    }
}

/// The invocation of an instance operation, after its reference was checked.
pub open spec fn instance_command_spec(op: InstanceOp, i: CloudCliInstanceRef) -> Option<
    (Seq<char>, Seq<Seq<char>>, u64, bool),
> {
    match i.provider {
        CloudCliProvider::Aws => Some(
            (
                "aws"@,
                match op {
                    InstanceOp::Status => seq![
                        "ec2"@,
                        "describe-instances"@,
                        "--region"@,
                        i.location@,
                        "--instance-ids"@,
                        i.instance_id@,
                        "--query"@,
                        "Reservations[0].Instances[0].{id:InstanceId,state:State.Name,private_ip:PrivateIpAddress,public_ip:PublicIpAddress}"@,
                        "--output"@,
                        "json"@,
                    ],
                    _ => seq![
                        "ec2"@,
                        match op {
                            InstanceOp::Start => "start-instances"@,
                            InstanceOp::Stop => "stop-instances"@,
                            _ => "terminate-instances"@,
                        },
                        "--region"@,
                        i.location@,
                        "--instance-ids"@,
                        i.instance_id@,
                        "--output"@,
                        "json"@,
                    ],
                },
                match op {
                    InstanceOp::Status => 60000,
                    InstanceOp::Destroy => 60000,
                    _ => 120000,
                },
                false,
            ),
        ),
        CloudCliProvider::Azure => match i.scope {
            None => None,
            Some(g) => Some(
                (
                    "az"@,
                    match op {
                        InstanceOp::Status => seq![
                            "vm"@,
                            "show"@,
                            "--resource-group"@,
                            g@,
                            "--name"@,
                            i.instance_id@,
                            "--show-details"@,
                            "--output"@,
                            "json"@,
                        ],
                        InstanceOp::Destroy => seq![
                            "vm"@,
                            "delete"@,
                            "--resource-group"@,
                            g@,
                            "--name"@,
                            i.instance_id@,
                            "--yes"@,
                            "--output"@,
                            "json"@,
                        ],
                        _ => seq![
                            "vm"@,
                            if op == InstanceOp::Start {
                                "start"@
                            } else {
                                "deallocate"@
                            },
                            "--resource-group"@,
                            g@,
                            "--name"@,
                            i.instance_id@,
                            "--output"@,
                            "json"@,
                        ],
                    },
                    match op {
                        InstanceOp::Status => 60000,
                        InstanceOp::Destroy => 120000,
                        _ => 180000,
                    },
                    op != InstanceOp::Status,
                ),
            ),
        },
        CloudCliProvider::Gcp => match i.scope {
            None => None,
            Some(p) => Some(
                (
                    "gcloud"@,
                    match op {
                        InstanceOp::Status => seq![
                            "compute"@,
                            "instances"@,
                            "describe"@,
                            i.instance_id@,
                            "--project"@,
                            p@,
                            "--zone"@,
                            i.location@,
                            "--format=json"@,
                        ],
                        _ => seq![
                            "compute"@,
                            "instances"@,
                            match op {
                                InstanceOp::Start => "start"@,
                                InstanceOp::Stop => "stop"@,
                                _ => "delete"@,
                            },
                            i.instance_id@,
                            "--project"@,
                            p@,
                            "--zone"@,
                            i.location@,
                            "--quiet"@,
                            "--format=json"@,
                        ],
                    },
                    match op {
                        InstanceOp::Status => 60000,
                        InstanceOp::Destroy => 120000,
                        _ => 180000,
                    },
                    op != InstanceOp::Status,
                ),
            ),
        },
    }
}

/// The verb of an instance invocation: the argument that names what the
/// provider's CLI does (`ec2 <verb>`, `vm <verb>`, `compute instances <verb>`).
pub open spec fn verb_of(provider: CloudCliProvider, args: Seq<Seq<char>>) -> Seq<char> {
    match provider {
        CloudCliProvider::Gcp => args[2],
        _ => args[1],
    }
}

/// The verb each operation runs on each provider.
spec fn planned_verb(op: InstanceOp, provider: CloudCliProvider) -> Seq<char> {
    match (provider, op) {
        (CloudCliProvider::Aws, InstanceOp::Status) => "describe-instances"@,
        (CloudCliProvider::Aws, InstanceOp::Start) => "start-instances"@,
        (CloudCliProvider::Aws, InstanceOp::Stop) => "stop-instances"@,
        (CloudCliProvider::Aws, InstanceOp::Destroy) => "terminate-instances"@,
        (CloudCliProvider::Azure, InstanceOp::Status) => "show"@,
        (CloudCliProvider::Azure, InstanceOp::Start) => "start"@,
        (CloudCliProvider::Azure, InstanceOp::Stop) => "deallocate"@,
        (CloudCliProvider::Azure, InstanceOp::Destroy) => "delete"@,
        (CloudCliProvider::Gcp, InstanceOp::Status) => "describe"@,
        (CloudCliProvider::Gcp, InstanceOp::Start) => "start"@,
        (CloudCliProvider::Gcp, InstanceOp::Stop) => "stop"@,
        (CloudCliProvider::Gcp, InstanceOp::Destroy) => "delete"@,
    }
}

proof fn lemma_planned_verb(op: InstanceOp, i: CloudCliInstanceRef)
    ensures
        instance_command_spec(op, i) matches Some((p, a, t, e)) ==> a.len() >= 3 && verb_of(
            i.provider,
            a,
        ) == planned_verb(op, i.provider),
{
}

proof fn lemma_planned_verbs_differ(o1: InstanceOp, o2: InstanceOp, provider: CloudCliProvider)
    requires
        o1 != o2,
    ensures
        planned_verb(o1, provider) != planned_verb(o2, provider),
{
    reveal_strlit("describe-instances");
    reveal_strlit("start-instances");
    reveal_strlit("stop-instances");
    reveal_strlit("terminate-instances");
    reveal_strlit("show");
    reveal_strlit("start");
    reveal_strlit("deallocate");
    reveal_strlit("delete");
    reveal_strlit("describe");
    reveal_strlit("stop");
    assert("describe-instances"@[0] != "start-instances"@[0]);
    assert("stop-instances"@[2] != "start-instances"@[2]);
    assert("start"@[2] != "stop"@[2]);
    assert("describe"@[2] != "delete"@[2]);
    assert("show"@[1] != "start"@[1]);
}

/// Only a destroy deletes, and a stop stops: for every instance and every
/// operation, the invocation's verb is the provider's deleting verb
/// (`terminate-instances` on AWS, `delete` on Azure and GCP) exactly when the
/// operation is a destroy; a stop runs `stop-instances` on AWS, `deallocate`
/// on Azure and `stop` on GCP, and a start `start-instances`, `start` and
/// `start`. No two of the four operations share an invocation.
pub proof fn lemma_only_destroy_deletes(op: InstanceOp, i: CloudCliInstanceRef)
    ensures
        instance_command_spec(op, i) matches Some((p, a, t, e)) ==> {
            let deleting = match i.provider {
                CloudCliProvider::Aws => "terminate-instances"@,
                _ => "delete"@,
            };
            &&& (verb_of(i.provider, a) == deleting <==> op == InstanceOp::Destroy)
            &&& op == InstanceOp::Stop ==> verb_of(i.provider, a) == match i.provider {
                CloudCliProvider::Aws => "stop-instances"@,
                CloudCliProvider::Azure => "deallocate"@,
                CloudCliProvider::Gcp => "stop"@,
            }
            &&& op == InstanceOp::Start ==> verb_of(i.provider, a) == match i.provider {
                CloudCliProvider::Aws => "start-instances"@,
                _ => "start"@,
            }
        },
        forall|o1: InstanceOp, o2: InstanceOp|
            o1 != o2 && #[trigger] instance_command_spec(o1, i) is Some
                && #[trigger] instance_command_spec(o2, i) is Some ==> (instance_command_spec(
                o1,
                i,
            )->0).1 != (instance_command_spec(o2, i)->0).1,
{
    lemma_planned_verb(op, i);
    if op != InstanceOp::Destroy {
        lemma_planned_verbs_differ(op, InstanceOp::Destroy, i.provider);
    }
    assert forall|o1: InstanceOp, o2: InstanceOp|
        o1 != o2 && #[trigger] instance_command_spec(o1, i) is Some
            && #[trigger] instance_command_spec(o2, i) is Some implies (instance_command_spec(
            o1,
            i,
        )->0).1 != (instance_command_spec(o2, i)->0).1 by {
        lemma_planned_verb(o1, i);
        lemma_planned_verb(o2, i);
        lemma_planned_verbs_differ(o1, o2, i.provider);
    }
}

/// The error an instance operation without a scope fails with.
pub open spec fn missing_scope_msg(op: InstanceOp, provider: CloudCliProvider) -> Seq<char> {
    match (provider, op) {
        (CloudCliProvider::Azure, InstanceOp::Status) => "Azure status requires scope=resource group"@,
        (CloudCliProvider::Azure, InstanceOp::Start) => "Azure start requires scope=resource group"@,
        (CloudCliProvider::Azure, InstanceOp::Stop) => "Azure stop requires scope=resource group"@,
        (CloudCliProvider::Azure, _) => "Azure destroy requires scope=resource group"@,
        (_, InstanceOp::Status) => "GCP status requires scope=project id"@,
        (_, InstanceOp::Start) => "GCP start requires scope=project id"@,
        (_, InstanceOp::Stop) => "GCP stop requires scope=project id"@,
        (_, _) => "GCP destroy requires scope=project id"@,
    }
}

fn missing_scope(op: InstanceOp, provider: CloudCliProvider) -> (e: CloudError)
    requires
        provider != CloudCliProvider::Aws,
    ensures
        e matches CloudError::Invalid(m) && m@ == missing_scope_msg(op, provider),
{
    match (provider, op) {
        (CloudCliProvider::Azure, InstanceOp::Status) => cloud_err(
            "Azure status requires scope=resource group",
        ),
        (CloudCliProvider::Azure, InstanceOp::Start) => cloud_err(
            "Azure start requires scope=resource group",
        ),
        (CloudCliProvider::Azure, InstanceOp::Stop) => cloud_err(
            "Azure stop requires scope=resource group",
        ),
        (CloudCliProvider::Azure, _) => cloud_err("Azure destroy requires scope=resource group"),
        (_, InstanceOp::Status) => cloud_err("GCP status requires scope=project id"),
        (_, InstanceOp::Start) => cloud_err("GCP start requires scope=project id"),
        (_, InstanceOp::Stop) => cloud_err("GCP stop requires scope=project id"),
        (_, _) => cloud_err("GCP destroy requires scope=project id"),
    }
}

fn instance_command(op: InstanceOp, i: &CloudCliInstanceRef) -> (r: Result<
    CloudCliCommand,
    CloudError,
>)
    ensures
        match instance_command_spec(op, *i) {
            Some((p, a, t, e)) => r matches Ok(c) && runs(c, p, a, t, e),
            None => cloud_invalid(r, missing_scope_msg(op, i.provider)),
        },
{
    match i.provider {
        CloudCliProvider::Aws => {
            let args = match op {
                InstanceOp::Status => vec![
                    arg("ec2"),
                    arg("describe-instances"),
                    arg("--region"),
                    i.location.clone(),
                    arg("--instance-ids"),
                    i.instance_id.clone(),
                    arg("--query"),
                    arg(
                        "Reservations[0].Instances[0].{id:InstanceId,state:State.Name,private_ip:PrivateIpAddress,public_ip:PublicIpAddress}",
                    ),
                    arg("--output"),
                    arg("json"),
                ],
                _ => vec![
                    arg("ec2"),
                    match op {
                        InstanceOp::Start => arg("start-instances"),
                        InstanceOp::Stop => arg("stop-instances"),
                        _ => arg("terminate-instances"),
                    },
                    arg("--region"),
                    i.location.clone(),
                    arg("--instance-ids"),
                    i.instance_id.clone(),
                    arg("--output"),
                    arg("json"),
                ],
            };
            let timeout: u64 = match op {
                InstanceOp::Status => 60000,
                InstanceOp::Destroy => 60000,
                _ => 120000,
            };
            Ok(command("aws", args, timeout, false))
        },
        CloudCliProvider::Azure => {
            let g = match &i.scope {
                Some(g) => g,
                None => return Err(missing_scope(op, i.provider)),
            };
            let args = match op {
                InstanceOp::Status => vec![
                    arg("vm"),
                    arg("show"),
                    arg("--resource-group"),
                    g.clone(),
                    arg("--name"),
                    i.instance_id.clone(),
                    arg("--show-details"),
                    arg("--output"),
                    arg("json"),
                ],
                InstanceOp::Destroy => vec![
                    arg("vm"),
                    arg("delete"),
                    arg("--resource-group"),
                    g.clone(),
                    arg("--name"),
                    i.instance_id.clone(),
                    arg("--yes"),
                    arg("--output"),
                    arg("json"),
                ],
                _ => vec![
                    arg("vm"),
                    if op == InstanceOp::Start {
                        arg("start")
                    } else {
                        arg("deallocate")
                    },
                    arg("--resource-group"),
                    g.clone(),
                    arg("--name"),
                    i.instance_id.clone(),
                    arg("--output"),
                    arg("json"),
                ],
            };
            let timeout: u64 = match op {
                InstanceOp::Status => 60000,
                InstanceOp::Destroy => 120000,
                _ => 180000,
            };
            Ok(command("az", args, timeout, op != InstanceOp::Status))
        },
        CloudCliProvider::Gcp => {
            let p = match &i.scope {
                Some(p) => p,
                None => return Err(missing_scope(op, i.provider)),
            };
            let args = match op {
                InstanceOp::Status => vec![
                    arg("compute"),
                    arg("instances"),
                    arg("describe"),
                    i.instance_id.clone(),
                    arg("--project"),
                    p.clone(),
                    arg("--zone"),
                    i.location.clone(),
                    arg("--format=json"),
                ],
                _ => vec![
                    arg("compute"),
                    arg("instances"),
                    match op {
                        InstanceOp::Start => arg("start"),
                        InstanceOp::Stop => arg("stop"),
                        _ => arg("delete"),
                    },
                    i.instance_id.clone(),
                    arg("--project"),
                    p.clone(),
                    arg("--zone"),
                    i.location.clone(),
                    arg("--quiet"),
                    arg("--format=json"),
                ],
            };
            let timeout: u64 = match op {
                InstanceOp::Status => 60000,
                InstanceOp::Destroy => 120000,
                _ => 180000,
            };
            Ok(command("gcloud", args, timeout, op != InstanceOp::Status))
        },
    }
}

/// The invocation that reports an instance's state.
pub fn cloud_cli_status(instance: &CloudCliInstanceRef) -> (r: Result<CloudCliCommand, CloudError>)
    ensures
        !ref_ok(*instance) ==> r is Err,
        ref_refusal(*instance) matches Some(m) ==> cloud_invalid(r, m),
        ref_ok(*instance) ==> match instance_command_spec(InstanceOp::Status, *instance) {
            Some((p, a, t, e)) => r matches Ok(c) && runs(c, p, a, t, e),
            None => cloud_invalid(r, missing_scope_msg(InstanceOp::Status, instance.provider)),
        },
{
    if let Err(e) = validate_cloud_cli_ref(instance) {
        return Err(e);
    }
    instance_command(InstanceOp::Status, instance)
}

/// The invocation that starts an instance.
pub fn cloud_cli_start(instance: &CloudCliInstanceRef) -> (r: Result<CloudCliCommand, CloudError>)
    ensures
        !ref_ok(*instance) ==> r is Err,
        ref_refusal(*instance) matches Some(m) ==> cloud_invalid(r, m),
        ref_ok(*instance) ==> match instance_command_spec(InstanceOp::Start, *instance) {
            Some((p, a, t, e)) => r matches Ok(c) && runs(c, p, a, t, e),
            None => cloud_invalid(r, missing_scope_msg(InstanceOp::Start, instance.provider)),
        },
{
    if let Err(e) = validate_cloud_cli_ref(instance) {
        return Err(e);
    }
    instance_command(InstanceOp::Start, instance)
}

/// The invocation that stops (on Azure: deallocates) an instance.
pub fn cloud_cli_stop(instance: &CloudCliInstanceRef) -> (r: Result<CloudCliCommand, CloudError>)
    ensures
        !ref_ok(*instance) ==> r is Err,
        ref_refusal(*instance) matches Some(m) ==> cloud_invalid(r, m),
        ref_ok(*instance) ==> match instance_command_spec(InstanceOp::Stop, *instance) {
            Some((p, a, t, e)) => r matches Ok(c) && runs(c, p, a, t, e),
            None => cloud_invalid(r, missing_scope_msg(InstanceOp::Stop, instance.provider)),
        },
{
    if let Err(e) = validate_cloud_cli_ref(instance) {
        return Err(e);
    }
    instance_command(InstanceOp::Stop, instance)
}

/// The invocation that destroys an instance; it must be confirmed.
pub fn cloud_cli_destroy(request: &CloudCliDestroyRequest) -> (r: Result<
    CloudCliCommand,
    CloudError,
>)
    ensures
        !request.confirm_destroy ==> cloud_invalid(r, "cloud destroy requires confirm_destroy=true"@),
        request.confirm_destroy && !ref_ok(request.instance) ==> r is Err,
        request.confirm_destroy ==> (ref_refusal(request.instance) matches Some(m) ==> cloud_invalid(r, m)),
        request.confirm_destroy && ref_ok(request.instance) ==> match instance_command_spec(
            InstanceOp::Destroy,
            request.instance,
        ) {
            Some((p, a, t, e)) => r matches Ok(c) && runs(c, p, a, t, e),
            None => cloud_invalid(
                r,
                missing_scope_msg(InstanceOp::Destroy, request.instance.provider),
            ),
        },
{
    if !request.confirm_destroy {
        return Err(cloud_err("cloud destroy requires confirm_destroy=true"));
    }
    if let Err(e) = validate_cloud_cli_ref(&request.instance) {
        return Err(e);
    }
    instance_command(InstanceOp::Destroy, &request.instance)
}

/// Reads what an instance operation answered: the operation's name, the
/// instance id and the JSON the CLI printed.
pub fn cloud_cli_instance_result(
    op: InstanceOp,
    instance: &CloudCliInstanceRef,
    command: &CloudCliCommand,
    output: &[u8],
) -> (r: Result<CloudCliResult, CloudError>)
    ensures
        match cli_json_spec(output@, command.allow_empty) {
            Err(m) => cloud_invalid(r, m),
            Ok(o) => r matches Ok(res) && {
                &&& res.provider == instance.provider
                &&& res.operation@ == op_name(op)
                &&& (res.instance_id matches Some(i) && i@ == instance.instance_id@)
                &&& if o {
                    res.output matches CloudCliOutput::Document(d) && d@ == output@
                } else {
                    res.output == CloudCliOutput::Empty
                }
            },
        },
{
    let out = match cli_json(output, command.allow_empty) {
        Ok(o) => o,
        Err(e) => return Err(e),
    };
    Ok(
        CloudCliResult {
            provider: instance.provider,
            operation: op_label(op),
            instance_id: some_text(&instance.instance_id),
            output: out,
        },
    )
}

} // verus!

verus! {

/// The timeout a CLI run gets: the requested one, held between 1 s and 300 s.
pub fn cli_timeout_ms(requested: u64) -> (r: u64)
    ensures
        r == (if requested < 1000 {
            1000
        } else if requested > 300000 {
            300000
        } else {
            requested
        }),
{
    if requested < 1000 {
        1000
    } else if requested > 300000 {
        300000
    } else {
        requested
    }
}

/// The most stdout a CLI run keeps, 2 MiB; stderr keeps 256 KiB.
pub const CLI_STDOUT_MAX: usize = 2097152;

pub const CLI_STDERR_MAX: usize = 262144;

/// A captured stream (`label` names it) is kept only up to `max` bytes;
/// `read` is what was read of it, at most one byte past the limit.
pub fn cli_capture_check(read: Vec<u8>, max: usize, label: &str) -> (r: Result<Vec<u8>, CloudError>)
    ensures
        read@.len() <= max ==> r == Ok::<Vec<u8>, CloudError>(read),
        read@.len() > max ==> cloud_invalid(r, "cloud CLI "@ + label@ + " exceeded safety limit"@),
{
    if read.len() > max {
        return Err(CloudError::Invalid(concat3("cloud CLI ", label, " exceeded safety limit")));
    }
    Ok(read)
}

/// What a finished CLI run gives: an error when it timed out, its stderr
/// (the first 4096 characters, decoded leniently) when it failed, else its
/// stdout.
pub fn cli_run_outcome(timed_out: bool, success: bool, stdout: Vec<u8>, stderr: &[u8]) -> (r: Result<
    Vec<u8>,
    CloudError,
>)
    ensures
        timed_out ==> cloud_invalid(r, "cloud CLI timed out"@),
        !timed_out && !success ==> cloud_invalid(
            r,
            "cloud CLI rejected operation: "@ + (if crate::text::lossy_utf8(stderr@).len() <= 4096 {
                crate::text::lossy_utf8(stderr@)
            } else {
                crate::text::lossy_utf8(stderr@).subrange(0, 4096)
            }),
        ),
        !timed_out && success ==> r == Ok::<Vec<u8>, CloudError>(stdout),
{
    if timed_out {
        return Err(CloudError::Invalid(arg("cloud CLI timed out")));
    }
    if !success {
        let text = crate::text::utf8_lossy(stderr);
        let head = crate::text::take_chars(text.as_str(), 4096);
        return Err(CloudError::Invalid(concat("cloud CLI rejected operation: ", head.as_str())));
    }
    Ok(stdout)
}

} // verus!
