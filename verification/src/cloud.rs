//! Cloud workspaces: their specification, the generic SSH provisioning plan,
//! the argument rules for provider CLIs, and the lifecycle conformance report.
use crate::text::{
    any_control, blank, blen, bytes_in_class, has_control, has_prefix, is_blank, is_token,
    outer_ws, starts_with, token_ok, has_outer_ws, utf8, ByteClass, in_class, all_in_class,
};
use std::collections::BTreeMap;
use vstd::prelude::*;
use vstd::string::StringExecFns;

verus! {

/// Errors of the cloud layer.
#[derive(Debug, Clone, PartialEq, Eq)]
pub enum CloudError {
    Invalid(String),
    Unsupported(String),
}

impl CloudError {
    /// The error as it is reported.
    pub fn message(&self) -> (r: String)
        ensures
            r@ == match self {
                CloudError::Invalid(m) => "invalid workspace specification: "@ + m@,
                CloudError::Unsupported(m) => "provider does not support capability: "@ + m@,
            },
    {
        match self {
            CloudError::Invalid(m) => crate::text::concat("invalid workspace specification: ", m.as_str()),
            CloudError::Unsupported(m) => crate::text::concat(
                "provider does not support capability: ",
                m.as_str(),
            ),
        }
    }
}

/// Whether `r` failed with `Invalid(msg)`.
pub open spec fn cloud_invalid<T>(r: Result<T, CloudError>, msg: Seq<char>) -> bool {
    r matches Err(CloudError::Invalid(m)) && m@ == msg
}

pub fn cloud_err(msg: &str) -> (e: CloudError)
    ensures
        e matches CloudError::Invalid(m) && m@ == msg@,
{
    CloudError::Invalid(msg.to_owned())
}

/// What a provider can do.
#[derive(Debug, Clone, Copy, PartialEq, Eq, Structural)]
pub enum CloudCapability {
    Compute,
    BlockStorage,
    ObjectStorage,
    ManagedDatabase,
    Firewall,
    Dns,
    Snapshot,
    Clone,
    SshBootstrap,
}

#[derive(Debug, Clone, PartialEq, Eq)]
pub struct CloudProviderDescriptor {
    pub id: String,
    pub display_name: String,
    pub capabilities: Vec<CloudCapability>,
    pub regions: Vec<String>,
}

/// A workspace to provision.
#[derive(Debug, Clone, PartialEq, Eq)]
pub struct WorkspaceSpec {
    pub name: String,
    pub provider: String,
    pub region: String,
    pub machine_type: String,
    pub os_image: String,
    pub disk_gb: u32,
    pub runtime_requirements: BTreeMap<String, String>,
    pub services: Vec<String>,
    pub labels: BTreeMap<String, String>,
}

#[derive(Debug, Clone, PartialEq, Eq)]
pub struct ProvisionStep {
    pub id: String,
    pub description: String,
    pub capability: CloudCapability,
    pub destructive: bool,
}

#[derive(Debug, Clone, PartialEq, Eq)]
pub struct ProvisionPlan {
    pub workspace: WorkspaceSpec,
    pub steps: Vec<ProvisionStep>,
    pub requires_explicit_apply: bool,
}

/// A provider of cloud workspaces, implemented by each integration.
pub trait CloudProvider {
    fn descriptor(&self) -> CloudProviderDescriptor;

    fn plan(&self, spec: &WorkspaceSpec) -> Result<ProvisionPlan, CloudError>;
}

/// A provider field that is present: not blank and at most 160 bytes.
pub open spec fn field_ok(s: Seq<char>) -> bool {
    !is_blank(s) && blen(s) <= 160
}

/// Everything [`validate_workspace_spec`] checks, in its order.
pub open spec fn workspace_ok(spec: WorkspaceSpec) -> bool {
    &&& is_token(spec.name@, 2, 96, ByteClass::Ident)
    &&& field_ok(spec.provider@)
    &&& field_ok(spec.region@)
    &&& field_ok(spec.machine_type@)
    &&& field_ok(spec.os_image@)
    &&& 8 <= spec.disk_gb <= 16384
    &&& spec.runtime_requirements.len() <= 32
    &&& spec.services@.len() <= 64
    &&& spec.labels.len() <= 64
}

fn field_check(value: &String, message: &str) -> (r: Result<(), CloudError>)
    ensures
        r is Ok <==> field_ok(value@),
        r is Err ==> cloud_invalid(r, message@),
{
    let s = value.as_str();
    if blank(s) || s.as_bytes().len() > 160 {
        Err(cloud_err(message))
    } else {
        Ok(())
    }
}

/// Why a workspace is refused, if it is: the first check it fails.
pub open spec fn workspace_refusal(spec: WorkspaceSpec) -> Option<Seq<char>> {
    if !is_token(spec.name@, 2, 96, ByteClass::Ident) {
        Some("workspace name must be a safe identifier"@)
    } else if !field_ok(spec.provider@) {
        Some("provider is missing or too long"@)
    } else if !field_ok(spec.region@) {
        Some("region is missing or too long"@)
    } else if !field_ok(spec.machine_type@) {
        Some("machine_type is missing or too long"@)
    } else if !field_ok(spec.os_image@) {
        Some("os_image is missing or too long"@)
    } else if !(8 <= spec.disk_gb <= 16384) {
        Some("disk_gb must be between 8 and 16384"@)
    } else if spec.runtime_requirements.len() > 32 || spec.services@.len() > 64 || spec.labels.len() > 64 {
        Some("workspace contains too many runtime/service/label entries"@)
    } else {
        None
    }
}

/// Checks a workspace: a safe name, present provider fields, a disk of
/// 8..16384 GB and bounded runtime, service and label lists.
pub fn validate_workspace_spec(spec: &WorkspaceSpec) -> (r: Result<(), CloudError>)
    ensures
        r is Ok <==> workspace_ok(*spec),
        match workspace_refusal(*spec) {
            None => r is Ok,
            Some(m) => cloud_invalid(r, m),
        },
{
    if !token_ok(spec.name.as_str(), 2, 96, ByteClass::Ident) {
        return Err(cloud_err("workspace name must be a safe identifier"));
    }
    if let Err(e) = field_check(&spec.provider, "provider is missing or too long") {
        return Err(e);
    }
    if let Err(e) = field_check(&spec.region, "region is missing or too long") {
        return Err(e);
    }
    if let Err(e) = field_check(&spec.machine_type, "machine_type is missing or too long") {
        return Err(e);
    }
    if let Err(e) = field_check(&spec.os_image, "os_image is missing or too long") {
        return Err(e);
    }
    if !(8 <= spec.disk_gb && spec.disk_gb <= 16384) {
        return Err(cloud_err("disk_gb must be between 8 and 16384"));
    }
    if spec.runtime_requirements.len() > 32 || spec.services.len() > 64 || spec.labels.len()
        > 64 {
        return Err(cloud_err("workspace contains too many runtime/service/label entries"));
    }
    Ok(())
}

/// A copy of every string of `v`.
pub fn copy_strings(v: &Vec<String>) -> (r: Vec<String>)
    ensures
        r@ == v@,
{
    let mut out: Vec<String> = Vec::new();
    let mut i: usize = 0;
    while i < v.len()
        invariant
            0 <= i <= v@.len(),
            out@ =~= v@.subrange(0, i as int),
        decreases v@.len() - i,
    {
        out.push(v[i].clone());
        i += 1;
    }
    assert(v@.subrange(0, v@.len() as int) =~= v@);
    out
}

impl WorkspaceSpec {
    /// Whether two specifications say the same.
    pub open spec fn same_as(self, other: WorkspaceSpec) -> bool {
        &&& self.name == other.name
        &&& self.provider == other.provider
        &&& self.region == other.region
        &&& self.machine_type == other.machine_type
        &&& self.os_image == other.os_image
        &&& self.disk_gb == other.disk_gb
        &&& self.runtime_requirements@ == other.runtime_requirements@
        &&& self.services@ == other.services@
        &&& self.labels@ == other.labels@
    }

    /// A copy of this specification.
    pub fn copy(&self) -> (r: Self)
        ensures
            r.same_as(*self),
    {
        WorkspaceSpec {
            name: self.name.clone(),
            provider: self.provider.clone(),
            region: self.region.clone(),
            machine_type: self.machine_type.clone(),
            os_image: self.os_image.clone(),
            disk_gb: self.disk_gb,
            runtime_requirements: self.runtime_requirements.clone(),
            services: copy_strings(&self.services),
            labels: self.labels.clone(),
        }
    }
}

fn step(id: &str, description: &str, capability: CloudCapability) -> (r: ProvisionStep)
    ensures
        r.id@ == id@,
        r.description@ == description@,
        r.capability == capability,
        !r.destructive,
{
    ProvisionStep {
        id: id.to_owned(),
        description: description.to_owned(),
        capability,
        destructive: false,
    }
}

/// The plan for a workspace on an existing SSH host: create compute, lock the
/// firewall down, attach the disk, bootstrap the agent and enroll it. None of
/// the steps is destructive, and the plan must be applied explicitly.
pub fn generic_ssh_plan(spec: &WorkspaceSpec) -> (r: Result<ProvisionPlan, CloudError>)
    ensures
        r is Ok <==> workspace_ok(*spec),
        workspace_refusal(*spec) matches Some(m) ==> cloud_invalid(r, m),
        r matches Ok(p) ==> {
            &&& p.workspace.same_as(*spec)
            &&& p.requires_explicit_apply
            &&& p.steps@.len() == 5
            &&& p.steps@[0].id@ == "compute.create"@ && p.steps@[0].capability
                == CloudCapability::Compute
            &&& p.steps@[1].id@ == "firewall.lockdown"@ && p.steps@[1].capability
                == CloudCapability::Firewall
            &&& p.steps@[2].id@ == "disk.attach"@ && p.steps@[2].capability
                == CloudCapability::BlockStorage
            &&& p.steps@[3].id@ == "agent.bootstrap"@ && p.steps@[3].capability
                == CloudCapability::SshBootstrap
            &&& p.steps@[4].id@ == "agent.enroll"@ && p.steps@[4].capability
                == CloudCapability::SshBootstrap
            &&& forall|i: int| 0 <= i < 5 ==> !(#[trigger] p.steps@[i]).destructive
        },
{
    if let Err(e) = validate_workspace_spec(spec) {
        return Err(e);
    }
    let steps = vec![
        step("compute.create", "Create isolated compute instance", CloudCapability::Compute),
        step(
            "firewall.lockdown",
            "Apply default-deny inbound firewall; retain provider management path only",
            CloudCapability::Firewall,
        ),
        step("disk.attach", "Attach encrypted workspace disk", CloudCapability::BlockStorage),
        step(
            "agent.bootstrap",
            "Bootstrap VSN Agent over an authenticated SSH/provider channel",
            CloudCapability::SshBootstrap,
        ),
        step(
            "agent.enroll",
            "Enroll workspace Agent with the VSN Control Plane",
            CloudCapability::SshBootstrap,
        ),
    ];
    Ok(ProvisionPlan { workspace: spec.copy(), steps, requires_explicit_apply: true })
}

/// A cloud resource name: 2..63 bytes of letters, digits, `-`, `_`, starting
/// with a letter or digit.
pub open spec fn is_resource_name(s: Seq<char>) -> bool {
    is_token(s, 2, 63, ByteClass::Ident) && in_class(ByteClass::Alnum, utf8(s)[0])
}

pub fn validate_cloud_resource_name(value: &str) -> (r: Result<(), CloudError>)
    ensures
        r is Ok <==> is_resource_name(value@),
        r is Err ==> cloud_invalid(
            r,
            "cloud resource name must be a 2..63 character identifier using letters, digits, '-' or '_'"@,
        ),
{
    if !token_ok(value, 2, 63, ByteClass::Ident) || !crate::text::byte_in_class(
        ByteClass::Alnum,
        value.as_bytes()[0],
    ) {
        return Err(
            cloud_err(
                "cloud resource name must be a 2..63 character identifier using letters, digits, '-' or '_'",
            ),
        );
    }
    Ok(())
}

/// A provider argument: no surrounding white space, not empty, at most `max`
/// bytes, not starting with `-`, no control characters.
pub open spec fn is_provider_arg(s: Seq<char>, max: int) -> bool {
    &&& !has_outer_ws(s)
    &&& s.len() > 0
    &&& blen(s) <= max
    &&& !starts_with(s, "-"@)
    &&& !has_control(s)
}

/// Checks a provider argument, failing with `"{name} is invalid"`.
pub fn validate_provider_arg(name: &str, value: &str, max: usize) -> (r: Result<(), CloudError>)
    ensures
        r is Ok <==> is_provider_arg(value@, max as int),
        r is Err ==> cloud_invalid(r, name@ + " is invalid"@),
{
    if outer_ws(value) || value.as_bytes().len() == 0 || value.as_bytes().len() > max
        || has_prefix(value, "-") || any_control(value) {
        let mut msg = name.to_owned();
        msg.append(" is invalid");
        proof {
            if utf8(value@).len() == 0 {
                vstd::utf8::encode_utf8_decode_utf8(value@);
                assert(utf8(value@) =~= Seq::<u8>::empty());
                assert(vstd::utf8::decode_utf8(Seq::<u8>::empty()) =~= Seq::<char>::empty());
            }
        }
        return Err(CloudError::Invalid(msg));
    }
    proof {
        if value@.len() == 0 {
            assert(utf8(value@) =~= Seq::<u8>::empty());
        }
    }
    Ok(())
}

/// What each CLI provider supports.
#[derive(Debug, Clone, PartialEq, Eq)]
pub struct CloudProviderCapability {
    pub provider: crate::cloud_cli::CloudCliProvider,
    pub create: bool,
    pub status: bool,
    pub start: bool,
    pub stop: bool,
    pub destroy: bool,
    pub snapshot: bool,
    pub clone: bool,
    pub cross_location_artifact_copy: bool,
    pub private_by_default: bool,
}

#[derive(Debug, Clone, PartialEq, Eq)]
pub struct CloudConformanceReport {
    pub structured_argv: bool,
    pub credential_context_only: bool,
    pub explicit_destructive_confirmation: bool,
    pub ssh_release_lifecycle: bool,
    pub rollback: bool,
    pub health_check: bool,
    pub providers: Vec<CloudProviderCapability>,
    pub issues: Vec<String>,
}

/// A provider that supports the whole lifecycle.
pub open spec fn full_lifecycle(c: CloudProviderCapability) -> bool {
    c.create && c.status && c.start && c.stop && c.destroy && c.snapshot && c.clone
        && c.cross_location_artifact_copy && c.private_by_default
}

fn full_capability(provider: crate::cloud_cli::CloudCliProvider) -> (r: CloudProviderCapability)
    ensures
        r.provider == provider,
        full_lifecycle(r),
{
    CloudProviderCapability {
        provider,
        create: true,
        status: true,
        start: true,
        stop: true,
        destroy: true,
        snapshot: true,
        clone: true,
        cross_location_artifact_copy: true,
        private_by_default: true,
    }
}

/// The lifecycle conformance of the cloud layer: every property holds, AWS,
/// Azure and GCP support the whole lifecycle, and there are no issues.
pub fn cloud_conformance() -> (r: CloudConformanceReport)
    ensures
        r.structured_argv && r.credential_context_only && r.explicit_destructive_confirmation
            && r.ssh_release_lifecycle && r.rollback && r.health_check,
        r.providers@.len() == 3,
        r.providers@[0].provider == crate::cloud_cli::CloudCliProvider::Aws,
        r.providers@[1].provider == crate::cloud_cli::CloudCliProvider::Azure,
        r.providers@[2].provider == crate::cloud_cli::CloudCliProvider::Gcp,
        forall|i: int| 0 <= i < 3 ==> full_lifecycle(#[trigger] r.providers@[i]),
        r.issues@.len() == 0,
{
    CloudConformanceReport {
        structured_argv: true,
        credential_context_only: true,
        explicit_destructive_confirmation: true,
        ssh_release_lifecycle: true,
        rollback: true,
        health_check: true,
        providers: vec![
            full_capability(crate::cloud_cli::CloudCliProvider::Aws),
            full_capability(crate::cloud_cli::CloudCliProvider::Azure),
            full_capability(crate::cloud_cli::CloudCliProvider::Gcp),
        ],
        issues: Vec::new(),
    }
}

} // verus!
