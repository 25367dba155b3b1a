//! Workspaces and releases on an existing SSH host. Every remote command is
//! a fixed script into which only checked identifiers are placed; the
//! markers it prints decide the outcome.
use crate::cloud::{cloud_err, cloud_invalid, CloudError};
use crate::text::{
    all_in_class, blen, bytes_in_class, contains, dec_chars, eq_ignore_ascii_case, has_prefix,
    has_substring, is_token, lines, lines_of, lossy_utf8, starts_with, str_eq, strip_prefix,
    strip_prefix_of, take_chars, token_ok, trim, trim_text, u128_text, u64_text_of, utf8,
    utf8_lossy, parse_u128, ByteClass, eq_ignore_case,
};
use vstd::prelude::*;
use vstd::string::StringExecFns;

verus! {

/// An SSH host the library may reach.
#[derive(Debug, Clone, PartialEq, Eq)]
pub struct ExistingSshTarget {
    pub host: String,
    pub port: u16,
    pub user: String,
    pub identity_file: String,
    pub known_hosts_file: String,
}

#[derive(Debug, Clone, PartialEq, Eq)]
pub struct SshPreflightResult {
    pub host: String,
    pub port: u16,
    pub user: String,
    pub ok: bool,
    pub remote_marker: String,
}

#[derive(Debug, Clone, PartialEq, Eq)]
pub struct ExistingSshWorkspaceRequest {
    pub target: ExistingSshTarget,
    pub workspace_name: String,
}

#[derive(Debug, Clone, PartialEq, Eq)]
pub struct ExistingSshWorkspaceResult {
    pub workspace_name: String,
    pub remote_path: String,
    pub state: String,
    pub marker: String,
}

#[derive(Debug, Clone, PartialEq, Eq)]
pub struct SshReleaseUploadRequest {
    pub target: ExistingSshTarget,
    pub workspace_name: String,
    pub release_id: String,
    pub artifact_path: String,
    pub expected_sha256: Option<String>,
    pub activate: bool,
}

#[derive(Debug, Clone, PartialEq, Eq)]
pub struct SshReleaseResult {
    pub workspace_name: String,
    pub release_id: String,
    pub remote_artifact: String,
    pub sha256: String,
    pub bytes: u64,
    pub active: bool,
}

#[derive(Debug, Clone, PartialEq, Eq)]
pub struct SshReleasePointerRequest {
    pub target: ExistingSshTarget,
    pub workspace_name: String,
    pub release_id: String,
}

#[derive(Debug, Clone, PartialEq, Eq)]
pub struct SshReleaseStatus {
    pub workspace_name: String,
    pub active_release: Option<String>,
    pub previous_release: Option<String>,
}

#[derive(Debug, Clone, PartialEq, Eq)]
pub struct SshReleaseHealthRequest {
    pub target: ExistingSshTarget,
    pub workspace_name: String,
    pub port: u16,
    pub path: String,
    pub expected_status_min: u16,
    pub expected_status_max: u16,
    pub rollback_on_failure: bool,
}

#[derive(Debug, Clone, PartialEq, Eq)]
pub struct SshReleaseHealthResult {
    pub workspace_name: String,
    pub healthy: bool,
    pub status_code: Option<u16>,
    pub active_before: Option<String>,
    pub active_after: Option<String>,
    pub rolled_back: bool,
    pub detail: String,
}

/// What the application found of the two local files a target names.
#[derive(Debug, Clone, Copy, PartialEq, Eq, Structural)]
pub struct SshLocalFiles {
    /// `identity_file` is an existing absolute file.
    pub identity_file: bool,
    /// `known_hosts_file` is an existing absolute file.
    pub known_hosts_file: bool,
}

/// An SSH host: 1..253 bytes of letters, digits, `.`, `-`, `:`, `[`, `]`.
pub open spec fn is_ssh_host(s: Seq<char>) -> bool {
    is_token(s, 1, 253, ByteClass::Host)
}

/// An SSH user: 1..64 bytes of letters, digits, `-`, `_`, `.`.
pub open spec fn is_ssh_user(s: Seq<char>) -> bool {
    is_token(s, 1, 64, ByteClass::DottedIdent)
}

pub open spec fn target_ok(t: ExistingSshTarget, files: SshLocalFiles) -> bool {
    is_ssh_host(t.host@) && t.port != 0 && is_ssh_user(t.user@) && files.identity_file
        && files.known_hosts_file
}

/// Checks a target: its host, port and user, and the two local files.
pub fn validate_ssh_target(target: &ExistingSshTarget, files: SshLocalFiles) -> (r: Result<
    (),
    CloudError,
>)
    ensures
        r is Ok <==> target_ok(*target, files),
        !is_ssh_host(target.host@) ==> cloud_invalid(r, "SSH host is invalid"@),
        is_ssh_host(target.host@) && target.port == 0 ==> cloud_invalid(
            r,
            "SSH port must be non-zero"@,
        ),
        is_ssh_host(target.host@) && target.port != 0 && !is_ssh_user(target.user@)
            ==> cloud_invalid(r, "SSH user is invalid"@),
{
    if !token_ok(target.host.as_str(), 1, 253, ByteClass::Host) {
        return Err(cloud_err("SSH host is invalid"));
    }
    if target.port == 0 {
        return Err(cloud_err("SSH port must be non-zero"));
    }
    if !token_ok(target.user.as_str(), 1, 64, ByteClass::DottedIdent) {
        return Err(cloud_err("SSH user is invalid"));
    }
    if !files.identity_file {
        return Err(cloud_err("identity_file must be an existing absolute file"));
    }
    if !files.known_hosts_file {
        return Err(cloud_err("known_hosts_file must be an existing absolute file"));
    }
    Ok(())
}

/// The arguments of `ssh` for one remote command: batch mode, the given
/// identity only, strict host key checking against the given known hosts,
/// an eight-second connect timeout.
pub open spec fn ssh_args(t: ExistingSshTarget, remote: Seq<char>) -> Seq<Seq<char>> {
    seq![
        "-o"@,
        "BatchMode=yes"@,
        "-o"@,
        "IdentitiesOnly=yes"@,
        "-o"@,
        "StrictHostKeyChecking=yes"@,
        "-o"@,
        "ConnectTimeout=8"@,
        "-o"@,
        "UserKnownHostsFile="@ + t.known_hosts_file@,
        "-i"@,
        t.identity_file@,
        "-p"@,
        dec_chars(t.port as nat),
        t.user@ + "@"@ + t.host@,
        remote,
    ]
}

fn s(x: &str) -> (r: String)
    ensures
        r@ == x@,
{
    x.to_owned()
}

/// The arguments of `ssh` that run `remote_command` on the target.
pub fn ssh_command_args(target: &ExistingSshTarget, remote_command: &str) -> (r: Vec<String>)
    ensures
        r@.map_values(|x: String| x@) =~= ssh_args(*target, remote_command@),
{
    let mut dest = target.user.clone();
    dest.append("@");
    dest.append(target.host.as_str());
    let mut known = s("UserKnownHostsFile=");
    known.append(target.known_hosts_file.as_str());
    vec![
        s("-o"),
        s("BatchMode=yes"),
        s("-o"),
        s("IdentitiesOnly=yes"),
        s("-o"),
        s("StrictHostKeyChecking=yes"),
        s("-o"),
        s("ConnectTimeout=8"),
        s("-o"),
        known,
        s("-i"),
        target.identity_file.clone(),
        s("-p"),
        u64_text_of(target.port as u64),
        dest,
        s(remote_command),
    ]
}

/// How an SSH failure is reported: the context, then at most 2048
/// characters of what `ssh` wrote to its error stream.
pub open spec fn ssh_failure_msg(context: Seq<char>, stderr: Seq<u8>) -> Seq<char> {
    let t = lossy_utf8(stderr);
    context + if t.len() <= 2048 {
        t
    } else {
        t.subrange(0, 2048)
    }
}

pub fn ssh_failure(context: &str, stderr: &[u8]) -> (e: CloudError)
    ensures
        e matches CloudError::Invalid(m) && m@ == ssh_failure_msg(context@, stderr@),
{
    let text = utf8_lossy(stderr);
    let head = take_chars(text.as_str(), 2048);
    let mut m = s(context);
    m.append(head.as_str());
    CloudError::Invalid(m)
}

/// What a remote command printed, as its marker: lossily decoded and trimmed.
pub open spec fn marker_of(stdout: Seq<u8>) -> Seq<char> {
    trim(lossy_utf8(stdout))
}

pub fn ssh_marker(stdout: &[u8]) -> (r: String)
    ensures
        r@ == marker_of(stdout@),
{
    let text = utf8_lossy(stdout);
    trim_text(text.as_str())
}

/// The remote command of the preflight check.
pub open spec fn preflight_command() -> Seq<char> {
    "printf 'VSN_SSH_OK'"@
}

/// The preflight: checks the target and yields the arguments of `ssh`.
pub fn ssh_preflight(target: &ExistingSshTarget, files: SshLocalFiles) -> (r: Result<
    Vec<String>,
    CloudError,
>)
    ensures
        r is Ok <==> target_ok(*target, files),
        r matches Ok(a) ==> a@.map_values(|x: String| x@) =~= ssh_args(
            *target,
            preflight_command(),
        ),
{
    if let Err(e) = validate_ssh_target(target, files) {
        return Err(e);
    }
    Ok(ssh_command_args(target, "printf 'VSN_SSH_OK'"))
}

/// Reads the preflight's output: the host must answer `VSN_SSH_OK`.
pub fn ssh_preflight_result(target: &ExistingSshTarget, stdout: &[u8]) -> (r: Result<
    SshPreflightResult,
    CloudError,
>)
    ensures
        marker_of(stdout@) != "VSN_SSH_OK"@ ==> cloud_invalid(
            r,
            "ssh preflight returned unexpected marker"@,
        ),
        marker_of(stdout@) == "VSN_SSH_OK"@ ==> (r matches Ok(p) && p.host == target.host
            && p.port == target.port && p.user == target.user && p.ok && p.remote_marker@
            == "VSN_SSH_OK"@),
{
    let marker = ssh_marker(stdout);
    if !str_eq(marker.as_str(), "VSN_SSH_OK") {
        return Err(cloud_err("ssh preflight returned unexpected marker"));
    }
    Ok(
        SshPreflightResult {
            host: target.host.clone(),
            port: target.port,
            user: target.user.clone(),
            ok: true,
            remote_marker: marker,
        },
    )
}

/// A workspace name: 2..96 bytes of letters, digits, `-`, `_`.
pub open spec fn is_workspace_name(s: Seq<char>) -> bool {
    is_token(s, 2, 96, ByteClass::Ident)
}

pub fn validate_workspace_name(name: &str) -> (r: Result<(), CloudError>)
    ensures
        r is Ok <==> is_workspace_name(name@),
        r is Err ==> cloud_invalid(r, "SSH workspace name must be a safe identifier"@),
{
    if token_ok(name, 2, 96, ByteClass::Ident) {
        Ok(())
    } else {
        Err(cloud_err("SSH workspace name must be a safe identifier"))
    }
}

/// A release id: 4..96 bytes of letters, digits, `-`, `_`.
pub open spec fn is_release_id(s: Seq<char>) -> bool {
    is_token(s, 4, 96, ByteClass::Ident)
}

pub fn validate_release_id(value: &str) -> (r: Result<(), CloudError>)
    ensures
        r is Ok <==> is_release_id(value@),
        r is Err ==> cloud_invalid(r, "release_id must be a safe identifier"@),
{
    if token_ok(value, 4, 96, ByteClass::Ident) {
        Ok(())
    } else {
        Err(cloud_err("release_id must be a safe identifier"))
    }
}

/// Exactly 64 hexadecimal bytes.
pub fn validate_sha256(value: &str) -> (r: Result<(), CloudError>)
    ensures
        r is Ok <==> is_token(value@, 64, 64, ByteClass::Hex),
        r is Err ==> cloud_invalid(
            r,
            "expected_sha256 must contain exactly 64 hexadecimal characters"@,
        ),
{
    if token_ok(value, 64, 64, ByteClass::Hex) {
        Ok(())
    } else {
        Err(cloud_err("expected_sha256 must contain exactly 64 hexadecimal characters"))
    }
}

/// A health-check path: 1..256 bytes of letters, digits, `/`, `-`, `_`, `.`,
/// starting with `/` and never holding `..`.
pub open spec fn is_health_path(s: Seq<char>) -> bool {
    &&& 1 <= blen(s) <= 256
    &&& starts_with(s, "/"@)
    &&& !contains(s, ".."@)
    &&& all_in_class(utf8(s), ByteClass::Path)
}

pub fn validate_health_path(value: &str) -> (r: Result<(), CloudError>)
    ensures
        r is Ok <==> is_health_path(value@),
        r is Err ==> cloud_invalid(
            r,
            "health path must be a simple absolute HTTP path without query or traversal"@,
        ),
{
    let n = value.as_bytes().len();
    if n == 0 || n > 256 || !has_prefix(value, "/") || has_substring(value, "..")
        || !bytes_in_class(value, ByteClass::Path) {
        return Err(
            cloud_err("health path must be a simple absolute HTTP path without query or traversal"),
        );
    }
    Ok(())
}

/// `$HOME/.vsn/workspaces/<name>`.
pub open spec fn workspace_path(name: Seq<char>) -> Seq<char> {
    "$HOME/.vsn/workspaces/"@ + name
}

pub fn remote_workspace_path(name: &str) -> (r: String)
    ensures
        r@ == workspace_path(name@),
{
    let mut p = s("$HOME/.vsn/workspaces/");
    p.append(name);
    p
}

/// The script that creates the workspace directory, private to its owner.
pub open spec fn prepare_script(path: Seq<char>) -> Seq<char> {
    "umask 077; mkdir -p -- \""@ + path + "\" && chmod 700 -- \""@ + path
        + "\" && printf 'VSN_WORKSPACE_READY'"@
}

/// The script that reports whether the workspace directory exists.
pub open spec fn status_script(path: Seq<char>) -> Seq<char> {
    "if test -d \""@ + path
        + "\"; then printf 'VSN_WORKSPACE_READY'; else printf 'VSN_WORKSPACE_MISSING'; fi"@
}

/// The script that removes the workspace directory only when it is empty.
pub open spec fn remove_script(path: Seq<char>) -> Seq<char> {
    "if test ! -d \""@ + path + "\"; then printf 'VSN_WORKSPACE_MISSING'; elif rmdir -- \""@ + path
        + "\" 2>/dev/null; then printf 'VSN_WORKSPACE_REMOVED'; else printf 'VSN_WORKSPACE_NOT_EMPTY'; fi"@
}

/// The remote script of a workspace operation, after its name was checked.
#[derive(Debug, Clone, PartialEq, Eq)]
pub struct WorkspaceScript {
    pub remote_path: String,
    pub command: String,
}

/// The workspace operation to prepare: the script that creates the directory.
pub fn ssh_workspace_prepare(request: &ExistingSshWorkspaceRequest) -> (r: Result<
    WorkspaceScript,
    CloudError,
>)
    ensures
        r is Ok <==> is_workspace_name(request.workspace_name@),
        r is Err ==> cloud_invalid(r, "SSH workspace name must be a safe identifier"@),
        r matches Ok(w) ==> w.remote_path@ == workspace_path(request.workspace_name@)
            && w.command@ == prepare_script(workspace_path(request.workspace_name@)),
{
    if let Err(e) = validate_workspace_name(request.workspace_name.as_str()) {
        return Err(e);
    }
    let path = remote_workspace_path(request.workspace_name.as_str());
    let mut c = s("umask 077; mkdir -p -- \"");
    c.append(path.as_str());
    c.append("\" && chmod 700 -- \"");
    c.append(path.as_str());
    c.append("\" && printf 'VSN_WORKSPACE_READY'");
    Ok(WorkspaceScript { remote_path: path, command: c })
}

/// The workspace operation to report status: the script that tests the directory.
pub fn ssh_workspace_status(request: &ExistingSshWorkspaceRequest) -> (r: Result<
    WorkspaceScript,
    CloudError,
>)
    ensures
        r is Ok <==> is_workspace_name(request.workspace_name@),
        r is Err ==> cloud_invalid(r, "SSH workspace name must be a safe identifier"@),
        r matches Ok(w) ==> w.remote_path@ == workspace_path(request.workspace_name@)
            && w.command@ == status_script(workspace_path(request.workspace_name@)),
{
    if let Err(e) = validate_workspace_name(request.workspace_name.as_str()) {
        return Err(e);
    }
    let path = remote_workspace_path(request.workspace_name.as_str());
    let mut c = s("if test -d \"");
    c.append(path.as_str());
    c.append("\"; then printf 'VSN_WORKSPACE_READY'; else printf 'VSN_WORKSPACE_MISSING'; fi");
    Ok(WorkspaceScript { remote_path: path, command: c })
}

/// The workspace operation to remove an empty workspace. A workspace that
/// still holds anything is never deleted.
pub fn ssh_workspace_remove_empty(request: &ExistingSshWorkspaceRequest) -> (r: Result<
    WorkspaceScript,
    CloudError,
>)
    ensures
        r is Ok <==> is_workspace_name(request.workspace_name@),
        r is Err ==> cloud_invalid(r, "SSH workspace name must be a safe identifier"@),
        r matches Ok(w) ==> w.remote_path@ == workspace_path(request.workspace_name@)
            && w.command@ == remove_script(workspace_path(request.workspace_name@)),
{
    if let Err(e) = validate_workspace_name(request.workspace_name.as_str()) {
        return Err(e);
    }
    let path = remote_workspace_path(request.workspace_name.as_str());
    let mut c = s("if test ! -d \"");
    c.append(path.as_str());
    c.append("\"; then printf 'VSN_WORKSPACE_MISSING'; elif rmdir -- \"");
    c.append(path.as_str());
    c.append(
        "\" 2>/dev/null; then printf 'VSN_WORKSPACE_REMOVED'; else printf 'VSN_WORKSPACE_NOT_EMPTY'; fi",
    );
    Ok(WorkspaceScript { remote_path: path, command: c })
}

/// Which workspace operation a marker answers.
#[derive(Debug, Clone, Copy, PartialEq, Eq, Structural)]
pub enum WorkspaceOp {
    Prepare,
    Status,
    RemoveEmpty,
}

/// The state a workspace marker reports, if the operation can print it.
pub open spec fn workspace_state(op: WorkspaceOp, marker: Seq<char>) -> Option<Seq<char>> {
    match op {
        WorkspaceOp::Prepare => if marker == "VSN_WORKSPACE_READY"@ {
            Some("ready"@)
        } else {
            None
        },
        WorkspaceOp::Status => if marker == "VSN_WORKSPACE_READY"@ {
            Some("ready"@)
        } else if marker == "VSN_WORKSPACE_MISSING"@ {
            Some("missing"@)
        } else {
            None
        },
        WorkspaceOp::RemoveEmpty => if marker == "VSN_WORKSPACE_REMOVED"@ {
            Some("removed"@)
        } else if marker == "VSN_WORKSPACE_MISSING"@ {
            Some("missing"@)
        } else if marker == "VSN_WORKSPACE_NOT_EMPTY"@ {
            Some("not_empty"@)
        } else {
            None
        },
    }
}

pub open spec fn unexpected_workspace_msg(op: WorkspaceOp) -> Seq<char> {
    match op {
        WorkspaceOp::Prepare => "SSH workspace prepare returned unexpected marker"@,
        WorkspaceOp::Status => "SSH workspace status returned unexpected marker"@,
        WorkspaceOp::RemoveEmpty => "SSH workspace remove returned unexpected marker"@,
    }
}

/// Reads the marker a workspace script printed.
pub fn ssh_workspace_result(
    op: WorkspaceOp,
    request: &ExistingSshWorkspaceRequest,
    script: WorkspaceScript,
    stdout: &[u8],
) -> (r: Result<ExistingSshWorkspaceResult, CloudError>)
    ensures
        match workspace_state(op, marker_of(stdout@)) {
            None => cloud_invalid(r, unexpected_workspace_msg(op)),
            Some(state) => r matches Ok(w) && w.workspace_name == request.workspace_name
                && w.remote_path == script.remote_path && w.state@ == state && w.marker@
                == marker_of(stdout@),
        },
{
    let marker = ssh_marker(stdout);
    let m = marker.as_str();
    let state = match op {
        WorkspaceOp::Prepare => if str_eq(m, "VSN_WORKSPACE_READY") {
            Some(s("ready"))
        } else {
            None
        },
        WorkspaceOp::Status => if str_eq(m, "VSN_WORKSPACE_READY") {
            Some(s("ready"))
        } else if str_eq(m, "VSN_WORKSPACE_MISSING") {
            Some(s("missing"))
        } else {
            None
        },
        WorkspaceOp::RemoveEmpty => if str_eq(m, "VSN_WORKSPACE_REMOVED") {
            Some(s("removed"))
        } else if str_eq(m, "VSN_WORKSPACE_MISSING") {
            Some(s("missing"))
        } else if str_eq(m, "VSN_WORKSPACE_NOT_EMPTY") {
            Some(s("not_empty"))
        } else {
            None
        },
    };
    match state {
        None => match op {
            WorkspaceOp::Prepare => Err(
                cloud_err("SSH workspace prepare returned unexpected marker"),
            ),
            WorkspaceOp::Status => Err(cloud_err("SSH workspace status returned unexpected marker")),
            WorkspaceOp::RemoveEmpty => Err(
                cloud_err("SSH workspace remove returned unexpected marker"),
            ),
        },
        Some(state) => Ok(
            ExistingSshWorkspaceResult {
                workspace_name: request.workspace_name.clone(),
                remote_path: script.remote_path,
                state,
                marker,
            },
        ),
    }
}

} // verus!
