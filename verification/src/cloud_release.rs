//! Releases of a workspace on an SSH host: upload, activation, status,
//! rollback and health checks. The active and previous releases are kept in
//! two pointer files, `CURRENT` and `PREVIOUS`, which only ever hold release ids.
use crate::cloud::{cloud_err, cloud_invalid, CloudError};
use crate::cloud_ssh::{
    is_release_id, is_workspace_name, marker_of, ssh_marker, validate_release_id,
    validate_sha256, validate_workspace_name, workspace_path, ExistingSshTarget,
    SshReleaseHealthRequest, SshReleaseHealthResult, SshReleasePointerRequest, SshReleaseStatus,
    SshReleaseUploadRequest, is_health_path, validate_health_path,
};
use crate::text::{
    all_in_class, blen, bytes_in_class, contains, dec_chars, eq_ignore_ascii_case,
    eq_ignore_case, has_prefix, has_substring, is_token, lines, lines_of, parse_u128, starts_with,
    str_eq, strip_prefix, strip_prefix_of, u128_text, u64_text_of, utf8, ByteClass,
};
use vstd::prelude::*;
use vstd::string::StringExecFns;

verus! {

fn s(x: &str) -> (r: String)
    ensures
        r@ == x@,
{
    x.to_owned()
}

/// A release script, built piece by piece.
struct Script {
    text: String,
}

impl Script {
    fn push(&mut self, piece: &str)
        ensures
            final(self).text@ == old(self).text@ + piece@,
    {
        self.text.append(piece);
    }
}

/// The script that makes `release` the active release: the previous active
/// release becomes `PREVIOUS`; pointers are replaced by rename.
pub open spec fn activate_script(root: Seq<char>, release: Seq<char>) -> Seq<char> {
    let artifact = root + "/releases/"@ + release + "/artifact.bundle"@;
    let next = root + "/CURRENT.next"@;
    let current = root + "/CURRENT"@;
    let previous = root + "/PREVIOUS"@;
    "if test ! -f \""@ + artifact + "\"; then printf 'VSN_RELEASE_MISSING'; else umask 077; if test -f \""@
        + current + "\"; then old=$(cat -- \""@ + current
        + "\"); case \"$old\" in (*[!A-Za-z0-9_-]*|'') printf 'VSN_RELEASE_POINTER_INVALID'; exit 0;; esac; printf '%s' \"$old\" > \""@
        + previous + ".next\" && mv -f -- \""@ + previous + ".next\" \""@ + previous
        + "\"; fi; printf '%s' '"@ + release + "' > \""@ + next + "\" && mv -f -- \""@ + next
        + "\" \""@ + current + "\" && chmod 600 -- \""@ + current + "\" \""@ + previous
        + "\" 2>/dev/null || chmod 600 -- \""@ + current + "\"; printf 'VSN_RELEASE_ACTIVE'; fi"@
}

/// The script that prints both pointers, each as `TAG:value`, `TAG:NONE` or
/// `TAG_INVALID`.
pub open spec fn status_script(root: Seq<char>) -> Seq<char> {
    "read_ptr() { p=\"$1\"; tag=\"$2\"; if test -f \"$p\"; then value=$(cat -- \"$p\"); case \"$value\" in (*[!A-Za-z0-9_-]*|'') printf '%s_INVALID\\n' \"$tag\";; (*) printf '%s:%s\\n' \"$tag\" \"$value\";; esac; else printf '%s:NONE\\n' \"$tag\"; fi; }; read_ptr \""@
        + root + "/CURRENT"@ + "\" CURRENT; read_ptr \""@ + root + "/PREVIOUS"@ + "\" PREVIOUS"@
}

/// The script that swaps back to the previous release, if its artifact is there.
pub open spec fn rollback_script(root: Seq<char>) -> Seq<char> {
    let current = root + "/CURRENT"@;
    let previous = root + "/PREVIOUS"@;
    "if test ! -f \""@ + previous + "\"; then printf 'VSN_ROLLBACK_NONE'; else prev=$(cat -- \""@
        + previous
        + "\"); case \"$prev\" in (*[!A-Za-z0-9_-]*|'') printf 'VSN_ROLLBACK_POINTER_INVALID'; exit 0;; esac; if test ! -f \""@
        + root
        + "/releases/$prev/artifact.bundle\"; then printf 'VSN_ROLLBACK_ARTIFACT_MISSING'; exit 0; fi; old=''; if test -f \""@
        + current + "\"; then old=$(cat -- \""@ + current
        + "\"); case \"$old\" in (*[!A-Za-z0-9_-]*|'') printf 'VSN_ROLLBACK_POINTER_INVALID'; exit 0;; esac; fi; umask 077; printf '%s' \"$prev\" > \""@
        + current + ".next\" && mv -f -- \""@ + current + ".next\" \""@ + current
        + "\"; if test -n \"$old\"; then printf '%s' \"$old\" > \""@ + previous
        + ".next\" && mv -f -- \""@ + previous + ".next\" \""@ + previous
        + "\"; else rm -f -- \""@ + previous + "\"; fi; chmod 600 -- \""@ + current + "\" \""@
        + previous + "\" 2>/dev/null || chmod 600 -- \""@ + current
        + "\"; printf 'VSN_ROLLBACK_OK'; fi"@
}

/// The script that asks the host's own HTTP endpoint for its status code.
pub open spec fn health_script(port: u16, path: Seq<char>) -> Seq<char> {
    "if ! command -v curl >/dev/null 2>&1; then printf 'VSN_HEALTH:CURL_MISSING'; else code=$(curl --silent --show-error --output /dev/null --connect-timeout 3 --max-time 8 --write-out '%{http_code}' 'http://127.0.0.1:"@
        + dec_chars(port as nat) + path + "' 2>/dev/null || printf '000'); printf 'VSN_HEALTH:%s' \"$code\"; fi"@
}

/// The activation script for a checked request.
pub fn ssh_release_activate(request: &SshReleasePointerRequest) -> (r: Result<String, CloudError>)
    ensures
        r is Ok <==> is_workspace_name(request.workspace_name@) && is_release_id(
            request.release_id@,
        ),
        !is_workspace_name(request.workspace_name@) ==> cloud_invalid(
            r,
            "SSH workspace name must be a safe identifier"@,
        ),
        is_workspace_name(request.workspace_name@) && !is_release_id(request.release_id@)
            ==> cloud_invalid(r, "release_id must be a safe identifier"@),
        r matches Ok(c) ==> c@ == activate_script(
            workspace_path(request.workspace_name@),
            request.release_id@,
        ),
{
    if let Err(e) = validate_workspace_name(request.workspace_name.as_str()) {
        return Err(e);
    }
    if let Err(e) = validate_release_id(request.release_id.as_str()) {
        return Err(e);
    }
    let root = crate::cloud_ssh::remote_workspace_path(request.workspace_name.as_str());
    let rid = request.release_id.as_str();
    let mut artifact = root.clone();
    artifact.append("/releases/");
    artifact.append(rid);
    artifact.append("/artifact.bundle");
    let mut next = root.clone();
    next.append("/CURRENT.next");
    let mut current = root.clone();
    current.append("/CURRENT");
    let mut previous = root.clone();
    previous.append("/PREVIOUS");
    let mut c = Script { text: s("if test ! -f \"") };
    c.push(artifact.as_str());
    c.push("\"; then printf 'VSN_RELEASE_MISSING'; else umask 077; if test -f \"");
    c.push(current.as_str());
    c.push("\"; then old=$(cat -- \"");
    c.push(current.as_str());
    c.push(
        "\"); case \"$old\" in (*[!A-Za-z0-9_-]*|'') printf 'VSN_RELEASE_POINTER_INVALID'; exit 0;; esac; printf '%s' \"$old\" > \"",
    );
    c.push(previous.as_str());
    c.push(".next\" && mv -f -- \"");
    c.push(previous.as_str());
    c.push(".next\" \"");
    c.push(previous.as_str());
    c.push("\"; fi; printf '%s' '");
    c.push(rid);
    c.push("' > \"");
    c.push(next.as_str());
    c.push("\" && mv -f -- \"");
    c.push(next.as_str());
    c.push("\" \"");
    c.push(current.as_str());
    c.push("\" && chmod 600 -- \"");
    c.push(current.as_str());
    c.push("\" \"");
    c.push(previous.as_str());
    c.push("\" 2>/dev/null || chmod 600 -- \"");
    c.push(current.as_str());
    c.push("\"; printf 'VSN_RELEASE_ACTIVE'; fi");
    Ok(c.text)
}

/// Reads the activation's marker.
pub fn ssh_release_activate_result(stdout: &[u8]) -> (r: Result<(), CloudError>)
    ensures
        r is Ok <==> marker_of(stdout@) == "VSN_RELEASE_ACTIVE"@,
        r is Err ==> cloud_invalid(
            r,
            "requested release does not exist or could not be activated"@,
        ),
{
    let marker = ssh_marker(stdout);
    if !str_eq(marker.as_str(), "VSN_RELEASE_ACTIVE") {
        return Err(cloud_err("requested release does not exist or could not be activated"));
    }
    Ok(())
}

/// The status script for a checked workspace.
pub fn ssh_release_status(target: &ExistingSshTarget, workspace_name: &str) -> (r: Result<
    String,
    CloudError,
>)
    ensures
        r is Ok <==> is_workspace_name(workspace_name@),
        r is Err ==> cloud_invalid(r, "SSH workspace name must be a safe identifier"@),
        r matches Ok(c) ==> c@ == status_script(workspace_path(workspace_name@)),
{
    if let Err(e) = validate_workspace_name(workspace_name) {
        return Err(e);
    }
    let root = crate::cloud_ssh::remote_workspace_path(workspace_name);
    let mut c = Script {
        text: s(
            "read_ptr() { p=\"$1\"; tag=\"$2\"; if test -f \"$p\"; then value=$(cat -- \"$p\"); case \"$value\" in (*[!A-Za-z0-9_-]*|'') printf '%s_INVALID\\n' \"$tag\";; (*) printf '%s:%s\\n' \"$tag\" \"$value\";; esac; else printf '%s:NONE\\n' \"$tag\"; fi; }; read_ptr \"",
        ),
    };
    c.push(root.as_str());
    c.push("/CURRENT");
    c.push("\" CURRENT; read_ptr \"");
    c.push(root.as_str());
    c.push("/PREVIOUS");
    c.push("\" PREVIOUS");
    Ok(c.text)
}

/// Reading the pointer lines from line `i` on, with the pointers read so far.
pub open spec fn pointers_from(
    ls: Seq<Seq<char>>,
    i: int,
    active: Option<Seq<char>>,
    previous: Option<Seq<char>>,
) -> Result<(Option<Seq<char>>, Option<Seq<char>>), Seq<char>>
    decreases ls.len() - i,
{
    if i < 0 || i >= ls.len() {
        Ok((active, previous))
    } else {
        let line = ls[i];
        if line == "CURRENT_INVALID"@ || line == "PREVIOUS_INVALID"@ {
            Err("remote release pointer is invalid"@)
        } else {
            let a = match strip_prefix(line, "CURRENT:"@) {
                Some(v) => if v == "NONE"@ {
                    Ok(active)
                } else if is_release_id(v) {
                    Ok(Some(v))
                } else {
                    Err("release_id must be a safe identifier"@)
                },
                None => Ok(active),
            };
            match a {
                Err(m) => Err(m),
                Ok(a) => {
                    let p = match strip_prefix(line, "PREVIOUS:"@) {
                        Some(v) => if v == "NONE"@ {
                            Ok(previous)
                        } else if is_release_id(v) {
                            Ok(Some(v))
                        } else {
                            Err("release_id must be a safe identifier"@)
                        },
                        None => Ok(previous),
                    };
                    match p {
                        Err(m) => Err(m),
                        Ok(p) => pointers_from(ls, i + 1, a, p),
                    }
                },
            }
        }
    }
}

/// The pointers a status marker reports.
pub open spec fn release_pointers(marker: Seq<char>) -> Result<
    (Option<Seq<char>>, Option<Seq<char>>),
    Seq<char>,
> {
    pointers_from(lines(marker), 0, None, None)
}

fn opt_view(o: &Option<String>) -> (r: Option<String>)
    ensures
        r == *o,
{
    match o {
        Some(x) => Some(x.clone()),
        None => None,
    }
}

pub open spec fn views(o: Option<String>) -> Option<Seq<char>> {
    match o {
        Some(x) => Some(x@),
        None => None,
    }
}

/// Reads the pointers the status script printed.
pub fn ssh_release_status_result(workspace_name: &str, stdout: &[u8]) -> (r: Result<
    SshReleaseStatus,
    CloudError,
>)
    ensures
        match release_pointers(marker_of(stdout@)) {
            Err(m) => cloud_invalid(r, m),
            Ok((a, p)) => r matches Ok(st) && st.workspace_name@ == workspace_name@ && views(
                st.active_release,
            ) == a && views(st.previous_release) == p,
        },
{
    let marker = ssh_marker(stdout);
    let ls = lines_of(marker.as_str());
    let ghost lv = ls@.map_values(|x: String| x@);
    let mut active: Option<String> = None;
    let mut previous: Option<String> = None;
    let mut i: usize = 0;
    while i < ls.len()
        invariant
            lv == ls@.map_values(|x: String| x@),
            lv =~= lines(marker@),
            marker@ == marker_of(stdout@),
            0 <= i <= ls@.len(),
            release_pointers(marker@) == pointers_from(lv, i as int, views(active), views(previous)),
        decreases ls@.len() - i,
    {
        let line = ls[i].as_str();
        assert(lv[i as int] == line@);
        if str_eq(line, "CURRENT_INVALID") || str_eq(line, "PREVIOUS_INVALID") {
            return Err(cloud_err("remote release pointer is invalid"));
        }
        if let Some(value) = strip_prefix_of(line, "CURRENT:") {
            if !str_eq(value.as_str(), "NONE") {
                if let Err(e) = validate_release_id(value.as_str()) {
                    return Err(e);
                }
                active = Some(value);
            }
        }
        if let Some(value) = strip_prefix_of(line, "PREVIOUS:") {
            if !str_eq(value.as_str(), "NONE") {
                if let Err(e) = validate_release_id(value.as_str()) {
                    return Err(e);
                }
                previous = Some(value);
            }
        }
        i += 1;
    }
    Ok(SshReleaseStatus { workspace_name: s(workspace_name), active_release: active, previous_release: previous })
}

/// The rollback script for a checked workspace.
pub fn ssh_release_rollback(target: &ExistingSshTarget, workspace_name: &str) -> (r: Result<
    String,
    CloudError,
>)
    ensures
        r is Ok <==> is_workspace_name(workspace_name@),
        r is Err ==> cloud_invalid(r, "SSH workspace name must be a safe identifier"@),
        r matches Ok(c) ==> c@ == rollback_script(workspace_path(workspace_name@)),
{
    if let Err(e) = validate_workspace_name(workspace_name) {
        return Err(e);
    }
    let root = crate::cloud_ssh::remote_workspace_path(workspace_name);
    let mut current = root.clone();
    current.append("/CURRENT");
    let mut previous = root.clone();
    previous.append("/PREVIOUS");
    let mut c = Script { text: s("if test ! -f \"") };
    c.push(previous.as_str());
    c.push("\"; then printf 'VSN_ROLLBACK_NONE'; else prev=$(cat -- \"");
    c.push(previous.as_str());
    c.push(
        "\"); case \"$prev\" in (*[!A-Za-z0-9_-]*|'') printf 'VSN_ROLLBACK_POINTER_INVALID'; exit 0;; esac; if test ! -f \"",
    );
    c.push(root.as_str());
    c.push(
        "/releases/$prev/artifact.bundle\"; then printf 'VSN_ROLLBACK_ARTIFACT_MISSING'; exit 0; fi; old=''; if test -f \"",
    );
    c.push(current.as_str());
    c.push("\"; then old=$(cat -- \"");
    c.push(current.as_str());
    c.push(
        "\"); case \"$old\" in (*[!A-Za-z0-9_-]*|'') printf 'VSN_ROLLBACK_POINTER_INVALID'; exit 0;; esac; fi; umask 077; printf '%s' \"$prev\" > \"",
    );
    c.push(current.as_str());
    c.push(".next\" && mv -f -- \"");
    c.push(current.as_str());
    c.push(".next\" \"");
    c.push(current.as_str());
    c.push("\"; if test -n \"$old\"; then printf '%s' \"$old\" > \"");
    c.push(previous.as_str());
    c.push(".next\" && mv -f -- \"");
    c.push(previous.as_str());
    c.push(".next\" \"");
    c.push(previous.as_str());
    c.push("\"; else rm -f -- \"");
    c.push(previous.as_str());
    c.push("\"; fi; chmod 600 -- \"");
    c.push(current.as_str());
    c.push("\" \"");
    c.push(previous.as_str());
    c.push("\" 2>/dev/null || chmod 600 -- \"");
    c.push(current.as_str());
    c.push("\"; printf 'VSN_ROLLBACK_OK'; fi");
    Ok(c.text)
}

/// Reads the rollback's marker; anything but `VSN_ROLLBACK_OK` is reported.
pub fn ssh_release_rollback_result(stdout: &[u8]) -> (r: Result<(), CloudError>)
    ensures
        r is Ok <==> marker_of(stdout@) == "VSN_ROLLBACK_OK"@,
        r is Err ==> cloud_invalid(r, "rollback rejected: "@ + marker_of(stdout@)),
{
    let marker = ssh_marker(stdout);
    if !str_eq(marker.as_str(), "VSN_ROLLBACK_OK") {
        let mut m = s("rollback rejected: ");
        m.append(marker.as_str());
        return Err(CloudError::Invalid(m));
    }
    Ok(())
}

/// The checks a health check makes before touching the host.
pub open spec fn health_ok(r: SshReleaseHealthRequest) -> bool {
    &&& is_workspace_name(r.workspace_name@)
    &&& is_health_path(r.path@)
    &&& r.port != 0
    &&& 100 <= r.expected_status_min <= r.expected_status_max <= 599
}

/// The health-check script for a checked request.
pub fn ssh_release_healthcheck(request: &SshReleaseHealthRequest) -> (r: Result<
    String,
    CloudError,
>)
    ensures
        r is Ok <==> health_ok(*request),
        !is_workspace_name(request.workspace_name@) ==> cloud_invalid(
            r,
            "SSH workspace name must be a safe identifier"@,
        ),
        is_workspace_name(request.workspace_name@) && !is_health_path(request.path@) ==> cloud_invalid(
            r,
            "health path must be a simple absolute HTTP path without query or traversal"@,
        ),
        is_workspace_name(request.workspace_name@) && is_health_path(request.path@)
            && request.port == 0 ==> cloud_invalid(r, "health-check port must be non-zero"@),
        is_workspace_name(request.workspace_name@) && is_health_path(request.path@)
            && request.port != 0 && !(100 <= request.expected_status_min
            <= request.expected_status_max <= 599) ==> cloud_invalid(
            r,
            "health-check status range must be within 100..599"@,
        ),
        r matches Ok(c) ==> c@ == health_script(request.port, request.path@),
{
    if let Err(e) = validate_workspace_name(request.workspace_name.as_str()) {
        return Err(e);
    }
    if let Err(e) = validate_health_path(request.path.as_str()) {
        return Err(e);
    }
    if request.port == 0 {
        return Err(cloud_err("health-check port must be non-zero"));
    }
    if request.expected_status_min < 100 || request.expected_status_max > 599
        || request.expected_status_min > request.expected_status_max {
        return Err(cloud_err("health-check status range must be within 100..599"));
    }
    let mut c = Script {
        text: s(
            "if ! command -v curl >/dev/null 2>&1; then printf 'VSN_HEALTH:CURL_MISSING'; else code=$(curl --silent --show-error --output /dev/null --connect-timeout 3 --max-time 8 --write-out '%{http_code}' 'http://127.0.0.1:",
        ),
    };
    let port = u64_text_of(request.port as u64);
    c.push(port.as_str());
    c.push(request.path.as_str());
    c.push("' 2>/dev/null || printf '000'); printf 'VSN_HEALTH:%s' \"$code\"; fi");
    Ok(c.text)
}

/// What a health marker says.
#[derive(Debug, Clone, PartialEq, Eq)]
pub struct HealthDecision {
    /// The HTTP status the host saw, when it is one (100..599).
    pub status_code: Option<u16>,
    /// The status lies in the expected range.
    pub healthy: bool,
    /// The release must be rolled back now.
    pub rollback: bool,
    /// `curl` is missing on the host.
    pub curl_missing: bool,
}

/// The status code a health marker's raw value gives: a decimal `u16` in 100..599.
pub open spec fn health_code(raw: Seq<char>) -> Option<u16> {
    match u128_text(raw) {
        Some(v) => if 100 <= v <= 599 {
            Some(v as u16)
        } else {
            None
        },
        None => None,
    }
}

/// Decides on the health marker: the release is healthy when the code lies
/// in the expected range, and an unhealthy release is rolled back when the
/// request asks for it and there is a previous release to go back to.
pub fn ssh_release_health_decide(
    request: &SshReleaseHealthRequest,
    has_previous: bool,
    stdout: &[u8],
) -> (r: Result<HealthDecision, CloudError>)
    ensures
        match strip_prefix(marker_of(stdout@), "VSN_HEALTH:"@) {
            None => cloud_invalid(r, "health check returned unexpected marker"@),
            Some(raw) => r matches Ok(d) && {
                &&& d.status_code == health_code(raw)
                &&& d.healthy == (match health_code(raw) {
                    Some(c) => request.expected_status_min <= c <= request.expected_status_max,
                    None => false,
                })
                &&& d.rollback == (!d.healthy && request.rollback_on_failure && has_previous)
                &&& d.curl_missing == (raw == "CURL_MISSING"@)
            },
        },
{
    let marker = ssh_marker(stdout);
    let raw = match strip_prefix_of(marker.as_str(), "VSN_HEALTH:") {
        Some(r) => r,
        None => return Err(cloud_err("health check returned unexpected marker")),
    };
    let status_code: Option<u16> = match parse_u128(raw.as_str()) {
        Some(v) => if 100 <= v && v <= 599 {
            Some(v as u16)
        } else {
            None
        },
        None => None,
    };
    let healthy = match status_code {
        Some(c) => c >= request.expected_status_min && c <= request.expected_status_max,
        None => false,
    };
    Ok(
        HealthDecision {
            status_code,
            healthy,
            rollback: !healthy && request.rollback_on_failure && has_previous,
            curl_missing: str_eq(raw.as_str(), "CURL_MISSING"),
        },
    )
}

/// The health report: the releases active before and after, and whether a
/// rollback happened (the status after is the one the rollback reported,
/// given exactly when the decision called for one).
pub fn ssh_release_health_report(
    request: &SshReleaseHealthRequest,
    decision: &HealthDecision,
    before: &SshReleaseStatus,
    after_rollback: Option<SshReleaseStatus>,
) -> (r: SshReleaseHealthResult)
    requires
        after_rollback is Some <==> decision.rollback,
    ensures
        r.workspace_name == request.workspace_name,
        r.rolled_back == decision.rollback,
        r.healthy == decision.healthy,
        r.status_code == decision.status_code,
        r.active_before == before.active_release,
        r.rolled_back == after_rollback is Some,
        r.active_after == (match after_rollback {
            Some(a) => a.active_release,
            None => before.active_release,
        }),
        r.detail@ == (if decision.curl_missing {
            "remote curl executable is required for deterministic health checks"@
        } else if decision.healthy {
            "health check passed"@
        } else {
            "health check failed"@
        }),
{
    let rolled_back = after_rollback.is_some();
    let active_after = match &after_rollback {
        Some(a) => opt_view(&a.active_release),
        None => opt_view(&before.active_release),
    };
    SshReleaseHealthResult {
        workspace_name: request.workspace_name.clone(),
        healthy: decision.healthy,
        status_code: decision.status_code,
        active_before: opt_view(&before.active_release),
        active_after,
        rolled_back,
        detail: if decision.curl_missing {
            s("remote curl executable is required for deterministic health checks")
        } else if decision.healthy {
            s("health check passed")
        } else {
            s("health check failed")
        },
    }
}

/// What the application found of the artifact to upload.
#[derive(Debug, Clone, Copy, PartialEq, Eq, Structural)]
pub struct ArtifactFacts {
    /// An existing absolute file.
    pub is_file: bool,
    /// Its size in bytes.
    pub len: u64,
}

/// The remote paths and scripts of an upload.
#[derive(Debug, Clone, PartialEq, Eq)]
pub struct ReleaseUploadPlan {
    /// `.vsn/workspaces/<ws>/releases/<id>`, relative to the remote home.
    pub relative_dir: String,
    /// The script that creates the release directory.
    pub prepare_command: String,
    /// Where the artifact is copied to, relative to the remote home.
    pub remote_part: String,
    /// The script that moves the copied artifact into place.
    pub finalize_command: String,
    /// The artifact's final remote path.
    pub remote_artifact: String,
}

/// The largest artifact an upload accepts, 8 GiB.
pub const MAX_ARTIFACT_BYTES: u64 = 8589934592;

pub open spec fn release_dir(ws: Seq<char>, rid: Seq<char>) -> Seq<char> {
    ".vsn/workspaces/"@ + ws + "/releases/"@ + rid
}

/// Checks an upload and plans its remote steps.
pub fn ssh_release_upload(request: &SshReleaseUploadRequest, artifact: ArtifactFacts) -> (r: Result<
    ReleaseUploadPlan,
    CloudError,
>)
    ensures
        r is Ok <==> is_workspace_name(request.workspace_name@) && is_release_id(
            request.release_id@,
        ) && artifact.is_file && 1 <= artifact.len <= MAX_ARTIFACT_BYTES,
        !is_workspace_name(request.workspace_name@) ==> cloud_invalid(
            r,
            "SSH workspace name must be a safe identifier"@,
        ),
        is_workspace_name(request.workspace_name@) && !is_release_id(request.release_id@)
            ==> cloud_invalid(r, "release_id must be a safe identifier"@),
        is_workspace_name(request.workspace_name@) && is_release_id(request.release_id@)
            && !artifact.is_file ==> cloud_invalid(
            r,
            "release artifact must be an existing absolute file"@,
        ),
        is_workspace_name(request.workspace_name@) && is_release_id(request.release_id@)
            && artifact.is_file && !(1 <= artifact.len <= MAX_ARTIFACT_BYTES) ==> cloud_invalid(
            r,
            "release artifact must be between 1 byte and 8 GiB"@,
        ),
        r matches Ok(p) ==> {
            let rel = release_dir(request.workspace_name@, request.release_id@);
            &&& p.relative_dir@ == rel
            &&& p.prepare_command@ == "umask 077; mkdir -p -- \""@ + ("$HOME/"@ + rel)
                + "\" && chmod 700 -- \""@ + ("$HOME/"@ + rel)
                + "\" && printf 'VSN_RELEASE_DIR_READY'"@
            &&& p.remote_part@ == rel + "/artifact.bundle.part"@
            &&& p.remote_artifact@ == "$HOME/"@ + rel + "/artifact.bundle"@
            &&& p.finalize_command@ == "if test -f \""@ + ("$HOME/"@ + (rel
                + "/artifact.bundle.part"@)) + "\"; then mv -f -- \""@ + ("$HOME/"@ + (rel
                + "/artifact.bundle.part"@)) + "\" \""@ + ("$HOME/"@ + rel + "/artifact.bundle"@)
                + "\" && chmod 600 -- \""@ + ("$HOME/"@ + rel + "/artifact.bundle"@)
                + "\" && printf 'VSN_RELEASE_UPLOADED'; else printf 'VSN_RELEASE_PART_MISSING'; fi"@
        },
{
    if let Err(e) = validate_workspace_name(request.workspace_name.as_str()) {
        return Err(e);
    }
    if let Err(e) = validate_release_id(request.release_id.as_str()) {
        return Err(e);
    }
    if !artifact.is_file {
        return Err(cloud_err("release artifact must be an existing absolute file"));
    }
    if artifact.len == 0 || artifact.len > MAX_ARTIFACT_BYTES {
        return Err(cloud_err("release artifact must be between 1 byte and 8 GiB"));
    }
    let mut rel = s(".vsn/workspaces/");
    rel.append(request.workspace_name.as_str());
    rel.append("/releases/");
    rel.append(request.release_id.as_str());
    let mut abs_dir = s("$HOME/");
    abs_dir.append(rel.as_str());
    let mut prepare = Script { text: s("umask 077; mkdir -p -- \"") };
    prepare.push(abs_dir.as_str());
    prepare.push("\" && chmod 700 -- \"");
    prepare.push(abs_dir.as_str());
    prepare.push("\" && printf 'VSN_RELEASE_DIR_READY'");
    let mut part = rel.clone();
    part.append("/artifact.bundle.part");
    let mut abs_part = s("$HOME/");
    abs_part.append(part.as_str());
    let mut abs_final = s("$HOME/");
    abs_final.append(rel.as_str());
    abs_final.append("/artifact.bundle");
    let mut fin = Script { text: s("if test -f \"") };
    fin.push(abs_part.as_str());
    fin.push("\"; then mv -f -- \"");
    fin.push(abs_part.as_str());
    fin.push("\" \"");
    fin.push(abs_final.as_str());
    fin.push("\" && chmod 600 -- \"");
    fin.push(abs_final.as_str());
    fin.push("\" && printf 'VSN_RELEASE_UPLOADED'; else printf 'VSN_RELEASE_PART_MISSING'; fi");
    Ok(
        ReleaseUploadPlan {
            relative_dir: rel,
            prepare_command: prepare.text,
            remote_part: part,
            finalize_command: fin.text,
            remote_artifact: abs_final,
        },
    )
}

/// Checks the artifact's digest against the expected one, if any (compared
/// ignoring ASCII case).
pub fn ssh_release_check_digest(request: &SshReleaseUploadRequest, digest: &str) -> (r: Result<
    (),
    CloudError,
>)
    ensures
        request.expected_sha256 is None ==> r is Ok,
        request.expected_sha256 matches Some(e) ==> (r is Ok <==> is_token(
            e@,
            64,
            64,
            ByteClass::Hex,
        ) && eq_ignore_case(digest@, e@)),
        request.expected_sha256 matches Some(e) && !is_token(e@, 64, 64, ByteClass::Hex)
            ==> cloud_invalid(r, "expected_sha256 must contain exactly 64 hexadecimal characters"@),
        request.expected_sha256 matches Some(e) && is_token(e@, 64, 64, ByteClass::Hex)
            && !eq_ignore_case(digest@, e@) ==> cloud_invalid(
            r,
            "release artifact SHA-256 mismatch"@,
        ),
{
    if let Some(expected) = &request.expected_sha256 {
        if let Err(e) = validate_sha256(expected.as_str()) {
            return Err(e);
        }
        if !eq_ignore_ascii_case(digest, expected.as_str()) {
            return Err(cloud_err("release artifact SHA-256 mismatch"));
        }
    }
    Ok(())
}

/// A health check rolls back only an unhealthy release whose request asked
/// for it and which has a previous release to go back to.
pub proof fn lemma_rollback_only_when_asked(
    request: SshReleaseHealthRequest,
    decision: HealthDecision,
    has_previous: bool,
    report: SshReleaseHealthResult,
)
    requires
        decision.rollback == (!decision.healthy && request.rollback_on_failure && has_previous),
        report.rolled_back == decision.rollback,
        report.healthy == decision.healthy,
    ensures
        report.rolled_back ==> !report.healthy && request.rollback_on_failure && has_previous,
{
}

/// The digest of a release artifact, from the hasher that was fed its bytes:
/// the lower-case hexadecimal SHA-256 of those bytes, checked against the
/// expected one, if any.
pub fn ssh_release_artifact_digest(request: &SshReleaseUploadRequest, artifact: crate::digest::Sha256Stream) -> (r:
    Result<String, CloudError>)
    ensures
        request.expected_sha256 is None ==> (r matches Ok(d) && d@ == crate::digest::sha256_hex_of(
            artifact.fed(),
        )),
        request.expected_sha256 matches Some(e) ==> {
            &&& r is Ok <==> is_token(e@, 64, 64, ByteClass::Hex) && eq_ignore_case(
                crate::digest::sha256_hex_of(artifact.fed()),
                e@,
            )
            &&& !is_token(e@, 64, 64, ByteClass::Hex) ==> cloud_invalid(
                r,
                "expected_sha256 must contain exactly 64 hexadecimal characters"@,
            )
            &&& is_token(e@, 64, 64, ByteClass::Hex) && !eq_ignore_case(
                crate::digest::sha256_hex_of(artifact.fed()),
                e@,
            ) ==> cloud_invalid(r, "release artifact SHA-256 mismatch"@)
            &&& r matches Ok(d) ==> d@ == crate::digest::sha256_hex_of(artifact.fed())
        },
{
    let digest = artifact.finish_hex();
    match ssh_release_check_digest(request, digest.as_str()) {
        Ok(()) => Ok(digest),
        Err(e) => Err(e),
    }
}

/// Reads an upload step's marker against the one expected.
pub fn ssh_release_upload_marker(stdout: &[u8], expected: &str, failure: &str) -> (r: Result<
    (),
    CloudError,
>)
    ensures
        r is Ok <==> marker_of(stdout@) == expected@,
        r is Err ==> cloud_invalid(r, failure@),
{
    let marker = ssh_marker(stdout);
    if !str_eq(marker.as_str(), expected) {
        return Err(cloud_err(failure));
    }
    Ok(())
}

/// A path for `scp` relative to the remote home: 1..512 bytes of letters,
/// digits, `.`, `/`, `-`, `_`, not absolute and without `..`.
pub open spec fn is_scp_path(s: Seq<char>) -> bool {
    &&& 1 <= blen(s) <= 512
    &&& !starts_with(s, "/"@)
    &&& !contains(s, ".."@)
    &&& all_in_class(utf8(s), ByteClass::Path)
}

/// The arguments of `scp` that copy `local` to `remote_relative` on the target.
pub fn scp_upload_args(target: &ExistingSshTarget, local: &str, remote_relative: &str) -> (r:
    Result<Vec<String>, CloudError>)
    ensures
        r is Ok <==> is_scp_path(remote_relative@),
        r is Err ==> cloud_invalid(r, "remote SCP path is invalid"@),
        r matches Ok(a) ==> a@.map_values(|x: String| x@) =~= seq![
            "-o"@,
            "BatchMode=yes"@,
            "-o"@,
            "IdentitiesOnly=yes"@,
            "-o"@,
            "StrictHostKeyChecking=yes"@,
            "-o"@,
            "ConnectTimeout=8"@,
            "-o"@,
            "UserKnownHostsFile="@ + target.known_hosts_file@,
            "-i"@,
            target.identity_file@,
            "-P"@,
            dec_chars(target.port as nat),
            local@,
            target.user@ + "@"@ + target.host@ + ":"@ + remote_relative@,
        ],
{
    let n = remote_relative.as_bytes().len();
    if n == 0 || n > 512 || has_prefix(remote_relative, "/") || has_substring(remote_relative, "..")
        || !bytes_in_class(remote_relative, ByteClass::Path) {
        return Err(cloud_err("remote SCP path is invalid"));
    }
    let mut dest = target.user.clone();
    dest.append("@");
    dest.append(target.host.as_str());
    dest.append(":");
    dest.append(remote_relative);
    let mut known = s("UserKnownHostsFile=");
    known.append(target.known_hosts_file.as_str());
    Ok(
        vec![
            s("-o"),
            s("BatchMode=yes"),
            s("-o"),
            s("IdentitiesOnly=yes"),
            s("-o"),
            s("StrictHostKeyChecking=yes"),
            s("-o"),
            s("ConnectTimeout=8"),
            s("-o"),
            known,
            s("-i"),
            target.identity_file.clone(),
            s("-P"),
            u64_text_of(target.port as u64),
            s(local),
            dest,
        ],
    )
}

} // verus!
