//! Container backends (Docker, Podman): which invocations the library makes,
//! how their inputs are checked, and how their output is read.
use crate::text::{
    any_control, concat, dec_chars, has_control, is_token, lines, lines_of, lossy_utf8, str_eq,
    take_chars, token_ok, trim, trim_text, u64_text_of, utf8_lossy, ByteClass, blen,
};
use crate::cloud_copy::{segments, split_from};
use vstd::prelude::*;
use vstd::string::StringExecFns;

verus! {

#[derive(Debug, Clone, PartialEq, Eq)]
pub enum ContainerError {
    Unsupported(String),
    Command(String),
    Invalid(String),
}

impl ContainerError {
    /// The error as it is reported.
    pub fn message(&self) -> (r: String)
        ensures
            r@ == match self {
                ContainerError::Unsupported(m) => "unsupported container backend: "@ + m@,
                ContainerError::Command(m) => "container command failed: "@ + m@,
                ContainerError::Invalid(m) => "invalid container input: "@ + m@,
            },
    {
        match self {
            ContainerError::Unsupported(m) => concat("unsupported container backend: ", m.as_str()),
            ContainerError::Command(m) => concat("container command failed: ", m.as_str()),
            ContainerError::Invalid(m) => concat("invalid container input: ", m.as_str()),
        }
    }
}

/// Whether `r` failed with `Invalid(msg)`.
pub open spec fn container_invalid<T>(r: Result<T, ContainerError>, msg: Seq<char>) -> bool {
    r matches Err(ContainerError::Invalid(m)) && m@ == msg
}

/// Whether `r` failed because `backend` is not a supported backend.
pub open spec fn backend_unsupported<T>(r: Result<T, ContainerError>, backend: Seq<char>) -> bool {
    r matches Err(ContainerError::Unsupported(m)) && m@ == backend
}

fn invalid(msg: &str) -> (e: ContainerError)
    ensures
        e matches ContainerError::Invalid(m) && m@ == msg@,
{
    ContainerError::Invalid(msg.to_owned())
}

#[derive(Debug, Clone, PartialEq, Eq)]
pub struct ContainerBackend {
    pub id: String,
    pub installed: bool,
    pub version: Option<String>,
    pub daemon_reachable: Option<bool>,
}

#[derive(Debug, Clone, PartialEq, Eq)]
pub struct ContainerInfo {
    pub id: String,
    pub name: String,
    pub image: String,
    pub status: String,
    pub ports: String,
}

#[derive(Debug, Clone, PartialEq, Eq)]
pub struct ContainerActionResult {
    pub backend: String,
    pub target: String,
    pub action: String,
    pub output: String,
}

#[derive(Debug, Clone, PartialEq, Eq)]
pub struct ContainerResource {
    pub id: String,
    pub name: String,
    pub detail: String,
}

#[derive(Debug, Clone, PartialEq, Eq)]
pub struct ContainerBuildRequest {
    pub backend: String,
    pub context: String,
    pub tag: String,
    pub dockerfile: Option<String>,
    pub pull: bool,
    pub no_cache: bool,
}

#[derive(Debug, Clone, PartialEq, Eq)]
pub struct ContainerExecRequest {
    pub backend: String,
    pub target: String,
    pub program: String,
    pub args: Vec<String>,
}

#[derive(Debug, Clone, PartialEq, Eq)]
pub struct ContainerStats {
    pub name: String,
    pub cpu_percent: String,
    pub memory: String,
    pub net_io: String,
    pub block_io: String,
    pub pids: String,
}

#[derive(Debug, Clone, PartialEq, Eq)]
pub struct RegistryPushRequest {
    pub backend: String,
    pub source: String,
    pub target: String,
    pub push: bool,
}

#[derive(Debug, Clone, PartialEq, Eq)]
pub struct RegistryPushResult {
    pub backend: String,
    pub source: String,
    pub target: String,
    pub tagged: bool,
    pub pushed: bool,
    pub output: String,
}

/// One invocation of a backend: its arguments, its time limit and how much
/// output it may produce.
#[derive(Debug, Clone, PartialEq, Eq)]
pub struct ContainerCommand {
    pub program: String,
    pub args: Vec<String>,
    pub timeout_ms: u64,
    pub max_output: usize,
}

/// The text of every argument.
pub open spec fn argv(v: Seq<String>) -> Seq<Seq<char>> {
    v.map_values(|s: String| s@)
}

/// Whether `c` runs `program` with `args` and the given limits.
pub open spec fn runs(
    c: ContainerCommand,
    program: Seq<char>,
    args: Seq<Seq<char>>,
    timeout_ms: u64,
    max_output: usize,
) -> bool {
    c.program@ == program && argv(c.args@) =~= args && c.timeout_ms == timeout_ms
        && c.max_output == max_output
}

fn a(s: &str) -> (r: String)
    ensures
        r@ == s@,
{
    s.to_owned()
}

fn command(program: &str, args: Vec<String>, timeout_ms: u64, max_output: usize) -> (r:
    ContainerCommand)
    ensures
        r.program@ == program@,
        r.args == args,
        r.timeout_ms == timeout_ms,
        r.max_output == max_output,
{
    ContainerCommand { program: a(program), args, timeout_ms, max_output }
}

/// The supported backends.
pub open spec fn is_backend(s: Seq<char>) -> bool {
    s == "docker"@ || s == "podman"@
}

/// Only Docker and Podman are backends.
pub fn validate_backend(value: &str) -> (r: Result<(), ContainerError>)
    ensures
        r is Ok <==> is_backend(value@),
        r is Err ==> (r matches Err(ContainerError::Unsupported(m)) && m@ == value@),
{
    if str_eq(value, "docker") || str_eq(value, "podman") {
        Ok(())
    } else {
        Err(ContainerError::Unsupported(value.to_owned()))
    }
}

/// A backend that could not be probed: not installed, no version, daemon
/// state unknown.
pub fn unavailable_backend(id: &str) -> (r: ContainerBackend)
    ensures
        r.id@ == id@,
        !r.installed,
        r.version is None,
        r.daemon_reachable is None,
{
    ContainerBackend { id: a(id), installed: false, version: None, daemon_reachable: None }
}

/// The version probe of a backend: `<id> --version`, 3 s, 64 KiB of output.
pub fn version_probe(id: &str) -> (r: ContainerCommand)
    ensures
        runs(r, id@, seq!["--version"@], 3000, 65536),
{
    command(id, vec![a("--version")], 3000, 65536)
}

/// The daemon probe of a backend: `<id> info --format {{.ServerVersion}}`,
/// 5 s, 64 KiB of output.
pub fn info_probe(id: &str) -> (r: ContainerCommand)
    ensures
        runs(r, id@, seq!["info"@, "--format"@, "{{.ServerVersion}}"@], 5000, 65536),
{
    command(id, vec![a("info"), a("--format"), a("{{.ServerVersion}}")], 5000, 65536)
}

/// What the probes found: `version_output` is what the version probe printed
/// (`None` when it failed) and `info_ok` whether the daemon probe succeeded.
/// A backend is installed when its trimmed version text is not empty; only
/// then is the daemon's reachability known.
pub fn backend_from_probes(id: &str, version_output: Option<String>, info_ok: bool) -> (r:
    ContainerBackend)
    ensures
        r.id@ == id@,
        match version_output {
            Some(v) if trim(v@).len() > 0 => r.installed && (r.version matches Some(t) && t@ == trim(
                v@,
            )) && r.daemon_reachable == Some(info_ok),
            _ => !r.installed && r.version is None && r.daemon_reachable is None,
        },
{
    let version = match version_output {
        Some(v) => {
            let t = trim_text(v.as_str());
            if t.as_str().unicode_len() > 0 {
                Some(t)
            } else {
                None
            }
        },
        None => None,
    };
    let installed = version.is_some();
    let daemon_reachable = if installed {
        Some(info_ok)
    } else {
        None
    };
    ContainerBackend { id: a(id), installed, version, daemon_reachable }
}

/// A container, image or tag reference: 1..128 bytes of letters, digits,
/// `-`, `_`, `.`, `:`, `/`.
pub open spec fn is_target(s: Seq<char>) -> bool {
    is_token(s, 1, 128, ByteClass::ImageRef)
}

pub fn validate_target(value: &str) -> (r: Result<(), ContainerError>)
    ensures
        r is Ok <==> is_target(value@),
        r is Err ==> container_invalid(r, "unsafe container target"@),
{
    if token_ok(value, 1, 128, ByteClass::ImageRef) {
        Ok(())
    } else {
        Err(invalid("unsafe container target"))
    }
}

/// A program to run in a container: 1..512 bytes, no control characters
/// (NUL among them).
pub open spec fn is_exec_program(s: Seq<char>) -> bool {
    1 <= blen(s) <= 512 && !has_control(s)
}

pub fn validate_exec_program(value: &str) -> (r: Result<(), ContainerError>)
    ensures
        r is Ok <==> is_exec_program(value@),
        r is Err ==> container_invalid(r, "unsafe container exec program"@),
{
    let n = value.as_bytes().len();
    if n == 0 || n > 512 || any_control(value) {
        Err(invalid("unsafe container exec program"))
    } else {
        Ok(())
    }
}

/// Lists containers (all of them, or only running ones).
pub fn list_containers(backend: &str, all: bool) -> (r: Result<ContainerCommand, ContainerError>)
    ensures
        r is Ok <==> is_backend(backend@),
        !is_backend(backend@) ==> backend_unsupported(r, backend@),
        r matches Ok(c) ==> runs(
            c,
            backend@,
            (if all {
                seq!["ps"@, "-a"@]
            } else {
                seq!["ps"@]
            }) + seq!["--format"@, "{{.ID}}\t{{.Names}}\t{{.Image}}\t{{.Status}}\t{{.Ports}}"@],
            30000,
            4194304,
        ),
{
    if let Err(e) = validate_backend(backend) {
        return Err(e);
    }
    let mut args = vec![a("ps")];
    if all {
        args.push(a("-a"));
    }
    args.push(a("--format"));
    args.push(a("{{.ID}}\t{{.Names}}\t{{.Image}}\t{{.Status}}\t{{.Ports}}"));
    Ok(command(backend, args, 30000, 4194304))
}

/// The tab-separated fields of a line.
pub open spec fn fields(line: Seq<char>) -> Seq<Seq<char>> {
    tab_split(line)
}

/// `line.split('\t')`: every field, empty ones kept.
pub open spec fn tab_split_from(s: Seq<char>, i: int, cur: Seq<char>, acc: Seq<Seq<char>>) -> Seq<
    Seq<char>,
>
    decreases s.len() - i,
{
    if i < 0 || i >= s.len() {
        acc.push(cur)
    } else if s[i] == '\t' {
        tab_split_from(s, i + 1, Seq::empty(), acc.push(cur))
    } else {
        tab_split_from(s, i + 1, cur.push(s[i]), acc)
    }
}

pub open spec fn tab_split(s: Seq<char>) -> Seq<Seq<char>> {
    tab_split_from(s, 0, Seq::empty(), Seq::empty())
}

/// The tab-separated fields of `line`.
pub fn split_tabs(line: &str) -> (r: Vec<String>)
    ensures
        r@.map_values(|x: String| x@) =~= tab_split(line@),
{
    let v = crate::text::chars_of(line);
    let n = v.len();
    let mut acc: Vec<String> = Vec::new();
    let mut start: usize = 0;
    let mut i: usize = 0;
    assert(line@.subrange(0, 0) =~= Seq::<char>::empty());
    assert(acc@.map_values(|x: String| x@) =~= Seq::<Seq<char>>::empty());
    while i < n
        invariant
            v@ == line@,
            n == v@.len(),
            0 <= start <= i <= n,
            tab_split(line@) == tab_split_from(
                line@,
                i as int,
                line@.subrange(start as int, i as int),
                acc@.map_values(|x: String| x@),
            ),
        decreases n - i,
    {
        let ghost cur = line@.subrange(start as int, i as int);
        let ghost accv = acc@.map_values(|x: String| x@);
        assert(tab_split_from(line@, i as int, cur, accv) == (if line@[i as int] == '\t' {
            tab_split_from(line@, i + 1, Seq::empty(), accv.push(cur))
        } else {
            tab_split_from(line@, i + 1, cur.push(line@[i as int]), accv)
        }));
        if v[i] == '\t' {
            let field = crate::text::string_of_chars(&v, start, i);
            assert(acc@.push(field).map_values(|x: String| x@) =~= accv.push(cur));
            assert(line@.subrange(i + 1, i + 1) =~= Seq::<char>::empty());
            acc.push(field);
            start = i + 1;
        } else {
            assert(line@.subrange(start as int, i + 1) =~= cur.push(line@[i as int]));
        }
        i += 1;
    }
    let field = crate::text::string_of_chars(&v, start, n);
    assert(acc@.push(field).map_values(|x: String| x@) =~= acc@.map_values(|x: String| x@).push(
        line@.subrange(start as int, n as int),
    ));
    acc.push(field);
    acc
}

/// The containers a listing row describes, rows with fewer than five fields skipped.
pub open spec fn container_rows(ls: Seq<Seq<char>>) -> Seq<Seq<Seq<char>>>
    decreases ls.len(),
{
    if ls.len() == 0 {
        Seq::empty()
    } else {
        let rest = container_rows(ls.drop_last());
        if tab_split(ls.last()).len() < 5 {
            rest
        } else {
            rest.push(tab_split(ls.last()))
        }
    }
}

/// The fields of each kept row of `ls`, rows with fewer than `min` fields skipped.
pub open spec fn kept_rows(ls: Seq<Seq<char>>, min: int) -> Seq<Seq<Seq<char>>>
    decreases ls.len(),
{
    if ls.len() == 0 {
        Seq::empty()
    } else {
        let rest = kept_rows(ls.drop_last(), min);
        if tab_split(ls.last()).len() < min {
            rest
        } else {
            rest.push(tab_split(ls.last()))
        }
    }
}

/// Reads a container listing: one container per line of at least five
/// tab-separated fields (id, name, image, status, ports); other lines are skipped.
pub fn parse_container_list(output: &str) -> (r: Vec<ContainerInfo>)
    ensures
        r@.len() == kept_rows(lines(output@), 5).len(),
        forall|k: int|
            0 <= k < r@.len() ==> {
                let f = #[trigger] kept_rows(lines(output@), 5)[k];
                &&& r@[k].id@ == f[0]
                &&& r@[k].name@ == f[1]
                &&& r@[k].image@ == f[2]
                &&& r@[k].status@ == f[3]
                &&& r@[k].ports@ == f[4]
            },
{
    let ls = lines_of(output);
    let ghost lv = ls@.map_values(|x: String| x@);
    let mut out: Vec<ContainerInfo> = Vec::new();
    let mut i: usize = 0;
    while i < ls.len()
        invariant
            lv == ls@.map_values(|x: String| x@),
            lv =~= lines(output@),
            0 <= i <= ls@.len(),
            out@.len() == kept_rows(lv.subrange(0, i as int), 5).len(),
            forall|k: int|
                0 <= k < out@.len() ==> {
                    let f = #[trigger] kept_rows(lv.subrange(0, i as int), 5)[k];
                    &&& out@[k].id@ == f[0]
                    &&& out@[k].name@ == f[1]
                    &&& out@[k].image@ == f[2]
                    &&& out@[k].status@ == f[3]
                    &&& out@[k].ports@ == f[4]
                },
        decreases ls@.len() - i,
    {
        let p = split_tabs(ls[i].as_str());
        let ghost pv = p@.map_values(|x: String| x@);
        assert(lv.subrange(0, i + 1).drop_last() =~= lv.subrange(0, i as int));
        assert(lv.subrange(0, i + 1).last() == ls@[i as int]@);
        if p.len() >= 5 {
            assert(pv[0] == p@[0]@ && pv[1] == p@[1]@ && pv[2] == p@[2]@ && pv[3] == p@[3]@
                && pv[4] == p@[4]@);
            out.push(
                ContainerInfo {
                    id: p[0].clone(),
                    name: p[1].clone(),
                    image: p[2].clone(),
                    status: p[3].clone(),
                    ports: p[4].clone(),
                },
            );
        }
        i += 1;
    }
    assert(lv.subrange(0, ls@.len() as int) =~= lv);
    out
}

/// Lists images, volumes or networks: `kind` with `ls` and the given format.
fn list_resource(backend: &str, kind: &str, format: &str) -> (r: Result<
    ContainerCommand,
    ContainerError,
>)
    ensures
        r is Ok <==> is_backend(backend@),
        !is_backend(backend@) ==> backend_unsupported(r, backend@),
        r matches Ok(c) ==> runs(c, backend@, seq![kind@, "ls"@, "--format"@, format@], 30000, 4194304),
{
    if let Err(e) = validate_backend(backend) {
        return Err(e);
    }
    Ok(command(backend, vec![a(kind), a("ls"), a("--format"), a(format)], 30000, 4194304))
}

/// Lists images.
pub fn list_images(backend: &str) -> (r: Result<ContainerCommand, ContainerError>)
    ensures
        r is Ok <==> is_backend(backend@),
        !is_backend(backend@) ==> backend_unsupported(r, backend@),
        r matches Ok(c) ==> runs(
            c,
            backend@,
            seq!["image"@, "ls"@, "--format"@, "{{.ID}}\t{{.Repository}}:{{.Tag}}\t{{.Size}}"@],
            30000,
            4194304,
        ),
{
    list_resource(backend, "image", "{{.ID}}\t{{.Repository}}:{{.Tag}}\t{{.Size}}")
}

/// Lists volumes.
pub fn list_volumes(backend: &str) -> (r: Result<ContainerCommand, ContainerError>)
    ensures
        r is Ok <==> is_backend(backend@),
        !is_backend(backend@) ==> backend_unsupported(r, backend@),
        r matches Ok(c) ==> runs(
            c,
            backend@,
            seq!["volume"@, "ls"@, "--format"@, "{{.Name}}\t{{.Name}}\t{{.Driver}}"@],
            30000,
            4194304,
        ),
{
    list_resource(backend, "volume", "{{.Name}}\t{{.Name}}\t{{.Driver}}")
}

/// Lists networks.
pub fn list_networks(backend: &str) -> (r: Result<ContainerCommand, ContainerError>)
    ensures
        r is Ok <==> is_backend(backend@),
        !is_backend(backend@) ==> backend_unsupported(r, backend@),
        r matches Ok(c) ==> runs(
            c,
            backend@,
            seq!["network"@, "ls"@, "--format"@, "{{.ID}}\t{{.Name}}\t{{.Driver}}"@],
            30000,
            4194304,
        ),
{
    list_resource(backend, "network", "{{.ID}}\t{{.Name}}\t{{.Driver}}")
}

/// `fields.join(" · ")`.
pub open spec fn join_dot(fields: Seq<Seq<char>>) -> Seq<char>
    decreases fields.len(),
{
    if fields.len() == 0 {
        Seq::empty()
    } else if fields.len() == 1 {
        fields[0]
    } else {
        join_dot(fields.drop_last()) + " · "@ + fields.last()
    }
}

fn join_from(p: &Vec<String>, from: usize) -> (r: String)
    requires
        from <= p@.len(),
    ensures
        r@ == join_dot(p@.map_values(|x: String| x@).subrange(from as int, p@.len() as int)),
{
    let ghost pv = p@.map_values(|x: String| x@);
    let mut out = String::new();
    let mut i = from;
    assert(pv.subrange(from as int, from as int) =~= Seq::<Seq<char>>::empty());
    while i < p.len()
        invariant
            pv == p@.map_values(|x: String| x@),
            from <= i <= p@.len(),
            out@ == join_dot(pv.subrange(from as int, i as int)),
        decreases p@.len() - i,
    {
        assert(pv.subrange(from as int, i + 1).drop_last() =~= pv.subrange(from as int, i as int));
        assert(pv[i as int] == p@[i as int]@);
        if i > from {
            out.append(" · ");
        } else {
            assert(pv.subrange(from as int, i + 1) =~= seq![pv[i as int]]);
        }
        out.append(p[i].as_str());
        i += 1;
    }
    out
}

/// Reads an image, volume or network listing: one resource per line of at
/// least three tab-separated fields; the detail joins the third and later
/// fields with ` · `.
pub fn parse_resource_list(output: &str) -> (r: Vec<ContainerResource>)
    ensures
        r@.len() == kept_rows(lines(output@), 3).len(),
        forall|k: int|
            0 <= k < r@.len() ==> {
                let f = #[trigger] kept_rows(lines(output@), 3)[k];
                &&& r@[k].id@ == f[0]
                &&& r@[k].name@ == f[1]
                &&& r@[k].detail@ == join_dot(f.subrange(2, f.len() as int))
            },
{
    let ls = lines_of(output);
    let ghost lv = ls@.map_values(|x: String| x@);
    let mut out: Vec<ContainerResource> = Vec::new();
    let mut i: usize = 0;
    while i < ls.len()
        invariant
            lv == ls@.map_values(|x: String| x@),
            lv =~= lines(output@),
            0 <= i <= ls@.len(),
            out@.len() == kept_rows(lv.subrange(0, i as int), 3).len(),
            forall|k: int|
                0 <= k < out@.len() ==> {
                    let f = #[trigger] kept_rows(lv.subrange(0, i as int), 3)[k];
                    &&& out@[k].id@ == f[0]
                    &&& out@[k].name@ == f[1]
                    &&& out@[k].detail@ == join_dot(f.subrange(2, f.len() as int))
                },
        decreases ls@.len() - i,
    {
        let p = split_tabs(ls[i].as_str());
        let ghost pv = p@.map_values(|x: String| x@);
        assert(lv.subrange(0, i + 1).drop_last() =~= lv.subrange(0, i as int));
        assert(lv.subrange(0, i + 1).last() == ls@[i as int]@);
        if p.len() >= 3 {
            assert(pv[0] == p@[0]@ && pv[1] == p@[1]@);
            let detail = join_from(&p, 2);
            out.push(ContainerResource { id: p[0].clone(), name: p[1].clone(), detail });
        }
        i += 1;
    }
    assert(lv.subrange(0, ls@.len() as int) =~= lv);
    out
}

/// The logs of a container: the last `tail` lines, clamped to 1..5000.
pub fn container_logs(backend: &str, target: &str, tail: u32) -> (r: Result<
    ContainerCommand,
    ContainerError,
>)
    ensures
        r is Ok <==> is_backend(backend@) && is_target(target@),
        !is_backend(backend@) ==> backend_unsupported(r, backend@),
        is_backend(backend@) && !is_target(target@) ==> container_invalid(r, "unsafe container target"@),
        r matches Ok(c) ==> runs(
            c,
            backend@,
            seq![
                "logs"@,
                "--tail"@,
                dec_chars(
                    (if tail < 1 {
                        1
                    } else if tail > 5000 {
                        5000
                    } else {
                        tail
                    }) as nat,
                ),
                target@,
            ],
            30000,
            2097152,
        ),
{
    if let Err(e) = validate_backend(backend) {
        return Err(e);
    }
    if let Err(e) = validate_target(target) {
        return Err(e);
    }
    let t: u32 = if tail < 1 {
        1
    } else if tail > 5000 {
        5000
    } else {
        tail
    };
    Ok(command(backend, vec![a("logs"), a("--tail"), u64_text_of(t as u64), a(target)], 30000, 2097152))
}

/// The low-level description of a container.
pub fn container_inspect(backend: &str, target: &str) -> (r: Result<
    ContainerCommand,
    ContainerError,
>)
    ensures
        r is Ok <==> is_backend(backend@) && is_target(target@),
        !is_backend(backend@) ==> backend_unsupported(r, backend@),
        is_backend(backend@) && !is_target(target@) ==> container_invalid(r, "unsafe container target"@),
        r matches Ok(c) ==> runs(c, backend@, seq!["inspect"@, target@], 30000, 4194304),
{
    if let Err(e) = validate_backend(backend) {
        return Err(e);
    }
    if let Err(e) = validate_target(target) {
        return Err(e);
    }
    Ok(command(backend, vec![a("inspect"), a(target)], 30000, 4194304))
}

/// One snapshot of a container's resource use.
pub fn container_stats(backend: &str, target: &str) -> (r: Result<
    ContainerCommand,
    ContainerError,
>)
    ensures
        r is Ok <==> is_backend(backend@) && is_target(target@),
        !is_backend(backend@) ==> backend_unsupported(r, backend@),
        is_backend(backend@) && !is_target(target@) ==> container_invalid(r, "unsafe container target"@),
        r matches Ok(c) ==> runs(
            c,
            backend@,
            seq![
                "stats"@,
                "--no-stream"@,
                "--format"@,
                "{{.Name}}\t{{.CPUPerc}}\t{{.MemUsage}}\t{{.NetIO}}\t{{.BlockIO}}\t{{.PIDs}}"@,
                target@,
            ],
            30000,
            1048576,
        ),
{
    if let Err(e) = validate_backend(backend) {
        return Err(e);
    }
    if let Err(e) = validate_target(target) {
        return Err(e);
    }
    Ok(
        command(
            backend,
            vec![
                a("stats"),
                a("--no-stream"),
                a("--format"),
                a("{{.Name}}\t{{.CPUPerc}}\t{{.MemUsage}}\t{{.NetIO}}\t{{.BlockIO}}\t{{.PIDs}}"),
                a(target),
            ],
            30000,
            1048576,
        ),
    )
}

/// Reads the stats row: the first line, which must hold at least six fields.
pub fn parse_container_stats(raw: &str) -> (r: Result<ContainerStats, ContainerError>)
    ensures
        lines(raw@).len() == 0 ==> (r matches Err(ContainerError::Command(m)) && m@
            == "container stats returned no row"@),
        lines(raw@).len() > 0 && tab_split(lines(raw@)[0]).len() < 6 ==> (r matches Err(
            ContainerError::Command(m),
        ) && m@ == "container stats row format is incomplete"@),
        lines(raw@).len() > 0 && tab_split(lines(raw@)[0]).len() >= 6 ==> (r matches Ok(st) && {
            let f = tab_split(lines(raw@)[0]);
            &&& st.name@ == f[0]
            &&& st.cpu_percent@ == f[1]
            &&& st.memory@ == f[2]
            &&& st.net_io@ == f[3]
            &&& st.block_io@ == f[4]
            &&& st.pids@ == f[5]
        }),
{
    let ls = lines_of(raw);
    if ls.len() == 0 {
        return Err(ContainerError::Command(a("container stats returned no row")));
    }
    assert(ls@.map_values(|x: String| x@)[0] == ls@[0]@);
    let p = split_tabs(ls[0].as_str());
    if p.len() < 6 {
        return Err(ContainerError::Command(a("container stats row format is incomplete")));
    }
    let ghost pv = p@.map_values(|x: String| x@);
    assert(pv[0] == p@[0]@ && pv[1] == p@[1]@ && pv[2] == p@[2]@ && pv[3] == p@[3]@ && pv[4]
        == p@[4]@ && pv[5] == p@[5]@);
    Ok(
        ContainerStats {
            name: p[0].clone(),
            cpu_percent: p[1].clone(),
            memory: p[2].clone(),
            net_io: p[3].clone(),
            block_io: p[4].clone(),
            pids: p[5].clone(),
        },
    )
}

/// An exec argument: at most 16384 bytes and no NUL.
pub open spec fn exec_arg_ok(s: Seq<char>) -> bool {
    blen(s) <= 16384 && !s.contains('\0')
}

fn has_nul(s: &str) -> (r: bool)
    ensures
        r == s@.contains('\0'),
{
    let mut found = false;
    for c in it: s.chars()
        invariant
            it.seq() == s@,
            found == exists|i: int| 0 <= i < it.index() && s@[i] == '\0',
    {
        assert(c == s@[it.index() as int]);
        if c == '\0' {
            found = true;
        }
    }
    found
}

/// Runs a program in a container: at most 128 arguments, each an exec argument.
pub fn container_exec(request: &ContainerExecRequest) -> (r: Result<
    ContainerCommand,
    ContainerError,
>)
    ensures
        r is Ok <==> is_backend(request.backend@) && is_target(request.target@) && is_exec_program(
            request.program@,
        ) && request.args@.len() <= 128 && forall|i: int|
            0 <= i < request.args@.len() ==> exec_arg_ok(#[trigger] request.args@[i]@),
        !is_backend(request.backend@) ==> backend_unsupported(r, request.backend@),
        is_backend(request.backend@) && !is_target(request.target@) ==> container_invalid(
            r,
            "unsafe container target"@,
        ),
        is_backend(request.backend@) && is_target(request.target@) && !is_exec_program(
            request.program@,
        ) ==> container_invalid(r, "unsafe container exec program"@),
        is_backend(request.backend@) && is_target(request.target@) && is_exec_program(
            request.program@,
        ) && r is Err ==> container_invalid(r, "container exec argument limit exceeded"@),
        r matches Ok(c) ==> runs(
            c,
            request.backend@,
            seq!["exec"@, request.target@, request.program@] + argv(request.args@),
            120000,
            4194304,
        ),
{
    if let Err(e) = validate_backend(request.backend.as_str()) {
        return Err(e);
    }
    if let Err(e) = validate_target(request.target.as_str()) {
        return Err(e);
    }
    if let Err(e) = validate_exec_program(request.program.as_str()) {
        return Err(e);
    }
    if request.args.len() > 128 {
        return Err(invalid("container exec argument limit exceeded"));
    }
    let mut args = vec![a("exec"), request.target.clone(), request.program.clone()];
    let ghost head = argv(args@);
    let mut i: usize = 0;
    while i < request.args.len()
        invariant
            0 <= i <= request.args@.len(),
            head == seq!["exec"@, request.target@, request.program@],
            is_backend(request.backend@) && is_target(request.target@) && is_exec_program(
                request.program@,
            ),
            argv(args@) =~= head + argv(request.args@).subrange(0, i as int),
            forall|j: int| 0 <= j < i ==> exec_arg_ok(#[trigger] request.args@[j]@),
        decreases request.args@.len() - i,
    {
        let x = request.args[i].as_str();
        if x.as_bytes().len() > 16384 || has_nul(x) {
            return Err(invalid("container exec argument limit exceeded"));
        }
        let ghost before = args@;
        let item = request.args[i].clone();
        args.push(item);
        assert(argv(args@) =~= argv(before).push(request.args@[i as int]@));
        assert(argv(request.args@).subrange(0, i + 1) =~= argv(request.args@).subrange(
            0,
            i as int,
        ).push(request.args@[i as int]@));
        i += 1;
    }
    assert(argv(request.args@).subrange(0, request.args@.len() as int) =~= argv(request.args@));
    Ok(command(request.backend.as_str(), args, 120000, 4194304))
}

/// The lifecycle actions a container accepts.
pub open spec fn is_action(s: Seq<char>) -> bool {
    s == "start"@ || s == "stop"@ || s == "restart"@ || s == "pause"@ || s == "unpause"@
}

/// Starts, stops, restarts, pauses or unpauses a container.
pub fn container_action(backend: &str, action: &str, target: &str) -> (r: Result<
    ContainerCommand,
    ContainerError,
>)
    ensures
        r is Ok <==> is_backend(backend@) && is_action(action@) && is_target(target@),
        !is_backend(backend@) ==> backend_unsupported(r, backend@),
        is_backend(backend@) && !is_action(action@) ==> container_invalid(
            r,
            "unsupported container action"@,
        ),
        is_backend(backend@) && is_action(action@) && !is_target(target@) ==> container_invalid(
            r,
            "unsafe container target"@,
        ),
        r matches Ok(c) ==> runs(c, backend@, seq![action@, target@], 120000, 2097152),
{
    if let Err(e) = validate_backend(backend) {
        return Err(e);
    }
    if !(str_eq(action, "start") || str_eq(action, "stop") || str_eq(action, "restart") || str_eq(
        action,
        "pause",
    ) || str_eq(action, "unpause")) {
        return Err(invalid("unsupported container action"));
    }
    if let Err(e) = validate_target(target) {
        return Err(e);
    }
    Ok(command(backend, vec![a(action), a(target)], 120000, 2097152))
}

/// What a lifecycle action reports: its output, trimmed.
pub fn container_action_result(backend: &str, action: &str, target: &str, output: &str) -> (r:
    ContainerActionResult)
    ensures
        r.backend@ == backend@,
        r.target@ == target@,
        r.action@ == action@,
        r.output@ == trim(output@),
{
    ContainerActionResult { backend: a(backend), target: a(target), action: a(action), output: trim_text(output) }
}

/// What an image pull reports: action `image.pull` on the image.
pub fn image_pull_result(backend: &str, image: &str, output: &str) -> (r: ContainerActionResult)
    ensures
        r.backend@ == backend@,
        r.target@ == image@,
        r.action@ == "image.pull"@,
        r.output@ == trim(output@),
{
    container_action_result(backend, "image.pull", image, output)
}

/// What a command run in a container reports: action `container.exec` on
/// the container.
pub fn container_exec_result(request: &ContainerExecRequest, output: &str) -> (r: ContainerActionResult)
    ensures
        r.backend@ == request.backend@,
        r.target@ == request.target@,
        r.action@ == "container.exec"@,
        r.output@ == trim(output@),
{
    container_action_result(request.backend.as_str(), "container.exec", request.target.as_str(), output)
}

/// What an image build reports: action `image.build` on the tag.
pub fn image_build_result(request: &ContainerBuildRequest, output: &str) -> (r: ContainerActionResult)
    ensures
        r.backend@ == request.backend@,
        r.target@ == request.tag@,
        r.action@ == "image.build"@,
        r.output@ == trim(output@),
{
    container_action_result(request.backend.as_str(), "image.build", request.tag.as_str(), output)
}

/// What a compose action reports: action `compose.<action>` on the project
/// directory.
pub fn compose_action_result(backend: &str, project_dir: &str, action: &str, output: &str) -> (r:
    ContainerActionResult)
    ensures
        r.backend@ == backend@,
        r.target@ == project_dir@,
        r.action@ == "compose."@ + action@,
        r.output@ == trim(output@),
{
    let name = crate::text::concat("compose.", action);
    container_action_result(backend, name.as_str(), project_dir, output)
}

/// Pulls an image.
pub fn image_pull(backend: &str, image: &str) -> (r: Result<ContainerCommand, ContainerError>)
    ensures
        r is Ok <==> is_backend(backend@) && is_target(image@),
        !is_backend(backend@) ==> backend_unsupported(r, backend@),
        is_backend(backend@) && !is_target(image@) ==> container_invalid(r, "unsafe container target"@),
        r matches Ok(c) ==> runs(c, backend@, seq!["image"@, "pull"@, image@], 600000, 8388608),
{
    if let Err(e) = validate_backend(backend) {
        return Err(e);
    }
    if let Err(e) = validate_target(image) {
        return Err(e);
    }
    Ok(command(backend, vec![a("image"), a("pull"), a(image)], 600000, 8388608))
}

/// What the application found of a build's context and build file, by their
/// canonical paths.
#[derive(Debug, Clone, PartialEq, Eq)]
pub struct BuildPaths {
    /// The canonical context directory, if it exists.
    pub context: Option<String>,
    /// The context is a directory.
    pub context_is_dir: bool,
    /// The canonical build file, if one was given and it exists.
    pub dockerfile: Option<String>,
    /// The build file lies inside the context and is a file.
    pub dockerfile_inside: bool,
}

/// Builds an image from a context directory, with an optional build file
/// that must lie inside it.
pub fn image_build(request: &ContainerBuildRequest, paths: &BuildPaths) -> (r: Result<
    ContainerCommand,
    ContainerError,
>)
    ensures
        !is_backend(request.backend@) || !is_target(request.tag@) ==> r is Err,
        !is_backend(request.backend@) ==> backend_unsupported(r, request.backend@),
        is_backend(request.backend@) && !is_target(request.tag@) ==> container_invalid(
            r,
            "unsafe container target"@,
        ),
        is_backend(request.backend@) && is_target(request.tag@) ==> match paths.context {
            None => container_invalid(r, "container build context does not exist"@),
            Some(ctx) => if !paths.context_is_dir {
                container_invalid(r, "container build context must be a directory"@)
            } else if request.dockerfile is Some && paths.dockerfile is None {
                container_invalid(r, "Dockerfile/Containerfile does not exist"@)
            } else if request.dockerfile is Some && !paths.dockerfile_inside {
                container_invalid(r, "build file must remain inside the build context"@)
            } else {
                r matches Ok(c) && runs(
                    c,
                    request.backend@,
                    seq!["build"@, "--tag"@, request.tag@] + (if request.pull {
                        seq!["--pull"@]
                    } else {
                        Seq::empty()
                    }) + (if request.no_cache {
                        seq!["--no-cache"@]
                    } else {
                        Seq::empty()
                    }) + (if request.dockerfile is Some {
                        seq!["--file"@, paths.dockerfile->0@]
                    } else {
                        Seq::empty()
                    }) + seq![ctx@],
                    900000,
                    8388608,
                )
            },
        },
{
    if let Err(e) = validate_backend(request.backend.as_str()) {
        return Err(e);
    }
    if let Err(e) = validate_target(request.tag.as_str()) {
        return Err(e);
    }
    let context = match &paths.context {
        Some(c) => c,
        None => return Err(invalid("container build context does not exist")),
    };
    if !paths.context_is_dir {
        return Err(invalid("container build context must be a directory"));
    }
    let mut args = vec![a("build"), a("--tag"), request.tag.clone()];
    if request.pull {
        args.push(a("--pull"));
    }
    if request.no_cache {
        args.push(a("--no-cache"));
    }
    if request.dockerfile.is_some() {
        let file = match &paths.dockerfile {
            Some(f) => f,
            None => return Err(invalid("Dockerfile/Containerfile does not exist")),
        };
        if !paths.dockerfile_inside {
            return Err(invalid("build file must remain inside the build context"));
        }
        args.push(a("--file"));
        args.push(file.clone());
    }
    args.push(context.clone());
    Ok(command(request.backend.as_str(), args, 900000, 8388608))
}

/// The resource kinds that can be removed.
pub open spec fn is_removable(kind: Seq<char>) -> bool {
    kind == "container"@ || kind == "image"@ || kind == "volume"@ || kind == "network"@
}

/// Removes a container, image, volume or network; only containers and images
/// may be removed by force.
pub fn remove_resource(backend: &str, kind: &str, target: &str, force: bool) -> (r: Result<
    ContainerCommand,
    ContainerError,
>)
    ensures
        r is Ok <==> is_backend(backend@) && is_target(target@) && is_removable(kind@) && (force
            ==> (kind@ == "container"@ || kind@ == "image"@)),
        !is_backend(backend@) ==> backend_unsupported(r, backend@),
        is_backend(backend@) && !is_target(target@) ==> container_invalid(r, "unsafe container target"@),
        is_backend(backend@) && is_target(target@) && !is_removable(kind@) ==> container_invalid(
            r,
            "remove kind must be container, image, volume, or network"@,
        ),
        is_backend(backend@) && is_target(target@) && is_removable(kind@) && force && !(kind@
            == "container"@ || kind@ == "image"@) ==> container_invalid(
            r,
            "force removal is only allowed for containers/images"@,
        ),
        r matches Ok(c) ==> runs(
            c,
            backend@,
            seq![kind@, "rm"@] + (if force {
                seq!["--force"@]
            } else {
                Seq::empty()
            }) + seq![target@],
            120000,
            2097152,
        ),
{
    if let Err(e) = validate_backend(backend) {
        return Err(e);
    }
    if let Err(e) = validate_target(target) {
        return Err(e);
    }
    let forceable = str_eq(kind, "container") || str_eq(kind, "image");
    if !(forceable || str_eq(kind, "volume") || str_eq(kind, "network")) {
        return Err(invalid("remove kind must be container, image, volume, or network"));
    }
    let mut args = vec![a(kind), a("rm")];
    if force && forceable {
        args.push(a("--force"));
    } else if force {
        return Err(invalid("force removal is only allowed for containers/images"));
    }
    args.push(a(target));
    Ok(command(backend, args, 120000, 2097152))
}

/// What a removal reports as its action: `<kind>.remove`.
pub fn remove_action_name(kind: &str) -> (r: String)
    ensures
        r@ == kind@ + ".remove"@,
{
    concat(kind, ".remove")
}

/// A registry target names a repository or a tag: it holds `/` or `:`.
pub open spec fn is_registry_target(s: Seq<char>) -> bool {
    s.contains('/') || s.contains(':')
}

fn has_char(s: &str, x: char) -> (r: bool)
    ensures
        r == s@.contains(x),
{
    let mut found = false;
    for c in it: s.chars()
        invariant
            it.seq() == s@,
            found == exists|i: int| 0 <= i < it.index() && s@[i] == x,
    {
        assert(c == s@[it.index() as int]);
        if c == x {
            found = true;
        }
    }
    found
}

/// The invocations of a tag (and, when asked, a push) to a registry.
#[derive(Debug, Clone, PartialEq, Eq)]
pub struct RegistryPushPlan {
    pub tag: ContainerCommand,
    pub push: Option<ContainerCommand>,
}

/// Tags `source` as `target` and, when asked, pushes it.
pub fn tag_and_push(request: &RegistryPushRequest) -> (r: Result<RegistryPushPlan, ContainerError>)
    ensures
        r is Ok <==> is_backend(request.backend@) && is_target(request.source@) && is_target(
            request.target@,
        ) && is_registry_target(request.target@),
        !is_backend(request.backend@) ==> backend_unsupported(r, request.backend@),
        is_backend(request.backend@) && !(is_target(request.source@) && is_target(request.target@))
            ==> container_invalid(r, "unsafe container target"@),
        is_backend(request.backend@) && is_target(request.source@) && is_target(request.target@)
            && !is_registry_target(request.target@) ==> container_invalid(
            r,
            "registry target must include a registry/repository or explicit tag"@,
        ),
        r matches Ok(p) ==> runs(
            p.tag,
            request.backend@,
            seq!["image"@, "tag"@, request.source@, request.target@],
            60000,
            1048576,
        ) && (request.push <==> p.push is Some) && (p.push matches Some(c) ==> runs(
            c,
            request.backend@,
            seq!["image"@, "push"@, request.target@],
            900000,
            8388608,
        )),
{
    if let Err(e) = validate_backend(request.backend.as_str()) {
        return Err(e);
    }
    if let Err(e) = validate_target(request.source.as_str()) {
        return Err(e);
    }
    if let Err(e) = validate_target(request.target.as_str()) {
        return Err(e);
    }
    if !has_char(request.target.as_str(), '/') && !has_char(request.target.as_str(), ':') {
        return Err(invalid("registry target must include a registry/repository or explicit tag"));
    }
    let tag = command(
        request.backend.as_str(),
        vec![a("image"), a("tag"), request.source.clone(), request.target.clone()],
        60000,
        1048576,
    );
    let push = if request.push {
        Some(
            command(
                request.backend.as_str(),
                vec![a("image"), a("push"), request.target.clone()],
                900000,
                8388608,
            ),
        )
    } else {
        None
    };
    Ok(RegistryPushPlan { tag, push })
}

/// The report of a tag and push: the outputs joined by a newline when both
/// are non-empty.
pub fn tag_and_push_result(
    request: &RegistryPushRequest,
    tag_output: &str,
    push_output: Option<&str>,
) -> (r: RegistryPushResult)
    ensures
        r.backend@ == request.backend@,
        r.source@ == request.source@,
        r.target@ == request.target@,
        r.tagged,
        r.pushed == push_output is Some,
        r.output@ == (match push_output {
            None => tag_output@,
            Some(p) => tag_output@ + (if tag_output@.len() > 0 && p@.len() > 0 {
                "\n"@
            } else {
                Seq::empty()
            }) + p@,
        }),
{
    let mut output = a(tag_output);
    let pushed = push_output.is_some();
    if let Some(p) = push_output {
        if tag_output.as_bytes().len() > 0 && p.as_bytes().len() > 0 {
            proof {
                vstd::utf8::encode_utf8_decode_utf8(tag_output@);
                vstd::utf8::encode_utf8_decode_utf8(p@);
            }
            output.append("\n");
        } else {
            proof {
                if tag_output@.len() == 0 {
                    assert(crate::text::utf8(tag_output@) =~= Seq::<u8>::empty());
                }
                if p@.len() == 0 {
                    assert(crate::text::utf8(p@) =~= Seq::<u8>::empty());
                }
                if crate::text::utf8(tag_output@).len() == 0 {
                    vstd::utf8::encode_utf8_decode_utf8(tag_output@);
                    assert(vstd::utf8::decode_utf8(Seq::<u8>::empty()) =~= Seq::<char>::empty());
                }
                if crate::text::utf8(p@).len() == 0 {
                    vstd::utf8::encode_utf8_decode_utf8(p@);
                    assert(vstd::utf8::decode_utf8(Seq::<u8>::empty()) =~= Seq::<char>::empty());
                }
            }
            assert(Seq::<char>::empty() + p@ =~= p@);
        }
        output.append(p);
    }
    RegistryPushResult {
        backend: request.backend.clone(),
        source: request.source.clone(),
        target: request.target.clone(),
        tagged: true,
        pushed,
        output,
    }
}

/// The arguments of each compose action.
pub open spec fn compose_args(action: Seq<char>) -> Option<Seq<Seq<char>>> {
    if action == "up"@ {
        Some(seq!["compose"@, "up"@, "-d"@])
    } else if action == "down"@ {
        Some(seq!["compose"@, "down"@])
    } else if action == "stop"@ {
        Some(seq!["compose"@, "stop"@])
    } else if action == "start"@ {
        Some(seq!["compose"@, "start"@])
    } else if action == "restart"@ {
        Some(seq!["compose"@, "restart"@])
    } else if action == "pull"@ {
        Some(seq!["compose"@, "pull"@])
    } else if action == "build"@ {
        Some(seq!["compose"@, "build"@])
    } else if action == "ps"@ {
        Some(seq!["compose"@, "ps"@])
    } else if action == "logs"@ {
        Some(seq!["compose"@, "logs"@, "--tail"@, "500"@])
    } else {
        None
    }
}

/// Each compose action runs the compose subcommand of its own name, and only
/// the nine actions are accepted: `up` runs detached (`up -d`), `logs` shows
/// the last 500 lines (`logs --tail 500`), and every other accepted action
/// `a` runs exactly `compose a`.
pub proof fn lemma_compose_runs_its_own_action(action: Seq<char>)
    ensures
        compose_args(action) is Some <==> (action == "up"@ || action == "down"@ || action == "stop"@
            || action == "start"@ || action == "restart"@ || action == "pull"@ || action
            == "build"@ || action == "ps"@ || action == "logs"@),
        compose_args(action) matches Some(args) ==> args.len() >= 2 && args[0] == "compose"@
            && args[1] == action,
        action == "up"@ ==> compose_args(action) == Some(seq!["compose"@, action, "-d"@]),
        action == "logs"@ ==> compose_args(action) == Some(
            seq!["compose"@, action, "--tail"@, "500"@],
        ),
        compose_args(action) is Some && action != "up"@ && action != "logs"@ ==> compose_args(action)
            == Some(seq!["compose"@, action]),
{
    reveal_strlit("up");
    reveal_strlit("down");
    reveal_strlit("stop");
    reveal_strlit("start");
    reveal_strlit("restart");
    reveal_strlit("pull");
    reveal_strlit("build");
    reveal_strlit("ps");
    reveal_strlit("logs");
    if action == "logs"@ {
        assert(action[0] == 'l');
        assert(action != "down"@ && action != "stop"@ && action != "pull"@ && action != "build"@);
    }
}

/// Runs a compose action in an existing project directory; pulls, builds and
/// `up` may take 15 minutes, the others 3.
pub fn compose_action(backend: &str, project_dir_exists: bool, action: &str) -> (r: Result<
    ContainerCommand,
    ContainerError,
>)
    ensures
        r is Ok <==> is_backend(backend@) && project_dir_exists && compose_args(action@) is Some,
        !is_backend(backend@) ==> backend_unsupported(r, backend@),
        is_backend(backend@) && !project_dir_exists ==> container_invalid(
            r,
            "compose project directory does not exist"@,
        ),
        is_backend(backend@) && project_dir_exists && compose_args(action@) is None
            ==> container_invalid(
            r,
            "compose action must be up, down, start, stop, restart, pull, build, ps, or logs"@,
        ),
        r matches Ok(c) ==> runs(
            c,
            backend@,
            compose_args(action@)->0,
            if action@ == "pull"@ || action@ == "build"@ || action@ == "up"@ {
                900000
            } else {
                180000
            },
            8388608,
        ),
{
    if let Err(e) = validate_backend(backend) {
        return Err(e);
    }
    if !project_dir_exists {
        return Err(invalid("compose project directory does not exist"));
    }
    let args = if str_eq(action, "up") {
        vec![a("compose"), a("up"), a("-d")]
    } else if str_eq(action, "down") {
        vec![a("compose"), a("down")]
    } else if str_eq(action, "stop") {
        vec![a("compose"), a("stop")]
    } else if str_eq(action, "start") {
        vec![a("compose"), a("start")]
    } else if str_eq(action, "restart") {
        vec![a("compose"), a("restart")]
    } else if str_eq(action, "pull") {
        vec![a("compose"), a("pull")]
    } else if str_eq(action, "build") {
        vec![a("compose"), a("build")]
    } else if str_eq(action, "ps") {
        vec![a("compose"), a("ps")]
    } else if str_eq(action, "logs") {
        vec![a("compose"), a("logs"), a("--tail"), a("500")]
    } else {
        return Err(
            invalid(
                "compose action must be up, down, start, stop, restart, pull, build, ps, or logs",
            ),
        );
    };
    let long = str_eq(action, "pull") || str_eq(action, "build") || str_eq(action, "up");
    Ok(command(backend, args, if long { 900000 } else { 180000 }, 8388608))
}

/// What a finished backend invocation reports: its output, followed by its
/// error stream on a new line when there is any; a failed invocation reports
/// at most 8192 characters of that text.
pub open spec fn invocation_text(stdout: Seq<u8>, stderr: Seq<u8>) -> Seq<char> {
    let out = lossy_utf8(stdout);
    if stderr.len() == 0 {
        out
    } else {
        out + (if out.len() > 0 {
            "\n"@
        } else {
            Seq::empty()
        }) + lossy_utf8(stderr)
    }
}

pub fn invocation_outcome(stdout: &[u8], stderr: &[u8], success: bool) -> (r: Result<
    String,
    ContainerError,
>)
    ensures
        success ==> (r matches Ok(t) && t@ == invocation_text(stdout@, stderr@)),
        !success ==> (r matches Err(ContainerError::Command(m)) && m@ == (if invocation_text(
            stdout@,
            stderr@,
        ).len() <= 8192 {
            invocation_text(stdout@, stderr@)
        } else {
            invocation_text(stdout@, stderr@).subrange(0, 8192)
        })),
{
    let mut text = utf8_lossy(stdout);
    if stderr.len() > 0 {
        let err = utf8_lossy(stderr);
        if text.as_str().unicode_len() > 0 {
            text.append("\n");
        } else {
            assert(text@ + Seq::<char>::empty() =~= text@);
        }
        text.append(err.as_str());
    }
    if !success {
        return Err(ContainerError::Command(take_chars(text.as_str(), 8192)));
    }
    Ok(text)
}

} // verus!

verus! {

/// The error of a command that ran past its timeout.
pub fn timeout_error(timeout_ms: u64) -> (r: ContainerError)
    ensures
        r matches ContainerError::Command(m) && m@ == "container command timed out after "@ + dec_chars(
            timeout_ms as nat,
        ) + " ms"@,
{
    let mut m = concat("container command timed out after ", u64_text_of(timeout_ms).as_str());
    m.append(" ms");
    ContainerError::Command(m)
}

/// A captured stream is kept only up to `max` bytes; `read` is what was
/// read of it, at most one byte past the limit.
pub fn capture_check(read: Vec<u8>, max: usize) -> (r: Result<Vec<u8>, ContainerError>)
    ensures
        read@.len() <= max ==> r == Ok::<Vec<u8>, ContainerError>(read),
        read@.len() > max ==> (r matches Err(ContainerError::Command(m)) && m@
            == "container command output exceeded safety limit"@),
{
    if read.len() > max {
        return Err(ContainerError::Command(a("container command output exceeded safety limit")));
    }
    Ok(read)
}

/// The stderr cap of a command: its output cap, at most 1 MiB.
pub fn stderr_cap(max_output: usize) -> (r: usize)
    ensures
        r == (if max_output < 1048576 {
            max_output
        } else {
            1048576
        }),
{
    if max_output < 1048576 {
        max_output
    } else {
        1048576
    }
}

} // verus!
