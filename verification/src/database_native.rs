//! Databases reached through native drivers (PostgreSQL, MySQL, MongoDB,
//! Redis): the transport policy each connection must meet, the read-only
//! gates, the SQL text of structured mutations, and the bookkeeping of
//! read-only jobs and transactions.
use crate::text::{
    after_first, after_last, before_first, blen, chars_of, concat, contains, first_contained,
    first_hit, has_control, has_prefix, is_token, join, join_texts, lower_chars, starts_with,
    str_eq, string_of_chars, strip_all, strs_view, to_lower, to_upper, token_ok, trim, trim_text,
    u64_text_of, upper_chars, ByteClass, split_all, insert_sorted, strictly_sorted, views,
};
use vstd::prelude::*;

verus! {

#[derive(Debug, Clone, PartialEq, Eq)]
pub enum NativeDbError {
    Invalid(String),
    Postgres(String),
    MySql(String),
    Redis(String),
    Mongo(String),
}

impl NativeDbError {
    /// The error as it is reported.
    pub fn message(&self) -> (r: String)
        ensures
            r@ == match self {
                NativeDbError::Invalid(m) => "native database request rejected: "@ + m@,
                NativeDbError::Postgres(m) => "PostgreSQL error: "@ + m@,
                NativeDbError::MySql(m) => "MySQL error: "@ + m@,
                NativeDbError::Redis(m) => "Redis error: "@ + m@,
                NativeDbError::Mongo(m) => "MongoDB error: "@ + m@,
            },
    {
        match self {
            NativeDbError::Invalid(m) => concat("native database request rejected: ", m.as_str()),
            NativeDbError::Postgres(m) => concat("PostgreSQL error: ", m.as_str()),
            NativeDbError::MySql(m) => concat("MySQL error: ", m.as_str()),
            NativeDbError::Redis(m) => concat("Redis error: ", m.as_str()),
            NativeDbError::Mongo(m) => concat("MongoDB error: ", m.as_str()),
        }
    }
}

/// Whether `r` failed with `Invalid(msg)`.
pub open spec fn native_invalid<T>(r: Result<T, NativeDbError>, msg: Seq<char>) -> bool {
    r matches Err(NativeDbError::Invalid(m)) && m@ == msg
}

fn invalid(msg: &str) -> (e: NativeDbError)
    ensures
        e matches NativeDbError::Invalid(m) && m@ == msg@,
{
    NativeDbError::Invalid(msg.to_owned())
}

fn text(v: &str) -> (r: String)
    ensures
        r@ == v@,
{
    v.to_owned()
}

// ---------------------------------------------------------------------------
// Hosts and transport policy
// ---------------------------------------------------------------------------

/// The loopback host names, spelled exactly.
pub open spec fn is_loopback_name(h: Seq<char>) -> bool {
    h == "localhost"@ || h == "127.0.0.1"@ || h == "::1"@
}

/// A loopback host in any letter case.
pub open spec fn exact_loopback(h: Seq<char>) -> bool {
    is_loopback_name(lower_chars(h))
}

pub fn exact_loopback_host(host: &str) -> (r: bool)
    ensures
        r == exact_loopback(host@),
{
    let l = to_lower(host);
    str_eq(l.as_str(), "localhost") || str_eq(l.as_str(), "127.0.0.1") || str_eq(l.as_str(), "::1")
}

/// `s.parse::<u16>().ok()`.
pub open spec fn u16_text(s: Seq<char>) -> Option<u16> {
    match crate::text::u128_text(s) {
        Some(v) => if v <= 65535 {
            Some(v as u16)
        } else {
            None
        },
        None => None,
    }
}

fn parse_u16(s: &str) -> (r: Option<u16>)
    ensures
        r == u16_text(s@),
{
    match crate::text::parse_u128(s) {
        Some(v) => if v <= 65535 {
            Some(v as u16)
        } else {
            None
        },
        None => None,
    }
}

/// The index of the first `]:` in `s`, or `s.len()`.
pub open spec fn bracket_colon(s: Seq<char>, i: int) -> int
    decreases s.len() - i,
{
    if i < 0 || i + 1 >= s.len() {
        s.len() as int
    } else if s[i] == ']' && s[i + 1] == ':' {
        i
    } else {
        bracket_colon(s, i + 1)
    }
}

/// The host of an authority: inside the brackets of an IPv6 literal, or
/// before the first `:`.
pub open spec fn authority_host(a: Seq<char>) -> Seq<char> {
    if a.len() > 0 && a[0] == '[' {
        before_first(a.drop_first(), ']')
    } else {
        before_first(a, ':')
    }
}

/// The port text of an authority: after `]:` for an IPv6 literal, or after
/// the first `:`.
pub open spec fn authority_port(a: Seq<char>) -> Option<Seq<char>> {
    if a.len() > 0 && a[0] == '[' {
        let r = a.drop_first();
        let k = bracket_colon(r, 0);
        if k < r.len() {
            Some(r.subrange(k + 2, r.len() as int))
        } else {
            None
        }
    } else {
        after_first(a, ':')
    }
}

/// The authority of a lower-cased `redis://` URL: after the last `@`, before
/// the first `/`.
pub open spec fn redis_authority(lower: Seq<char>) -> Seq<char> {
    before_first(after_last(strip_all(lower, "redis://"@), '@'), '/')
}

/// Why a Redis URL is refused, if it is: `rediss://` is always accepted (it
/// cannot be made insecure), plaintext `redis://` only on an exact loopback
/// host and a port other than 0.
pub open spec fn redis_url_refusal(url: Seq<char>) -> Option<Seq<char>> {
    let lower = lower_chars(url);
    if blen(url) > 4096 || has_control(url) {
        Some("Redis URL is invalid"@)
    } else if contains(lower, "#insecure"@) || contains(lower, "insecure=true"@) {
        Some("Redis insecure TLS mode is forbidden"@)
    } else if starts_with(lower, "rediss://"@) {
        None
    } else if !starts_with(lower, "redis://"@) {
        Some("Redis URL must use redis:// or rediss://"@)
    } else {
        let a = redis_authority(lower);
        if exact_loopback(authority_host(a)) {
            if (match authority_port(a) {
                Some(p) => u16_text(p) == Some(0u16),
                None => false,
            }) {
                Some("Redis port 0 is invalid"@)
            } else {
                None
            }
        } else {
            Some(
                "remote Redis must use rediss://; plaintext redis:// is restricted to exact loopback"@,
            )
        }
    }
}

fn after_last_of(s: &str, c: char) -> (r: String)
    ensures
        r@ == after_last(s@, c),
{
    let v = chars_of(s);
    let k = crate::text::find_last_char_end(&v, c);
    string_of_chars(&v, k, v.len())
}

fn before_first_of(s: &str, c: char) -> (r: String)
    ensures
        r@ == before_first(s@, c),
{
    let v = chars_of(s);
    let k = crate::text::find_char(&v, c);
    string_of_chars(&v, 0, k)
}

fn after_first_of(s: &str, c: char) -> (r: Option<String>)
    ensures
        match r {
            Some(t) => after_first(s@, c) == Some(t@),
            None => after_first(s@, c) is None,
        },
{
    let v = chars_of(s);
    let k = crate::text::find_char(&v, c);
    if k < v.len() {
        Some(string_of_chars(&v, k + 1, v.len()))
    } else {
        None
    }
}

fn host_of(a: &str) -> (r: String)
    ensures
        r@ == authority_host(a@),
{
    let v = chars_of(a);
    if v.len() > 0 && v[0] == '[' {
        let rest = string_of_chars(&v, 1, v.len());
        assert(rest@ =~= a@.drop_first());
        before_first_of(rest.as_str(), ']')
    } else {
        before_first_of(a, ':')
    }
}

fn port_of(a: &str) -> (r: Option<String>)
    ensures
        match r {
            Some(t) => authority_port(a@) == Some(t@),
            None => authority_port(a@) is None,
        },
{
    let v = chars_of(a);
    if v.len() > 0 && v[0] == '[' {
        let ghost r = a@.drop_first();
        let n = v.len();
        let mut i: usize = 1;
        assert(bracket_colon(r, 0) == bracket_colon(r, (i - 1) as int));
        while i < n - 1 && !(v[i] == ']' && v[i + 1] == ':')
            invariant
                v@ == a@,
                n == v@.len(),
                n > 0,
                r == a@.drop_first(),
                1 <= i <= n,
                bracket_colon(r, 0) == bracket_colon(r, (i - 1) as int),
            decreases n - i,
        {
            i += 1;
        }
        if i < n - 1 {
            let t = string_of_chars(&v, i + 2, n);
            assert(t@ =~= r.subrange(i + 1, r.len() as int));
            Some(t)
        } else {
            None
        }
    } else {
        after_first_of(a, ':')
    }
}

/// Redis connections: TLS (`rediss://`) anywhere, plaintext only on loopback.
pub fn validate_redis_url(url: &str) -> (r: Result<(), NativeDbError>)
    ensures
        redis_url_refusal(url@) is None ==> r is Ok,
        redis_url_refusal(url@) matches Some(m) ==> native_invalid(r, m),
{
    if url.as_bytes().len() > 4096 || crate::text::any_control(url) {
        return Err(invalid("Redis URL is invalid"));
    }
    let lower = to_lower(url);
    let l = lower.as_str();
    if crate::text::has_substring(l, "#insecure") || crate::text::has_substring(l, "insecure=true") {
        return Err(invalid("Redis insecure TLS mode is forbidden"));
    }
    if has_prefix(l, "rediss://") {
        return Ok(());
    }
    if !has_prefix(l, "redis://") {
        return Err(invalid("Redis URL must use redis:// or rediss://"));
    }
    proof {
        reveal_strlit("redis://");
    }
    let rest = crate::text::strip_all_prefix(l, "redis://");
    let tail = after_last_of(rest.as_str(), '@');
    let authority = before_first_of(tail.as_str(), '/');
    let host = host_of(authority.as_str());
    if exact_loopback_host(host.as_str()) {
        let port = match port_of(authority.as_str()) {
            Some(p) => parse_u16(p.as_str()),
            None => None,
        };
        if port == Some(0u16) {
            return Err(invalid("Redis port 0 is invalid"));
        }
        Ok(())
    } else {
        Err(
            invalid(
                "remote Redis must use rediss://; plaintext redis:// is restricted to exact loopback",
            ),
        )
    }
}

/// The MongoDB options that switch certificate or host checking off.
pub open spec fn mongo_forbidden() -> Seq<Seq<char>> {
    seq![
        "tls=false"@,
        "ssl=false"@,
        "tlsinsecure=true"@,
        "tlsallowinvalidhostnames=true"@,
        "tlsallowinvalidcertificates=true"@,
    ]
}

/// The host list of a `mongodb://` URL: after the last `@`, before the first
/// `/`.
pub open spec fn mongo_hostpart(url: Seq<char>) -> Seq<char> {
    before_first(after_last(strip_all(url, "mongodb://"@), '@'), '/')
}

/// The host of one entry of a MongoDB host list.
pub open spec fn mongo_entry_host(entry: Seq<char>) -> Seq<char> {
    let e = trim(entry);
    if e.len() > 0 && e[0] == '[' {
        before_first(e.drop_first(), ']')
    } else {
        before_first(e, ':')
    }
}

/// Whether every host of a MongoDB host list is a loopback name.
pub open spec fn all_loopback(hostpart: Seq<char>) -> bool {
    let entries = split_all(hostpart, ',');
    forall|i: int| 0 <= i < entries.len() ==> is_loopback_name(mongo_entry_host(#[trigger] entries[i]))
}

/// Why a MongoDB URL is refused, if it is: options that disable TLS checks
/// never pass; `mongodb+srv://` is accepted; plain `mongodb://` only when
/// every host is a loopback name.
pub open spec fn mongo_url_refusal(url: Seq<char>) -> Option<Seq<char>> {
    let lower = lower_chars(url);
    if blen(url) > 4096 || has_control(url) {
        Some("invalid MongoDB URL"@)
    } else {
        match first_hit(lower, mongo_forbidden(), 0) {
            Some(k) => Some("MongoDB insecure TLS option is forbidden: "@ + mongo_forbidden()[k]),
            None => if starts_with(lower, "mongodb+srv://"@) {
                None
            } else if !starts_with(url, "mongodb://"@) {
                Some("MongoDB URL must use mongodb:// or mongodb+srv://"@)
            } else if all_loopback(mongo_hostpart(url)) {
                None
            } else {
                Some(
                    "non-loopback MongoDB requires mongodb+srv:// or a future explicit verified-TLS connector profile"@,
                )
            },
        }
    }
}

fn mongo_entry_host_of(entry: &str) -> (r: String)
    ensures
        r@ == mongo_entry_host(entry@),
{
    let e = trim_text(entry);
    let v = chars_of(e.as_str());
    if v.len() > 0 && v[0] == '[' {
        let rest = string_of_chars(&v, 1, v.len());
        assert(rest@ =~= e@.drop_first());
        before_first_of(rest.as_str(), ']')
    } else {
        before_first_of(e.as_str(), ':')
    }
}

fn is_loopback_name_exec(h: &str) -> (r: bool)
    ensures
        r == is_loopback_name(h@),
{
    str_eq(h, "localhost") || str_eq(h, "127.0.0.1") || str_eq(h, "::1")
}

/// MongoDB connections: no option may switch TLS checks off, and plain
/// `mongodb://` is for loopback hosts only.
pub fn validate_mongo_url(url: &str) -> (r: Result<(), NativeDbError>)
    ensures
        mongo_url_refusal(url@) is None ==> r is Ok,
        mongo_url_refusal(url@) matches Some(m) ==> native_invalid(r, m),
{
    if url.as_bytes().len() > 4096 || crate::text::any_control(url) {
        return Err(invalid("invalid MongoDB URL"));
    }
    let lower = to_lower(url);
    let l = lower.as_str();
    let mut forbidden: Vec<&str> = Vec::new();
    forbidden.push("tls=false");
    forbidden.push("ssl=false");
    forbidden.push("tlsinsecure=true");
    forbidden.push("tlsallowinvalidhostnames=true");
    forbidden.push("tlsallowinvalidcertificates=true");
    assert(strs_view(forbidden@) =~= mongo_forbidden());
    match first_contained(l, &forbidden) {
        Some(k) => {
            return Err(
                NativeDbError::Invalid(
                    concat("MongoDB insecure TLS option is forbidden: ", forbidden[k]),
                ),
            );
        },
        None => {},
    }
    if has_prefix(l, "mongodb+srv://") {
        return Ok(());
    }
    if !has_prefix(url, "mongodb://") {
        return Err(invalid("MongoDB URL must use mongodb:// or mongodb+srv://"));
    }
    proof {
        reveal_strlit("mongodb://");
    }
    let rest = crate::text::strip_all_prefix(url, "mongodb://");
    let tail = after_last_of(rest.as_str(), '@');
    let hostpart = before_first_of(tail.as_str(), '/');
    let entries = crate::text::split_on(hostpart.as_str(), ',');
    let ghost ev = entries@.map_values(|x: String| x@);
    assert(hostpart@ == mongo_hostpart(url@));
    assert(mongo_url_refusal(url@) == if all_loopback(mongo_hostpart(url@)) {
        None
    } else {
        Some(
            "non-loopback MongoDB requires mongodb+srv:// or a future explicit verified-TLS connector profile"@,
        )
    });
    let mut i: usize = 0;
    while i < entries.len()
        invariant
            mongo_url_refusal(url@) == if all_loopback(mongo_hostpart(url@)) {
                None
            } else {
                Some(
                    "non-loopback MongoDB requires mongodb+srv:// or a future explicit verified-TLS connector profile"@,
                )
            },
            ev == entries@.map_values(|x: String| x@),
            ev == split_all(mongo_hostpart(url@), ','),
            0 <= i <= entries@.len(),
            forall|j: int| 0 <= j < i ==> is_loopback_name(mongo_entry_host(#[trigger] ev[j])),
        decreases entries@.len() - i,
    {
        assert(ev[i as int] == entries@[i as int]@);
        let h = mongo_entry_host_of(entries[i].as_str());
        if !is_loopback_name_exec(h.as_str()) {
            assert(!is_loopback_name(mongo_entry_host(ev[i as int])));
            return Err(
                invalid(
                    "non-loopback MongoDB requires mongodb+srv:// or a future explicit verified-TLS connector profile",
                ),
            );
        }
        i += 1;
    }
    Ok(())
}

/// What `postgres::Config::from_str` makes of a connection string on a
/// build for a Unix platform (`unix`) or for another one: the TCP host names
/// (`None` for a Unix socket, which only a Unix build makes of a host that
/// begins with `/`), how many `hostaddr` entries it names, and its ports;
/// `None` when it does not parse.
pub uninterp spec fn pg_config_targets(s: Seq<char>, unix: bool) -> Option<
    (Seq<Option<Seq<char>>>, nat, Seq<u16>),
>;

/// Whether the parse of `s` on the given kind of build may use the
/// plaintext profile.
pub open spec fn pg_plaintext_ok(s: Seq<char>, unix: bool) -> bool {
    pg_config_targets(s, unix) matches Some(t) && plaintext_targets_ok(t)
}

/// The parts of a parsed PostgreSQL configuration that decide where it
/// connects.
#[derive(Debug, Clone, PartialEq, Eq)]
pub struct PgTargets {
    pub tcp_hosts: Vec<Option<String>>,
    pub hostaddr_count: usize,
    pub ports: Vec<u16>,
}

pub open spec fn targets_view(t: PgTargets) -> (Seq<Option<Seq<char>>>, nat, Seq<u16>) {
    (
        t.tcp_hosts@.map_values(|h: Option<String>| match h {
            Some(x) => Some(x@),
            None => None,
        }),
        t.hostaddr_count as nat,
        t.ports@,
    )
}

/// `s.parse::<postgres::Config>()`, reduced to where it connects. Trusted:
/// the result is `pg_config_targets(s, unix)` for the kind of platform this
/// build is for (which of the two is not stated), read off `get_hosts`,
/// `get_hostaddrs` and `get_ports`.
#[verifier::external_body]
fn parse_pg_targets(s: &str) -> (r: Option<PgTargets>)
    ensures
        exists|unix: bool|
            match r {
                Some(t) => #[trigger] pg_config_targets(s@, unix) == Some(targets_view(t)),
                None => #[trigger] pg_config_targets(s@, unix) is None,
            },
{
    let c = s.parse::<postgres::Config>().ok()?;
    let tcp_hosts = c.get_hosts().iter().map(|h| match h {
        postgres::config::Host::Tcp(x) => Some(x.clone()),
        #[allow(unreachable_patterns)]
        _ => None,
    }).collect();
    Some(PgTargets { tcp_hosts, hostaddr_count: c.get_hostaddrs().len(), ports: c.get_ports().to_vec() })
}

/// A parsed configuration that may use the plaintext profile: one TCP host,
/// a loopback name, no `hostaddr`, and no port 0.
pub open spec fn plaintext_targets_ok(t: (Seq<Option<Seq<char>>>, nat, Seq<u16>)) -> bool {
    &&& t.0.len() == 1
    &&& t.1 == 0
    &&& forall|i: int| 0 <= i < t.2.len() ==> t.2[i] != 0
    &&& t.0[0] matches Some(h) && exact_loopback(h)
}

/// The decision on a parsed configuration (or on a string that did not
/// parse): plaintext PostgreSQL is for exactly one loopback host.
pub fn loopback_targets(t: &Option<PgTargets>) -> (r: bool)
    ensures
        r == (t matches Some(x) && plaintext_targets_ok(targets_view(*x))),
{
    match t {
        None => false,
        Some(x) => {
            if x.tcp_hosts.len() != 1 || x.hostaddr_count != 0 {
                return false;
            }
            let mut i: usize = 0;
            while i < x.ports.len()
                invariant
                    *t == Some(*x),
                    0 <= i <= x.ports@.len(),
                    forall|j: int| 0 <= j < i ==> x.ports@[j] != 0,
                decreases x.ports@.len() - i,
            {
                if x.ports[i] == 0 {
                    assert(targets_view(*x).2[i as int] == 0);
                    assert(!plaintext_targets_ok(targets_view(*x)));
                    return false;
                }
                i += 1;
            }
            assert(targets_view(*x).0[0] == match x.tcp_hosts@[0] {
                Some(h) => Some(h@),
                None => None::<Seq<char>>,
            });
            match &x.tcp_hosts[0] {
                Some(h) => exact_loopback_host(h.as_str()),
                None => false,
            }
        },
    }
}

/// Whether a PostgreSQL connection string may use the plaintext profile:
/// it parses, and names one loopback TCP host, no `hostaddr` and no port 0
/// (as the build's platform parses it).
pub fn postgres_loopback_no_tls(s: &str) -> (r: bool)
    ensures
        exists|unix: bool| r == #[trigger] pg_plaintext_ok(s@, unix),
{
    let t = parse_pg_targets(s);
    let r = loopback_targets(&t);
    proof {
        let u = choose|unix: bool|
            match t {
                Some(x) => #[trigger] pg_config_targets(s@, unix) == Some(targets_view(x)),
                None => #[trigger] pg_config_targets(s@, unix) is None,
            };
        assert(r == pg_plaintext_ok(s@, u));
    }
    r
}

/// The plaintext PostgreSQL profile: at most 4096 bytes, and loopback only.
pub fn postgres_plaintext_check(connection_string: &str) -> (r: Result<(), NativeDbError>)
    ensures
        blen(connection_string@) > 4096 ==> native_invalid(
            r,
            "PostgreSQL connection string too long"@,
        ),
        blen(connection_string@) <= 4096 ==> exists|unix: bool|
            if #[trigger] pg_plaintext_ok(connection_string@, unix) {
                r is Ok
            } else {
                native_invalid(
                    r,
                    "native PostgreSQL NoTls profile is restricted to loopback; remote PostgreSQL must use the existing TLS-capable external client path until a TLS connector is added"@,
                )
            },
{
    if connection_string.as_bytes().len() > 4096 {
        return Err(invalid("PostgreSQL connection string too long"));
    }
    if !postgres_loopback_no_tls(connection_string) {
        return Err(
            invalid(
                "native PostgreSQL NoTls profile is restricted to loopback; remote PostgreSQL must use the existing TLS-capable external client path until a TLS connector is added",
            ),
        );
    }
    Ok(())
}

// ---------------------------------------------------------------------------
// Read-only gates
// ---------------------------------------------------------------------------

/// The tokens a PostgreSQL read query may not hold, looked for in the
/// upper-cased query with a space added at each end.
pub open spec fn pg_banned() -> Seq<Seq<char>> {
    seq![
        " INSERT "@,
        " UPDATE "@,
        " DELETE "@,
        " DROP "@,
        " ALTER "@,
        " CREATE "@,
        " TRUNCATE "@,
        " GRANT "@,
        " REVOKE "@,
        " COPY "@,
        " CALL "@,
        " DO "@,
        " FOR UPDATE"@,
        " FOR SHARE"@,
        "EXPLAIN ANALYZE"@,
        "PG_READ_FILE("@,
        "PG_READ_BINARY_FILE("@,
        "PG_LS_DIR("@,
        "LO_IMPORT("@,
    ]
}

/// The upper-cased query without surrounding space and trailing `;`s.
pub open spec fn pg_query_upper(t: Seq<char>) -> Seq<char> {
    upper_chars(trim(crate::sqlite::trim_end_semis(t)))
}

/// Why a PostgreSQL read query is refused, if it is: one statement (a `;`
/// only at the end), starting with `SELECT`, `WITH`, `SHOW` or `EXPLAIN`,
/// and none of the banned tokens.
pub open spec fn pg_read_refusal(sql: Seq<char>) -> Option<Seq<char>> {
    let t = trim(sql);
    if blen(sql) > 262144 {
        Some("query too large"@)
    } else if t.len() == 0 || exists|i: int| 0 <= i < t.len() - 1 && t[i] == ';' {
        Some("only one SQL statement is allowed"@)
    } else {
        let u = pg_query_upper(t);
        if !(starts_with(u, "SELECT "@) || starts_with(u, "WITH "@) || starts_with(u, "SHOW "@)
            || starts_with(u, "EXPLAIN "@)) {
            Some("only read-only SQL is allowed"@)
        } else {
            match first_hit(" "@ + u + " "@, pg_banned(), 0) {
                Some(k) => Some("read-only SQL rejected token: "@ + trim(pg_banned()[k])),
                None => None,
            }
        }
    }
}

fn pg_banned_list() -> (r: Vec<&'static str>)
    ensures
        strs_view(r@) =~= pg_banned(),
{
    let mut v: Vec<&'static str> = Vec::new();
    v.push(" INSERT ");
    v.push(" UPDATE ");
    v.push(" DELETE ");
    v.push(" DROP ");
    v.push(" ALTER ");
    v.push(" CREATE ");
    v.push(" TRUNCATE ");
    v.push(" GRANT ");
    v.push(" REVOKE ");
    v.push(" COPY ");
    v.push(" CALL ");
    v.push(" DO ");
    v.push(" FOR UPDATE");
    v.push(" FOR SHARE");
    v.push("EXPLAIN ANALYZE");
    v.push("PG_READ_FILE(");
    v.push("PG_READ_BINARY_FILE(");
    v.push("PG_LS_DIR(");
    v.push("LO_IMPORT(");
    v
}

/// The read-only gate of the native PostgreSQL paths.
pub fn validate_read_only_sql(sql: &str) -> (r: Result<(), NativeDbError>)
    ensures
        pg_read_refusal(sql@) is None ==> r is Ok,
        pg_read_refusal(sql@) matches Some(m) ==> native_invalid(r, m),
{
    if sql.as_bytes().len() > 262144 {
        return Err(invalid("query too large"));
    }
    let t = trim_text(sql);
    let tv = chars_of(t.as_str());
    let n = tv.len();
    if n == 0 {
        return Err(invalid("only one SQL statement is allowed"));
    }
    let mut i: usize = 0;
    while i + 1 < n
        invariant
            tv@ == trim(sql@),
            n == tv@.len(),
            n > 0,
            0 <= i <= n - 1,
            blen(sql@) <= 262144,
            forall|j: int| 0 <= j < i ==> tv@[j] != ';',
        decreases n - i,
    {
        if tv[i] == ';' {
            return Err(invalid("only one SQL statement is allowed"));
        }
        i += 1;
    }
    let mut e: usize = n;
    let ghost ts = tv@;
    assert(ts.subrange(0, e as int) =~= ts);
    while e > 0 && tv[e - 1] == ';'
        invariant
            tv@ == ts,
            0 <= e <= ts.len(),
            crate::sqlite::trim_end_semis(ts) == crate::sqlite::trim_end_semis(ts.subrange(0, e as int)),
        decreases e,
    {
        assert(ts.subrange(0, e as int).drop_last() =~= ts.subrange(0, e - 1));
        e -= 1;
    }
    let body = string_of_chars(&tv, 0, e);
    let upper = to_upper(trim_text(body.as_str()).as_str());
    let u = upper.as_str();
    if !(has_prefix(u, "SELECT ") || has_prefix(u, "WITH ") || has_prefix(u, "SHOW ") || has_prefix(
        u,
        "EXPLAIN ",
    )) {
        return Err(invalid("only read-only SQL is allowed"));
    }
    let padded = crate::text::concat3(" ", u, " ");
    let banned = pg_banned_list();
    match first_contained(padded.as_str(), &banned) {
        Some(k) => Err(
            NativeDbError::Invalid(
                concat("read-only SQL rejected token: ", trim_text(banned[k]).as_str()),
            ),
        ),
        None => Ok(()),
    }
}

/// The tokens a MySQL read query may not hold (in upper case).
pub open spec fn mysql_banned() -> Seq<Seq<char>> {
    seq![
        " INTO OUTFILE"@,
        " INTO DUMPFILE"@,
        "LOAD_FILE("@,
        "SLEEP("@,
        "BENCHMARK("@,
        "GET_LOCK("@,
    ]
}

/// A MySQL read query may not write files, read them, stall or lock.
pub fn validate_mysql_read_sql(sql: &str) -> (r: Result<(), NativeDbError>)
    ensures
        first_hit(upper_chars(sql@), mysql_banned(), 0) is None ==> r is Ok,
        first_hit(upper_chars(sql@), mysql_banned(), 0) matches Some(k) ==> native_invalid(
            r,
            "MySQL read query rejected dangerous token: "@ + mysql_banned()[k],
        ),
{
    let upper = to_upper(sql);
    let mut banned: Vec<&str> = Vec::new();
    banned.push(" INTO OUTFILE");
    banned.push(" INTO DUMPFILE");
    banned.push("LOAD_FILE(");
    banned.push("SLEEP(");
    banned.push("BENCHMARK(");
    banned.push("GET_LOCK(");
    assert(strs_view(banned@) =~= mysql_banned());
    match first_contained(upper.as_str(), &banned) {
        Some(k) => Err(
            NativeDbError::Invalid(concat("MySQL read query rejected dangerous token: ", banned[k])),
        ),
        None => Ok(()),
    }
}

// ---------------------------------------------------------------------------
// Identifiers, names and keys
// ---------------------------------------------------------------------------

/// SQL identifiers on the native paths: 1 to 128 letters, digits or `_`.
pub open spec fn is_safe_ident(v: Seq<char>) -> bool {
    is_token(v, 1, 128, ByteClass::Word)
}

pub fn safe_ident(v: &str) -> (r: Result<(), NativeDbError>)
    ensures
        is_safe_ident(v@) ==> r is Ok,
        !is_safe_ident(v@) ==> native_invalid(r, "unsafe SQL identifier"@),
{
    if token_ok(v, 1, 128, ByteClass::Word) {
        Ok(())
    } else {
        Err(invalid("unsafe SQL identifier"))
    }
}

/// `"v"`: a PostgreSQL name (safe identifiers need no escaping).
pub open spec fn pg_quoted(v: Seq<char>) -> Seq<char> {
    seq!['"'] + v + seq!['"']
}

pub fn quote_ident(v: &str) -> (r: String)
    ensures
        r@ == pg_quoted(v@),
{
    let mut t = String::new();
    crate::digest::string_push(&mut t, '"');
    vstd::string::StringExecFns::append(&mut t, v);
    crate::digest::string_push(&mut t, '"');
    t
}

/// `` `v` ``: a MySQL name.
pub fn mysql_quote_ident(v: &str) -> (r: String)
    ensures
        r@ == seq!['`'] + v@ + seq!['`'],
{
    let mut t = String::new();
    crate::digest::string_push(&mut t, '`');
    vstd::string::StringExecFns::append(&mut t, v);
    crate::digest::string_push(&mut t, '`');
    t
}

/// MongoDB database and collection names: 1 to 120 bytes, not starting with
/// `$`, no NUL or control byte.
pub open spec fn is_mongo_name(v: Seq<char>) -> bool {
    let b = crate::text::utf8(v);
    &&& b.len() > 0 && b.len() <= 120
    &&& b[0] != 36
    &&& forall|i: int| 0 <= i < b.len() ==> !(#[trigger] b[i] < 32 || b[i] == 127)
}

pub fn safe_mongo_name(v: &str) -> (r: Result<(), NativeDbError>)
    ensures
        is_mongo_name(v@) ==> r is Ok,
        !is_mongo_name(v@) ==> native_invalid(r, "invalid MongoDB database/collection name"@),
{
    let b = v.as_bytes();
    if b.len() == 0 || b.len() > 120 || b[0] == 36 {
        return Err(invalid("invalid MongoDB database/collection name"));
    }
    let mut i: usize = 0;
    while i < b.len()
        invariant
            b@ == crate::text::utf8(v@),
            0 <= i <= b@.len(),
            forall|j: int| 0 <= j < i ==> !(#[trigger] b@[j] < 32 || b@[j] == 127),
        decreases b@.len() - i,
    {
        if b[i] < 32 || b[i] == 127 {
            return Err(invalid("invalid MongoDB database/collection name"));
        }
        i += 1;
    }
    Ok(())
}

/// Redis keys: 1 to 16384 bytes with no NUL.
pub open spec fn is_redis_key(k: Seq<char>) -> bool {
    k.len() > 0 && blen(k) <= 16384 && !k.contains('\0')
}

pub fn safe_key(k: &str) -> (r: Result<(), NativeDbError>)
    ensures
        is_redis_key(k@) ==> r is Ok,
        !is_redis_key(k@) ==> native_invalid(r, "invalid Redis key"@),
{
    if k.unicode_len() == 0 || k.as_bytes().len() > 16384 {
        return Err(invalid("invalid Redis key"));
    }
    let mut nul = false;
    for c in it: k.chars()
        invariant
            it.seq() == k@,
            nul == exists|j: int| 0 <= j < it.index() && k@[j] == '\0',
    {
        assert(c == k@[it.index() as int]);
        if c == '\0' {
            nul = true;
        }
    }
    if nul {
        assert(k@.contains('\0'));
        return Err(invalid("invalid Redis key"));
    }
    Ok(())
}

// ---------------------------------------------------------------------------
// Structured mutations on PostgreSQL
// ---------------------------------------------------------------------------

pub open spec fn texts(v: Seq<String>) -> Seq<Seq<char>> {
    v.map_values(|x: String| x@)
}

/// Why a set of field names is refused, if it is.
pub open spec fn values_refusal(keys: Seq<Seq<char>>, allow_empty: bool) -> Option<Seq<char>> {
    if !allow_empty && keys.len() == 0 {
        Some("mutation values cannot be empty"@)
    } else if keys.len() > 128 {
        Some("mutation contains too many fields"@)
    } else if exists|i: int| 0 <= i < keys.len() && !is_safe_ident(#[trigger] keys[i]) {
        Some("unsafe SQL identifier"@)
    } else {
        None
    }
}

pub fn validate_values(keys: &Vec<String>, allow_empty: bool) -> (r: Result<(), NativeDbError>)
    ensures
        values_refusal(texts(keys@), allow_empty) is None ==> r is Ok,
        values_refusal(texts(keys@), allow_empty) matches Some(m) ==> native_invalid(r, m),
{
    if !allow_empty && keys.len() == 0 {
        return Err(invalid("mutation values cannot be empty"));
    }
    if keys.len() > 128 {
        return Err(invalid("mutation contains too many fields"));
    }
    let mut i: usize = 0;
    while i < keys.len()
        invariant
            0 <= i <= keys@.len(),
            keys@.len() <= 128,
            allow_empty || keys@.len() > 0,
            forall|j: int| 0 <= j < i ==> is_safe_ident(#[trigger] texts(keys@)[j]),
        decreases keys@.len() - i,
    {
        assert(texts(keys@)[i as int] == keys@[i as int]@);
        if !token_ok(keys[i].as_str(), 1, 128, ByteClass::Word) {
            return Err(invalid("unsafe SQL identifier"));
        }
        i += 1;
    }
    Ok(())
}

/// Updates and deletes need at least one equality.
pub open spec fn filter_refusal(keys: Seq<Seq<char>>) -> Option<Seq<char>> {
    if keys.len() == 0 {
        Some("update/delete requires a non-empty equality filter"@)
    } else {
        values_refusal(keys, false)
    }
}

pub fn validate_filter(keys: &Vec<String>) -> (r: Result<(), NativeDbError>)
    ensures
        filter_refusal(texts(keys@)) is None ==> r is Ok,
        filter_refusal(texts(keys@)) matches Some(m) ==> native_invalid(r, m),
{
    if keys.len() == 0 {
        return Err(invalid("update/delete requires a non-empty equality filter"));
    }
    validate_values(keys, false)
}

/// `"schema"."table"`.
pub open spec fn pg_table(schema: Seq<char>, table: Seq<char>) -> Seq<char> {
    pg_quoted(schema) + "."@ + pg_quoted(table)
}

/// The row type of a table filled from a JSON parameter: `jsonb_populate_record`.
pub open spec fn populate(schema: Seq<char>, table: Seq<char>, param: Seq<char>) -> Seq<char> {
    "SELECT * FROM jsonb_populate_record(NULL::"@ + pg_table(schema, table) + ", "@ + param
        + "::jsonb)"@
}

/// Why a mutation target is refused, if it is.
pub open spec fn target_refusal(schema: Seq<char>, table: Seq<char>) -> Option<Seq<char>> {
    if !is_safe_ident(schema) || !is_safe_ident(table) {
        Some("unsafe SQL identifier"@)
    } else {
        None
    }
}

pub(crate) fn pg_table_of(schema: &str, table: &str) -> (r: String)
    ensures
        r@ == pg_table(schema@, table@),
{
    let mut t = quote_ident(schema);
    vstd::string::StringExecFns::append(&mut t, ".");
    vstd::string::StringExecFns::append(&mut t, quote_ident(table).as_str());
    t
}

fn populate_of(schema: &str, table: &str, param: &str) -> (r: String)
    ensures
        r@ == populate(schema@, table@, param@),
{
    let mut t = concat("SELECT * FROM jsonb_populate_record(NULL::", pg_table_of(schema, table).as_str());
    vstd::string::StringExecFns::append(&mut t, ", ");
    vstd::string::StringExecFns::append(&mut t, param);
    vstd::string::StringExecFns::append(&mut t, "::jsonb)");
    t
}

fn prefixed(cols: &Vec<String>, pre: &str) -> (r: Vec<String>)
    ensures
        texts(r@) =~= texts(cols@).map_values(|c: Seq<char>| pre@ + pg_quoted(c)),
{
    let mut out: Vec<String> = Vec::new();
    let mut i: usize = 0;
    while i < cols.len()
        invariant
            0 <= i <= cols@.len(),
            out@.len() == i,
            forall|j: int| 0 <= j < i ==> (#[trigger] out@[j])@ == pre@ + pg_quoted(cols@[j]@),
        decreases cols@.len() - i,
    {
        out.push(concat(pre, quote_ident(cols[i].as_str()).as_str()));
        i += 1;
    }
    out
}

fn paired(cols: &Vec<String>, pre: &str, mid: &str) -> (r: Vec<String>)
    ensures
        texts(r@) =~= texts(cols@).map_values(|c: Seq<char>| pre@ + pg_quoted(c) + mid@ + pg_quoted(c)),
{
    let mut out: Vec<String> = Vec::new();
    let mut i: usize = 0;
    while i < cols.len()
        invariant
            0 <= i <= cols@.len(),
            out@.len() == i,
            forall|j: int| 0 <= j < i ==> (#[trigger] out@[j])@ == pre@ + pg_quoted(cols@[j]@) + mid@
                + pg_quoted(cols@[j]@),
        decreases cols@.len() - i,
    {
        let q = quote_ident(cols[i].as_str());
        let mut t = concat(pre, q.as_str());
        vstd::string::StringExecFns::append(&mut t, mid);
        vstd::string::StringExecFns::append(&mut t, q.as_str());
        out.push(t);
        i += 1;
    }
    out
}

fn quoted_names(cols: &Vec<String>) -> (r: Vec<String>)
    ensures
        texts(r@) =~= texts(cols@).map_values(|c: Seq<char>| pg_quoted(c)),
{
    let mut out: Vec<String> = Vec::new();
    let mut i: usize = 0;
    while i < cols.len()
        invariant
            0 <= i <= cols@.len(),
            out@.len() == i,
            forall|j: int| 0 <= j < i ==> (#[trigger] out@[j])@ == pg_quoted(cols@[j]@),
        decreases cols@.len() - i,
    {
        out.push(quote_ident(cols[i].as_str()));
        i += 1;
    }
    out
}

fn assigned_names(cols: &Vec<String>) -> (r: Vec<String>)
    ensures
        texts(r@) =~= texts(cols@).map_values(|c: Seq<char>| pg_quoted(c) + " = v."@ + pg_quoted(c)),
{
    let mut out: Vec<String> = Vec::new();
    let mut i: usize = 0;
    while i < cols.len()
        invariant
            0 <= i <= cols@.len(),
            out@.len() == i,
            forall|j: int| 0 <= j < i ==> (#[trigger] out@[j])@ == pg_quoted(cols@[j]@) + " = v."@
                + pg_quoted(cols@[j]@),
        decreases cols@.len() - i,
    {
        let q = quote_ident(cols[i].as_str());
        let mut t = concat(q.as_str(), " = v.");
        vstd::string::StringExecFns::append(&mut t, q.as_str());
        out.push(t);
        i += 1;
    }
    out
}

/// The insert of one row, bound as a JSON object to `$1`.
pub open spec fn pg_insert_text(schema: Seq<char>, table: Seq<char>, cols: Seq<Seq<char>>) -> Seq<
    char,
> {
    "WITH v AS ("@ + populate(schema, table, "$1"@) + ") INSERT INTO "@ + pg_table(schema, table)
        + " ("@ + join(cols.map_values(|c: Seq<char>| pg_quoted(c)), ","@) + ") SELECT "@ + join(
        cols.map_values(|c: Seq<char>| "v."@ + pg_quoted(c)),
        ","@,
    ) + " FROM v"@
}

/// The statement that inserts a row with the fields `cols` (the names of
/// the JSON object bound to `$1`).
pub fn postgres_insert_sql(schema: &str, table: &str, cols: &Vec<String>) -> (r: Result<
    String,
    NativeDbError,
>)
    ensures
        target_refusal(schema@, table@) matches Some(m) ==> native_invalid(r, m),
        target_refusal(schema@, table@) is None ==> match values_refusal(texts(cols@), false) {
            Some(m) => native_invalid(r, m),
            None => r matches Ok(sql) && sql@ == pg_insert_text(schema@, table@, texts(cols@)),
        },
{
    safe_ident(schema)?;
    safe_ident(table)?;
    validate_values(cols, false)?;
    let names = quoted_names(cols);
    let picks = prefixed(cols, "v.");
    let mut sql = concat("WITH v AS (", populate_of(schema, table, "$1").as_str());
    vstd::string::StringExecFns::append(&mut sql, ") INSERT INTO ");
    vstd::string::StringExecFns::append(&mut sql, pg_table_of(schema, table).as_str());
    vstd::string::StringExecFns::append(&mut sql, " (");
    vstd::string::StringExecFns::append(&mut sql, join_texts(&names, ",").as_str());
    vstd::string::StringExecFns::append(&mut sql, ") SELECT ");
    vstd::string::StringExecFns::append(&mut sql, join_texts(&picks, ",").as_str());
    vstd::string::StringExecFns::append(&mut sql, " FROM v");
    Ok(sql)
}

/// `t."c" IS NOT DISTINCT FROM f."c"` for each filter field, joined by AND.
pub open spec fn pg_match(cols: Seq<Seq<char>>) -> Seq<char> {
    join(
        cols.map_values(|c: Seq<char>| "t."@ + pg_quoted(c) + " IS NOT DISTINCT FROM f."@ + pg_quoted(c)),
        " AND "@,
    )
}

/// The update of the rows matching the JSON filter `$2` with the JSON values `$1`.
pub open spec fn pg_update_text(
    schema: Seq<char>,
    table: Seq<char>,
    values: Seq<Seq<char>>,
    filter: Seq<Seq<char>>,
) -> Seq<char> {
    "WITH v AS ("@ + populate(schema, table, "$1"@) + "), f AS ("@ + populate(schema, table, "$2"@)
        + ") UPDATE "@ + pg_table(schema, table) + " AS t SET "@ + join(
        values.map_values(|c: Seq<char>| pg_quoted(c) + " = v."@ + pg_quoted(c)),
        ","@,
    ) + " FROM v,f WHERE "@ + pg_match(filter)
}

/// `t."c" IS NOT DISTINCT FROM f."c"`: the row's field `c` equals the
/// filter's, NULL matching NULL.
pub open spec fn field_matches(c: Seq<char>) -> Seq<char> {
    "t."@ + pg_quoted(c) + " IS NOT DISTINCT FROM f."@ + pg_quoted(c)
}

/// The condition that a row matches every field of `filter`: the first
/// field's equality, each later one added after `" AND "`.
pub open spec fn every_field_matches(filter: Seq<Seq<char>>) -> Seq<char>
    decreases filter.len(),
{
    if filter.len() == 0 {
        Seq::empty()
    } else if filter.len() == 1 {
        field_matches(filter[0])
    } else {
        every_field_matches(filter.drop_last()) + " AND "@ + field_matches(filter.last())
    }
}

/// The assignments of an update: each value column set from the values'
/// record, `"c" = v."c"`, separated by commas.
pub open spec fn every_value_set(values: Seq<Seq<char>>) -> Seq<char>
    decreases values.len(),
{
    if values.len() == 0 {
        Seq::empty()
    } else if values.len() == 1 {
        pg_quoted(values[0]) + " = v."@ + pg_quoted(values[0])
    } else {
        every_value_set(values.drop_last()) + ","@ + pg_quoted(values.last()) + " = v."@ + pg_quoted(
            values.last(),
        )
    }
}

proof fn lemma_sets_are_assignments(values: Seq<Seq<char>>)
    ensures
        join(values.map_values(|c: Seq<char>| pg_quoted(c) + " = v."@ + pg_quoted(c)), ","@)
            == every_value_set(values),
    decreases values.len(),
{
    let f = |c: Seq<char>| pg_quoted(c) + " = v."@ + pg_quoted(c);
    if values.len() > 1 {
        lemma_sets_are_assignments(values.drop_last());
        assert(values.map_values(f).drop_last() =~= values.drop_last().map_values(f));
        assert(join(values.map_values(f), ","@) == join(values.map_values(f).drop_last(), ","@) + ","@
            + f(values.last()));
    }
}

proof fn lemma_match_is_conjunction(filter: Seq<Seq<char>>)
    ensures
        pg_match(filter) == every_field_matches(filter),
    decreases filter.len(),
{
    let f = |c: Seq<char>| "t."@ + pg_quoted(c) + " IS NOT DISTINCT FROM f."@ + pg_quoted(c);
    if filter.len() > 1 {
        lemma_match_is_conjunction(filter.drop_last());
        assert(filter.map_values(f).drop_last() =~= filter.drop_last().map_values(f));
    }
}

/// An update sets each value column from the values record and changes only
/// the rows that match every filter field: its statement ends with
/// `" AS t SET "`, one assignment per value column, `" FROM v,f WHERE "` and
/// the conjunction of one equality per filter field, in the filter's order;
/// a delete's condition (`pg_match`) is that same conjunction.
pub proof fn lemma_mutations_match_every_field(
    schema: Seq<char>,
    table: Seq<char>,
    values: Seq<Seq<char>>,
    filter: Seq<Seq<char>>,
)
    ensures
        exists|head: Seq<char>|
            pg_update_text(schema, table, values, filter) == head + " AS t SET "@ + every_value_set(
                values,
            ) + " FROM v,f WHERE "@ + #[trigger] every_field_matches(filter),
        pg_match(filter) == every_field_matches(filter),
{
    lemma_match_is_conjunction(filter);
    lemma_sets_are_assignments(values);
    let head = "WITH v AS ("@ + populate(schema, table, "$1"@) + "), f AS ("@ + populate(
        schema,
        table,
        "$2"@,
    ) + ") UPDATE "@ + pg_table(schema, table);
    assert(pg_update_text(schema, table, values, filter) == head + " AS t SET "@ + every_value_set(
        values,
    ) + " FROM v,f WHERE "@ + every_field_matches(filter));
}

pub fn postgres_update_sql(schema: &str, table: &str, values: &Vec<String>, filter: &Vec<String>) -> (r:
    Result<String, NativeDbError>)
    ensures
        target_refusal(schema@, table@) matches Some(m) ==> native_invalid(r, m),
        target_refusal(schema@, table@) is None ==> match values_refusal(texts(values@), false) {
            Some(m) => native_invalid(r, m),
            None => match filter_refusal(texts(filter@)) {
                Some(m) => native_invalid(r, m),
                None => r matches Ok(sql) && sql@ == pg_update_text(
                    schema@,
                    table@,
                    texts(values@),
                    texts(filter@),
                ),
            },
        },
{
    safe_ident(schema)?;
    safe_ident(table)?;
    validate_values(values, false)?;
    validate_filter(filter)?;
    let sets = assigned_names(values);
    let wheres = paired(filter, "t.", " IS NOT DISTINCT FROM f.");
    let mut sql = concat("WITH v AS (", populate_of(schema, table, "$1").as_str());
    vstd::string::StringExecFns::append(&mut sql, "), f AS (");
    vstd::string::StringExecFns::append(&mut sql, populate_of(schema, table, "$2").as_str());
    vstd::string::StringExecFns::append(&mut sql, ") UPDATE ");
    vstd::string::StringExecFns::append(&mut sql, pg_table_of(schema, table).as_str());
    vstd::string::StringExecFns::append(&mut sql, " AS t SET ");
    vstd::string::StringExecFns::append(&mut sql, join_texts(&sets, ",").as_str());
    vstd::string::StringExecFns::append(&mut sql, " FROM v,f WHERE ");
    vstd::string::StringExecFns::append(&mut sql, join_texts(&wheres, " AND ").as_str());
    Ok(sql)
}

pub fn postgres_delete_sql(schema: &str, table: &str, filter: &Vec<String>) -> (r: Result<
    String,
    NativeDbError,
>)
    ensures
        target_refusal(schema@, table@) matches Some(m) ==> native_invalid(r, m),
        target_refusal(schema@, table@) is None ==> match filter_refusal(texts(filter@)) {
            Some(m) => native_invalid(r, m),
            None => r matches Ok(sql) && sql@ == "WITH f AS ("@ + populate(schema@, table@, "$1"@)
                + ") DELETE FROM "@ + pg_table(schema@, table@) + " AS t USING f WHERE "@
                + pg_match(texts(filter@)),
        },
{
    safe_ident(schema)?;
    safe_ident(table)?;
    validate_filter(filter)?;
    let wheres = paired(filter, "t.", " IS NOT DISTINCT FROM f.");
    let mut sql = concat("WITH f AS (", populate_of(schema, table, "$1").as_str());
    vstd::string::StringExecFns::append(&mut sql, ") DELETE FROM ");
    vstd::string::StringExecFns::append(&mut sql, pg_table_of(schema, table).as_str());
    vstd::string::StringExecFns::append(&mut sql, " AS t USING f WHERE ");
    vstd::string::StringExecFns::append(&mut sql, join_texts(&wheres, " AND ").as_str());
    Ok(sql)
}

/// A page of a PostgreSQL table: 1 to 1000 rows from `offset`.
pub fn postgres_browse_sql(schema: &str, table: &str, limit: u32, offset: u64) -> (r: Result<
    String,
    NativeDbError,
>)
    ensures
        target_refusal(schema@, table@) matches Some(m) ==> native_invalid(r, m),
        target_refusal(schema@, table@) is None ==> (r matches Ok(sql) && sql@ == "SELECT * FROM "@
            + pg_table(schema@, table@) + " LIMIT "@ + crate::text::dec_chars(
            (if limit < 1 {
                1
            } else if limit > 1000 {
                1000
            } else {
                limit
            }) as nat,
        ) + " OFFSET "@ + crate::text::dec_chars(offset as nat)),
{
    safe_ident(schema)?;
    safe_ident(table)?;
    let l: u32 = if limit < 1 {
        1
    } else if limit > 1000 {
        1000
    } else {
        limit
    };
    let mut sql = concat("SELECT * FROM ", pg_table_of(schema, table).as_str());
    vstd::string::StringExecFns::append(&mut sql, " LIMIT ");
    vstd::string::StringExecFns::append(&mut sql, u64_text_of(l as u64).as_str());
    vstd::string::StringExecFns::append(&mut sql, " OFFSET ");
    vstd::string::StringExecFns::append(&mut sql, u64_text_of(offset).as_str());
    Ok(sql)
}

// ---------------------------------------------------------------------------
// Structured mutations on MySQL
// ---------------------------------------------------------------------------

/// `` `v` ``: a MySQL name.
pub open spec fn my_quoted(v: Seq<char>) -> Seq<char> {
    seq!['`'] + v + seq!['`']
}

/// `` `database`.`table` ``.
pub open spec fn my_table(database: Seq<char>, table: Seq<char>) -> Seq<char> {
    my_quoted(database) + "."@ + my_quoted(table)
}

fn my_table_of(database: &str, table: &str) -> (r: String)
    ensures
        r@ == my_table(database@, table@),
{
    let mut t = mysql_quote_ident(database);
    vstd::string::StringExecFns::append(&mut t, ".");
    vstd::string::StringExecFns::append(&mut t, mysql_quote_ident(table).as_str());
    t
}

/// Each column quoted, followed by `suffix`.
fn my_each(cols: &Vec<String>, suffix: &str) -> (r: Vec<String>)
    ensures
        texts(r@) =~= texts(cols@).map_values(|c: Seq<char>| my_quoted(c) + suffix@),
{
    let mut out: Vec<String> = Vec::new();
    let mut i: usize = 0;
    while i < cols.len()
        invariant
            0 <= i <= cols@.len(),
            out@.len() == i,
            forall|j: int| 0 <= j < i ==> (#[trigger] out@[j])@ == my_quoted(cols@[j]@) + suffix@,
        decreases cols@.len() - i,
    {
        let mut t = mysql_quote_ident(cols[i].as_str());
        vstd::string::StringExecFns::append(&mut t, suffix);
        out.push(t);
        i += 1;
    }
    out
}

/// One `?` for each column.
fn my_placeholders(cols: &Vec<String>) -> (r: Vec<String>)
    ensures
        texts(r@) =~= texts(cols@).map_values(|c: Seq<char>| "?"@),
{
    let mut out: Vec<String> = Vec::new();
    let mut i: usize = 0;
    while i < cols.len()
        invariant
            0 <= i <= cols@.len(),
            out@.len() == i,
            forall|j: int| 0 <= j < i ==> (#[trigger] out@[j])@ == "?"@,
        decreases cols@.len() - i,
    {
        out.push(text("?"));
        i += 1;
    }
    out
}

/// The insert of one row whose values are bound positionally, one `?` per
/// field.
pub open spec fn my_insert_text(database: Seq<char>, table: Seq<char>, cols: Seq<Seq<char>>) -> Seq<
    char,
> {
    "INSERT INTO "@ + my_table(database, table) + " ("@ + join(
        cols.map_values(|c: Seq<char>| my_quoted(c)),
        ","@,
    ) + ") VALUES ("@ + join(cols.map_values(|c: Seq<char>| "?"@), ","@) + ")"@
}

/// The statement that inserts a row with the fields `cols` into a MySQL
/// table; the values are bound in the order of `cols`.
pub fn mysql_insert_sql(database: &str, table: &str, cols: &Vec<String>) -> (r: Result<
    String,
    NativeDbError,
>)
    ensures
        target_refusal(database@, table@) matches Some(m) ==> native_invalid(r, m),
        target_refusal(database@, table@) is None ==> match values_refusal(texts(cols@), false) {
            Some(m) => native_invalid(r, m),
            None => r matches Ok(sql) && sql@ == my_insert_text(database@, table@, texts(cols@)),
        },
{
    safe_ident(database)?;
    safe_ident(table)?;
    validate_values(cols, false)?;
    let names = my_each(cols, "");
    proof {
        reveal_strlit("");
        assert forall|c: Seq<char>| my_quoted(c) + ""@ == my_quoted(c) by {
            assert(my_quoted(c) + ""@ =~= my_quoted(c));
        }
        assert(texts(names@) =~= texts(cols@).map_values(|c: Seq<char>| my_quoted(c)));
    }
    let marks = my_placeholders(cols);
    let mut sql = concat("INSERT INTO ", my_table_of(database, table).as_str());
    vstd::string::StringExecFns::append(&mut sql, " (");
    vstd::string::StringExecFns::append(&mut sql, join_texts(&names, ",").as_str());
    vstd::string::StringExecFns::append(&mut sql, ") VALUES (");
    vstd::string::StringExecFns::append(&mut sql, join_texts(&marks, ",").as_str());
    vstd::string::StringExecFns::append(&mut sql, ")");
    Ok(sql)
}

/// `` `c` <=> ? `` for each filter field, joined by AND: NULL-safe equality.
pub open spec fn my_match(cols: Seq<Seq<char>>) -> Seq<char> {
    join(cols.map_values(|c: Seq<char>| my_quoted(c) + " <=> ?"@), " AND "@)
}

/// The update of the rows matching the filter: the values are bound first,
/// then the filter, each in the order given.
pub open spec fn my_update_text(
    database: Seq<char>,
    table: Seq<char>,
    values: Seq<Seq<char>>,
    filter: Seq<Seq<char>>,
) -> Seq<char> {
    "UPDATE "@ + my_table(database, table) + " SET "@ + join(
        values.map_values(|c: Seq<char>| my_quoted(c) + "=?"@),
        ","@,
    ) + " WHERE "@ + my_match(filter)
}

/// A MySQL update binds its values first and changes only the rows that
/// match every filter field: its statement ends with `" WHERE "` and the
/// conjunction of one NULL-safe equality `` `c` <=> ? `` per filter field, in
/// the filter's order; a delete's condition (`my_match`) is that same
/// conjunction.
pub proof fn lemma_mysql_mutations_match_every_field(
    database: Seq<char>,
    table: Seq<char>,
    values: Seq<Seq<char>>,
    filter: Seq<Seq<char>>,
)
    ensures
        ({
            let conds = Seq::new(filter.len(), |i: int| my_quoted(filter[i]) + " <=> ?"@);
            &&& my_match(filter) == crate::text::conjunction(conds)
            &&& exists|head: Seq<char>|
                my_update_text(database, table, values, filter) == head + " WHERE "@
                    + #[trigger] crate::text::conjunction(conds)
        }),
{
    let conds = Seq::new(filter.len(), |i: int| my_quoted(filter[i]) + " <=> ?"@);
    assert(filter.map_values(|c: Seq<char>| my_quoted(c) + " <=> ?"@) =~= conds);
    crate::text::lemma_and_join_is_conjunction(conds);
    let head = "UPDATE "@ + my_table(database, table) + " SET "@ + join(
        values.map_values(|c: Seq<char>| my_quoted(c) + "=?"@),
        ","@,
    );
    assert(my_update_text(database, table, values, filter) == head + " WHERE "@
        + crate::text::conjunction(conds));
}

pub fn mysql_update_sql(database: &str, table: &str, values: &Vec<String>, filter: &Vec<String>) -> (r:
    Result<String, NativeDbError>)
    ensures
        target_refusal(database@, table@) matches Some(m) ==> native_invalid(r, m),
        target_refusal(database@, table@) is None ==> match values_refusal(texts(values@), false) {
            Some(m) => native_invalid(r, m),
            None => match filter_refusal(texts(filter@)) {
                Some(m) => native_invalid(r, m),
                None => r matches Ok(sql) && sql@ == my_update_text(
                    database@,
                    table@,
                    texts(values@),
                    texts(filter@),
                ),
            },
        },
{
    safe_ident(database)?;
    safe_ident(table)?;
    validate_values(values, false)?;
    validate_filter(filter)?;
    let sets = my_each(values, "=?");
    let wheres = my_each(filter, " <=> ?");
    let mut sql = concat("UPDATE ", my_table_of(database, table).as_str());
    vstd::string::StringExecFns::append(&mut sql, " SET ");
    vstd::string::StringExecFns::append(&mut sql, join_texts(&sets, ",").as_str());
    vstd::string::StringExecFns::append(&mut sql, " WHERE ");
    vstd::string::StringExecFns::append(&mut sql, join_texts(&wheres, " AND ").as_str());
    Ok(sql)
}

pub fn mysql_delete_sql(database: &str, table: &str, filter: &Vec<String>) -> (r: Result<
    String,
    NativeDbError,
>)
    ensures
        target_refusal(database@, table@) matches Some(m) ==> native_invalid(r, m),
        target_refusal(database@, table@) is None ==> match filter_refusal(texts(filter@)) {
            Some(m) => native_invalid(r, m),
            None => r matches Ok(sql) && sql@ == "DELETE FROM "@ + my_table(database@, table@)
                + " WHERE "@ + my_match(texts(filter@)),
        },
{
    safe_ident(database)?;
    safe_ident(table)?;
    validate_filter(filter)?;
    let wheres = my_each(filter, " <=> ?");
    let mut sql = concat("DELETE FROM ", my_table_of(database, table).as_str());
    vstd::string::StringExecFns::append(&mut sql, " WHERE ");
    vstd::string::StringExecFns::append(&mut sql, join_texts(&wheres, " AND ").as_str());
    Ok(sql)
}

/// A page of a MySQL table: 1 to 1000 rows from `offset`.
pub fn mysql_browse_sql(database: &str, table: &str, limit: u32, offset: u64) -> (r: Result<
    String,
    NativeDbError,
>)
    ensures
        target_refusal(database@, table@) matches Some(m) ==> native_invalid(r, m),
        target_refusal(database@, table@) is None ==> (r matches Ok(sql) && sql@ == "SELECT * FROM "@
            + my_table(database@, table@) + " LIMIT "@ + crate::text::dec_chars(
            (if limit < 1 {
                1
            } else if limit > 1000 {
                1000
            } else {
                limit
            }) as nat,
        ) + " OFFSET "@ + crate::text::dec_chars(offset as nat)),
{
    safe_ident(database)?;
    safe_ident(table)?;
    let l: u32 = if limit < 1 {
        1
    } else if limit > 1000 {
        1000
    } else {
        limit
    };
    let mut sql = concat("SELECT * FROM ", my_table_of(database, table).as_str());
    vstd::string::StringExecFns::append(&mut sql, " LIMIT ");
    vstd::string::StringExecFns::append(&mut sql, u64_text_of(l as u64).as_str());
    vstd::string::StringExecFns::append(&mut sql, " OFFSET ");
    vstd::string::StringExecFns::append(&mut sql, u64_text_of(offset).as_str());
    Ok(sql)
}

// ---------------------------------------------------------------------------
// TLS profiles
// ---------------------------------------------------------------------------

/// Why a MySQL TLS URL is refused, if it is: at most 4096 bytes, the
/// `mysql://` scheme (any case), and no cleartext authentication plugin.
pub open spec fn mysql_tls_url_refusal(url: Seq<char>) -> Option<Seq<char>> {
    if blen(url) > 4096 {
        Some("MySQL URL too long"@)
    } else if !starts_with(lower_chars(url), "mysql://"@) {
        Some("MySQL TLS URL must use mysql://"@)
    } else if contains(lower_chars(url), "enable_cleartext_plugin=true"@) {
        Some("MySQL cleartext authentication plugin is not allowed by the VSN TLS profile"@)
    } else {
        None
    }
}

pub fn mysql_tls_url_check(url: &str) -> (r: Result<(), NativeDbError>)
    ensures
        mysql_tls_url_refusal(url@) is None ==> r is Ok,
        mysql_tls_url_refusal(url@) matches Some(m) ==> native_invalid(r, m),
{
    if url.as_bytes().len() > 4096 {
        return Err(invalid("MySQL URL too long"));
    }
    let lower = to_lower(url);
    if !has_prefix(lower.as_str(), "mysql://") {
        return Err(invalid("MySQL TLS URL must use mysql://"));
    }
    if crate::text::has_substring(lower.as_str(), "enable_cleartext_plugin=true") {
        return Err(invalid("MySQL cleartext authentication plugin is not allowed by the VSN TLS profile"));
    }
    Ok(())
}

/// A PostgreSQL TLS connection string is at most 4096 bytes.
pub fn postgres_tls_length_check(connection_string: &str) -> (r: Result<(), NativeDbError>)
    ensures
        blen(connection_string@) <= 4096 ==> r is Ok,
        blen(connection_string@) > 4096 ==> native_invalid(
            r,
            "PostgreSQL connection string too long"@,
        ),
{
    if connection_string.as_bytes().len() > 4096 {
        return Err(invalid("PostgreSQL connection string too long"));
    }
    Ok(())
}

/// A root CA file holds 1 byte to 4 MiB (`size` is its length on disk).
pub fn cert_size_check(label: &str, size: u64) -> (r: Result<(), NativeDbError>)
    ensures
        1 <= size <= 4194304 ==> r is Ok,
        !(1 <= size <= 4194304) ==> native_invalid(r, label@ + " must be between 1 byte and 4 MiB"@),
{
    if size == 0 || size > 4194304 {
        return Err(NativeDbError::Invalid(concat(label, " must be between 1 byte and 4 MiB")));
    }
    Ok(())
}

/// The largest text cell a native read returns, 256 KiB.
pub const MAX_TEXT_CELL_BYTES: usize = 262144;

/// Whether a cell is text over 256 KiB.
pub open spec fn cell_oversized(c: Option<String>) -> bool {
    match c {
        Some(t) => blen(t@) > MAX_TEXT_CELL_BYTES,
        None => false,
    }
}

/// Whether a row holds a text cell over 256 KiB.
pub open spec fn row_oversized(row: Seq<Option<String>>) -> bool {
    exists|j: int| 0 <= j < row.len() && cell_oversized(#[trigger] row[j])
}

/// The rows a native read keeps: the first 1000.
pub open spec fn kept_rows(n: int) -> int {
    if n > 1000 {
        1000
    } else {
        n
    }
}

/// Checks the rows of a PostgreSQL text result (each cell text or NULL):
/// only the first 1000 rows are kept, and none of them may hold a text cell
/// over 256 KiB.
pub fn pg_text_rows(rows: Vec<Vec<Option<String>>>) -> (r: Result<Vec<Vec<Option<String>>>, NativeDbError>)
    ensures
        (exists|i: int| 0 <= i < kept_rows(rows@.len() as int) && row_oversized(#[trigger] rows@[i]@))
            ==> native_invalid(r, "native database text cell exceeded 256 KiB limit"@),
        !(exists|i: int| 0 <= i < kept_rows(rows@.len() as int) && row_oversized(#[trigger] rows@[i]@))
            ==> (r matches Ok(v) && v@ == rows@.subrange(0, kept_rows(rows@.len() as int))),
{
    let n: usize = if rows.len() > 1000 {
        1000
    } else {
        rows.len()
    };
    let mut i: usize = 0;
    while i < n
        invariant
            n == kept_rows(rows@.len() as int),
            n <= rows@.len(),
            0 <= i <= n,
            forall|k: int| 0 <= k < i ==> !row_oversized(#[trigger] rows@[k]@),
        decreases n - i,
    {
        let row = &rows[i];
        let mut j: usize = 0;
        while j < row.len()
            invariant
                n == kept_rows(rows@.len() as int),
                n <= rows@.len(),
                0 <= i < n,
                *row == rows@[i as int],
                0 <= j <= row@.len(),
                forall|jj: int| 0 <= jj < j ==> !cell_oversized(#[trigger] row@[jj]),
            decreases row@.len() - j,
        {
            if let Some(t) = &row[j] {
                if t.as_str().as_bytes().len() > MAX_TEXT_CELL_BYTES {
                    proof {
                        assert(cell_oversized(row@[j as int]));
                        assert(row_oversized(rows@[i as int]@));
                    }
                    return Err(invalid("native database text cell exceeded 256 KiB limit"));
                }
            }
            j += 1;
        }
        i += 1;
    }
    let mut rows = rows;
    rows.truncate(n);
    Ok(rows)
}

// ---------------------------------------------------------------------------
// Redis requests
// ---------------------------------------------------------------------------

/// Why a Redis request on `key` is refused, if it is: the connection first,
/// then the key.
pub open spec fn redis_key_refusal(url: Seq<char>, key: Seq<char>) -> Option<Seq<char>> {
    if redis_url_refusal(url) is Some {
        redis_url_refusal(url)
    } else if !is_redis_key(key) {
        Some("invalid Redis key"@)
    } else {
        None
    }
}

/// Checks a read or delete of `key` over `url`.
pub fn redis_key_check(url: &str, key: &str) -> (r: Result<(), NativeDbError>)
    ensures
        redis_key_refusal(url@, key@) is None ==> r is Ok,
        redis_key_refusal(url@, key@) matches Some(m) ==> native_invalid(r, m),
{
    validate_redis_url(url)?;
    safe_key(key)
}

/// The longest TTL a string may be set with: 365 days.
pub const REDIS_MAX_TTL_SECONDS: u64 = 31536000;

/// Why setting `key` to `value` (for `ttl_seconds`) is refused, if it is.
pub open spec fn redis_set_refusal(
    url: Seq<char>,
    key: Seq<char>,
    value: Seq<char>,
    ttl_seconds: Option<u64>,
) -> Option<Seq<char>> {
    if redis_key_refusal(url, key) is Some {
        redis_key_refusal(url, key)
    } else if blen(value) > 16777216 {
        Some("Redis value exceeds 16 MiB safety limit"@)
    } else if ttl_seconds matches Some(t) && (t == 0 || t > REDIS_MAX_TTL_SECONDS) {
        Some("Redis TTL must be between 1 second and 365 days"@)
    } else {
        None
    }
}

/// The arguments of a `SET`: key and value, then `EX` and the TTL when one
/// is given.
pub open spec fn redis_set_args(key: Seq<char>, value: Seq<char>, ttl_seconds: Option<u64>) -> Seq<
    Seq<char>,
> {
    seq!["SET"@, key, value] + match ttl_seconds {
        Some(t) => seq!["EX"@, crate::text::dec_chars(t as nat)],
        None => seq![],
    }
}

/// Checks a string write and gives the command that makes it.
pub fn redis_set_command(url: &str, key: &str, value: &str, ttl_seconds: Option<u64>) -> (r: Result<
    Vec<String>,
    NativeDbError,
>)
    ensures
        redis_set_refusal(url@, key@, value@, ttl_seconds) matches Some(m) ==> native_invalid(r, m),
        redis_set_refusal(url@, key@, value@, ttl_seconds) is None ==> (r matches Ok(v) && texts(v@)
            =~= redis_set_args(key@, value@, ttl_seconds)),
{
    redis_key_check(url, key)?;
    if value.as_bytes().len() > 16777216 {
        return Err(invalid("Redis value exceeds 16 MiB safety limit"));
    }
    if let Some(ttl) = ttl_seconds {
        if ttl == 0 || ttl > REDIS_MAX_TTL_SECONDS {
            return Err(invalid("Redis TTL must be between 1 second and 365 days"));
        }
    }
    let mut v: Vec<String> = Vec::new();
    v.push(text("SET"));
    v.push(text(key));
    v.push(text(value));
    if let Some(ttl) = ttl_seconds {
        v.push(text("EX"));
        v.push(u64_text_of(ttl));
    }
    Ok(v)
}

/// The command that reads a key of the given Redis type: whole strings,
/// sets and hashes, the first 200 items of lists and sorted sets (with
/// scores), and a `DUMP` of anything else.
pub open spec fn redis_read_args(kind: Seq<char>, key: Seq<char>) -> Seq<Seq<char>> {
    if kind == "string"@ {
        seq!["GET"@, key]
    } else if kind == "list"@ {
        seq!["LRANGE"@, key, "0"@, "199"@]
    } else if kind == "set"@ {
        seq!["SMEMBERS"@, key]
    } else if kind == "hash"@ {
        seq!["HGETALL"@, key]
    } else if kind == "zset"@ {
        seq!["ZRANGE"@, key, "0"@, "199"@, "WITHSCORES"@]
    } else {
        seq!["DUMP"@, key]
    }
}

pub fn redis_read_command(kind: &str, key: &str) -> (r: Vec<String>)
    ensures
        texts(r@) =~= redis_read_args(kind@, key@),
{
    if str_eq(kind, "string") {
        vec![text("GET"), text(key)]
    } else if str_eq(kind, "list") {
        vec![text("LRANGE"), text(key), text("0"), text("199")]
    } else if str_eq(kind, "set") {
        vec![text("SMEMBERS"), text(key)]
    } else if str_eq(kind, "hash") {
        vec![text("HGETALL"), text(key)]
    } else if str_eq(kind, "zset") {
        vec![text("ZRANGE"), text(key), text("0"), text("199"), text("WITHSCORES")]
    } else {
        vec![text("DUMP"), text(key)]
    }
}

/// A live server answers `PING` with `PONG`.
pub fn check_ping(reply: &str) -> (r: Result<(), NativeDbError>)
    ensures
        reply@ == "PONG"@ ==> r is Ok,
        reply@ != "PONG"@ ==> (r matches Err(NativeDbError::Redis(m)) && m@
            == "unexpected PING response"@),
{
    if str_eq(reply, "PONG") {
        Ok(())
    } else {
        Err(NativeDbError::Redis(text("unexpected PING response")))
    }
}

/// The server description kept from `INFO server`: its first 16,384
/// characters.
pub fn server_info_excerpt(info: &str) -> (r: String)
    ensures
        r@ == (if info@.len() <= 16384 {
            info@
        } else {
            info@.subrange(0, 16384)
        }),
{
    crate::text::take_chars(info, 16384)
}

// ---------------------------------------------------------------------------
// MongoDB requests
// ---------------------------------------------------------------------------

/// Why a MongoDB database and collection pair is refused, if it is.
pub open spec fn mongo_target_refusal(database: Seq<char>, collection: Seq<char>) -> Option<Seq<char>> {
    if !is_mongo_name(database) || !is_mongo_name(collection) {
        Some("invalid MongoDB database/collection name"@)
    } else {
        None
    }
}

/// Checks a browse of a MongoDB collection and gives its page size: 1 to
/// 1000 documents.
pub fn mongo_browse_limit(database: &str, collection: &str, limit: u32) -> (r: Result<i64, NativeDbError>)
    ensures
        mongo_target_refusal(database@, collection@) matches Some(m) ==> native_invalid(r, m),
        mongo_target_refusal(database@, collection@) is None ==> r == Ok::<i64, NativeDbError>(
            (if limit < 1 {
                1
            } else if limit > 1000 {
                1000
            } else {
                limit
            }) as i64,
        ),
{
    safe_mongo_name(database)?;
    safe_mongo_name(collection)?;
    let l: u32 = if limit < 1 {
        1
    } else if limit > 1000 {
        1000
    } else {
        limit
    };
    Ok(l as i64)
}

/// Checks a MongoDB insert of a document with the fields `values`.
pub fn mongo_insert_check(database: &str, collection: &str, values: &Vec<String>) -> (r: Result<
    (),
    NativeDbError,
>)
    ensures
        mongo_target_refusal(database@, collection@) matches Some(m) ==> native_invalid(r, m),
        mongo_target_refusal(database@, collection@) is None ==> match values_refusal(
            texts(values@),
            false,
        ) {
            Some(m) => native_invalid(r, m),
            None => r is Ok,
        },
{
    safe_mongo_name(database)?;
    safe_mongo_name(collection)?;
    validate_values(values, false)
}

/// Checks a MongoDB update of the fields `values` in the documents matching
/// the equality filter on `filter`.
pub fn mongo_update_check(
    database: &str,
    collection: &str,
    values: &Vec<String>,
    filter: &Vec<String>,
) -> (r: Result<(), NativeDbError>)
    ensures
        mongo_target_refusal(database@, collection@) matches Some(m) ==> native_invalid(r, m),
        mongo_target_refusal(database@, collection@) is None ==> match values_refusal(
            texts(values@),
            false,
        ) {
            Some(m) => native_invalid(r, m),
            None => match filter_refusal(texts(filter@)) {
                Some(m) => native_invalid(r, m),
                None => r is Ok,
            },
        },
{
    safe_mongo_name(database)?;
    safe_mongo_name(collection)?;
    validate_values(values, false)?;
    validate_filter(filter)
}

/// Checks a MongoDB delete of the documents matching the equality filter on
/// `filter`.
pub fn mongo_delete_check(database: &str, collection: &str, filter: &Vec<String>) -> (r: Result<
    (),
    NativeDbError,
>)
    ensures
        mongo_target_refusal(database@, collection@) matches Some(m) ==> native_invalid(r, m),
        mongo_target_refusal(database@, collection@) is None ==> match filter_refusal(
            texts(filter@),
        ) {
            Some(m) => native_invalid(r, m),
            None => r is Ok,
        },
{
    safe_mongo_name(database)?;
    safe_mongo_name(collection)?;
    validate_filter(filter)
}

/// Checks a MongoDB database and collection pair (index and statistics
/// reads).
pub fn mongo_target_check(database: &str, collection: &str) -> (r: Result<(), NativeDbError>)
    ensures
        mongo_target_refusal(database@, collection@) matches Some(m) ==> native_invalid(r, m),
        mongo_target_refusal(database@, collection@) is None ==> r is Ok,
{
    safe_mongo_name(database)?;
    safe_mongo_name(collection)
}

/// Every field name of every document, as a set.
pub open spec fn field_names(docs: Seq<Seq<String>>) -> Set<Seq<char>> {
    Set::new(|k: Seq<char>| exists|i: int, j: int| 0 <= i < docs.len() && 0 <= j < docs[i].len() && (#[trigger] docs[i][j])@ == k)
}

/// The columns of a grid of documents: every field name that occurs in any
/// of them, sorted and each once.
pub fn grid_columns(docs: &Vec<Vec<String>>) -> (r: Vec<String>)
    ensures
        strictly_sorted(views(r@)),
        views(r@).to_set() == field_names(docs@.map_values(|d: Vec<String>| d@)),
{
    let ghost ds = docs@.map_values(|d: Vec<String>| d@);
    let mut out: Vec<String> = Vec::new();
    let mut i: usize = 0;
    proof {
        assert(views(out@).to_set() =~= Set::<Seq<char>>::empty());
    }
    while i < docs.len()
        invariant
            ds == docs@.map_values(|d: Vec<String>| d@),
            0 <= i <= docs@.len(),
            strictly_sorted(views(out@)),
            views(out@).to_set() == field_names(ds.subrange(0, i as int)),
        decreases docs@.len() - i,
    {
        let d = &docs[i];
        let mut j: usize = 0;
        while j < d.len()
            invariant
                ds == docs@.map_values(|d: Vec<String>| d@),
                0 <= i < docs@.len(),
                *d == docs@[i as int],
                0 <= j <= d@.len(),
                strictly_sorted(views(out@)),
                views(out@).to_set() == field_names(ds.subrange(0, i as int)).union(
                    Set::new(|k: Seq<char>| exists|jj: int| 0 <= jj < j && (#[trigger] d@[jj])@ == k),
                ),
            decreases d@.len() - j,
        {
            let ghost before = views(out@).to_set();
            insert_sorted(&mut out, d[j].clone());
            proof {
                let lhs = field_names(ds.subrange(0, i as int)).union(
                    Set::new(|k: Seq<char>| exists|jj: int| 0 <= jj < j + 1 && (#[trigger] d@[jj])@ == k),
                );
                assert(views(out@).to_set() =~= lhs) by {
                    assert forall|k: Seq<char>| lhs.contains(k) == before.insert(d@[j as int]@).contains(k) by {
                        if exists|jj: int| 0 <= jj < j + 1 && (#[trigger] d@[jj])@ == k {
                            let jj = choose|jj: int| 0 <= jj < j + 1 && (#[trigger] d@[jj])@ == k;
                            if jj < j {
                                assert(exists|x: int| 0 <= x < j && (#[trigger] d@[x])@ == k);
                            }
                        }
                        if k == d@[j as int]@ {
                            assert(exists|x: int| 0 <= x < j + 1 && (#[trigger] d@[x])@ == k);
                        }
                        if before.contains(k) && k != d@[j as int]@ {
                            if !field_names(ds.subrange(0, i as int)).contains(k) {
                                let x = choose|x: int| 0 <= x < j && (#[trigger] d@[x])@ == k;
                                assert(0 <= x < j + 1 && d@[x]@ == k);
                            }
                        }
                    }
                }
            }
            j += 1;
        }
        proof {
            let s0 = ds.subrange(0, i as int);
            let s1 = ds.subrange(0, i + 1);
            assert(ds[i as int] == d@);
            let inner = Set::new(|k: Seq<char>| exists|jj: int| 0 <= jj < d@.len() && (#[trigger] d@[jj])@ == k);
            assert forall|k: Seq<char>| field_names(s1).contains(k) == field_names(s0).union(inner).contains(k) by {
                if field_names(s1).contains(k) {
                    let (a, b) = choose|a: int, b: int| 0 <= a < s1.len() && 0 <= b < s1[a].len() && (#[trigger] s1[a][b])@ == k;
                    if a < i {
                        assert(s0[a][b] == s1[a][b]);
                        assert(field_names(s0).contains(k));
                    } else {
                        assert(s1[a] == d@);
                        assert(inner.contains(k));
                    }
                }
                if field_names(s0).contains(k) {
                    let (a, b) = choose|a: int, b: int| 0 <= a < s0.len() && 0 <= b < s0[a].len() && (#[trigger] s0[a][b])@ == k;
                    assert(s1[a][b] == s0[a][b]);
                    assert(field_names(s1).contains(k));
                }
                if inner.contains(k) {
                    let b = choose|b: int| 0 <= b < d@.len() && (#[trigger] d@[b])@ == k;
                    assert(s1[i as int][b] == d@[b]);
                    assert(field_names(s1).contains(k));
                }
            }
            assert(field_names(s1) =~= field_names(s0).union(inner));
        }
        i += 1;
    }
    proof {
        assert(ds.subrange(0, docs@.len() as int) =~= ds);
    }
    out
}

// ---------------------------------------------------------------------------
// Read-only jobs and transactions
// ---------------------------------------------------------------------------

/// Native job and transaction identifiers: 8 to 160 bytes of letters,
/// digits, `-`, `_` and `.`.
pub fn validate_native_job_id(id: &str) -> (r: Result<(), NativeDbError>)
    ensures
        is_token(id@, 8, 160, ByteClass::DottedIdent) ==> r is Ok,
        !is_token(id@, 8, 160, ByteClass::DottedIdent) ==> native_invalid(
            r,
            "invalid native PostgreSQL job id"@,
        ),
{
    if token_ok(id, 8, 160, ByteClass::DottedIdent) {
        Ok(())
    } else {
        Err(invalid("invalid native PostgreSQL job id"))
    }
}

/// The identifier of the `seq`-th job or transaction of the process, opened
/// at `now_ms`: the prefix, then both numbers in hexadecimal.
pub fn native_job_id(prefix: &str, now_ms: u128, seq: u64) -> (r: String)
    ensures
        r@ == prefix@ + "_"@ + crate::database_cli::hex_digits(now_ms as nat) + "_"@
            + crate::database_cli::hex_digits(seq as nat),
{
    let mut t = concat(prefix, "_");
    vstd::string::StringExecFns::append(&mut t, crate::database_cli::hex_text(now_ms).as_str());
    vstd::string::StringExecFns::append(&mut t, "_");
    vstd::string::StringExecFns::append(&mut t, crate::database_cli::hex_text(seq as u128).as_str());
    t
}

/// A read-only transaction lives between 10 and 60 seconds.
pub fn transaction_ttl(ttl_seconds: u64) -> (r: u64)
    ensures
        r == (if ttl_seconds < 10 {
            10
        } else if ttl_seconds > 60 {
            60
        } else {
            ttl_seconds
        }),
{
    if ttl_seconds < 10 {
        10
    } else if ttl_seconds > 60 {
        60
    } else {
        ttl_seconds
    }
}

#[derive(Debug, Clone, PartialEq, Eq)]
pub struct NativePostgresTransactionState {
    pub transaction_id: String,
    pub opened_at_unix_ms: u128,
    pub expires_at_unix_ms: u128,
    pub statements_executed: u32,
    pub closed: bool,
}

/// A transaction opened at `now_ms` for the requested time to live.
pub fn open_transaction(transaction_id: String, now_ms: u128, ttl_seconds: u64) -> (r:
    NativePostgresTransactionState)
    requires
        now_ms + 60000 <= u128::MAX,
    ensures
        r.transaction_id == transaction_id,
        r.opened_at_unix_ms == now_ms,
        r.expires_at_unix_ms == now_ms + transaction_ttl_spec(ttl_seconds) * 1000,
        r.statements_executed == 0,
        !r.closed,
{
    let ttl = transaction_ttl(ttl_seconds);
    NativePostgresTransactionState {
        transaction_id,
        opened_at_unix_ms: now_ms,
        expires_at_unix_ms: now_ms + ttl as u128 * 1000,
        statements_executed: 0,
        closed: false,
    }
}

pub open spec fn transaction_ttl_spec(t: u64) -> int {
    if t < 10 {
        10
    } else if t > 60 {
        60
    } else {
        t as int
    }
}

/// Whether a transaction may run one more statement at `now_ms`: an expired
/// one is closed and refused, and at most 100 statements run in one.
pub fn transaction_admit(state: &mut NativePostgresTransactionState, now_ms: u128) -> (r: Result<
    (),
    NativeDbError,
>)
    ensures
        old(state).expires_at_unix_ms < now_ms ==> native_invalid(
            r,
            "native PostgreSQL transaction expired"@,
        ) && final(state).closed && final(state).statements_executed == old(
            state,
        ).statements_executed,
        old(state).expires_at_unix_ms >= now_ms && old(state).statements_executed >= 100
            ==> native_invalid(r, "native PostgreSQL transaction statement limit reached"@)
            && *final(state) == *old(state),
        old(state).expires_at_unix_ms >= now_ms && old(state).statements_executed < 100 ==> r is Ok
            && *final(state) == *old(state),
        final(state).transaction_id == old(state).transaction_id,
        final(state).opened_at_unix_ms == old(state).opened_at_unix_ms,
        final(state).expires_at_unix_ms == old(state).expires_at_unix_ms,
{
    if state.expires_at_unix_ms < now_ms {
        state.closed = true;
        return Err(invalid("native PostgreSQL transaction expired"));
    }
    if state.statements_executed >= 100 {
        return Err(invalid("native PostgreSQL transaction statement limit reached"));
    }
    Ok(())
}

/// One more statement ran in the transaction.
pub fn transaction_ran(state: &mut NativePostgresTransactionState)
    ensures
        final(state).statements_executed == (if old(state).statements_executed == u32::MAX {
            u32::MAX as int
        } else {
            old(state).statements_executed + 1
        }),
        final(state).transaction_id == old(state).transaction_id,
        final(state).opened_at_unix_ms == old(state).opened_at_unix_ms,
        final(state).expires_at_unix_ms == old(state).expires_at_unix_ms,
        final(state).closed == old(state).closed,
{
    state.statements_executed = state.statements_executed.saturating_add(1);
}

/// At most 32 transactions and 64 jobs are held at once.
pub fn registry_limit_check(held: usize, transactions: bool) -> (r: Result<(), NativeDbError>)
    ensures
        transactions && held >= 32 ==> native_invalid(
            r,
            "native PostgreSQL transaction limit reached"@,
        ),
        !transactions && held >= 64 ==> native_invalid(r, "native PostgreSQL job limit reached"@),
        (if transactions {
            held < 32
        } else {
            held < 64
        }) ==> r is Ok,
{
    if transactions && held >= 32 {
        return Err(invalid("native PostgreSQL transaction limit reached"));
    }
    if !transactions && held >= 64 {
        return Err(invalid("native PostgreSQL job limit reached"));
    }
    Ok(())
}

} // verus!
