//! Databases reached through their command-line clients (psql, mysql,
//! mariadb, mongosh, redis-cli): which invocations the library makes, the
//! read-only gate on the statements it accepts, and how client output is read.
use crate::text::{
    blen, chars_of, char_is_ws, concat, is_token, is_ws, str_eq, string_of_chars, token_ok, trim,
    trim_text, upper_char, upper_chars, utf8, ByteClass,
};
use vstd::prelude::*;
use crate::digest::Sha256Stream;

verus! {

#[derive(Debug, Clone, PartialEq, Eq)]
pub enum CliDatabaseError {
    Invalid(String),
    ClientUnavailable(String),
    Client(String),
    Encoding,
}

impl CliDatabaseError {
    /// The error as it is reported.
    pub fn message(&self) -> (r: String)
        ensures
            r@ == match self {
                CliDatabaseError::Invalid(m) => "database CLI request rejected: "@ + m@,
                CliDatabaseError::ClientUnavailable(m) => "database client unavailable: "@ + m@,
                CliDatabaseError::Client(m) => "database client failed: "@ + m@,
                CliDatabaseError::Encoding => "database output is not UTF-8"@,
            },
    {
        match self {
            CliDatabaseError::Invalid(m) => concat("database CLI request rejected: ", m.as_str()),
            CliDatabaseError::ClientUnavailable(m) => concat("database client unavailable: ", m.as_str()),
            CliDatabaseError::Client(m) => concat("database client failed: ", m.as_str()),
            CliDatabaseError::Encoding => "database output is not UTF-8".to_owned(),
        }
    }
}

/// Whether `r` failed with `Invalid(msg)`.
pub open spec fn cli_invalid<T>(r: Result<T, CliDatabaseError>, msg: Seq<char>) -> bool {
    r matches Err(CliDatabaseError::Invalid(m)) && m@ == msg
}

/// Whether `r` failed with `Client(msg)`.
pub open spec fn cli_client<T>(r: Result<T, CliDatabaseError>, msg: Seq<char>) -> bool {
    r matches Err(CliDatabaseError::Client(m)) && m@ == msg
}

fn invalid(msg: &str) -> (e: CliDatabaseError)
    ensures
        e matches CliDatabaseError::Invalid(m) && m@ == msg@,
{
    CliDatabaseError::Invalid(msg.to_owned())
}

#[derive(Debug, Clone, Copy, PartialEq, Eq, Structural)]
pub enum Engine {
    Postgresql,
    Mysql,
    Mariadb,
    Mongo,
    Redis,
}

/// The engine a name stands for, aliases included.
pub open spec fn engine_named(v: Seq<char>) -> Option<Engine> {
    if v == "postgresql"@ || v == "postgres"@ || v == "pgsql"@ {
        Some(Engine::Postgresql)
    } else if v == "mysql"@ {
        Some(Engine::Mysql)
    } else if v == "mariadb"@ {
        Some(Engine::Mariadb)
    } else if v == "mongo"@ || v == "mongodb"@ {
        Some(Engine::Mongo)
    } else if v == "redis"@ {
        Some(Engine::Redis)
    } else {
        None
    }
}

/// The canonical identifier of an engine.
pub open spec fn engine_id(e: Engine) -> Seq<char> {
    match e {
        Engine::Postgresql => "postgresql"@,
        Engine::Mysql => "mysql"@,
        Engine::Mariadb => "mariadb"@,
        Engine::Mongo => "mongodb"@,
        Engine::Redis => "redis"@,
    }
}

/// The client program that serves an engine.
pub open spec fn client_program(e: Engine) -> Seq<char> {
    match e {
        Engine::Postgresql => "psql"@,
        Engine::Mysql => "mysql"@,
        Engine::Mariadb => "mariadb"@,
        Engine::Mongo => "mongosh"@,
        Engine::Redis => "redis-cli"@,
    }
}

impl Engine {
    pub fn parse(value: &str) -> (r: Result<Engine, CliDatabaseError>)
        ensures
            engine_named(value@) matches Some(e) ==> r == Ok::<Engine, CliDatabaseError>(e),
            engine_named(value@) is None ==> cli_invalid(
                r,
                "unsupported CLI database engine: "@ + value@,
            ),
    {
        if str_eq(value, "postgresql") || str_eq(value, "postgres") || str_eq(value, "pgsql") {
            Ok(Engine::Postgresql)
        } else if str_eq(value, "mysql") {
            Ok(Engine::Mysql)
        } else if str_eq(value, "mariadb") {
            Ok(Engine::Mariadb)
        } else if str_eq(value, "mongo") || str_eq(value, "mongodb") {
            Ok(Engine::Mongo)
        } else if str_eq(value, "redis") {
            Ok(Engine::Redis)
        } else {
            Err(CliDatabaseError::Invalid(concat("unsupported CLI database engine: ", value)))
        }
    }

    pub fn id(self) -> (r: &'static str)
        ensures
            r@ == engine_id(self),
    {
        match self {
            Engine::Postgresql => "postgresql",
            Engine::Mysql => "mysql",
            Engine::Mariadb => "mariadb",
            Engine::Mongo => "mongodb",
            Engine::Redis => "redis",
        }
    }
}

/// The name of the client program for `engine`.
pub fn client_name(engine: Engine) -> (r: &'static str)
    ensures
        r@ == client_program(engine),
{
    match engine {
        Engine::Postgresql => "psql",
        Engine::Mysql => "mysql",
        Engine::Mariadb => "mariadb",
        Engine::Mongo => "mongosh",
        Engine::Redis => "redis-cli",
    }
}

/// Job identifiers: 8 to 160 bytes of letters, digits, `-`, `_` and `.`.
pub open spec fn is_job_id(id: Seq<char>) -> bool {
    is_token(id, 8, 160, ByteClass::DottedIdent)
}

pub fn validate_job_id(id: &str) -> (r: Result<(), CliDatabaseError>)
    ensures
        is_job_id(id@) ==> r is Ok,
        !is_job_id(id@) ==> cli_invalid(r, "invalid database job id"@),
{
    if token_ok(id, 8, 160, ByteClass::DottedIdent) {
        Ok(())
    } else {
        Err(invalid("invalid database job id"))
    }
}

// ---------------------------------------------------------------------------
// The read-only gate
// ---------------------------------------------------------------------------

/// The statement without surrounding white space and without one trailing `;`.
pub open spec fn sql_body(s: Seq<char>) -> Seq<char> {
    let t = trim(s);
    if t.len() > 0 && t.last() == ';' {
        t.drop_last()
    } else {
        t
    }
}

/// Where the first word of `s` ends: at the first white space or `(`.
pub open spec fn word_end(s: Seq<char>, i: int) -> int
    decreases s.len() - i,
{
    if i < 0 || i >= s.len() {
        s.len() as int
    } else if is_ws(s[i]) || s[i] == '(' {
        i
    } else {
        word_end(s, i + 1)
    }
}

/// The leading keyword of a statement, in upper case.
pub open spec fn sql_keyword(s: Seq<char>) -> Seq<char> {
    let u = upper_chars(sql_body(s));
    u.subrange(0, word_end(u, 0))
}

/// The clauses and functions that let a `SELECT` write, lock or signal,
/// looked for in the upper-cased statement with a space added at each end.
pub open spec fn has_side_effect_clause(padded: Seq<char>) -> bool {
    crate::text::contains(padded, " INTO "@) || crate::text::contains(padded, " FOR UPDATE"@)
        || crate::text::contains(padded, " FOR SHARE"@) || crate::text::contains(
        padded,
        " LOCK IN SHARE MODE"@,
    ) || crate::text::contains(padded, " GET_LOCK("@) || crate::text::contains(
        padded,
        " RELEASE_LOCK("@,
    ) || crate::text::contains(padded, " PG_TERMINATE_BACKEND("@) || crate::text::contains(
        padded,
        " PG_CANCEL_BACKEND("@,
    ) || crate::text::contains(padded, " PG_ADVISORY_LOCK("@)
}

/// Why a statement is refused by the read-only gate, if it is.
pub open spec fn read_only_refusal(s: Seq<char>) -> Option<Seq<char>> {
    if blen(s) > 1048576 {
        Some("query too large"@)
    } else if trim(s).len() == 0 {
        Some("query is empty"@)
    } else if sql_body(s).contains(';') {
        Some("multiple SQL statements are not allowed"@)
    } else {
        let kw = sql_keyword(s);
        if !(kw == "SELECT"@ || kw == "SHOW"@ || kw == "DESCRIBE"@ || kw == "DESC"@) {
            Some(
                "only single-statement SELECT/SHOW/DESCRIBE queries are accepted by the CLI provider baseline"@,
            )
        } else if kw == "SELECT"@ && has_side_effect_clause(
            " "@ + upper_chars(sql_body(s)) + " "@,
        ) {
            Some(
                "query contains a side-effect-capable clause/function blocked by the read-only baseline"@,
            )
        } else {
            None
        }
    }
}

/// The read-only gate: one `SELECT`, `SHOW`, `DESCRIBE` or `DESC` statement of
/// at most 1 MiB, with no second statement and, for `SELECT`, none of the
/// clauses that write, lock or signal.
pub fn enforce_read_only_sql(statement: &str) -> (r: Result<(), CliDatabaseError>)
    ensures
        read_only_refusal(statement@) is None ==> r is Ok,
        read_only_refusal(statement@) matches Some(m) ==> cli_invalid(r, m),
{
    if statement.as_bytes().len() > 1048576 {
        return Err(invalid("query too large"));
    }
    let trimmed = trim_text(statement);
    let tv = chars_of(trimmed.as_str());
    let n = tv.len();
    if n == 0 {
        return Err(invalid("query is empty"));
    }
    let end: usize = if tv[n - 1] == ';' { n - 1 } else { n };
    let ghost body = sql_body(statement@);
    assert(body =~= tv@.subrange(0, end as int));
    let mut i: usize = 0;
    while i < end
        invariant
            tv@.len() == n,
            end <= n,
            body == tv@.subrange(0, end as int),
            tv@ == trim(statement@),
            body == sql_body(statement@),
            n > 0,
            blen(statement@) <= 1048576,
            0 <= i <= end,
            forall|j: int| 0 <= j < i ==> tv@[j] != ';',
        decreases end - i,
    {
        if tv[i] == ';' {
            assert(body[i as int] == ';');
            return Err(invalid("multiple SQL statements are not allowed"));
        }
        i += 1;
    }
    assert(!body.contains(';')) by {
        assert forall|j: int| 0 <= j < body.len() implies body[j] != ';' by {
            assert(body[j] == tv@[j]);
        }
    }
    let mut uv: Vec<char> = Vec::new();
    let mut k: usize = 0;
    while k < end
        invariant
            tv@.len() == n,
            end <= n,
            body == tv@.subrange(0, end as int),
            0 <= k <= end,
            uv@ =~= upper_chars(body.subrange(0, k as int)),
        decreases end - k,
    {
        let c = tv[k];
        let d = if 'a' <= c && c <= 'z' {
            ((c as u8) - 32) as char
        } else {
            c
        };
        uv.push(d);
        assert(upper_chars(body.subrange(0, k + 1)) =~= upper_chars(body.subrange(0, k as int)).push(
            upper_char(c),
        ));
        k += 1;
    }
    assert(body.subrange(0, end as int) =~= body);
    let ghost u = upper_chars(body);
    let mut w: usize = 0;
    while w < end && !(char_is_ws(uv[w]) || uv[w] == '(')
        invariant
            uv@ == u,
            u.len() == end,
            0 <= w <= end,
            word_end(u, 0) == word_end(u, w as int),
        decreases end - w,
    {
        w += 1;
    }
    let keyword = string_of_chars(&uv, 0, w);
    let upper = string_of_chars(&uv, 0, end);
    assert(upper@ =~= u);
    let is_select = str_eq(keyword.as_str(), "SELECT");
    if !(is_select || str_eq(keyword.as_str(), "SHOW") || str_eq(keyword.as_str(), "DESCRIBE")
        || str_eq(keyword.as_str(), "DESC")) {
        return Err(
            invalid(
                "only single-statement SELECT/SHOW/DESCRIBE queries are accepted by the CLI provider baseline",
            ),
        );
    }
    if is_select {
        let padded = crate::text::concat3(" ", upper.as_str(), " ");
        let p = padded.as_str();
        if crate::text::has_substring(p, " INTO ") || crate::text::has_substring(p, " FOR UPDATE")
            || crate::text::has_substring(p, " FOR SHARE") || crate::text::has_substring(
            p,
            " LOCK IN SHARE MODE",
        ) || crate::text::has_substring(p, " GET_LOCK(") || crate::text::has_substring(
            p,
            " RELEASE_LOCK(",
        ) || crate::text::has_substring(p, " PG_TERMINATE_BACKEND(")
            || crate::text::has_substring(p, " PG_CANCEL_BACKEND(") || crate::text::has_substring(
            p,
            " PG_ADVISORY_LOCK(",
        ) {
            return Err(
                invalid(
                    "query contains a side-effect-capable clause/function blocked by the read-only baseline",
                ),
            );
        }
    }
    Ok(())
}


// ---------------------------------------------------------------------------
// Connections and client invocations
// ---------------------------------------------------------------------------

/// Where and as whom a client connects. `credential_file` names a file that
/// the client reads the password from.
#[derive(Debug, Clone, PartialEq, Eq)]
pub struct ConnectionSpec {
    pub engine: Engine,
    pub host: Option<String>,
    pub port: Option<u16>,
    pub user: Option<String>,
    pub database: Option<String>,
    pub credential_file: Option<String>,
    pub service: Option<String>,
}

/// The text of an optional string.
pub open spec fn oview(o: Option<String>) -> Option<Seq<char>> {
    match o {
        Some(s) => Some(s@),
        None => None,
    }
}

/// A connection field that could smuggle a second line or end a C string.
pub open spec fn unsafe_field(v: Option<Seq<char>>) -> bool {
    match v {
        Some(s) => blen(s) > 512 || s.contains('\0') || s.contains('\n') || s.contains('\r'),
        None => false,
    }
}

/// Why a connection is refused, if it is.
pub open spec fn spec_refusal(spec: ConnectionSpec, credential_file_exists: bool) -> Option<
    Seq<char>,
> {
    if unsafe_field(oview(spec.host)) || unsafe_field(oview(spec.user)) || unsafe_field(
        oview(spec.database),
    ) || unsafe_field(oview(spec.service)) {
        Some("unsafe connection field"@)
    } else if spec.credential_file is Some && !credential_file_exists {
        Some("credential file not found"@)
    } else {
        None
    }
}

fn field_unsafe(v: &Option<String>) -> (r: bool)
    ensures
        r == unsafe_field(oview(*v)),
{
    match v {
        None => false,
        Some(s) => {
            if s.as_str().as_bytes().len() > 512 {
                return true;
            }
            let mut bad = false;
            for c in it: s.as_str().chars()
                invariant
                    it.seq() == s@,
                    bad == exists|j: int|
                        0 <= j < it.index() && (s@[j] == '\0' || s@[j] == '\n' || s@[j] == '\r'),
            {
                assert(c == s@[it.index() as int]);
                if c == '\0' || c == '\n' || c == '\r' {
                    bad = true;
                }
            }
            proof {
                if bad {
                    let j = choose|j: int|
                        0 <= j < s@.len() && (s@[j] == '\0' || s@[j] == '\n' || s@[j] == '\r');
                    if s@[j] == '\0' {
                        assert(s@.contains('\0'));
                    } else if s@[j] == '\n' {
                        assert(s@.contains('\n'));
                    } else {
                        assert(s@.contains('\r'));
                    }
                }
            }
            bad
        },
    }
}

/// Connection fields are at most 512 bytes with no NUL, CR or LF, and a named
/// credential file exists (`credential_file_exists` reports that).
pub fn validate_spec(spec: &ConnectionSpec, credential_file_exists: bool) -> (r: Result<
    (),
    CliDatabaseError,
>)
    ensures
        spec_refusal(*spec, credential_file_exists) is None ==> r is Ok,
        spec_refusal(*spec, credential_file_exists) matches Some(m) ==> cli_invalid(r, m),
{
    if field_unsafe(&spec.host) || field_unsafe(&spec.user) || field_unsafe(&spec.database)
        || field_unsafe(&spec.service) {
        return Err(invalid("unsafe connection field"));
    }
    if spec.credential_file.is_some() && !credential_file_exists {
        return Err(invalid("credential file not found"));
    }
    Ok(())
}

/// One client invocation: the program, its arguments and the environment
/// variables set for it.
#[derive(Debug, Clone, PartialEq, Eq)]
pub struct DbCommand {
    pub program: String,
    pub args: Vec<String>,
    pub env: Vec<(String, String)>,
}

/// The text of every argument.
pub open spec fn argv(v: Seq<String>) -> Seq<Seq<char>> {
    v.map_values(|s: String| s@)
}

/// The text of every environment entry.
pub open spec fn envv(v: Seq<(String, String)>) -> Seq<(Seq<char>, Seq<char>)> {
    v.map_values(|p: (String, String)| (p.0@, p.1@))
}

/// Whether `c` runs `program` with `args` and `env`.
pub open spec fn runs_db(
    c: DbCommand,
    program: Seq<char>,
    args: Seq<Seq<char>>,
    env: Seq<(Seq<char>, Seq<char>)>,
) -> bool {
    c.program@ == program && argv(c.args@) =~= args && envv(c.env@) =~= env
}

/// The port as decimal text.
pub open spec fn port_text(p: Option<u16>) -> Option<Seq<char>> {
    match p {
        Some(x) => Some(crate::text::dec_chars(x as nat)),
        None => None,
    }
}

/// `[(name, v)]` when `v` is present.
pub open spec fn opt_env(name: Seq<char>, v: Option<Seq<char>>) -> Seq<(Seq<char>, Seq<char>)> {
    match v {
        Some(x) => seq![(name, x)],
        None => seq![],
    }
}

/// `[prefix + v]` when `v` is present.
pub open spec fn opt_flag(prefix: Seq<char>, v: Option<Seq<char>>) -> Seq<Seq<char>> {
    match v {
        Some(x) => seq![prefix + x],
        None => seq![],
    }
}

/// `[flag, v]` when `v` is present.
pub open spec fn opt_pair(flag: Seq<char>, v: Option<Seq<char>>) -> Seq<Seq<char>> {
    match v {
        Some(x) => seq![flag, x],
        None => seq![],
    }
}

/// psql in unaligned, tab-separated mode, with no startup file and no footer.
pub open spec fn psql_args(statement: Seq<char>) -> Seq<Seq<char>> {
    seq![
        "-X"@,
        "--no-psqlrc"@,
        "--no-align"@,
        "--field-separator=\t"@,
        "--pset"@,
        "footer=off"@,
        "--command"@,
        statement,
    ]
}

/// psql reads the connection from `PG*` variables; every session is read-only
/// with a 15 s statement timeout.
pub open spec fn psql_env(spec: ConnectionSpec) -> Seq<(Seq<char>, Seq<char>)> {
    seq![("PGOPTIONS"@, "-c default_transaction_read_only=on -c statement_timeout=15000"@)]
        + opt_env("PGHOST"@, oview(spec.host)) + opt_env("PGPORT"@, port_text(spec.port))
        + opt_env("PGUSER"@, oview(spec.user)) + opt_env("PGDATABASE"@, oview(spec.database))
        + opt_env("PGSERVICE"@, oview(spec.service)) + opt_env(
        "PGPASSFILE"@,
        oview(spec.credential_file),
    )
}

/// mysql and mariadb in batch mode; mysql sessions are set read-only.
pub open spec fn mysql_args(spec: ConnectionSpec, statement: Seq<char>) -> Seq<Seq<char>> {
    opt_flag("--defaults-extra-file="@, oview(spec.credential_file)) + seq![
        "--batch"@,
        "--raw"@,
    ] + (if spec.engine == Engine::Mysql {
        seq!["--init-command=SET SESSION TRANSACTION READ ONLY"@]
    } else {
        seq![]
    }) + opt_flag("--host="@, oview(spec.host)) + opt_flag("--port="@, port_text(spec.port))
        + opt_flag("--user="@, oview(spec.user)) + opt_flag("--database="@, oview(spec.database))
        + seq!["--execute"@, statement]
}

/// Whether `c` is the relational client invocation that runs `statement`.
pub open spec fn relational_run(c: DbCommand, spec: ConnectionSpec, statement: Seq<char>) -> bool {
    if spec.engine == Engine::Postgresql {
        runs_db(c, "psql"@, psql_args(statement), psql_env(spec))
    } else {
        runs_db(c, client_program(spec.engine), mysql_args(spec, statement), seq![])
    }
}

pub open spec fn is_relational(e: Engine) -> bool {
    e == Engine::Postgresql || e == Engine::Mysql || e == Engine::Mariadb
}

fn s(v: &str) -> (r: String)
    ensures
        r@ == v@,
{
    v.to_owned()
}

fn port_string(p: Option<u16>) -> (r: Option<String>)
    ensures
        oview(r) == port_text(p),
{
    match p {
        Some(x) => Some(crate::text::u64_text_of(x as u64)),
        None => None,
    }
}

fn push_env(env: &mut Vec<(String, String)>, name: &str, v: &Option<String>)
    ensures
        envv(final(env)@) =~= envv(old(env)@) + opt_env(name@, oview(*v)),
{
    if let Some(x) = v {
        env.push((s(name), x.clone()));
    }
}

fn push_flag(args: &mut Vec<String>, prefix: &str, v: &Option<String>)
    ensures
        argv(final(args)@) =~= argv(old(args)@) + opt_flag(prefix@, oview(*v)),
{
    if let Some(x) = v {
        args.push(concat(prefix, x.as_str()));
    }
}

fn push_pair(args: &mut Vec<String>, flag: &str, v: &Option<String>)
    ensures
        argv(final(args)@) =~= argv(old(args)@) + opt_pair(flag@, oview(*v)),
{
    if let Some(x) = v {
        args.push(s(flag));
        args.push(x.clone());
    }
}

fn push_one(args: &mut Vec<String>, v: &str)
    ensures
        argv(final(args)@) =~= argv(old(args)@) + seq![v@],
{
    args.push(s(v));
}

fn push_owned(args: &mut Vec<String>, v: String)
    ensures
        argv(final(args)@) =~= argv(old(args)@) + seq![v@],
{
    args.push(v);
}

fn psql_command(spec: &ConnectionSpec, statement: &str) -> (r: DbCommand)
    ensures
        runs_db(r, "psql"@, psql_args(statement@), psql_env(*spec)),
{
    let args = vec![
        s("-X"),
        s("--no-psqlrc"),
        s("--no-align"),
        s("--field-separator=\t"),
        s("--pset"),
        s("footer=off"),
        s("--command"),
        s(statement),
    ];
    let mut env: Vec<(String, String)> = Vec::new();
    env.push((s("PGOPTIONS"), s("-c default_transaction_read_only=on -c statement_timeout=15000")));
    push_env(&mut env, "PGHOST", &spec.host);
    push_env(&mut env, "PGPORT", &port_string(spec.port));
    push_env(&mut env, "PGUSER", &spec.user);
    push_env(&mut env, "PGDATABASE", &spec.database);
    push_env(&mut env, "PGSERVICE", &spec.service);
    push_env(&mut env, "PGPASSFILE", &spec.credential_file);
    DbCommand { program: s("psql"), args, env }
}

fn mysql_command(spec: &ConnectionSpec, statement: &str) -> (r: DbCommand)
    ensures
        runs_db(r, client_program(spec.engine), mysql_args(*spec, statement@), seq![]),
{
    let mut args: Vec<String> = Vec::new();
    push_flag(&mut args, "--defaults-extra-file=", &spec.credential_file);
    push_one(&mut args, "--batch");
    push_one(&mut args, "--raw");
    let ghost a1 = argv(args@);
    if spec.engine == Engine::Mysql {
        push_one(&mut args, "--init-command=SET SESSION TRANSACTION READ ONLY");
    }
    let ghost a2 = argv(args@);
    assert(a2 =~= a1 + (if spec.engine == Engine::Mysql {
        seq!["--init-command=SET SESSION TRANSACTION READ ONLY"@]
    } else {
        seq![]
    }));
    push_flag(&mut args, "--host=", &spec.host);
    push_flag(&mut args, "--port=", &port_string(spec.port));
    push_flag(&mut args, "--user=", &spec.user);
    push_flag(&mut args, "--database=", &spec.database);
    push_one(&mut args, "--execute");
    push_one(&mut args, statement);
    assert(argv(args@) =~= mysql_args(*spec, statement@));
    DbCommand { program: s(client_name(spec.engine)), args, env: Vec::new() }
}

/// The client invocation that runs a read query: psql for PostgreSQL, the
/// engine's own client for MySQL and MariaDB; no other engine runs queries.
pub fn build_read_query_command(spec: &ConnectionSpec, statement: &str) -> (r: Result<
    DbCommand,
    CliDatabaseError,
>)
    ensures
        is_relational(spec.engine) ==> (r matches Ok(c) && relational_run(c, *spec, statement@)),
        !is_relational(spec.engine) ==> cli_invalid(r, "database query job engine is unsupported"@),
{
    match spec.engine {
        Engine::Postgresql => Ok(psql_command(spec, statement)),
        Engine::Mysql | Engine::Mariadb => Ok(mysql_command(spec, statement)),
        _ => Err(invalid("database query job engine is unsupported")),
    }
}

/// A read query through the relational clients: the connection is checked
/// first, MongoDB and Redis take no queries, the statement must pass the
/// read-only gate, and the client program must have been found
/// (`client_available`).
pub fn read_only_query_command(
    spec: &ConnectionSpec,
    statement: &str,
    credential_file_exists: bool,
    client_available: bool,
) -> (r: Result<DbCommand, CliDatabaseError>)
    ensures
        spec_refusal(*spec, credential_file_exists) matches Some(m) ==> cli_invalid(r, m),
        spec_refusal(*spec, credential_file_exists) is None && !is_relational(spec.engine)
            ==> cli_invalid(
            r,
            "arbitrary script/query execution is disabled for MongoDB/Redis baseline; use introspection operations"@,
        ),
        spec_refusal(*spec, credential_file_exists) is None && is_relational(spec.engine)
            ==> match read_only_refusal(statement@) {
            Some(m) => cli_invalid(r, m),
            None => if client_available {
                r matches Ok(c) && relational_run(c, *spec, statement@)
            } else {
                r matches Err(CliDatabaseError::ClientUnavailable(n)) && n@ == client_program(
                    spec.engine,
                )
            },
        },
{
    validate_spec(spec, credential_file_exists)?;
    match spec.engine {
        Engine::Postgresql | Engine::Mysql | Engine::Mariadb => {
            enforce_read_only_sql(statement)?;
            if !client_available {
                return Err(CliDatabaseError::ClientUnavailable(s(client_name(spec.engine))));
            }
            build_read_query_command(spec, statement)
        },
        _ => Err(
            invalid(
                "arbitrary script/query execution is disabled for MongoDB/Redis baseline; use introspection operations",
            ),
        ),
    }
}

/// The catalogue query that lists the tables of a relational engine.
pub open spec fn inspection_sql(e: Engine) -> Seq<char> {
    if e == Engine::Postgresql {
        "SELECT table_schema, table_name, table_type FROM information_schema.tables WHERE table_schema NOT IN ('pg_catalog','information_schema') ORDER BY table_schema, table_name"@
    } else {
        "SELECT TABLE_SCHEMA, TABLE_NAME, TABLE_TYPE FROM information_schema.TABLES WHERE TABLE_SCHEMA NOT IN ('information_schema','mysql','performance_schema','sys') ORDER BY TABLE_SCHEMA, TABLE_NAME"@
    }
}

/// The script mongosh evaluates to list the collections.
pub open spec fn mongo_list_script() -> Seq<char> {
    "JSON.stringify(db.getCollectionInfos({}, {nameOnly:true}).map(x => ({name:x.name,type:x.type})))"@
}

/// `[v]` when `v` is present.
pub open spec fn opt_one(v: Option<Seq<char>>) -> Seq<Seq<char>> {
    match v {
        Some(x) => seq![x],
        None => seq![],
    }
}

/// mongosh, quiet, on the given host, port and database, listing collections.
pub open spec fn mongo_inspect_args(spec: ConnectionSpec) -> Seq<Seq<char>> {
    seq!["--quiet"@] + opt_pair("--host"@, oview(spec.host)) + opt_pair(
        "--port"@,
        port_text(spec.port),
    ) + opt_one(oview(spec.database)) + seq!["--eval"@, mongo_list_script()]
}

/// The Redis database index a database name stands for, as `u16` parsing
/// reads it.
pub open spec fn redis_index(db: Seq<char>) -> Option<nat> {
    match crate::text::u128_text(db) {
        Some(v) => if v <= 65535 {
            Some(v as nat)
        } else {
            None
        },
        None => None,
    }
}

/// redis-cli on the given host, port and database index, scanning keys.
pub open spec fn redis_inspect_args(spec: ConnectionSpec, index: Option<nat>) -> Seq<Seq<char>> {
    opt_pair("-h"@, oview(spec.host)) + opt_pair("-p"@, port_text(spec.port)) + (match index {
        Some(i) => seq!["-n"@, crate::text::dec_chars(i)],
        None => seq![],
    }) + seq!["--scan"@, "--count"@, "500"@]
}

/// Why an inspection is refused and with which error, in the order the
/// checks run; `None` when it runs.
pub open spec fn inspection_refusal(
    spec: ConnectionSpec,
    credential_file_exists: bool,
    client_available: bool,
) -> Option<(bool, Seq<char>)> {
    if spec_refusal(spec, credential_file_exists) is Some {
        Some((true, spec_refusal(spec, credential_file_exists)->0))
    } else if !client_available {
        Some((false, client_program(spec.engine)))
    } else if spec.engine == Engine::Mongo && spec.user is Some {
        Some(
            (
                true,
                "Mongo authenticated CLI baseline requires external mongosh configuration; username/password argv exposure is intentionally disabled"@,
            ),
        )
    } else if spec.engine == Engine::Redis && spec.database is Some && redis_index(
        spec.database->0@,
    ) is None {
        Some((true, "Redis database must be numeric"@))
    } else if spec.engine == Engine::Redis && (spec.user is Some || spec.credential_file is Some) {
        Some(
            (
                true,
                "Redis credentials must be supplied through the local REDISCLI_AUTH/environment configuration; secret argv exposure is disabled"@,
            ),
        )
    } else {
        None
    }
}

/// Whether `c` is the client invocation that inspects `spec`'s database.
pub open spec fn inspection_run(c: DbCommand, spec: ConnectionSpec) -> bool {
    if is_relational(spec.engine) {
        relational_run(c, spec, inspection_sql(spec.engine))
    } else if spec.engine == Engine::Mongo {
        runs_db(c, "mongosh"@, mongo_inspect_args(spec), seq![])
    } else {
        runs_db(
            c,
            "redis-cli"@,
            redis_inspect_args(
                spec,
                match spec.database {
                    Some(d) => redis_index(d@),
                    None => None,
                },
            ),
            seq![],
        )
    }
}

fn redis_command(spec: &ConnectionSpec) -> (r: Result<DbCommand, CliDatabaseError>)
    requires
        spec.engine == Engine::Redis,
        spec_refusal(*spec, true) is None,
    ensures
        match inspection_refusal(*spec, true, true) {
            Some((_, m)) => cli_invalid(r, m),
            None => r matches Ok(c) && inspection_run(c, *spec),
        },
{
    let mut args: Vec<String> = Vec::new();
    push_pair(&mut args, "-h", &spec.host);
    push_pair(&mut args, "-p", &port_string(spec.port));
    let ghost a1 = argv(args@);
    if let Some(db) = &spec.database {
        let index = match crate::text::parse_u128(db.as_str()) {
            Some(v) => {
                if v > 65535 {
                    return Err(invalid("Redis database must be numeric"));
                }
                v
            },
            None => {
                return Err(invalid("Redis database must be numeric"));
            },
        };
        push_one(&mut args, "-n");
        push_owned(&mut args, crate::text::u128_text_of(index));
    }
    let ghost a2 = argv(args@);
    assert(a2 =~= a1 + match spec.database {
        Some(d) => match redis_index(d@) {
            Some(i) => seq!["-n"@, crate::text::dec_chars(i)],
            None => seq![],
        },
        None => seq![],
    });
    if spec.user.is_some() || spec.credential_file.is_some() {
        return Err(
            invalid(
                "Redis credentials must be supplied through the local REDISCLI_AUTH/environment configuration; secret argv exposure is disabled",
            ),
        );
    }
    push_one(&mut args, "--scan");
    push_one(&mut args, "--count");
    push_one(&mut args, "500");
    Ok(DbCommand { program: s("redis-cli"), args, env: Vec::new() })
}

fn mongo_command(spec: &ConnectionSpec) -> (r: Result<DbCommand, CliDatabaseError>)
    requires
        spec.engine == Engine::Mongo,
    ensures
        spec.user is Some ==> cli_invalid(
            r,
            "Mongo authenticated CLI baseline requires external mongosh configuration; username/password argv exposure is intentionally disabled"@,
        ),
        spec.user is None ==> (r matches Ok(c) && inspection_run(c, *spec)),
{
    let mut args: Vec<String> = Vec::new();
    push_one(&mut args, "--quiet");
    push_pair(&mut args, "--host", &spec.host);
    push_pair(&mut args, "--port", &port_string(spec.port));
    let ghost a1 = argv(args@);
    if let Some(db) = &spec.database {
        args.push(db.clone());
    }
    assert(argv(args@) =~= a1 + opt_one(oview(spec.database)));
    if spec.user.is_some() {
        return Err(
            invalid(
                "Mongo authenticated CLI baseline requires external mongosh configuration; username/password argv exposure is intentionally disabled",
            ),
        );
    }
    push_one(&mut args, "--eval");
    push_one(
        &mut args,
        "JSON.stringify(db.getCollectionInfos({}, {nameOnly:true}).map(x => ({name:x.name,type:x.type})))",
    );
    Ok(DbCommand { program: s("mongosh"), args, env: Vec::new() })
}

/// The client invocation that inspects a database: the catalogue query for
/// the relational engines, a collection listing through mongosh, a key scan
/// through redis-cli. The connection is checked first, then that the client
/// was found (`client_available`); mongosh takes no user and redis-cli no
/// credentials on its command line, and a Redis database must be a `u16`.
pub fn inspect_command(spec: &ConnectionSpec, credential_file_exists: bool, client_available: bool) -> (r:
    Result<DbCommand, CliDatabaseError>)
    ensures
        match inspection_refusal(*spec, credential_file_exists, client_available) {
            Some((true, m)) => cli_invalid(r, m),
            Some((false, n)) => r matches Err(CliDatabaseError::ClientUnavailable(p)) && p@ == n,
            None => r matches Ok(c) && inspection_run(c, *spec),
        },
{
    validate_spec(spec, credential_file_exists)?;
    if !client_available {
        return Err(CliDatabaseError::ClientUnavailable(s(client_name(spec.engine))));
    }
    match spec.engine {
        Engine::Postgresql => Ok(
            psql_command(
                spec,
                "SELECT table_schema, table_name, table_type FROM information_schema.tables WHERE table_schema NOT IN ('pg_catalog','information_schema') ORDER BY table_schema, table_name",
            ),
        ),
        Engine::Mysql | Engine::Mariadb => Ok(
            mysql_command(
                spec,
                "SELECT TABLE_SCHEMA, TABLE_NAME, TABLE_TYPE FROM information_schema.TABLES WHERE TABLE_SCHEMA NOT IN ('information_schema','mysql','performance_schema','sys') ORDER BY TABLE_SCHEMA, TABLE_NAME",
            ),
        ),
        Engine::Mongo => mongo_command(spec),
        Engine::Redis => redis_command(spec),
    }
}


// ---------------------------------------------------------------------------
// Reading client output
// ---------------------------------------------------------------------------

/// A query result as the clients print it: a header line of column names and
/// rows of tab-separated text. At most 5000 rows are kept.
#[derive(Debug, Clone, PartialEq, Eq)]
pub struct QueryGrid {
    pub columns: Vec<String>,
    pub rows: Vec<Vec<String>>,
    pub row_count: usize,
    pub truncated: bool,
    pub raw: String,
}

/// The fields of a tab-separated line.
pub open spec fn tab_fields(line: Seq<char>) -> Seq<Seq<char>> {
    crate::container::tab_split(line)
}

/// How many of the lines after the header are kept as rows.
pub open spec fn kept_row_count(ls: Seq<Seq<char>>) -> int {
    if ls.len() <= 1 {
        0
    } else if ls.len() - 1 <= 5000 {
        ls.len() - 1
    } else {
        5000
    }
}

/// Whether `g` is the grid read from `raw`: the first line gives the
/// columns, each following line a row, until 5000 rows; `truncated` tells
/// that lines were left over.
pub open spec fn grid_of(g: QueryGrid, raw: Seq<char>) -> bool {
    let ls = crate::text::lines(raw);
    &&& argv(g.columns@) =~= (if ls.len() > 0 {
        tab_fields(ls[0])
    } else {
        seq![]
    })
    &&& g.rows@.len() == kept_row_count(ls)
    &&& forall|i: int| 0 <= i < g.rows@.len() ==> #[trigger] argv(g.rows@[i]@) =~= tab_fields(ls[i + 1])
    &&& g.row_count == g.rows@.len()
    &&& g.truncated == (ls.len() > 5001)
    &&& g.raw@ == raw
}

pub fn parse_tabular(raw: String) -> (r: QueryGrid)
    ensures
        grid_of(r, raw@),
{
    let ls = crate::text::lines_of(raw.as_str());
    let ghost lv = crate::text::lines(raw@);
    assert(ls@.len() == lv.len());
    let n = ls.len();
    if n == 0 {
        return QueryGrid { columns: Vec::new(), rows: Vec::new(), row_count: 0, truncated: false, raw };
    }
    let columns = crate::container::split_tabs(ls[0].as_str());
    assert(ls@[0]@ == lv[0]);
    let mut rows: Vec<Vec<String>> = Vec::new();
    let mut i: usize = 1;
    let mut truncated = false;
    while i < n
        invariant_except_break
            1 <= i <= n,
            rows@.len() == i - 1,
            rows@.len() <= 5000,
            !truncated,
        invariant
            n == ls@.len(),
            n == lv.len(),
            ls@.map_values(|x: String| x@) =~= lv,
            forall|j: int| 0 <= j < rows@.len() ==> #[trigger] argv(rows@[j]@) =~= tab_fields(lv[j + 1]),
        ensures
            truncated ==> rows@.len() == 5000 && n > 5001,
            !truncated ==> rows@.len() == n - 1 && n - 1 <= 5000,
        decreases n - i,
    {
        if rows.len() >= 5000 {
            truncated = true;
            break;
        }
        let fields = crate::container::split_tabs(ls[i].as_str());
        assert(ls@[i as int]@ == lv[i as int]);
        rows.push(fields);
        i += 1;
    }
    let row_count = rows.len();
    assert(argv(columns@) =~= tab_fields(lv[0]));
    assert(rows@.len() == kept_row_count(lv));
    assert(truncated == (lv.len() > 5001));
    QueryGrid { columns, rows, row_count, truncated, raw }
}

/// What a finished client reports: a failure gives its trimmed error stream;
/// output over 512 KiB, or not UTF-8, is refused.
pub fn client_output(success: bool, stdout: &[u8], stderr: &[u8]) -> (r: Result<
    String,
    CliDatabaseError,
>)
    ensures
        !success ==> cli_client(r, trim(crate::text::lossy_utf8(stderr@))),
        success && stdout@.len() > 524288 ==> cli_client(
            r,
            "database output exceeded 512 KiB limit"@,
        ),
        success && stdout@.len() <= 524288 && !vstd::utf8::valid_utf8(stdout@) ==> r
            == Err::<String, CliDatabaseError>(CliDatabaseError::Encoding),
        success && stdout@.len() <= 524288 && vstd::utf8::valid_utf8(stdout@) ==> (r matches Ok(
            t,
        ) && t@ == vstd::utf8::decode_utf8(stdout@)),
{
    if !success {
        let e = crate::text::utf8_lossy(stderr);
        return Err(CliDatabaseError::Client(trim_text(e.as_str())));
    }
    if stdout.len() > 524288 {
        return Err(CliDatabaseError::Client(s("database output exceeded 512 KiB limit")));
    }
    match crate::text::utf8_decode(stdout) {
        Some(t) => Ok(t.to_owned()),
        None => Err(CliDatabaseError::Encoding),
    }
}

/// The non-empty lines of `ls`, in order.
pub open spec fn nonempty_lines(ls: Seq<Seq<char>>) -> Seq<Seq<char>>
    decreases ls.len(),
{
    if ls.len() == 0 {
        ls
    } else {
        let r = nonempty_lines(ls.drop_last());
        if ls.last().len() > 0 {
            r.push(ls.last())
        } else {
            r
        }
    }
}

/// The first `n` items of `s`, or all of them.
pub open spec fn at_most<T>(s: Seq<T>, n: int) -> Seq<T> {
    if s.len() <= n {
        s
    } else {
        s.take(n)
    }
}

/// The keys redis-cli printed: its non-empty lines, at most 5000, and
/// whether it printed more than 5000 lines.
pub fn redis_keys(raw: &str) -> (r: (Vec<String>, bool))
    ensures
        argv(r.0@) =~= at_most(nonempty_lines(crate::text::lines(raw@)), 5000),
        r.1 == (crate::text::lines(raw@).len() > 5000),
{
    let ls = crate::text::lines_of(raw);
    let ghost lv = crate::text::lines(raw@);
    let mut keys: Vec<String> = Vec::new();
    let mut i: usize = 0;
    assert(lv.take(0) =~= Seq::<Seq<char>>::empty());
    while i < ls.len()
        invariant
            ls@.map_values(|x: String| x@) =~= lv,
            0 <= i <= ls@.len(),
            argv(keys@) =~= at_most(nonempty_lines(lv.take(i as int)), 5000),
        decreases ls@.len() - i,
    {
        let ghost before = nonempty_lines(lv.take(i as int));
        assert(lv.take(i + 1).drop_last() =~= lv.take(i as int));
        assert(ls@[i as int]@ == lv[i as int]);
        if ls[i].as_str().unicode_len() > 0 && keys.len() < 5000 {
            push_owned(&mut keys, ls[i].clone());
        }
        proof {
            let after = nonempty_lines(lv.take(i + 1));
            if lv[i as int].len() > 0 {
                assert(after =~= before.push(lv[i as int]));
                if before.len() >= 5000 {
                    assert(after.take(5000) =~= before.take(5000));
                }
            } else {
                assert(after =~= before);
            }
        }
        i += 1;
    }
    assert(lv.take(ls@.len() as int) =~= lv);
    (keys, ls.len() > 5000)
}

// ---------------------------------------------------------------------------
// Client discovery
// ---------------------------------------------------------------------------


/// Checks what `mongosh` printed for an inspection: once trimmed it must be
/// a JSON array (of the collections).
pub fn mongo_inspect_check(raw: &str) -> (r: Result<(), CliDatabaseError>)
    ensures
        match crate::json::json_array_error_of(trim(raw@)) {
            None => r is Ok,
            Some(e) => r matches Err(CliDatabaseError::Client(m)) && m@ == "mongosh JSON parse failed: "@ + e,
        },
{
    let t = trim_text(raw);
    match crate::json::json_array_check(t.as_str()) {
        None => Ok(()),
        Some(e) => Err(CliDatabaseError::Client(concat("mongosh JSON parse failed: ", e.as_str()))),
    }
}

#[derive(Debug, Clone, PartialEq, Eq)]
pub struct ClientDetection {
    pub engine: String,
    pub executable: Option<String>,
    pub version: Option<String>,
    pub available: bool,
}

/// What was found of one client program: its path, and what `--version`
/// printed when it ran.
#[derive(Debug, Clone, PartialEq, Eq)]
pub struct ClientProbe {
    pub executable: Option<String>,
    pub version_output: Option<Vec<u8>>,
}

/// The engines in the order clients are reported.
pub open spec fn engine_at(i: int) -> Engine {
    if i == 0 {
        Engine::Postgresql
    } else if i == 1 {
        Engine::Mysql
    } else if i == 2 {
        Engine::Mariadb
    } else if i == 3 {
        Engine::Mongo
    } else {
        Engine::Redis
    }
}

/// The version a client reports: its trimmed `--version` output, when that
/// is not empty.
pub open spec fn reported_version(out: Option<Vec<u8>>) -> Option<Seq<char>> {
    match out {
        Some(b) => {
            let t = trim(crate::text::lossy_utf8(b@));
            if t.len() > 0 {
                Some(t)
            } else {
                None
            }
        },
        None => None,
    }
}

/// Whether `d` reports `engine` with what `probe` found.
pub open spec fn detected(d: ClientDetection, engine: Engine, probe: ClientProbe) -> bool {
    &&& d.engine@ == engine_id(engine)
    &&& oview(d.executable) == oview(probe.executable)
    &&& d.available == (probe.executable is Some)
    &&& oview(d.version) == (if probe.executable is Some {
        reported_version(probe.version_output)
    } else {
        None
    })
}

pub fn detect_client(engine: Engine, probe: &ClientProbe) -> (r: ClientDetection)
    ensures
        detected(r, engine, *probe),
{
    match &probe.executable {
        None => ClientDetection {
            engine: s(engine.id()),
            executable: None,
            version: None,
            available: false,
        },
        Some(path) => {
            let version = match &probe.version_output {
                Some(b) => {
                    let t = trim_text(crate::text::utf8_lossy(b.as_slice()).as_str());
                    if t.as_str().unicode_len() > 0 {
                        Some(t)
                    } else {
                        None
                    }
                },
                None => None,
            };
            ClientDetection {
                engine: s(engine.id()),
                executable: Some(path.clone()),
                version,
                available: true,
            }
        },
    }
}

/// Every client, in the order of `engine_at`, from what was found of each.
pub fn detect_clients(probes: &Vec<ClientProbe>) -> (r: Vec<ClientDetection>)
    requires
        probes@.len() == 5,
    ensures
        r@.len() == 5,
        forall|i: int| 0 <= i < 5 ==> #[trigger] detected(r@[i], engine_at(i), probes@[i]),
{
    let engines = [Engine::Postgresql, Engine::Mysql, Engine::Mariadb, Engine::Mongo, Engine::Redis];
    let mut out: Vec<ClientDetection> = Vec::new();
    let mut i: usize = 0;
    while i < 5
        invariant
            probes@.len() == 5,
            engines@ == seq![Engine::Postgresql, Engine::Mysql, Engine::Mariadb, Engine::Mongo, Engine::Redis],
            0 <= i <= 5,
            out@.len() == i,
            forall|j: int| 0 <= j < i ==> #[trigger] detected(out@[j], engine_at(j), probes@[j]),
        decreases 5 - i,
    {
        assert(engines@[i as int] == engine_at(i as int));
        out.push(detect_client(engines[i], &probes[i]));
        i += 1;
    }
    out
}


// ---------------------------------------------------------------------------
// Cancellable read-query jobs
// ---------------------------------------------------------------------------

#[derive(Debug, Clone, Copy, PartialEq, Eq, Structural)]
pub enum QueryJobState {
    Running,
    Completed,
    Failed,
    Cancelled,
    Interrupted,
}

/// The stored output of a finished job: its size, its SHA-256 and whether
/// the preview shows only a prefix of it.
#[derive(Debug, Clone, PartialEq, Eq)]
pub struct QueryJobArtifact {
    pub bytes: u64,
    pub sha256: String,
    pub preview_truncated: bool,
}

/// A window of a job's output, Base64-encoded.
#[derive(Debug, Clone, PartialEq, Eq)]
pub struct QueryJobOutputChunk {
    pub job_id: String,
    pub offset: u64,
    pub next_offset: u64,
    pub eof: bool,
    pub payload_base64: String,
    pub total_bytes: u64,
    pub sha256: String,
}

#[derive(Debug, Clone, PartialEq, Eq)]
pub struct QueryJobStatus {
    pub job_id: String,
    pub engine: String,
    pub state: QueryJobState,
    pub created_at_unix_ms: u128,
    pub updated_at_unix_ms: u128,
    pub result: Option<QueryGrid>,
    pub error: Option<String>,
    pub pid: Option<u32>,
    pub artifact: Option<QueryJobArtifact>,
}

/// The lower-case hexadecimal digits of `n` (`format!("{n:x}")`).
pub open spec fn hex_digits(n: nat) -> Seq<char>
    decreases n,
{
    if n < 16 {
        seq![crate::digest::hex_char(n as int)]
    } else {
        hex_digits(n / 16).push(crate::digest::hex_char((n % 16) as int))
    }
}

pub(crate) fn hex_text(n: u128) -> (r: String)
    ensures
        r@ == hex_digits(n as nat),
    decreases n,
{
    let d = (n % 16) as u8;
    let c = if d < 10 {
        (48 + d) as char
    } else {
        (87 + d) as char
    };
    if n < 16 {
        let mut t = String::new();
        crate::digest::string_push(&mut t, c);
        assert(t@ =~= seq![crate::digest::hex_char(n as int)]);
        t
    } else {
        let mut t = hex_text(n / 16);
        crate::digest::string_push(&mut t, c);
        t
    }
}

/// The identifier of the job started at `now_ms` as the `seq`-th job of the
/// process: `dbjob_`, both numbers in hexadecimal, joined by `_`.
pub fn job_id_text(now_ms: u128, seq: u64) -> (r: String)
    ensures
        r@ == "dbjob_"@ + hex_digits(now_ms as nat) + "_"@ + hex_digits(seq as nat),
{
    let a = hex_text(now_ms);
    let b = hex_text(seq as u128);
    let mut t = concat("dbjob_", a.as_str());
    vstd::string::StringExecFns::append(&mut t, "_");
    vstd::string::StringExecFns::append(&mut t, b.as_str());
    t
}

/// The state file of a job: `<id>.json`, for a valid identifier.
pub fn job_file_name(job_id: &str) -> (r: Result<String, CliDatabaseError>)
    ensures
        is_job_id(job_id@) ==> (r matches Ok(n) && n@ == job_id@ + ".json"@),
        !is_job_id(job_id@) ==> cli_invalid(r, "invalid database job id"@),
{
    validate_job_id(job_id)?;
    Ok(concat(job_id, ".json"))
}

/// The output file of a job: `<id>.result.bin`, for a valid identifier.
pub fn job_result_file_name(job_id: &str) -> (r: Result<String, CliDatabaseError>)
    ensures
        is_job_id(job_id@) ==> (r matches Ok(n) && n@ == job_id@ + ".result.bin"@),
        !is_job_id(job_id@) ==> cli_invalid(r, "invalid database job id"@),
{
    validate_job_id(job_id)?;
    Ok(concat(job_id, ".result.bin"))
}

/// What a job may run: an accepted connection to PostgreSQL, MySQL or
/// MariaDB, and a statement that passes the read-only gate.
pub fn job_start_check(spec: &ConnectionSpec, statement: &str, credential_file_exists: bool) -> (r:
    Result<(), CliDatabaseError>)
    ensures
        spec_refusal(*spec, credential_file_exists) matches Some(m) ==> cli_invalid(r, m),
        spec_refusal(*spec, credential_file_exists) is None ==> (read_only_refusal(statement@) matches Some(m)
            ==> cli_invalid(r, m)),
        spec_refusal(*spec, credential_file_exists) is None && read_only_refusal(statement@) is None
            ==> if is_relational(spec.engine) {
            r is Ok
        } else {
            cli_invalid(
                r,
                "cancellable query jobs currently support PostgreSQL/MySQL/MariaDB read queries"@,
            )
        },
{
    validate_spec(spec, credential_file_exists)?;
    enforce_read_only_sql(statement)?;
    match spec.engine {
        Engine::Postgresql | Engine::Mysql | Engine::Mariadb => Ok(()),
        _ => Err(
            invalid("cancellable query jobs currently support PostgreSQL/MySQL/MariaDB read queries"),
        ),
    }
}

/// The status of a job that has just been started.
pub fn new_job_status(job_id: String, engine: Engine, now_ms: u128) -> (r: QueryJobStatus)
    ensures
        r.job_id == job_id,
        r.engine@ == engine_id(engine),
        r.state == QueryJobState::Running,
        r.created_at_unix_ms == now_ms,
        r.updated_at_unix_ms == now_ms,
        r.result is None,
        r.error is None,
        r.pid is None,
        r.artifact is None,
{
    QueryJobStatus {
        job_id,
        engine: s(engine.id()),
        state: QueryJobState::Running,
        created_at_unix_ms: now_ms,
        updated_at_unix_ms: now_ms,
        result: None,
        error: None,
        pid: None,
        artifact: None,
    }
}

pub open spec fn interrupted_message() -> Seq<char> {
    "Agent/process restarted while database query was running; job was not automatically re-executed"@
}

/// A stored job found after a restart: one that was running and is not
/// running in this process was interrupted, and is marked so (the second
/// result tells that); any other is left as it is.
pub fn recover_job_status(status: QueryJobStatus, active_in_process: bool, now_ms: u128) -> (r: (
    QueryJobStatus,
    bool,
))
    ensures
        r.1 == (status.state == QueryJobState::Running && !active_in_process),
        !r.1 ==> r.0 == status,
        r.1 ==> ({
            &&& r.0.state == QueryJobState::Interrupted
            &&& r.0.updated_at_unix_ms == now_ms
            &&& r.0.pid is None
            &&& r.0.error matches Some(e) && e@ == interrupted_message()
            &&& r.0.job_id == status.job_id && r.0.engine == status.engine
            &&& r.0.created_at_unix_ms == status.created_at_unix_ms
            &&& r.0.result == status.result && r.0.artifact == status.artifact
        }),
{
    if status.state == QueryJobState::Running && !active_in_process {
        let mut st = status;
        st.state = QueryJobState::Interrupted;
        st.updated_at_unix_ms = now_ms;
        st.pid = None;
        st.error = Some(
            s(
                "Agent/process restarted while database query was running; job was not automatically re-executed",
            ),
        );
        (st, true)
    } else {
        (status, false)
    }
}

/// A job is kept in the registry while it runs, or for an hour after its
/// last update.
pub open spec fn job_kept(st: QueryJobStatus, now_ms: u128) -> bool {
    st.state == QueryJobState::Running || (if now_ms >= st.updated_at_unix_ms {
        now_ms - st.updated_at_unix_ms
    } else {
        0
    }) < 3600000
}

/// The jobs of `s` that are kept, in order.
pub open spec fn kept_jobs(s: Seq<QueryJobStatus>, now_ms: u128) -> Seq<QueryJobStatus>
    decreases s.len(),
{
    if s.len() == 0 {
        s
    } else {
        let r = kept_jobs(s.drop_last(), now_ms);
        if job_kept(s.last(), now_ms) {
            r.push(s.last())
        } else {
            r
        }
    }
}

/// The registry after dropping the jobs that finished over an hour ago.
pub fn prune_jobs(jobs: Vec<QueryJobStatus>, now_ms: u128) -> (r: Vec<QueryJobStatus>)
    ensures
        r@ =~= kept_jobs(jobs@, now_ms),
{
    let ghost all = jobs@;
    let mut rest = jobs;
    let mut out: Vec<QueryJobStatus> = Vec::new();
    let ghost mut i: int = 0;
    assert(all.take(0) =~= Seq::<QueryJobStatus>::empty());
    assert(all.skip(0) =~= all);
    while rest.len() > 0
        invariant
            0 <= i <= all.len(),
            rest@ =~= all.skip(i),
            out@ =~= kept_jobs(all.take(i), now_ms),
        decreases rest@.len(),
    {
        assert(all.take(i + 1).drop_last() =~= all.take(i));
        assert(rest@[0] == all[i]);
        let st = rest.remove(0);
        let age = now_ms.saturating_sub(st.updated_at_unix_ms);
        if st.state == QueryJobState::Running || age < 3600000 {
            out.push(st);
        }
        proof {
            i = i + 1;
        }
        assert(rest@ =~= all.skip(i));
    }
    assert(all.take(all.len() as int) =~= all);
    out
}

/// At most 256 jobs are held at once.
pub fn job_limit_check(held: usize) -> (r: Result<(), CliDatabaseError>)
    ensures
        held < 256 ==> r is Ok,
        held >= 256 ==> cli_invalid(r, "database job limit reached"@),
{
    if held >= 256 {
        Err(invalid("database job limit reached"))
    } else {
        Ok(())
    }
}

/// How a job's query ended.
#[derive(Debug, Clone, PartialEq, Eq)]
pub enum JobOutcome {
    Completed { preview: Option<QueryGrid>, artifact: QueryJobArtifact },
    Cancelled,
    Failed(String),
}

/// The status of a job once its query has ended.
pub fn finish_job(status: QueryJobStatus, outcome: JobOutcome, now_ms: u128) -> (r: QueryJobStatus)
    ensures
        r.job_id == status.job_id && r.engine == status.engine,
        r.created_at_unix_ms == status.created_at_unix_ms,
        r.pid is None,
        r.updated_at_unix_ms == now_ms,
        match outcome {
            JobOutcome::Completed { preview, artifact } => r.state == QueryJobState::Completed
                && r.result == preview && r.artifact == Some(artifact) && r.error is None,
            JobOutcome::Cancelled => r.state == QueryJobState::Cancelled && r.result
                == status.result && r.artifact == status.artifact && (r.error matches Some(e)
                && e@ == "database query cancelled by operator"@),
            JobOutcome::Failed(m) => r.state == QueryJobState::Failed && r.result == status.result
                && r.artifact == status.artifact && r.error == Some(m),
        },
{
    let mut st = status;
    match outcome {
        JobOutcome::Completed { preview, artifact } => {
            st.state = QueryJobState::Completed;
            st.result = preview;
            st.artifact = Some(artifact);
            st.error = None;
        },
        JobOutcome::Cancelled => {
            st.state = QueryJobState::Cancelled;
            st.error = Some(s("database query cancelled by operator"));
        },
        JobOutcome::Failed(m) => {
            st.state = QueryJobState::Failed;
            st.error = Some(m);
        },
    }
    st.pid = None;
    st.updated_at_unix_ms = now_ms;
    st
}

/// The error text of a failed client: its error stream, at most 4096
/// characters of it.
pub fn job_failure_text(stderr: &[u8]) -> (r: String)
    ensures
        r@ == at_most(crate::text::lossy_utf8(stderr@), 4096),
{
    let t = crate::text::utf8_lossy(stderr);
    crate::text::take_chars(t.as_str(), 4096)
}

/// A job's output may be at most 64 MiB.
pub fn artifact_size_check(bytes: u64) -> (r: Result<(), String>)
    ensures
        bytes <= 67108864 ==> r is Ok,
        bytes > 67108864 ==> (r matches Err(m) && m@
            == "database job output exceeded 64 MiB artifact limit"@),
{
    if bytes > 67108864 {
        Err(s("database job output exceeded 64 MiB artifact limit"))
    } else {
        Ok(())
    }
}

/// `g` is the preview read from the first bytes `prefix` of a job's output,
/// `truncated` telling whether the output is longer than `prefix`.
pub open spec fn preview_holds(g: QueryGrid, prefix: Seq<u8>, truncated: bool) -> bool {
    &&& prefix.len() == 0 ==> g.columns@.len() == 0 && g.rows@.len() == 0 && g.row_count == 0
        && g.raw@.len() == 0 && g.truncated == truncated
    &&& prefix.len() > 0 ==> ({
        let raw = crate::text::lossy_utf8(prefix);
        let ls = crate::text::lines(raw);
        &&& argv(g.columns@) =~= (if ls.len() > 0 {
            tab_fields(ls[0])
        } else {
            seq![]
        })
        &&& g.rows@.len() == kept_row_count(ls)
        &&& forall|i: int| 0 <= i < g.rows@.len() ==> #[trigger] argv(g.rows@[i]@) =~= tab_fields(ls[i + 1])
        &&& g.row_count == g.rows@.len()
        &&& g.truncated == (ls.len() > 5001 || truncated)
        &&& g.raw@ == raw
    })
}

/// The preview of a job's output, read from its first bytes `prefix` (at most
/// 512 KiB of it): the grid they hold, marked truncated when the output is
/// longer than the prefix; the second result tells that.
pub fn job_preview(prefix: &[u8], total_bytes: u64) -> (r: (QueryGrid, bool))
    ensures
        r.1 == (total_bytes > prefix@.len()),
        preview_holds(r.0, prefix@, r.1),
{
    let preview_truncated = total_bytes > prefix.len() as u64;
    if prefix.len() == 0 {
        return (
            QueryGrid {
                columns: Vec::new(),
                rows: Vec::new(),
                row_count: 0,
                truncated: preview_truncated,
                raw: String::new(),
            },
            preview_truncated,
        );
    }
    let mut g = parse_tabular(crate::text::utf8_lossy(prefix));
    g.truncated = g.truncated || preview_truncated;
    (g, preview_truncated)
}

/// How a query ends whose client exited successfully with an output of
/// `total_bytes` bytes: over 64 MiB it fails; otherwise it is completed, with
/// the preview read from the output's first bytes `prefix`, and an artifact
/// giving the size and the SHA-256 of the bytes fed to `digest`.
pub fn completed_job(prefix: &[u8], total_bytes: u64, digest: Sha256Stream) -> (r: JobOutcome)
    ensures
        total_bytes > 67108864 ==> (r matches JobOutcome::Failed(m) && m@
            == "database job output exceeded 64 MiB artifact limit"@),
        total_bytes <= 67108864 ==> (r matches JobOutcome::Completed { preview, artifact } && {
            &&& preview matches Some(g) && preview_holds(g, prefix@, total_bytes > prefix@.len())
            &&& artifact.bytes == total_bytes
            &&& artifact.sha256@ == crate::digest::sha256_hex_of(digest.fed())
            &&& artifact.preview_truncated == (total_bytes > prefix@.len())
        }),
{
    match artifact_size_check(total_bytes) {
        Err(m) => JobOutcome::Failed(m),
        Ok(()) => {
            let sha = digest.finish_hex();
            let (g, truncated) = job_preview(prefix, total_bytes);
            JobOutcome::Completed {
                preview: Some(g),
                artifact: QueryJobArtifact { bytes: total_bytes, sha256: sha, preview_truncated: truncated },
            }
        },
    }
}

/// The bytes of a completed job's output that one read returns: from
/// `offset`, at most `max_bytes` clamped to 1..=256 KiB. The result is the
/// number of bytes to read and the offset after them.
pub fn output_window(status: &QueryJobStatus, offset: u64, max_bytes: usize) -> (r: Result<
    (u64, u64),
    CliDatabaseError,
>)
    ensures
        status.artifact is None ==> cli_invalid(r, "database job has no result artifact"@),
        status.artifact matches Some(a) ==> {
            if status.state != QueryJobState::Completed {
                cli_invalid(r, "database job is not completed"@)
            } else if offset > a.bytes {
                cli_invalid(r, "database job output offset exceeds artifact size"@)
            } else {
                let cap: int = if max_bytes < 1 {
                    1
                } else if max_bytes > 262144 {
                    262144
                } else {
                    max_bytes as int
                };
                let take: int = if a.bytes - offset < cap {
                    a.bytes - offset
                } else {
                    cap
                };
                r == Ok::<(u64, u64), CliDatabaseError>((take as u64, (offset + take) as u64))
            }
        },
{
    let artifact = match &status.artifact {
        Some(a) => a,
        None => {
            return Err(invalid("database job has no result artifact"));
        },
    };
    if status.state != QueryJobState::Completed {
        return Err(invalid("database job is not completed"));
    }
    if offset > artifact.bytes {
        return Err(invalid("database job output offset exceeds artifact size"));
    }
    let cap: u64 = if max_bytes < 1 {
        1
    } else if max_bytes > 262144 {
        262144
    } else {
        max_bytes as u64
    };
    let remaining = artifact.bytes - offset;
    let take = if remaining < cap {
        remaining
    } else {
        cap
    };
    Ok((take, offset + take))
}

/// The chunk holding `bytes`, read from `offset` of a job's output.
pub fn output_chunk(job_id: &str, offset: u64, bytes: &[u8], artifact: &QueryJobArtifact) -> (r:
    QueryJobOutputChunk)
    requires
        offset + bytes@.len() <= u64::MAX,
    ensures
        r.job_id@ == job_id@,
        r.offset == offset,
        r.next_offset == offset + bytes@.len(),
        r.eof == (offset + bytes@.len() >= artifact.bytes),
        r.payload_base64@ == crate::digest::base64_standard_of(bytes@),
        r.total_bytes == artifact.bytes,
        r.sha256 == artifact.sha256,
{
    let next = offset + bytes.len() as u64;
    QueryJobOutputChunk {
        job_id: s(job_id),
        offset,
        next_offset: next,
        eof: next >= artifact.bytes,
        payload_base64: crate::digest::base64_standard(bytes),
        total_bytes: artifact.bytes,
        sha256: artifact.sha256.clone(),
    }
}

/// The output of a running job cannot be removed.
pub fn removal_check(status: &QueryJobStatus) -> (r: Result<(), CliDatabaseError>)
    ensures
        status.state == QueryJobState::Running ==> cli_invalid(
            r,
            "cannot remove output from a running job"@,
        ),
        status.state != QueryJobState::Running ==> r is Ok,
{
    if status.state == QueryJobState::Running {
        Err(invalid("cannot remove output from a running job"))
    } else {
        Ok(())
    }
}

/// The status of a job whose output file has been removed.
pub fn artifact_removed(status: QueryJobStatus, now_ms: u128) -> (r: QueryJobStatus)
    ensures
        r.artifact is None,
        r.result is None,
        r.updated_at_unix_ms == now_ms,
        r.job_id == status.job_id && r.engine == status.engine && r.state == status.state,
        r.created_at_unix_ms == status.created_at_unix_ms,
        r.error == status.error && r.pid == status.pid,
{
    let mut st = status;
    st.artifact = None;
    st.result = None;
    st.updated_at_unix_ms = now_ms;
    st
}

} // verus!
