//! The SQLite provider's rules: which statements the read path accepts, how
//! declared column types map to field types, how identifiers are checked and
//! quoted, and the SQL text of browsing and of structured mutations.
use crate::database::{db_invalid, BrowseRequest, CapabilitySet, DatabaseError, FieldType};
use crate::text::{
    blen, char_is_ws, chars_of, concat, contains, dec_chars, first_non_ws, has_prefix,
    has_substring, join, join_texts, last_non_ws_end, starts_with, str_eq, string_of_chars,
    to_upper, trim, trim_text, u64_text_of, upper_chars,
};
use vstd::prelude::*;

verus! {

fn invalid(msg: &str) -> (e: DatabaseError)
    ensures
        e matches DatabaseError::Invalid(m) && m@ == msg@,
{
    DatabaseError::Invalid(msg.to_owned())
}

// ---------------------------------------------------------------------------
// The read path
// ---------------------------------------------------------------------------

/// `s.trim_end_matches(';')`.
pub open spec fn trim_end_semis(s: Seq<char>) -> Seq<char>
    decreases s.len(),
{
    if s.len() > 0 && s.last() == ';' {
        trim_end_semis(s.drop_last())
    } else {
        s
    }
}

/// `s.trim_end()`.
pub open spec fn trim_end(s: Seq<char>) -> Seq<char> {
    s.subrange(0, last_non_ws_end(s, s.len() as int))
}

/// `s.trim_start()`.
pub open spec fn trim_start(s: Seq<char>) -> Seq<char> {
    s.subrange(first_non_ws(s, 0), s.len() as int)
}

/// The statement without surrounding white space and trailing semicolons.
pub open spec fn read_body(v: Seq<char>) -> Seq<char> {
    trim_end(trim_end_semis(trim(v)))
}

/// The settings and operations a `PRAGMA` may not name on the read path.
pub open spec fn risky_pragma(u: Seq<char>) -> bool {
    contains(u, "="@) || contains(u, "JOURNAL_MODE"@) || contains(u, "WAL_CHECKPOINT"@)
        || contains(u, "OPTIMIZE"@) || contains(u, "VACUUM"@) || contains(u, "FOREIGN_KEYS"@)
        || contains(u, "SYNCHRONOUS"@) || contains(u, "LOCKING_MODE"@)
}

/// Why the read path refuses a statement, if it does.
pub open spec fn read_query_refusal(v: Seq<char>) -> Option<Seq<char>> {
    let t = trim(v);
    if t.len() == 0 || blen(t) > 1048576 {
        Some("query is empty or too large"@)
    } else if read_body(v).contains(';') {
        Some("multiple SQL statements are not allowed"@)
    } else {
        let u = upper_chars(trim_start(read_body(v)));
        if starts_with(u, "SELECT "@) || u == "SELECT"@ || starts_with(u, "EXPLAIN SELECT "@)
            || starts_with(u, "EXPLAIN QUERY PLAN SELECT "@) {
            None
        } else if starts_with(u, "PRAGMA "@) {
            if risky_pragma(u) {
                Some("mutating/operational PRAGMA is not allowed through read query"@)
            } else {
                None
            }
        } else {
            Some("read query accepts SELECT, EXPLAIN SELECT, or non-mutating PRAGMA only"@)
        }
    }
}

/// The read path takes one `SELECT`, `EXPLAIN SELECT` or `EXPLAIN QUERY PLAN
/// SELECT`, or a `PRAGMA` that changes nothing; `WITH` and every write are
/// refused.
pub fn validate_read_query(v: &str) -> (r: Result<(), DatabaseError>)
    ensures
        read_query_refusal(v@) is None ==> r is Ok,
        read_query_refusal(v@) matches Some(m) ==> db_invalid(r, m),
{
    let trimmed = trim_text(v);
    if trimmed.as_str().unicode_len() == 0 || trimmed.as_str().as_bytes().len() > 1048576 {
        return Err(invalid("query is empty or too large"));
    }
    let tv = chars_of(trimmed.as_str());
    let ghost t = trim(v@);
    let mut e: usize = tv.len();
    assert(t.subrange(0, e as int) =~= t);
    while e > 0 && tv[e - 1] == ';'
        invariant
            tv@ == t,
            0 <= e <= t.len(),
            trim_end_semis(t) == trim_end_semis(t.subrange(0, e as int)),
        decreases e,
    {
        assert(t.subrange(0, e as int).drop_last() =~= t.subrange(0, e - 1));
        e -= 1;
    }
    let ghost x = t.subrange(0, e as int);
    assert(trim_end_semis(t) == x);
    let e0 = e;
    while e > 0 && char_is_ws(tv[e - 1])
        invariant
            tv@ == t,
            x == t.subrange(0, e0 as int),
            0 <= e <= e0 <= t.len(),
            last_non_ws_end(x, e0 as int) == last_non_ws_end(x, e as int),
        decreases e,
    {
        assert(x[e - 1] == tv@[e - 1]);
        e -= 1;
    }
    proof {
        if e > 0 {
            assert(x[e - 1] == tv@[e - 1]);
        }
    }
    let ghost body = read_body(v@);
    assert(body =~= t.subrange(0, e as int));
    let mut k: usize = 0;
    while k < e
        invariant
            tv@ == t,
            body == t.subrange(0, e as int),
            body == read_body(v@),
            e <= t.len(),
            t.len() > 0,
            blen(t) <= 1048576,
            t == trim(v@),
            0 <= k <= e,
            forall|j: int| 0 <= j < k ==> tv@[j] != ';',
        decreases e - k,
    {
        if tv[k] == ';' {
            assert(body[k as int] == ';');
            return Err(invalid("multiple SQL statements are not allowed"));
        }
        k += 1;
    }
    assert(!body.contains(';')) by {
        assert forall|j: int| 0 <= j < body.len() implies body[j] != ';' by {
            assert(body[j] == tv@[j]);
        }
    }
    let mut a: usize = 0;
    while a < e && char_is_ws(tv[a])
        invariant
            tv@ == t,
            body == t.subrange(0, e as int),
            e <= t.len(),
            0 <= a <= e,
            first_non_ws(body, 0) == first_non_ws(body, a as int),
        decreases e - a,
    {
        assert(body[a as int] == tv@[a as int]);
        a += 1;
    }
    proof {
        if a < e {
            assert(body[a as int] == tv@[a as int]);
        }
    }
    let rest = string_of_chars(&tv, a, e);
    assert(rest@ =~= trim_start(body));
    let upper = to_upper(rest.as_str());
    let u = upper.as_str();
    if has_prefix(u, "SELECT ") || str_eq(u, "SELECT") || has_prefix(u, "EXPLAIN SELECT ")
        || has_prefix(u, "EXPLAIN QUERY PLAN SELECT ") {
        return Ok(());
    }
    if has_prefix(u, "PRAGMA ") {
        if has_substring(u, "=") || has_substring(u, "JOURNAL_MODE") || has_substring(
            u,
            "WAL_CHECKPOINT",
        ) || has_substring(u, "OPTIMIZE") || has_substring(u, "VACUUM") || has_substring(
            u,
            "FOREIGN_KEYS",
        ) || has_substring(u, "SYNCHRONOUS") || has_substring(u, "LOCKING_MODE") {
            return Err(invalid("mutating/operational PRAGMA is not allowed through read query"));
        }
        return Ok(());
    }
    Err(invalid("read query accepts SELECT, EXPLAIN SELECT, or non-mutating PRAGMA only"))
}

// ---------------------------------------------------------------------------
// Type affinity
// ---------------------------------------------------------------------------

/// The field type of a declared column type, by SQLite's affinity rules
/// (checked in this order on the upper-cased declaration).
pub open spec fn affinity(declared: Seq<char>) -> FieldType {
    let v = upper_chars(declared);
    if contains(v, "INT"@) {
        FieldType::Integer
    } else if contains(v, "CHAR"@) || contains(v, "CLOB"@) || contains(v, "TEXT"@) {
        FieldType::Text
    } else if contains(v, "BLOB"@) {
        FieldType::Binary
    } else if contains(v, "REAL"@) || contains(v, "FLOA"@) || contains(v, "DOUB"@) || contains(
        v,
        "NUM"@,
    ) || contains(v, "DEC"@) {
        FieldType::Decimal
    } else if contains(v, "BOOL"@) {
        FieldType::Boolean
    } else if contains(v, "DATE"@) && contains(v, "TIME"@) {
        FieldType::DateTime
    } else if contains(v, "DATE"@) {
        FieldType::Date
    } else if contains(v, "JSON"@) {
        FieldType::Json
    } else {
        FieldType::Unknown
    }
}

pub fn sqlite_type(value: &str) -> (r: FieldType)
    ensures
        r == affinity(value@),
{
    let upper = to_upper(value);
    let v = upper.as_str();
    if has_substring(v, "INT") {
        FieldType::Integer
    } else if has_substring(v, "CHAR") || has_substring(v, "CLOB") || has_substring(v, "TEXT") {
        FieldType::Text
    } else if has_substring(v, "BLOB") {
        FieldType::Binary
    } else if has_substring(v, "REAL") || has_substring(v, "FLOA") || has_substring(v, "DOUB")
        || has_substring(v, "NUM") || has_substring(v, "DEC") {
        FieldType::Decimal
    } else if has_substring(v, "BOOL") {
        FieldType::Boolean
    } else if has_substring(v, "DATE") && has_substring(v, "TIME") {
        FieldType::DateTime
    } else if has_substring(v, "DATE") {
        FieldType::Date
    } else if has_substring(v, "JSON") {
        FieldType::Json
    } else {
        FieldType::Unknown
    }
}

// ---------------------------------------------------------------------------
// Identifiers
// ---------------------------------------------------------------------------

/// Identifiers are 1 to 255 bytes with no NUL.
pub open spec fn is_identifier(v: Seq<char>) -> bool {
    v.len() > 0 && blen(v) <= 255 && !v.contains('\0')
}

pub fn validate_identifier(v: &str) -> (r: Result<(), DatabaseError>)
    ensures
        is_identifier(v@) ==> r is Ok,
        !is_identifier(v@) ==> db_invalid(r, "unsafe SQLite identifier"@),
{
    if v.unicode_len() == 0 || v.as_bytes().len() > 255 {
        return Err(invalid("unsafe SQLite identifier"));
    }
    let mut nul = false;
    for c in it: v.chars()
        invariant
            it.seq() == v@,
            nul == exists|j: int| 0 <= j < it.index() && v@[j] == '\0',
    {
        assert(c == v@[it.index() as int]);
        if c == '\0' {
            nul = true;
        }
    }
    if nul {
        assert(v@.contains('\0'));
        return Err(invalid("unsafe SQLite identifier"));
    }
    Ok(())
}

/// `s` with every `"` doubled.
pub open spec fn double_quotes(s: Seq<char>) -> Seq<char>
    decreases s.len(),
{
    if s.len() == 0 {
        s
    } else {
        double_quotes(s.drop_last()) + (if s.last() == '"' {
            seq!['"', '"']
        } else {
            seq![s.last()]
        })
    }
}

/// An identifier as a quoted SQL name.
pub open spec fn quoted(s: Seq<char>) -> Seq<char> {
    seq!['"'] + double_quotes(s) + seq!['"']
}

pub fn quote_identifier(v: &str) -> (r: String)
    ensures
        r@ == quoted(v@),
{
    let mut out = String::new();
    crate::digest::string_push(&mut out, '"');
    for c in it: v.chars()
        invariant
            it.seq() == v@,
            out@ =~= seq!['"'] + double_quotes(v@.subrange(0, it.index() as int)),
    {
        assert(c == v@[it.index() as int]);
        assert(v@.subrange(0, it.index() + 1).drop_last() =~= v@.subrange(0, it.index() as int));
        crate::digest::string_push(&mut out, c);
        if c == '"' {
            crate::digest::string_push(&mut out, '"');
        }
    }
    assert(v@.subrange(0, v@.len() as int) =~= v@);
    crate::digest::string_push(&mut out, '"');
    out
}

// ---------------------------------------------------------------------------
// Capabilities, browsing and mutations
// ---------------------------------------------------------------------------

/// What the SQLite provider can do; a read-only provider writes and restores
/// nothing.
pub fn sqlite_capabilities(read_only: bool) -> (r: CapabilitySet)
    ensures
        r.connect && r.introspect && r.query && r.browse && r.indexes && r.relations && r.export
            && r.backup && r.statistics,
        !r.schemas && !r.functions && !r.users && !r.permissions && !r.import,
        r.insert == !read_only && r.update == !read_only && r.delete == !read_only && r.restore
            == !read_only,
{
    CapabilitySet {
        connect: true,
        introspect: true,
        query: true,
        browse: true,
        insert: !read_only,
        update: !read_only,
        delete: !read_only,
        schemas: false,
        indexes: true,
        relations: true,
        functions: false,
        users: false,
        permissions: false,
        import: false,
        export: true,
        backup: true,
        restore: !read_only,
        statistics: true,
    }
}

pub open spec fn texts(v: Seq<String>) -> Seq<Seq<char>> {
    v.map_values(|x: String| x@)
}

/// Why a set of mutation field names is refused, if it is.
pub open spec fn fields_refusal(keys: Seq<Seq<char>>, max: int) -> Option<Seq<char>> {
    if keys.len() > max {
        Some("too many mutation fields"@)
    } else if exists|i: int| 0 <= i < keys.len() && !is_identifier(#[trigger] keys[i]) {
        Some("unsafe SQLite identifier"@)
    } else {
        None
    }
}

pub fn validate_fields(keys: &Vec<String>, max: usize) -> (r: Result<(), DatabaseError>)
    ensures
        fields_refusal(texts(keys@), max as int) is None ==> r is Ok,
        fields_refusal(texts(keys@), max as int) matches Some(m) ==> db_invalid(r, m),
{
    if keys.len() > max {
        return Err(invalid("too many mutation fields"));
    }
    let mut i: usize = 0;
    while i < keys.len()
        invariant
            0 <= i <= keys@.len(),
            keys@.len() <= max,
            forall|j: int| 0 <= j < i ==> is_identifier(#[trigger] texts(keys@)[j]),
        decreases keys@.len() - i,
    {
        let r = validate_identifier(keys[i].as_str());
        assert(texts(keys@)[i as int] == keys@[i as int]@);
        if r.is_err() {
            assert(!is_identifier(texts(keys@)[i as int]));
            return Err(invalid("unsafe SQLite identifier"));
        }
        i += 1;
    }
    Ok(())
}

/// `?n`, the `n`-th bind parameter.
pub open spec fn param(n: int) -> Seq<char> {
    "?"@ + dec_chars(n as nat)
}

/// `"f"=?n` for each field, numbering from `start`.
pub open spec fn assignments(fields: Seq<Seq<char>>, start: int) -> Seq<Seq<char>> {
    Seq::new(fields.len(), |i: int| quoted(fields[i]) + "=?"@ + dec_chars((start + i) as nat))
}

fn assignment_list(fields: &Vec<String>, start: u64) -> (r: Vec<String>)
    requires
        start + fields@.len() <= u64::MAX,
    ensures
        texts(r@) =~= assignments(texts(fields@), start as int),
{
    let mut out: Vec<String> = Vec::new();
    let mut i: usize = 0;
    while i < fields.len()
        invariant
            start + fields@.len() <= u64::MAX,
            0 <= i <= fields@.len(),
            out@.len() == i,
            forall|j: int| 0 <= j < i ==> (#[trigger] out@[j])@ == quoted(fields@[j]@) + "=?"@
                + dec_chars((start + j) as nat),
        decreases fields@.len() - i,
    {
        let mut t = quote_identifier(fields[i].as_str());
        vstd::string::StringExecFns::append(&mut t, "=?");
        vstd::string::StringExecFns::append(&mut t, u64_text_of(start + i as u64).as_str());
        out.push(t);
        i += 1;
    }
    out
}

fn quoted_list(fields: &Vec<String>) -> (r: Vec<String>)
    ensures
        texts(r@) =~= texts(fields@).map_values(|f: Seq<char>| quoted(f)),
{
    let mut out: Vec<String> = Vec::new();
    let mut i: usize = 0;
    while i < fields.len()
        invariant
            0 <= i <= fields@.len(),
            out@.len() == i,
            forall|j: int| 0 <= j < i ==> (#[trigger] out@[j])@ == quoted(fields@[j]@),
        decreases fields@.len() - i,
    {
        out.push(quote_identifier(fields[i].as_str()));
        i += 1;
    }
    out
}

fn param_list(n: usize) -> (r: Vec<String>)
    requires
        n < u64::MAX,
    ensures
        texts(r@) =~= Seq::new(n as nat, |i: int| param(i + 1)),
{
    let mut out: Vec<String> = Vec::new();
    let mut i: usize = 0;
    while i < n
        invariant
            n < u64::MAX,
            0 <= i <= n,
            out@.len() == i,
            forall|j: int| 0 <= j < i ==> (#[trigger] out@[j])@ == param(j + 1),
        decreases n - i,
    {
        out.push(concat("?", u64_text_of(i as u64 + 1).as_str()));
        i += 1;
    }
    out
}

/// Why an insert is refused, if it is.
pub open spec fn insert_refusal(read_only: bool, entity: Seq<char>, fields: Seq<Seq<char>>) -> Option<
    Seq<char>,
> {
    if read_only {
        Some("SQLite provider is read-only"@)
    } else if !is_identifier(entity) {
        Some("unsafe SQLite identifier"@)
    } else if fields.len() == 0 {
        Some("insert requires at least one value"@)
    } else {
        fields_refusal(fields, 64)
    }
}

/// The text of an insert of `fields` into `entity`, bound to `?1..?n`.
pub open spec fn insert_text(entity: Seq<char>, fields: Seq<Seq<char>>) -> Seq<char> {
    "INSERT INTO "@ + quoted(entity) + " ("@ + join(fields.map_values(|f: Seq<char>| quoted(f)), ","@)
        + ") VALUES ("@ + join(Seq::new(fields.len(), |i: int| param(i + 1)), ","@) + ")"@
}

/// The statement that inserts a row with the given fields (in the order the
/// values are bound).
pub fn insert_sql(read_only: bool, entity: &str, fields: &Vec<String>) -> (r: Result<
    String,
    DatabaseError,
>)
    ensures
        insert_refusal(read_only, entity@, texts(fields@)) matches Some(m) ==> db_invalid(r, m),
        insert_refusal(read_only, entity@, texts(fields@)) is None ==> (r matches Ok(sql) && sql@
            == insert_text(entity@, texts(fields@))),
{
    if read_only {
        return Err(invalid("SQLite provider is read-only"));
    }
    validate_identifier(entity)?;
    if fields.len() == 0 {
        return Err(invalid("insert requires at least one value"));
    }
    validate_fields(fields, 64)?;
    let names = join_texts(&quoted_list(fields), ",");
    let params = join_texts(&param_list(fields.len()), ",");
    let mut sql = concat("INSERT INTO ", quote_identifier(entity).as_str());
    vstd::string::StringExecFns::append(&mut sql, " (");
    vstd::string::StringExecFns::append(&mut sql, names.as_str());
    vstd::string::StringExecFns::append(&mut sql, ") VALUES (");
    vstd::string::StringExecFns::append(&mut sql, params.as_str());
    vstd::string::StringExecFns::append(&mut sql, ")");
    Ok(sql)
}

/// Why an update is refused, if it is.
pub open spec fn update_refusal(
    read_only: bool,
    entity: Seq<char>,
    values: Seq<Seq<char>>,
    filter: Seq<Seq<char>>,
) -> Option<Seq<char>> {
    if read_only {
        Some("SQLite provider is read-only"@)
    } else if !is_identifier(entity) {
        Some("unsafe SQLite identifier"@)
    } else if values.len() == 0 {
        Some("update requires values"@)
    } else if filter.len() == 0 {
        Some("update requires a non-empty equality filter"@)
    } else if fields_refusal(values, 64) is Some {
        fields_refusal(values, 64)
    } else {
        fields_refusal(filter, 32)
    }
}

/// The text of an update: the values bound first, then the filter.
pub open spec fn update_text(entity: Seq<char>, values: Seq<Seq<char>>, filter: Seq<Seq<char>>) -> Seq<
    char,
> {
    "UPDATE "@ + quoted(entity) + " SET "@ + join(assignments(values, 1), ","@) + " WHERE "@ + join(
        assignments(filter, values.len() + 1int),
        " AND "@,
    )
}

/// The statement that updates the rows matching `filter` (equalities) with
/// `values`.
pub fn update_sql(read_only: bool, entity: &str, values: &Vec<String>, filter: &Vec<String>) -> (r:
    Result<String, DatabaseError>)
    ensures
        update_refusal(read_only, entity@, texts(values@), texts(filter@)) matches Some(m)
            ==> db_invalid(r, m),
        update_refusal(read_only, entity@, texts(values@), texts(filter@)) is None ==> (r matches Ok(
            sql,
        ) && sql@ == update_text(entity@, texts(values@), texts(filter@))),
{
    if read_only {
        return Err(invalid("SQLite provider is read-only"));
    }
    validate_identifier(entity)?;
    if values.len() == 0 {
        return Err(invalid("update requires values"));
    }
    if filter.len() == 0 {
        return Err(invalid("update requires a non-empty equality filter"));
    }
    validate_fields(values, 64)?;
    validate_fields(filter, 32)?;
    let sets = join_texts(&assignment_list(values, 1), ",");
    let wheres = join_texts(&assignment_list(filter, values.len() as u64 + 1), " AND ");
    let mut sql = concat("UPDATE ", quote_identifier(entity).as_str());
    vstd::string::StringExecFns::append(&mut sql, " SET ");
    vstd::string::StringExecFns::append(&mut sql, sets.as_str());
    vstd::string::StringExecFns::append(&mut sql, " WHERE ");
    vstd::string::StringExecFns::append(&mut sql, wheres.as_str());
    Ok(sql)
}

/// Why a delete is refused, if it is.
pub open spec fn delete_refusal(read_only: bool, entity: Seq<char>, filter: Seq<Seq<char>>) -> Option<
    Seq<char>,
> {
    if read_only {
        Some("SQLite provider is read-only"@)
    } else if !is_identifier(entity) {
        Some("unsafe SQLite identifier"@)
    } else if filter.len() == 0 {
        Some("delete requires a non-empty equality filter"@)
    } else {
        fields_refusal(filter, 32)
    }
}

/// The text of a delete: the filter bound from `?1` on.
pub open spec fn delete_text(entity: Seq<char>, filter: Seq<Seq<char>>) -> Seq<char> {
    "DELETE FROM "@ + quoted(entity) + " WHERE "@ + join(assignments(filter, 1), " AND "@)
}

/// Updates and deletes change only the rows that match every filter field:
/// an update's statement ends with `" WHERE "` and the conjunction of one
/// equality `"c"=?n` per filter field, in the filter's order, numbered after
/// the values it sets (`?1` to `?k` for `k` values, then `?k+1` on); a
/// delete's is the same conjunction numbered from `?1`.
pub proof fn lemma_sqlite_mutations_match_every_field(
    entity: Seq<char>,
    values: Seq<Seq<char>>,
    filter: Seq<Seq<char>>,
)
    ensures
        ({
            let conds = Seq::new(
                filter.len(),
                |i: int| quoted(filter[i]) + "=?"@ + dec_chars((values.len() + 1 + i) as nat),
            );
            exists|head: Seq<char>|
                update_text(entity, values, filter) == head + " WHERE "@
                    + #[trigger] crate::text::conjunction(conds)
        }),
        delete_text(entity, filter) == "DELETE FROM "@ + quoted(entity) + " WHERE "@
            + crate::text::conjunction(
            Seq::new(filter.len(), |i: int| quoted(filter[i]) + "=?"@ + dec_chars((1 + i) as nat)),
        ),
{
    let u = Seq::new(
        filter.len(),
        |i: int| quoted(filter[i]) + "=?"@ + dec_chars((values.len() + 1 + i) as nat),
    );
    let d = Seq::new(filter.len(), |i: int| quoted(filter[i]) + "=?"@ + dec_chars((1 + i) as nat));
    assert(assignments(filter, values.len() + 1int) =~= u);
    assert(assignments(filter, 1) =~= d);
    crate::text::lemma_and_join_is_conjunction(u);
    crate::text::lemma_and_join_is_conjunction(d);
    let head = "UPDATE "@ + quoted(entity) + " SET "@ + join(assignments(values, 1), ","@);
    assert(update_text(entity, values, filter) == head + " WHERE "@ + crate::text::conjunction(u));
}

/// The statement that deletes the rows matching `filter` (equalities).
pub fn delete_sql(read_only: bool, entity: &str, filter: &Vec<String>) -> (r: Result<
    String,
    DatabaseError,
>)
    ensures
        delete_refusal(read_only, entity@, texts(filter@)) matches Some(m) ==> db_invalid(r, m),
        delete_refusal(read_only, entity@, texts(filter@)) is None ==> (r matches Ok(sql) && sql@
            == delete_text(entity@, texts(filter@))),
{
    if read_only {
        return Err(invalid("SQLite provider is read-only"));
    }
    validate_identifier(entity)?;
    if filter.len() == 0 {
        return Err(invalid("delete requires a non-empty equality filter"));
    }
    validate_fields(filter, 32)?;
    let wheres = join_texts(&assignment_list(filter, 1), " AND ");
    let mut sql = concat("DELETE FROM ", quote_identifier(entity).as_str());
    vstd::string::StringExecFns::append(&mut sql, " WHERE ");
    vstd::string::StringExecFns::append(&mut sql, wheres.as_str());
    Ok(sql)
}

/// A page of an entity: the statement, and the limit and offset bound to it.
#[derive(Debug, Clone, PartialEq, Eq)]
pub struct BrowsePlan {
    pub sql: String,
    pub count_sql: String,
    pub limit: u32,
    pub offset: u64,
}

/// The `ORDER BY` clause of a browse, when it is ordered.
pub open spec fn order_clause(request: BrowseRequest) -> Seq<char> {
    match request.order_by {
        Some(f) => " ORDER BY "@ + quoted(f@) + (if request.descending {
            " DESC"@
        } else {
            " ASC"@
        }),
        None => seq![],
    }
}

/// Why a browse is refused, given the entity's field names, if it is.
pub open spec fn browse_refusal(entity: Seq<char>, request: BrowseRequest, fields: Seq<Seq<char>>) -> Option<
    Seq<char>,
> {
    if !is_identifier(entity) {
        Some("unsafe SQLite identifier"@)
    } else {
        match request.order_by {
            Some(f) => if !is_identifier(f@) {
                Some("unsafe SQLite identifier"@)
            } else if !fields.contains(f@) {
                Some("order_by is not a field on the entity"@)
            } else {
                None
            },
            None => None,
        }
    }
}

/// A page of `entity`: between 1 and 1000 rows, from an offset of at most
/// ten billion, ordered by one of its `fields` when asked.
pub fn browse_plan(entity: &str, request: &BrowseRequest, fields: &Vec<String>) -> (r: Result<
    BrowsePlan,
    DatabaseError,
>)
    ensures
        browse_refusal(entity@, *request, texts(fields@)) matches Some(m) ==> db_invalid(r, m),
        browse_refusal(entity@, *request, texts(fields@)) is None ==> (r matches Ok(p) && {
            &&& p.sql@ == "SELECT * FROM "@ + quoted(entity@) + order_clause(*request)
                + " LIMIT ?1 OFFSET ?2"@
            &&& p.count_sql@ == "SELECT COUNT(*) FROM "@ + quoted(entity@)
            &&& p.limit == (if request.limit < 1 {
                1
            } else if request.limit > 1000 {
                1000
            } else {
                request.limit
            })
            &&& p.offset == (if request.offset > 10000000000 {
                10000000000
            } else {
                request.offset
            })
        }),
{
    validate_identifier(entity)?;
    let limit: u32 = if request.limit < 1 {
        1
    } else if request.limit > 1000 {
        1000
    } else {
        request.limit
    };
    let offset: u64 = if request.offset > 10000000000 {
        10000000000
    } else {
        request.offset
    };
    let order = match &request.order_by {
        Some(f) => {
            validate_identifier(f.as_str())?;
            let mut found = false;
            let mut i: usize = 0;
            while i < fields.len()
                invariant
                    0 <= i <= fields@.len(),
                    found == exists|j: int| 0 <= j < i && texts(fields@)[j] == f@,
                decreases fields@.len() - i,
            {
                assert(texts(fields@)[i as int] == fields@[i as int]@);
                if str_eq(fields[i].as_str(), f.as_str()) {
                    found = true;
                }
                i += 1;
            }
            if !found {
                return Err(invalid("order_by is not a field on the entity"));
            }
            let mut o = concat(" ORDER BY ", quote_identifier(f.as_str()).as_str());
            vstd::string::StringExecFns::append(
                &mut o,
                if request.descending {
                    " DESC"
                } else {
                    " ASC"
                },
            );
            o
        },
        None => String::new(),
    };
    let q = quote_identifier(entity);
    let mut sql = concat("SELECT * FROM ", q.as_str());
    vstd::string::StringExecFns::append(&mut sql, order.as_str());
    vstd::string::StringExecFns::append(&mut sql, " LIMIT ?1 OFFSET ?2");
    let count_sql = concat("SELECT COUNT(*) FROM ", q.as_str());
    Ok(BrowsePlan { sql, count_sql, limit, offset })
}

/// The catalogue query that lists tables and views, internal ones excluded.
pub fn list_entities_sql() -> (r: &'static str)
    ensures
        r@ == "SELECT name FROM sqlite_schema WHERE type IN ('table','view') AND name NOT LIKE 'sqlite_%' ORDER BY name"@,
{
    "SELECT name FROM sqlite_schema WHERE type IN ('table','view') AND name NOT LIKE 'sqlite_%' ORDER BY name"
}

/// `PRAGMA <pragma>("<entity>")`, for one of the catalogue pragmas.
pub fn pragma_sql(pragma: &str, entity: &str) -> (r: String)
    ensures
        r@ == "PRAGMA "@ + pragma@ + "("@ + quoted(entity@) + ")"@,
{
    let mut sql = concat("PRAGMA ", pragma);
    vstd::string::StringExecFns::append(&mut sql, "(");
    vstd::string::StringExecFns::append(&mut sql, quote_identifier(entity).as_str());
    vstd::string::StringExecFns::append(&mut sql, ")");
    sql
}

} // verus!
