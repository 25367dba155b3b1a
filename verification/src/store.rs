//! The shared control store: its records, its errors, the validation rules that
//! guard every statement, and the conversions between the store's millisecond
//! timestamps and PostgreSQL's signed 64-bit integers.
//!
//! The methods of [`PostgresSnapshotStore`] live in the `store_*` modules. Each
//! one checks its inputs and computes the exact bind parameters of the
//! statement it issues (or decides on what the database answered); the
//! connection itself is driven by the application around the library.
use crate::text::{blen, is_token, token_ok, ByteClass};
use vstd::prelude::*;

verus! {

/// Errors of the control store.
#[derive(Debug, Clone, PartialEq, Eq)]
pub enum StoreError {
    Sqlite(String),
    Io(String),
    Postgres(String),
    Tls(String),
    HashMismatch,
    Invalid(String),
    GenerationConflict { expected: u64, actual: u64 },
}

/// What a [`StoreError`] says, its messages taken as character sequences.
pub enum StoreFault {
    Sqlite(Seq<char>),
    Io(Seq<char>),
    Postgres(Seq<char>),
    Tls(Seq<char>),
    HashMismatch,
    Invalid(Seq<char>),
    GenerationConflict { expected: u64, actual: u64 },
}

impl View for StoreError {
    type V = StoreFault;

    open spec fn view(&self) -> StoreFault {
        match self {
            StoreError::Sqlite(m) => StoreFault::Sqlite(m@),
            StoreError::Io(m) => StoreFault::Io(m@),
            StoreError::Postgres(m) => StoreFault::Postgres(m@),
            StoreError::Tls(m) => StoreFault::Tls(m@),
            StoreError::HashMismatch => StoreFault::HashMismatch,
            StoreError::Invalid(m) => StoreFault::Invalid(m@),
            StoreError::GenerationConflict { expected, actual } => StoreFault::GenerationConflict {
                expected: *expected,
                actual: *actual,
            },
        }
    }
}

impl StoreError {
    /// The message of an `Invalid` error, if it is one.
    pub open spec fn invalid_msg(self) -> Option<Seq<char>> {
        match self {
            StoreError::Invalid(m) => Some(m@),
            _ => None,
        }
    }
}

/// Whether `r` failed with `Invalid(msg)`.
pub open spec fn fails_with<T>(r: Result<T, StoreError>, msg: Seq<char>) -> bool {
    r matches Err(e) && e.invalid_msg() == Some(msg)
}

/// Whether `r` failed with the error `f`.
pub open spec fn fails_as<T>(r: Result<T, StoreError>, f: StoreFault) -> bool {
    r matches Err(e) && e@ == f
}

pub fn invalid(msg: &str) -> (e: StoreError)
    ensures
        e.invalid_msg() == Some(msg@),
{
    StoreError::Invalid(msg.to_owned())
}

/// A bind parameter of a statement.
#[derive(Debug, Clone, PartialEq, Eq)]
pub enum PgValue {
    Text(String),
    OptText(Option<String>),
    Int(i64),
    OptInt(Option<i64>),
    Bool(bool),
    Bytes(Vec<u8>),
}

/// What a bind parameter holds.
pub enum PgParam {
    Text(Seq<char>),
    OptText(Option<Seq<char>>),
    Int(i64),
    OptInt(Option<i64>),
    Bool(bool),
    Bytes(Seq<u8>),
}

pub open spec fn opt_view(o: Option<String>) -> Option<Seq<char>> {
    match o {
        Some(s) => Some(s@),
        None => None,
    }
}

impl View for PgValue {
    type V = PgParam;

    open spec fn view(&self) -> PgParam {
        match self {
            PgValue::Text(s) => PgParam::Text(s@),
            PgValue::OptText(o) => PgParam::OptText(opt_view(*o)),
            PgValue::Int(v) => PgParam::Int(*v),
            PgValue::OptInt(v) => PgParam::OptInt(*v),
            PgValue::Bool(b) => PgParam::Bool(*b),
            PgValue::Bytes(b) => PgParam::Bytes(b@),
        }
    }
}

/// The contents of a parameter list.
pub open spec fn params_of(v: Seq<PgValue>) -> Seq<PgParam> {
    v.map_values(|p: PgValue| p@)
}

/// Whether `r` succeeded with exactly the parameters `expected`.
pub open spec fn binds(r: Result<Vec<PgValue>, StoreError>, expected: Seq<PgParam>) -> bool {
    r matches Ok(v) && params_of(v@) =~= expected
}

pub fn text(s: &str) -> (p: PgValue)
    ensures
        p@ == PgParam::Text(s@),
{
    PgValue::Text(s.to_owned())
}

pub fn text_of(s: &String) -> (p: PgValue)
    ensures
        p@ == PgParam::Text(s@),
{
    PgValue::Text(s.clone())
}

pub fn opt_text_of(o: &Option<String>) -> (p: PgValue)
    ensures
        p@ == PgParam::OptText(opt_view(*o)),
{
    match o {
        Some(s) => PgValue::OptText(Some(s.clone())),
        None => PgValue::OptText(None),
    }
}

pub fn clone_opt(o: &Option<String>) -> (r: Option<String>)
    ensures
        r == *o,
{
    match o {
        Some(s) => Some(s.clone()),
        None => None,
    }
}

// ---------------------------------------------------------------------------
// Identifiers and limits
// ---------------------------------------------------------------------------
/// A snapshot, instance or topic name: 2..96 bytes of letters, digits, `-`, `_`, `.`.
pub open spec fn is_name(s: Seq<char>) -> bool {
    is_token(s, 2, 96, ByteClass::DottedIdent)
}

/// A route key or record id: 2..160 bytes of letters, digits, `-`, `_`, `.`, `:`.
pub open spec fn is_route_key(s: Seq<char>) -> bool {
    is_token(s, 2, 160, ByteClass::RouteKey)
}

/// Exactly 64 hexadecimal bytes.
pub open spec fn is_sha256_hex(s: Seq<char>) -> bool {
    is_token(s, 64, 64, ByteClass::Hex)
}

/// A team secret name: 1..128 bytes of letters, digits, `.`, `_`, `-`.
pub open spec fn is_secret_name(s: Seq<char>) -> bool {
    is_token(s, 1, 128, ByteClass::DottedIdent)
}

/// A team vault key id: 1..64 bytes of letters, digits, `.`, `_`, `-`.
pub open spec fn is_vault_key_id(s: Seq<char>) -> bool {
    is_token(s, 1, 64, ByteClass::DottedIdent)
}

pub fn validate_name(name: &str) -> (r: Result<(), StoreError>)
    ensures
        r is Ok <==> is_name(name@),
        r is Err ==> fails_with(r, "snapshot name must be a safe identifier"@),
{
    if token_ok(name, 2, 96, ByteClass::DottedIdent) {
        Ok(())
    } else {
        Err(invalid("snapshot name must be a safe identifier"))
    }
}

pub fn validate_route_key(value: &str) -> (r: Result<(), StoreError>)
    ensures
        r is Ok <==> is_route_key(value@),
        r is Err ==> fails_with(r, "route key must be a safe identifier"@),
{
    if token_ok(value, 2, 160, ByteClass::RouteKey) {
        Ok(())
    } else {
        Err(invalid("route key must be a safe identifier"))
    }
}

pub fn validate_sha256_hex(value: &str) -> (r: Result<(), StoreError>)
    ensures
        r is Ok <==> is_sha256_hex(value@),
        r is Err ==> fails_with(r, "value must be SHA-256 hex"@),
{
    if token_ok(value, 64, 64, ByteClass::Hex) {
        Ok(())
    } else {
        Err(invalid("value must be SHA-256 hex"))
    }
}

pub fn validate_team_secret_name(value: &str) -> (r: Result<(), StoreError>)
    ensures
        r is Ok <==> is_secret_name(value@),
        r is Err ==> fails_with(r, "team secret name is invalid"@),
{
    if token_ok(value, 1, 128, ByteClass::DottedIdent) {
        Ok(())
    } else {
        Err(invalid("team secret name is invalid"))
    }
}

pub fn validate_vault_key_id(value: &str) -> (r: Result<(), StoreError>)
    ensures
        r is Ok <==> is_vault_key_id(value@),
        r is Err ==> fails_with(r, "team Vault key id is invalid"@),
{
    if token_ok(value, 1, 64, ByteClass::DottedIdent) {
        Ok(())
    } else {
        Err(invalid("team Vault key id is invalid"))
    }
}

/// The largest snapshot payload, 128 MiB.
pub const MAX_SNAPSHOT_BYTES: usize = 134217728;

pub fn validate_payload(payload: &[u8]) -> (r: Result<(), StoreError>)
    ensures
        r is Ok <==> payload@.len() <= MAX_SNAPSHOT_BYTES,
        r is Err ==> fails_with(r, "snapshot exceeds 128 MiB"@),
{
    if payload.len() > MAX_SNAPSHOT_BYTES {
        Err(invalid("snapshot exceeds 128 MiB"))
    } else {
        Ok(())
    }
}

/// Byte length of a string at most `max`.
pub open spec fn fits(s: Seq<char>, max: int) -> bool {
    blen(s) <= max
}

pub fn len_le(s: &str, max: usize) -> (r: bool)
    ensures
        r == fits(s@, max as int),
{
    s.as_bytes().len() <= max
}

pub fn string_len_le(s: &String, max: usize) -> (r: bool)
    ensures
        r == fits(s@, max as int),
{
    s.as_str().as_bytes().len() <= max
}

pub const KIB_512: usize = 524288;

pub const MIB_1: usize = 1048576;

pub const MIB_2: usize = 2097152;

// ---------------------------------------------------------------------------
// Timestamps
// ---------------------------------------------------------------------------
/// A millisecond value that PostgreSQL's BIGINT can hold.
pub open spec fn ms_fits(v: u128) -> bool {
    v <= i64::MAX
}

/// `i64::try_from(value)`, failing with `"{label} exceeds PostgreSQL integer range"`.
pub fn to_i64_ms(value: u128, label: &str) -> (r: Result<i64, StoreError>)
    ensures
        r is Ok <==> ms_fits(value),
        r matches Ok(v) ==> v == value,
        r is Err ==> fails_with(r, label@ + " exceeds PostgreSQL integer range"@),
{
    if value <= 9223372036854775807u128 {
        Ok(value as i64)
    } else {
        let mut msg = label.to_owned();
        vstd::string::StringExecFns::append(&mut msg, " exceeds PostgreSQL integer range");
        Err(StoreError::Invalid(msg))
    }
}

/// `u128::try_from(v).unwrap_or(0)`: how a stored BIGINT timestamp is read back.
pub open spec fn pg_ms(v: i64) -> u128 {
    if v >= 0 {
        v as u128
    } else {
        0
    }
}

pub fn ms_from_pg(v: i64) -> (r: u128)
    ensures
        r == pg_ms(v),
{
    if v >= 0 {
        v as u128
    } else {
        0
    }
}

/// `u64::try_from(v).unwrap_or(0)`.
pub open spec fn pg_u64(v: i64) -> u64 {
    if v >= 0 {
        v as u64
    } else {
        0
    }
}

pub fn u64_from_pg(v: i64) -> (r: u64)
    ensures
        r == pg_u64(v),
{
    if v >= 0 {
        v as u64
    } else {
        0
    }
}

/// `v.and_then(|v| u128::try_from(v).ok())`.
pub open spec fn pg_opt_ms(v: Option<i64>) -> Option<u128> {
    match v {
        Some(x) => if x >= 0 {
            Some(x as u128)
        } else {
            None
        },
        None => None,
    }
}

pub fn opt_ms_from_pg(v: Option<i64>) -> (r: Option<u128>)
    ensures
        r == pg_opt_ms(v),
{
    match v {
        Some(x) => if x >= 0 {
            Some(x as u128)
        } else {
            None
        },
        None => None,
    }
}

/// `value.clamp(lo, hi)`.
pub open spec fn clamp(value: int, lo: int, hi: int) -> int {
    if value < lo {
        lo
    } else if value > hi {
        hi
    } else {
        value
    }
}

pub fn clamp_u64(value: u64, lo: u64, hi: u64) -> (r: u64)
    requires
        lo <= hi,
    ensures
        r == clamp(value as int, lo as int, hi as int),
{
    if value < lo {
        lo
    } else if value > hi {
        hi
    } else {
        value
    }
}

pub fn clamp_u32(value: u32, lo: u32, hi: u32) -> (r: u32)
    requires
        lo <= hi,
    ensures
        r == clamp(value as int, lo as int, hi as int),
{
    if value < lo {
        lo
    } else if value > hi {
        hi
    } else {
        value
    }
}

/// `a.saturating_add(b)` on `i64`.
pub open spec fn sat_add(a: int, b: int) -> int {
    if a + b > i64::MAX {
        i64::MAX as int
    } else if a + b < i64::MIN {
        i64::MIN as int
    } else {
        a + b
    }
}

pub fn sat_add_i64(a: i64, b: i64) -> (r: i64)
    ensures
        r == sat_add(a as int, b as int),
{
    if b > 0 && a > i64::MAX - b {
        i64::MAX
    } else if b < 0 && a < i64::MIN - b {
        i64::MIN
    } else {
        a + b
    }
}

/// `now.saturating_add(ttl.clamp(lo, hi))`: the expiry that a time-to-live gives.
pub open spec fn expiry_after(now: i64, ttl: u64, lo: u64, hi: u64) -> i64 {
    sat_add(now as int, clamp(ttl as int, lo as int, hi as int)) as i64
}

pub fn expiry_from_ttl(now: i64, ttl: u64, lo: u64, hi: u64) -> (r: i64)
    requires
        lo <= hi <= i64::MAX,
    ensures
        r == expiry_after(now, ttl, lo, hi),
{
    let t = clamp_u64(ttl, lo, hi);
    sat_add_i64(now, t as i64)
}

/// The cutoff of a retention window: `now.saturating_sub(retention.clamp(lo, hi))`.
pub open spec fn cutoff_before(now: i64, retention: u64, lo: u64, hi: u64) -> i64 {
    sat_add(now as int, -clamp(retention as int, lo as int, hi as int)) as i64
}

pub fn cutoff_from_retention(now: i64, retention: u64, lo: u64, hi: u64) -> (r: i64)
    requires
        lo <= hi <= i64::MAX,
    ensures
        r == cutoff_before(now, retention, lo, hi),
{
    let t = clamp_u64(retention, lo, hi);
    sat_add_i64(now, -(t as i64))
}

/// `i64::try_from(now_ms).unwrap_or(i64::MAX)`: the clock as the store reads it.
pub open spec fn clock_i64(now_ms: u128) -> i64 {
    if now_ms <= i64::MAX {
        now_ms as i64
    } else {
        i64::MAX
    }
}

pub fn now_i64(now_ms: u128) -> (r: i64)
    ensures
        r == clock_i64(now_ms),
{
    if now_ms <= 9223372036854775807u128 {
        now_ms as i64
    } else {
        i64::MAX
    }
}

/// A row count read as `u64::try_from(count)`, failing with `message` when negative.
pub fn count_from_pg(count: i64, message: &str) -> (r: Result<u64, StoreError>)
    ensures
        r is Ok <==> count >= 0,
        r matches Ok(n) ==> n == count,
        r is Err ==> fails_with(r, message@),
{
    if count >= 0 {
        Ok(count as u64)
    } else {
        Err(invalid(message))
    }
}

} // verus!
