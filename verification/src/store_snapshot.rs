//! Versioned snapshots: each save of a name bumps its generation by one, and a
//! conditional save succeeds only against the generation the caller last saw.
use crate::digest::{sha256_hex, sha256_hex_of};
use crate::store::{
    fails_as, fails_with, invalid, StoreFault, is_name, text, validate_name, validate_payload, PgParam, PgValue,
    StoreError, MAX_SNAPSHOT_BYTES, params_of, binds,
};
use crate::text::{
    dec_chars, has_prefix, lemma_parse_dec_chars, parse_u128, starts_with, u128_text,
    u128_text_of,
};
use vstd::prelude::*;

verus! {

/// A stored snapshot.
#[derive(Debug, Clone, PartialEq, Eq)]
pub struct Snapshot {
    pub name: String,
    pub generation: u64,
    pub payload: Vec<u8>,
    pub sha256: String,
    pub updated_at_unix_ms: u128,
}

/// A snapshot about to be written: checked, hashed and stamped, but not yet
/// given its generation.
#[derive(Debug, Clone, PartialEq, Eq)]
pub struct SnapshotDraft {
    pub name: String,
    pub payload: Vec<u8>,
    pub sha256: String,
    pub updated_at_unix_ms: u128,
}

/// The snapshot store kept in a local SQLite file.
#[derive(Debug, Clone)]
pub struct SnapshotStore {
    path: String,
}

/// The snapshot store shared through PostgreSQL.
#[derive(Debug, Clone)]
pub struct PostgresSnapshotStore {
    connection_string: String,
    root_ca_pem_path: String,
}

pub fn copy_bytes(b: &[u8]) -> (r: Vec<u8>)
    ensures
        r@ == b@,
{
    vstd::slice::slice_to_vec(b)
}

/// The checks every save makes before touching the database: a safe name and a
/// payload of at most 128 MiB, in that order.
pub open spec fn draft_ok(name: Seq<char>, payload: Seq<u8>) -> bool {
    is_name(name) && payload.len() <= MAX_SNAPSHOT_BYTES
}

/// Checks `name` and `payload`, hashes the payload and stamps it with `now_ms`.
pub fn snapshot_draft(name: &str, payload: &[u8], now_ms: u128) -> (r: Result<
    SnapshotDraft,
    StoreError,
>)
    ensures
        r is Ok <==> draft_ok(name@, payload@),
        !is_name(name@) ==> fails_with(r, "snapshot name must be a safe identifier"@),
        is_name(name@) && payload@.len() > MAX_SNAPSHOT_BYTES ==> fails_with(
            r,
            "snapshot exceeds 128 MiB"@,
        ),
        r matches Ok(d) ==> {
            &&& d.name@ == name@
            &&& d.payload@ == payload@
            &&& d.sha256@ == sha256_hex_of(payload@)
            &&& d.updated_at_unix_ms == now_ms
        },
{
    if let Err(e) = validate_name(name) {
        return Err(e);
    }
    if let Err(e) = validate_payload(payload) {
        return Err(e);
    }
    let sha256 = sha256_hex(payload);
    Ok(SnapshotDraft {
        name: name.to_owned(),
        payload: copy_bytes(payload),
        sha256,
        updated_at_unix_ms: now_ms,
    })
}

/// What a plain save writes after reading the current generation: one more
/// than the stored generation (zero when there is none), saturating at `u64::MAX`.
pub open spec fn next_generation(current: Option<i64>) -> Option<u64> {
    let actual = match current {
        Some(g) => g as int,
        None => 0,
    };
    if actual < 0 {
        None
    } else if actual + 1 > u64::MAX {
        Some(u64::MAX)
    } else {
        Some((actual + 1) as u64)
    }
}

/// The outcome of a conditional save: the write happens only when the stored
/// generation equals the expected one.
pub open spec fn conditional_generation(expected: u64, current: Option<i64>) -> Result<
    (u64, bool),
    StoreFault,
> {
    let actual = match current {
        Some(g) => g as int,
        None => 0,
    };
    if actual < 0 {
        Err(StoreFault::Invalid("negative generation"@))
    } else if actual != expected {
        Err(StoreFault::GenerationConflict { expected, actual: actual as u64 })
    } else if actual + 1 > u64::MAX {
        Ok((u64::MAX, false))
    } else {
        Ok(((actual + 1) as u64, actual == 0))
    }
}

impl SnapshotDraft {
    /// The snapshot this draft becomes under `generation`.
    pub open spec fn at(self, generation: u64) -> Snapshot {
        Snapshot {
            name: self.name,
            generation,
            payload: self.payload,
            sha256: self.sha256,
            updated_at_unix_ms: self.updated_at_unix_ms,
        }
    }

    /// Gives the draft its generation after an unconditional save read `current`.
    pub fn commit_after(self, current: Option<i64>) -> (r: Result<Snapshot, StoreError>)
        ensures
            next_generation(current) is None ==> fails_with(r, "negative generation"@),
            next_generation(current) matches Some(g) ==> r == Ok::<Snapshot, StoreError>(
                self.at(g),
            ),
    {
        let actual: i64 = match current {
            Some(g) => g,
            None => 0,
        };
        if actual < 0 {
            return Err(invalid("negative generation"));
        }
        let generation = (actual as u64).saturating_add(1);
        Ok(Snapshot {
            name: self.name,
            generation,
            payload: self.payload,
            sha256: self.sha256,
            updated_at_unix_ms: self.updated_at_unix_ms,
        })
    }

    /// Gives the draft its generation in the local (SQLite) store after a
    /// plain save read `current`: one more than the stored generation (zero
    /// when there is none), saturating at `i64::MAX`; the row stores that
    /// number and the snapshot reports its bits as a `u64`.
    pub fn commit_after_local(self, current: Option<i64>) -> (r: (Snapshot, i64))
        ensures
            r.1 == (match current {
                Some(g) => if g == i64::MAX {
                    i64::MAX as int
                } else {
                    g + 1
                },
                None => 1,
            }),
            r.0 == self.at(r.1 as u64),
    {
        let stored: i64 = match current {
            Some(g) => g,
            None => 0,
        };
        let generation: i64 = if stored == i64::MAX {
            i64::MAX
        } else {
            stored + 1
        };
        (
            Snapshot {
                name: self.name,
                generation: generation as u64,
                payload: self.payload,
                sha256: self.sha256,
                updated_at_unix_ms: self.updated_at_unix_ms,
            },
            generation,
        )
    }

    /// Gives the draft its generation after a conditional save read `current`;
    /// the flag says whether the row is new (an INSERT) or replaced (an UPDATE
    /// guarded by the generation read).
    pub fn commit_if(self, expected: u64, current: Option<i64>) -> (r: Result<
        (Snapshot, bool),
        StoreError,
    >)
        ensures
            match conditional_generation(expected, current) {
                Ok((g, insert)) => r == Ok::<(Snapshot, bool), StoreError>((self.at(g), insert)),
                Err(f) => fails_as(r, f),
            },
    {
        let actual: i64 = match current {
            Some(g) => g,
            None => 0,
        };
        if actual < 0 {
            return Err(invalid("negative generation"));
        }
        let actual = actual as u64;
        if actual != expected {
            return Err(StoreError::GenerationConflict { expected, actual });
        }
        let generation = actual.saturating_add(1);
        let insert = actual == 0;
        let snapshot = Snapshot {
            name: self.name,
            generation,
            payload: self.payload,
            sha256: self.sha256,
            updated_at_unix_ms: self.updated_at_unix_ms,
        };
        proof {
            if actual + 1 > u64::MAX {
                assert(actual != 0);
            }
        }
        Ok((snapshot, insert))
    }

    /// The bind parameters of the write: name, generation, payload, digest and
    /// the timestamp as decimal text.
    pub fn write_params(&self, generation: u64) -> (r: Vec<PgValue>)
        requires
            generation <= i64::MAX,
        ensures
            params_of(r@) =~= seq![
                PgParam::Text(self.name@),
                PgParam::Int(generation as i64),
                PgParam::Bytes(self.payload@),
                PgParam::Text(self.sha256@),
                PgParam::Text(dec_chars(self.updated_at_unix_ms as nat)),
            ],
    {
        let mut v: Vec<PgValue> = Vec::new();
        v.push(PgValue::Text(self.name.clone()));
        v.push(PgValue::Int(generation as i64));
        v.push(PgValue::Bytes(self.payload.clone()));
        v.push(PgValue::Text(self.sha256.clone()));
        v.push(PgValue::Text(u128_text_of(self.updated_at_unix_ms)));
        v
    }
}

/// How a stored row reads back: the digest must match the payload, the
/// generation must not be negative and the timestamp must be decimal text.
pub open spec fn row_snapshot(
    name: Seq<char>,
    generation: i64,
    payload: Seq<u8>,
    sha256: Seq<char>,
    updated: Seq<char>,
) -> Result<(u64, u128), StoreFault> {
    if sha256_hex_of(payload) != sha256 {
        Err(StoreFault::HashMismatch)
    } else if generation < 0 {
        Err(StoreFault::Invalid("negative generation"@))
    } else if u128_text(updated) is None {
        Err(StoreFault::Invalid("invalid timestamp"@))
    } else {
        Ok((generation as u64, u128_text(updated)->0))
    }
}

/// Reads a snapshot row back, checking it as [`row_snapshot`] says.
pub fn snapshot_from_pg_row(
    name: &str,
    generation: i64,
    payload: Vec<u8>,
    sha256: String,
    updated: String,
) -> (r: Result<Option<Snapshot>, StoreError>)
    ensures
        match row_snapshot(name@, generation, payload@, sha256@, updated@) {
            Ok((g, t)) => r matches Ok(Some(s)) && s.name@ == name@ && s.generation == g
                && s.payload == payload && s.sha256 == sha256 && s.updated_at_unix_ms == t,
            Err(f) => fails_as(r, f),
        },
{
    let computed = sha256_hex(payload.as_slice());
    if computed != sha256 {
        return Err(StoreError::HashMismatch);
    }
    if generation < 0 {
        return Err(invalid("negative generation"));
    }
    let t = match parse_u128(updated.as_str()) {
        Some(t) => t,
        None => {
            return Err(invalid("invalid timestamp"));
        },
    };
    Ok(
        Some(
            Snapshot {
                name: name.to_owned(),
                generation: generation as u64,
                payload,
                sha256,
                updated_at_unix_ms: t,
            },
        ),
    )
}

/// A snapshot that a save wrote reads back unchanged: the row holding its
/// name, generation, payload, digest and decimal timestamp gives it again.
pub proof fn lemma_snapshot_roundtrip(d: SnapshotDraft, generation: u64)
    requires
        d.sha256@ == sha256_hex_of(d.payload@),
        generation <= i64::MAX,
    ensures
        row_snapshot(
            d.name@,
            generation as i64,
            d.payload@,
            d.sha256@,
            dec_chars(d.updated_at_unix_ms as nat),
        ) == Ok::<(u64, u128), StoreFault>((generation, d.updated_at_unix_ms)),
{
    lemma_parse_dec_chars(d.updated_at_unix_ms);
}

/// A conditional save succeeds exactly when the stored generation is the one
/// expected, and then stores the generation after it.
pub proof fn lemma_conditional_save(expected: u64, current: Option<i64>)
    requires
        expected < u64::MAX,
    ensures
        conditional_generation(expected, current) is Ok <==> (match current {
            Some(g) => g == expected,
            None => expected == 0,
        }),
        conditional_generation(expected, current) matches Ok((g, _)) ==> g == expected + 1,
{
}

/// Compare-and-set across two saves: once a conditional save expecting
/// `expected` has stored its generation (which a row holds as `i64`), a
/// second conditional save expecting the same generation reads the new one
/// and is refused with a conflict naming it; a save expecting the new one
/// goes through.
pub proof fn lemma_stale_save_conflicts(expected: u64, current: Option<i64>)
    requires
        expected < i64::MAX,
        conditional_generation(expected, current) is Ok,
    ensures
        ({
            let g = conditional_generation(expected, current)->Ok_0.0;
            &&& conditional_generation(expected, Some(g as i64)) == Err::<(u64, bool), StoreFault>(
                StoreFault::GenerationConflict { expected, actual: g },
            )
            &&& conditional_generation(g, Some(g as i64)) is Ok
        }),
{
}

impl SnapshotStore {
    /// A store kept at `path`.
    pub fn new(path: String) -> (r: Self)
        ensures
            r.path_spec() == path,
    {
        SnapshotStore { path }
    }

    pub closed spec fn path_spec(&self) -> String {
        self.path
    }

    /// The file the store is kept in.
    pub fn path(&self) -> (r: &str)
        ensures
            r@ == self.path_spec()@,
    {
        self.path.as_str()
    }

    /// Checks a save of `payload` under `name` at `now_ms`.
    pub fn save(&self, name: &str, payload: &[u8], now_ms: u128) -> (r: Result<
        SnapshotDraft,
        StoreError,
    >)
        ensures
            r is Ok <==> draft_ok(name@, payload@),
            r matches Ok(d) ==> d.name@ == name@ && d.payload@ == payload@ && d.sha256@
                == sha256_hex_of(payload@) && d.updated_at_unix_ms == now_ms,
    {
        snapshot_draft(name, payload, now_ms)
    }

    /// Checks a conditional save; [`SnapshotDraft::commit_if`] then decides it.
    pub fn save_if_generation(
        &self,
        name: &str,
        expected_generation: u64,
        payload: &[u8],
        now_ms: u128,
    ) -> (r: Result<SnapshotDraft, StoreError>)
        ensures
            r is Ok <==> draft_ok(name@, payload@),
            r matches Ok(d) ==> d.name@ == name@ && d.payload@ == payload@ && d.sha256@
                == sha256_hex_of(payload@) && d.updated_at_unix_ms == now_ms,
    {
        snapshot_draft(name, payload, now_ms)
    }

    /// Checks the name of a load: its bind parameter is the name.
    pub fn load(&self, name: &str) -> (r: Result<Vec<PgValue>, StoreError>)
        ensures
            r is Ok <==> is_name(name@),
            r is Ok ==> binds(r, seq![PgParam::Text(name@)]),
    {
        if let Err(e) = validate_name(name) {
            return Err(e);
        }
        Ok(vec![text(name)])
    }
}

/// A DSN that names PostgreSQL: `postgres://` or `postgresql://`.
pub open spec fn is_postgres_dsn(s: Seq<char>) -> bool {
    starts_with(s, "postgres://"@) || starts_with(s, "postgresql://"@)
}

impl PostgresSnapshotStore {
    pub closed spec fn dsn(&self) -> Seq<char> {
        self.connection_string@
    }

    pub closed spec fn root_ca(&self) -> Seq<char> {
        self.root_ca_pem_path@
    }

    /// Opens a store on `connection_string`, which must be a PostgreSQL DSN.
    pub fn open(connection_string: String, root_ca_pem_path: String) -> (r: Result<
        Self,
        StoreError,
    >)
        ensures
            r is Ok <==> is_postgres_dsn(connection_string@),
            r matches Ok(s) ==> s.dsn() == connection_string@ && s.root_ca()
                == root_ca_pem_path@,
            r is Err ==> fails_with(
                r,
                "PostgreSQL snapshot store requires postgres:// or postgresql:// DSN"@,
            ),
    {
        if !(has_prefix(connection_string.as_str(), "postgres://") || has_prefix(
            connection_string.as_str(),
            "postgresql://",
        )) {
            return Err(
                invalid("PostgreSQL snapshot store requires postgres:// or postgresql:// DSN"),
            );
        }
        Ok(PostgresSnapshotStore { connection_string, root_ca_pem_path })
    }

    /// The DSN the store connects to.
    pub fn connection_string(&self) -> (r: &str)
        ensures
            r@ == self.dsn(),
    {
        self.connection_string.as_str()
    }

    /// The root certificate the connection trusts.
    pub fn root_ca_pem_path(&self) -> (r: &str)
        ensures
            r@ == self.root_ca(),
    {
        self.root_ca_pem_path.as_str()
    }

    /// Checks the name of a load: its bind parameter is the name.
    pub fn load(&self, name: &str) -> (r: Result<Vec<PgValue>, StoreError>)
        ensures
            r is Ok <==> is_name(name@),
            r is Ok ==> binds(r, seq![PgParam::Text(name@)]),
    {
        if let Err(e) = validate_name(name) {
            return Err(e);
        }
        Ok(vec![text(name)])
    }

    /// Checks a save of `payload` under `name` at `now_ms`;
    /// [`SnapshotDraft::commit_after`] then gives it its generation.
    pub fn save(&self, name: &str, payload: &[u8], now_ms: u128) -> (r: Result<
        SnapshotDraft,
        StoreError,
    >)
        ensures
            r is Ok <==> draft_ok(name@, payload@),
            r matches Ok(d) ==> d.name@ == name@ && d.payload@ == payload@ && d.sha256@
                == sha256_hex_of(payload@) && d.updated_at_unix_ms == now_ms,
    {
        snapshot_draft(name, payload, now_ms)
    }

    /// Checks a conditional save; [`SnapshotDraft::commit_if`] then decides it.
    pub fn save_if_generation(
        &self,
        name: &str,
        expected_generation: u64,
        payload: &[u8],
        now_ms: u128,
    ) -> (r: Result<SnapshotDraft, StoreError>)
        ensures
            r is Ok <==> draft_ok(name@, payload@),
            r matches Ok(d) ==> d.name@ == name@ && d.payload@ == payload@ && d.sha256@
                == sha256_hex_of(payload@) && d.updated_at_unix_ms == now_ms,
    {
        snapshot_draft(name, payload, now_ms)
    }
}

} // verus!

verus! {

/// Checks the root CA file of a PostgreSQL store: its path must be absolute,
/// and it must be a regular file (`file_len` is its length when it is one)
/// of 1 byte to 4 MiB.
pub fn root_ca_check(is_absolute: bool, file_len: Option<u64>) -> (r: Result<(), StoreError>)
    ensures
        !is_absolute ==> fails_with(r, "root CA path must be absolute"@),
        is_absolute ==> match file_len {
            Some(n) if 1 <= n <= 4194304 => r is Ok,
            _ => fails_with(r, "root CA must be an existing file between 1 byte and 4 MiB"@),
        },
{
    if !is_absolute {
        return Err(invalid("root CA path must be absolute"));
    }
    match file_len {
        Some(n) => {
            if n == 0 || n > 4194304 {
                return Err(invalid("root CA must be an existing file between 1 byte and 4 MiB"));
            }
            Ok(())
        },
        None => Err(invalid("root CA must be an existing file between 1 byte and 4 MiB")),
    }
}

} // verus!
