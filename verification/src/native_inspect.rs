//! The connection settings of the native drivers, and what an inspection or
//! a statistics query of each comes back as.
use crate::database_native::{
    check_ping, native_invalid, safe_ident, safe_mongo_name, is_mongo_name, target_refusal, pg_table,
    pg_table_of, NativeDbError,
};
use vstd::prelude::*;

verus! {

#[derive(Debug, Clone, PartialEq, Eq)]
pub struct PostgresConnection {
    pub connection_string: String,
}

#[derive(Debug, Clone, PartialEq, Eq)]
pub struct PostgresTlsConnection {
    pub connection_string: String,
    pub root_ca_pem_path: String,
}

#[derive(Debug, Clone, PartialEq, Eq)]
pub struct RedisConnection {
    pub url: String,
}

#[derive(Debug, Clone, PartialEq, Eq)]
pub struct MySqlConnection {
    pub url: String,
}

#[derive(Debug, Clone, PartialEq, Eq)]
pub struct MySqlTlsConnection {
    pub url: String,
    pub root_ca_path: String,
}

#[derive(Debug, Clone, PartialEq, Eq)]
pub struct MongoConnection {
    pub url: String,
}

/// What a Redis inspection shows: the start of `INFO server`, the number of
/// keys, and a sample of them.
#[derive(Debug, Clone, PartialEq, Eq)]
pub struct RedisInspection {
    pub server_info: String,
    pub db_size: u64,
    pub sample_keys: Vec<String>,
}

/// What a MongoDB inspection shows: the databases, the one inspected (if
/// any) and its collections.
#[derive(Debug, Clone, PartialEq, Eq)]
pub struct MongoInspection {
    pub databases: Vec<String>,
    pub current_database: Option<String>,
    pub collections: Vec<String>,
}

/// The size of a table as the server estimates it.
#[derive(Debug, Clone, PartialEq, Eq)]
pub struct NativeTableStats {
    pub namespace: String,
    pub table: String,
    pub estimated_rows: Option<u64>,
    pub table_bytes: Option<u64>,
    pub index_bytes: Option<u64>,
}

/// The Redis inspection of a server that answered `PING` with `pong`, has
/// `db_size` keys, listed `sample_keys` and described itself as `info`;
/// only the first 16,384 characters of `info` are kept.
pub fn redis_inspection(pong: &str, db_size: u64, sample_keys: Vec<String>, info: &str) -> (r: Result<
    RedisInspection,
    NativeDbError,
>)
    ensures
        pong@ != "PONG"@ ==> (r matches Err(NativeDbError::Redis(m)) && m@
            == "unexpected PING response"@),
        pong@ == "PONG"@ ==> (r matches Ok(i) && i.db_size == db_size && i.sample_keys == sample_keys
            && i.server_info@ == (if info@.len() <= 16384 {
            info@
        } else {
            info@.subrange(0, 16384)
        })),
{
    check_ping(pong)?;
    Ok(
        RedisInspection {
            server_info: crate::database_native::server_info_excerpt(info),
            db_size,
            sample_keys,
        },
    )
}

/// The database a MongoDB inspection looks into: the one asked for, else
/// the connection's default, if either; its name must be valid.
pub fn mongo_inspect_target(requested: Option<String>, default_database: Option<String>) -> (r: Result<
    Option<String>,
    NativeDbError,
>)
    ensures
        ({
            let current = if requested is Some {
                requested
            } else {
                default_database
            };
            match current {
                None => r == Ok::<Option<String>, NativeDbError>(None),
                Some(db) => if is_mongo_name(db@) {
                    r == Ok::<Option<String>, NativeDbError>(Some(db))
                } else {
                    native_invalid(r, "invalid MongoDB database/collection name"@)
                },
            }
        }),
{
    let current = match requested {
        Some(db) => Some(db),
        None => default_database,
    };
    match current {
        None => Ok(None),
        Some(db) => {
            safe_mongo_name(db.as_str())?;
            Ok(Some(db))
        },
    }
}

/// The MongoDB inspection of the server's `databases`, of `current` and of
/// its `collections` (none when no database is inspected).
pub fn mongo_inspect(databases: Vec<String>, current: Option<String>, collections: Vec<String>) -> (r:
    MongoInspection)
    ensures
        r.databases == databases,
        r.current_database == current,
        current is Some ==> r.collections == collections,
        current is None ==> r.collections@.len() == 0,
{
    let collections = if current.is_some() {
        collections
    } else {
        Vec::new()
    };
    MongoInspection { databases, current_database: current, collections }
}

/// The relation a PostgreSQL statistics query names: the quoted schema and
/// table.
pub fn postgres_stats_relation(schema: &str, table: &str) -> (r: Result<String, NativeDbError>)
    ensures
        target_refusal(schema@, table@) matches Some(m) ==> native_invalid(r, m),
        target_refusal(schema@, table@) is None ==> (r matches Ok(t) && t@ == pg_table(schema@, table@)),
{
    safe_ident(schema)?;
    safe_ident(table)?;
    Ok(pg_table_of(schema, table))
}

/// A count as PostgreSQL reports it (a `bigint`), negative ones read as 0.
pub open spec fn pg_count(v: i64) -> Option<u64> {
    Some(if v < 0 {
        0
    } else {
        v as u64
    })
}

fn count_of(v: i64) -> (r: Option<u64>)
    ensures
        r == pg_count(v),
{
    if v < 0 {
        Some(0)
    } else {
        Some(v as u64)
    }
}

/// The statistics of PostgreSQL table `schema.table` from its estimated row
/// count, table size and index size.
pub fn postgres_stats(schema: &str, table: &str, estimated_rows: i64, table_bytes: i64, index_bytes: i64) -> (r:
    NativeTableStats)
    ensures
        r.namespace@ == schema@,
        r.table@ == table@,
        r.estimated_rows == pg_count(estimated_rows),
        r.table_bytes == pg_count(table_bytes),
        r.index_bytes == pg_count(index_bytes),
{
    NativeTableStats {
        namespace: schema.to_owned(),
        table: table.to_owned(),
        estimated_rows: count_of(estimated_rows),
        table_bytes: count_of(table_bytes),
        index_bytes: count_of(index_bytes),
    }
}

/// The statistics of MySQL table `database.table` from its row in
/// `information_schema.TABLES`, if it has one.
pub fn mysql_stats(database: &str, table: &str, row: Option<(Option<u64>, Option<u64>, Option<u64>)>) -> (r:
    Result<NativeTableStats, NativeDbError>)
    ensures
        target_refusal(database@, table@) matches Some(m) ==> native_invalid(r, m),
        target_refusal(database@, table@) is None ==> match row {
            None => native_invalid(r, "table was not found"@),
            Some((rows, data, index)) => r matches Ok(s) && s.namespace@ == database@ && s.table@
                == table@ && s.estimated_rows == rows && s.table_bytes == data && s.index_bytes == index,
        },
{
    safe_ident(database)?;
    safe_ident(table)?;
    match row {
        None => Err(NativeDbError::Invalid("table was not found".to_owned())),
        Some((rows, data, index)) => Ok(
            NativeTableStats {
                namespace: database.to_owned(),
                table: table.to_owned(),
                estimated_rows: rows,
                table_bytes: data,
                index_bytes: index,
            },
        ),
    }
}

} // verus!
