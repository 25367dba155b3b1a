use vsn::store::{validate_name, validate_sha256_hex, PgValue, StoreError};
use vsn::store_records::SharedAuthTransaction;
use vsn::store_snapshot::{snapshot_draft, snapshot_from_pg_row, PostgresSnapshotStore, SnapshotStore};

const ABC_SHA256: &str = "ba7816bf8f01cfea414140de5dae2223b00361a396177a9cb410ff61f20015ad";

fn store() -> PostgresSnapshotStore {
    PostgresSnapshotStore::open("postgres://vsn@localhost/vsn".into(), "ca.pem".into()).unwrap()
}

#[test]
fn snapshot_names_are_safe_identifiers() {
    assert!(validate_name("state.v1").is_ok());
    assert_eq!(
        validate_name("x"),
        Err(StoreError::Invalid("snapshot name must be a safe identifier".into()))
    );
    assert!(validate_name("../escape").is_err());
    assert!(validate_sha256_hex(ABC_SHA256).is_ok());
    assert!(validate_sha256_hex("abc").is_err());
}

#[test]
fn draft_hashes_and_stamps_the_payload() {
    let d = snapshot_draft("state", b"abc", 42).unwrap();
    assert_eq!(d.name, "state");
    assert_eq!(d.payload, b"abc".to_vec());
    assert_eq!(d.sha256, ABC_SHA256);
    assert_eq!(d.updated_at_unix_ms, 42);
}

#[test]
fn plain_save_bumps_the_generation() {
    let d = snapshot_draft("state", b"abc", 1).unwrap();
    assert_eq!(d.clone().commit_after(None).unwrap().generation, 1);
    assert_eq!(d.clone().commit_after(Some(7)).unwrap().generation, 8);
    assert_eq!(d.clone().commit_after(Some(i64::MAX)).unwrap().generation, i64::MAX as u64 + 1);
    assert_eq!(
        d.commit_after(Some(-1)),
        Err(StoreError::Invalid("negative generation".into()))
    );
}

#[test]
fn conditional_save_needs_the_generation_it_saw() {
    let d = snapshot_draft("state", b"abc", 1).unwrap();
    let (s, insert) = d.clone().commit_if(0, None).unwrap();
    assert_eq!(s.generation, 1);
    assert!(insert);
    let (s, insert) = d.clone().commit_if(3, Some(3)).unwrap();
    assert_eq!(s.generation, 4);
    assert!(!insert);
    assert_eq!(
        d.commit_if(2, Some(3)),
        Err(StoreError::GenerationConflict { expected: 2, actual: 3 })
    );
}

#[test]
fn written_snapshot_reads_back_unchanged() {
    let d = snapshot_draft("state", b"abc", 1234567).unwrap();
    let params = d.write_params(5);
    assert_eq!(params.len(), 5);
    assert_eq!(params[1], PgValue::Int(5));
    assert_eq!(params[4], PgValue::Text("1234567".into()));
    let s = snapshot_from_pg_row("state", 5, b"abc".to_vec(), ABC_SHA256.into(), "1234567".into())
        .unwrap()
        .unwrap();
    assert_eq!(s, d.commit_after(Some(4)).unwrap());
}

#[test]
fn corrupt_rows_are_refused() {
    assert_eq!(
        snapshot_from_pg_row("state", 1, b"abd".to_vec(), ABC_SHA256.into(), "1".into()),
        Err(StoreError::HashMismatch)
    );
    assert_eq!(
        snapshot_from_pg_row("state", -1, b"abc".to_vec(), ABC_SHA256.into(), "1".into()),
        Err(StoreError::Invalid("negative generation".into()))
    );
    assert_eq!(
        snapshot_from_pg_row("state", 1, b"abc".to_vec(), ABC_SHA256.into(), "x1".into()),
        Err(StoreError::Invalid("invalid timestamp".into()))
    );
}

#[test]
fn stores_check_their_inputs() {
    let local = SnapshotStore::new("snapshots.db".into());
    assert_eq!(local.path(), "snapshots.db");
    assert!(local.save("ok.name", b"x", 1).is_ok());
    assert!(local.load("?").is_err());
    assert!(PostgresSnapshotStore::open("mysql://x".into(), "ca.pem".into()).is_err());
    let pg = store();
    assert_eq!(pg.connection_string(), "postgres://vsn@localhost/vsn");
    assert_eq!(pg.load("state").unwrap(), vec![PgValue::Text("state".into())]);
}

#[test]
fn rate_limit_windows_are_aligned() {
    let pg = store();
    let w = pg.consume_rate_limit("login:alice", 3, 60_000, 125_000).unwrap();
    assert_eq!(w.window_start, 120_000);
    assert_eq!(w.expires_at, 240_000);
    assert!(w.allows(3));
    assert!(!w.allows(4));
    let same = pg.consume_rate_limit("login:alice", 3, 60_000, 179_999).unwrap();
    assert_eq!(same.window_start, w.window_start);
    assert_eq!(
        pg.consume_rate_limit("login:alice", 3, 999, 1),
        Err(StoreError::Invalid("invalid shared rate-limit request".into()))
    );
}

#[test]
fn auth_transactions_are_consumed_once() {
    let pg = store();
    let c = pg.consume_auth_transaction("tx-1", "oidc", 500).unwrap();
    let t = SharedAuthTransaction {
        transaction_id: "tx-1".into(),
        kind: "oidc".into(),
        payload: "{}".into(),
        created_at_unix_ms: 100,
        expires_at_unix_ms: 1000,
        consumed_at_unix_ms: None,
    };
    let consumed = c.decide(Some(t.clone())).unwrap();
    assert_eq!(consumed.consumed_at_unix_ms, Some(500));
    let later = pg.consume_auth_transaction("tx-1", "oidc", 600).unwrap();
    assert_eq!(later.decide(Some(consumed)), None);
    let expired = pg.consume_auth_transaction("tx-1", "oidc", 1001).unwrap();
    assert_eq!(expired.decide(Some(t)), None);
    assert_eq!(c.decide(None), None);
}

#[test]
fn second_save_expecting_the_same_generation_conflicts() {
    let d = snapshot_draft("state", b"abc", 1).unwrap();
    let (first, _) = d.clone().commit_if(5, Some(5)).unwrap();
    assert_eq!(first.generation, 6);
    let stored = first.generation as i64;
    assert_eq!(
        d.clone().commit_if(5, Some(stored)),
        Err(StoreError::GenerationConflict { expected: 5, actual: 6 })
    );
    assert_eq!(d.commit_if(6, Some(stored)).unwrap().0.generation, 7);
}
