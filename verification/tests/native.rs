use vsn::database_native::NativeDbError;
use vsn::native_inspect::{mongo_inspect, mongo_inspect_target, mysql_stats, postgres_stats, postgres_stats_relation, redis_inspection};
use vsn::native_jobs::{JobRegistry, NativePostgresJobState};
use vsn::native_txn::TransactionRegistry;

fn invalid(m: &str) -> NativeDbError {
    NativeDbError::Invalid(m.to_string())
}

#[test]
fn transaction_is_found_until_closed() {
    let mut reg = TransactionRegistry::new();
    let t = reg.postgres_read_transaction_start("pgtxn_0001".into(), 1_000, 5).unwrap();
    assert_eq!(t.expires_at_unix_ms, 11_000);
    assert_eq!(t.statements_executed, 0);
    assert_eq!(reg.postgres_read_transaction_status("pgtxn_0001").unwrap(), t);
    let closed = reg.postgres_read_transaction_close("pgtxn_0001").unwrap();
    assert!(closed.closed);
    assert_eq!(reg.postgres_read_transaction_status("pgtxn_0001"), Err(invalid("native PostgreSQL transaction not found")));
    assert_eq!(reg.postgres_read_transaction_status("../bad"), Err(invalid("invalid native PostgreSQL job id")));
}

#[test]
fn transaction_ttl_is_clamped_to_a_minute() {
    let mut reg = TransactionRegistry::new();
    let t = reg.postgres_read_transaction_start("pgtxn_0002".into(), 0, 999).unwrap();
    assert_eq!(t.expires_at_unix_ms, 60_000);
}

#[test]
fn expired_transaction_is_closed_and_refused() {
    let mut reg = TransactionRegistry::new();
    reg.postgres_read_transaction_start("pgtxn_0003".into(), 0, 10).unwrap();
    assert!(reg.allow_statement("pgtxn_0003", 5_000).is_ok());
    reg.ran("pgtxn_0003");
    assert_eq!(reg.postgres_read_transaction_status("pgtxn_0003").unwrap().statements_executed, 1);
    assert_eq!(reg.allow_statement("pgtxn_0003", 10_001), Err(invalid("native PostgreSQL transaction expired")));
    assert!(reg.postgres_read_transaction_status("pgtxn_0003").unwrap().closed);
}

#[test]
fn statement_limit_is_one_hundred() {
    let mut reg = TransactionRegistry::new();
    reg.postgres_read_transaction_start("pgtxn_0004".into(), 0, 60).unwrap();
    for _ in 0..100 {
        reg.allow_statement("pgtxn_0004", 1).unwrap();
        reg.ran("pgtxn_0004");
    }
    assert_eq!(
        reg.allow_statement("pgtxn_0004", 1),
        Err(invalid("native PostgreSQL transaction statement limit reached"))
    );
}

#[test]
fn at_most_thirty_two_live_transactions() {
    let mut reg = TransactionRegistry::new();
    for i in 0..32 {
        reg.postgres_read_transaction_start(format!("pgtxn_{i:04}"), 0, 60).unwrap();
    }
    assert_eq!(
        reg.postgres_read_transaction_start("pgtxn_more".into(), 0, 60),
        Err(invalid("native PostgreSQL transaction limit reached"))
    );
    // Once they have expired they make room again.
    assert!(reg.postgres_read_transaction_start("pgtxn_more".into(), 60_001, 60).is_ok());
    assert_eq!(reg.len(), 1);
}

#[test]
fn job_ends_completed_failed_or_cancelled() {
    let mut reg = JobRegistry::new();
    let s = reg.postgres_job_start("pgjob_0001".into(), 10).unwrap();
    assert_eq!(s.state, NativePostgresJobState::Running);
    reg.finish("pgjob_0001", 20, None);
    let done = reg.postgres_job_status("pgjob_0001").unwrap();
    assert_eq!(done.state, NativePostgresJobState::Completed);
    assert_eq!(done.updated_at_unix_ms, 20);

    reg.postgres_job_start("pgjob_0002".into(), 30).unwrap();
    reg.finish("pgjob_0002", 40, Some("boom".into()));
    let failed = reg.postgres_job_status("pgjob_0002").unwrap();
    assert_eq!(failed.state, NativePostgresJobState::Failed);
    assert_eq!(failed.error.as_deref(), Some("boom"));

    reg.postgres_job_start("pgjob_0003".into(), 50).unwrap();
    let (c, send) = reg.request_cancel("pgjob_0003", 55).unwrap();
    assert!(send && c.cancel_requested);
    reg.finish("pgjob_0003", 60, Some("canceling statement".into()));
    assert_eq!(reg.postgres_job_status("pgjob_0003").unwrap().state, NativePostgresJobState::Cancelled);
    let (again, send) = reg.request_cancel("pgjob_0003", 70).unwrap();
    assert!(!send);
    assert_eq!(again.state, NativePostgresJobState::Cancelled);
}

#[test]
fn job_list_is_newest_first_and_bounded() {
    let mut reg = JobRegistry::new();
    for i in 0..3u128 {
        reg.postgres_job_start(format!("pgjob_{i:04}"), 100 + i).unwrap();
    }
    let list = reg.postgres_job_list();
    let created: Vec<u128> = list.iter().map(|s| s.created_at_unix_ms).collect();
    assert_eq!(created, vec![102, 101, 100]);
    assert_eq!(
        reg.postgres_job_status("nope"),
        Err(invalid("invalid native PostgreSQL job id"))
    );
    assert_eq!(
        reg.postgres_job_status("pgjob_9999"),
        Err(invalid("native PostgreSQL job not found"))
    );
}

#[test]
fn finished_jobs_are_dropped_after_an_hour() {
    let mut reg = JobRegistry::new();
    for i in 0..64u128 {
        reg.postgres_job_start(format!("pgjob_{i:04}"), i).unwrap();
    }
    assert_eq!(reg.postgres_job_start("pgjob_more".into(), 100), Err(invalid("native PostgreSQL job limit reached")));
    reg.finish("pgjob_0000", 100, None);
    assert!(reg.postgres_job_start("pgjob_more".into(), 100 + 3_600_000).is_ok());
    assert_eq!(reg.postgres_job_list().len(), 64);
}

#[test]
fn inspections_and_stats() {
    let r = redis_inspection("PONG", 3, vec!["a".into()], "redis_version:7").unwrap();
    assert_eq!(r.db_size, 3);
    assert_eq!(r.server_info, "redis_version:7");
    assert!(matches!(redis_inspection("NOPE", 0, vec![], ""), Err(NativeDbError::Redis(_))));
    assert_eq!(mongo_inspect_target(None, Some("app".into())), Ok(Some("app".into())));
    assert_eq!(mongo_inspect_target(Some("$bad".into()), None), Err(invalid("invalid MongoDB database/collection name")));
    assert!(mongo_inspect(vec!["x".into()], None, vec!["c".into()]).collections.is_empty());
    assert_eq!(postgres_stats_relation("public", "users").unwrap(), "\"public\".\"users\"");
    let s = postgres_stats("public", "users", -1, 8192, 0);
    assert_eq!(s.estimated_rows, Some(0));
    assert_eq!(s.table_bytes, Some(8192));
    assert_eq!(mysql_stats("app", "t", None), Err(invalid("table was not found")));
    assert_eq!(mysql_stats("app", "t", Some((Some(1), None, Some(2)))).unwrap().index_bytes, Some(2));
}
