use vsn::database_native::{
    cert_size_check, check_ping, grid_columns, mongo_browse_limit, mongo_delete_check, mongo_update_check, mysql_browse_sql, mysql_delete_sql, mysql_insert_sql, mysql_tls_url_check, mysql_update_sql, pg_text_rows, redis_key_check, redis_read_command, redis_set_command,
};
use vsn::database::{
    check_remote_capabilities, database_studio_conformance, remote_database_capabilities,
    validate_provider_descriptor, validate_remote_database_capabilities, workspace_for_model,
    CapabilitySet, DataModel, ProviderDescriptor, DATABASE_SDK_VERSION,
};
use vsn::database_cli::{
    enforce_read_only_sql, inspect_command, parse_tabular, read_only_query_command, redis_keys,
    validate_job_id, validate_spec, CliDatabaseError, ConnectionSpec, Engine,
    completed_job, mongo_inspect_check, JobOutcome,
};
use vsn::digest::{sha256_hex, Sha256Stream};
use vsn::database_native::{
    postgres_loopback_no_tls, postgres_plaintext_check, postgres_update_sql, transaction_ttl,
    validate_filter, validate_mongo_url, validate_native_job_id, validate_read_only_sql,
    validate_redis_url, NativeDbError,
};
use vsn::sqlite::{delete_sql, insert_sql, quote_identifier, sqlite_type, validate_read_query};
use vsn::database::FieldType;

#[test]
fn write_query_is_rejected() {
    assert!(enforce_read_only_sql("DELETE FROM users").is_err());
    assert!(enforce_read_only_sql("SELECT * FROM users").is_ok());
}

#[test]
fn stacked_statement_is_rejected() {
    assert!(enforce_read_only_sql("SELECT 1; DROP TABLE users").is_err());
}

#[test]
fn side_effect_clauses_are_rejected() {
    assert!(enforce_read_only_sql("SELECT * INTO backup FROM users").is_err());
    assert!(enforce_read_only_sql("SELECT * FROM users FOR UPDATE").is_err());
    assert!(enforce_read_only_sql("EXPLAIN ANALYZE DELETE FROM users").is_err());
}

#[test]
fn job_id_validation_is_strict() {
    assert!(validate_job_id("dbjob_12345678").is_ok());
    assert!(validate_job_id("../bad").is_err());
}

#[test]
fn read_only_gate_messages_and_trailing_semicolon() {
    assert!(enforce_read_only_sql("  select 1;  ").is_ok());
    assert!(enforce_read_only_sql("show tables").is_ok());
    assert!(enforce_read_only_sql("DESC users").is_ok());
    assert_eq!(enforce_read_only_sql("   "), Err(CliDatabaseError::Invalid("query is empty".into())));
    assert_eq!(
        enforce_read_only_sql("(SELECT 1)"),
        Err(CliDatabaseError::Invalid(
            "only single-statement SELECT/SHOW/DESCRIBE queries are accepted by the CLI provider baseline".into()
        ))
    );
    assert_eq!(
        enforce_read_only_sql("select pg_terminate_backend(1)"),
        Err(CliDatabaseError::Invalid(
            "query contains a side-effect-capable clause/function blocked by the read-only baseline".into()
        ))
    );
}

fn spec(engine: Engine) -> ConnectionSpec {
    ConnectionSpec {
        engine,
        host: Some("db.local".into()),
        port: Some(5432),
        user: Some("reader".into()),
        database: Some("app".into()),
        credential_file: None,
        service: None,
    }
}

#[test]
fn engine_names_and_aliases() {
    assert_eq!(Engine::parse("pgsql"), Ok(Engine::Postgresql));
    assert_eq!(Engine::parse("mongodb"), Ok(Engine::Mongo));
    assert_eq!(
        Engine::parse("oracle"),
        Err(CliDatabaseError::Invalid("unsupported CLI database engine: oracle".into()))
    );
    assert_eq!(Engine::Mongo.id(), "mongodb");
}

#[test]
fn connection_fields_are_single_line() {
    let mut s = spec(Engine::Postgresql);
    assert!(validate_spec(&s, false).is_ok());
    s.user = Some("a\nb".into());
    assert_eq!(validate_spec(&s, false), Err(CliDatabaseError::Invalid("unsafe connection field".into())));
    let mut t = spec(Engine::Postgresql);
    t.credential_file = Some("/missing".into());
    assert_eq!(validate_spec(&t, false), Err(CliDatabaseError::Invalid("credential file not found".into())));
}

#[test]
fn psql_query_uses_environment_for_connection() {
    let c = read_only_query_command(&spec(Engine::Postgresql), "SELECT 1", false, true).unwrap();
    assert_eq!(c.program, "psql");
    assert_eq!(c.args.last().unwrap(), "SELECT 1");
    assert!(c.env.iter().any(|(k, v)| k == "PGPORT" && v == "5432"));
    assert!(c.env.iter().any(|(k, v)| k == "PGHOST" && v == "db.local"));
}

#[test]
fn mysql_query_is_read_only_session() {
    let c = read_only_query_command(&spec(Engine::Mysql), "SELECT 1", false, true).unwrap();
    assert_eq!(c.program, "mysql");
    assert!(c.args.iter().any(|a| a == "--init-command=SET SESSION TRANSACTION READ ONLY"));
    assert!(c.args.iter().any(|a| a == "--port=5432"));
    let m = read_only_query_command(&spec(Engine::Mariadb), "SELECT 1", false, true).unwrap();
    assert!(!m.args.iter().any(|a| a.starts_with("--init-command")));
    assert_eq!(
        read_only_query_command(&spec(Engine::Redis), "SELECT 1", false, true).map(|_| ()),
        Err(CliDatabaseError::Invalid(
            "arbitrary script/query execution is disabled for MongoDB/Redis baseline; use introspection operations".into()
        ))
    );
    assert_eq!(
        read_only_query_command(&spec(Engine::Mysql), "SELECT 1", false, false).map(|_| ()),
        Err(CliDatabaseError::ClientUnavailable("mysql".into()))
    );
}

#[test]
fn redis_inspection_needs_numeric_database_and_no_credentials() {
    let mut s = spec(Engine::Redis);
    s.user = None;
    s.database = Some("3".into());
    let c = inspect_command(&s, false, true).unwrap();
    assert_eq!(c.program, "redis-cli");
    assert!(c.args.windows(2).any(|w| w[0] == "-n" && w[1] == "3"));
    s.database = Some("x".into());
    assert_eq!(
        inspect_command(&s, false, true).map(|_| ()),
        Err(CliDatabaseError::Invalid("Redis database must be numeric".into()))
    );
    let mut mongo = spec(Engine::Mongo);
    assert!(inspect_command(&mongo, false, true).is_err());
    mongo.user = None;
    let c = inspect_command(&mongo, false, true).unwrap();
    assert_eq!(c.program, "mongosh");
    assert_eq!(&c.args[..5], &["--quiet", "--host", "db.local", "--port", "5432"]);
    assert_eq!(c.args[5], "app");
    assert_eq!(c.args[6], "--eval");
    assert_eq!(
        inspect_command(&spec(Engine::Postgresql), false, false),
        Err(CliDatabaseError::ClientUnavailable("psql".into()))
    );
    let pg = inspect_command(&spec(Engine::Postgresql), false, true).unwrap();
    assert!(pg.args.last().unwrap().starts_with("SELECT table_schema"));
}

#[test]
fn tabular_output_is_read_into_a_grid() {
    let g = parse_tabular("id\tname\n1\tAda\n2\tGrace\n".to_string());
    assert_eq!(g.columns, vec!["id", "name"]);
    assert_eq!(g.rows, vec![vec!["1".to_string(), "Ada".to_string()], vec!["2".to_string(), "Grace".to_string()]]);
    assert_eq!(g.row_count, 2);
    assert!(!g.truncated);
    let many: String = std::iter::once("c".to_string()).chain((0..5001).map(|i| i.to_string())).collect::<Vec<_>>().join("\n");
    let g = parse_tabular(many);
    assert_eq!(g.row_count, 5000);
    assert!(g.truncated);
}

#[test]
fn redis_keys_skip_blank_lines() {
    let (keys, truncated) = redis_keys("a\n\nb\n");
    assert_eq!(keys, vec!["a", "b"]);
    assert!(!truncated);
}

#[test]
fn remote_redis_requires_tls() {
    assert!(validate_redis_url("redis://localhost:6379/0").is_ok());
    assert!(validate_redis_url("redis://db.example.com:6379/0").is_err());
    assert!(validate_redis_url("rediss://db.example.com:6380/0").is_ok());
    assert!(validate_redis_url("rediss://db.example.com:6380/0#insecure").is_err());
    assert!(validate_redis_url("redis://localhost.evil.invalid:6379/0").is_err());
    assert!(validate_redis_url("redis://localhost:0/0").is_err());
}

#[test]
fn redis_url_edge_cases() {
    assert!(validate_redis_url("redis://user:pw@[::1]:6379/0").is_ok());
    assert_eq!(
        validate_redis_url("redis://[::1]:0/0"),
        Err(NativeDbError::Invalid("Redis port 0 is invalid".into()))
    );
    assert_eq!(
        validate_redis_url("http://localhost"),
        Err(NativeDbError::Invalid("Redis URL must use redis:// or rediss://".into()))
    );
}

#[test]
fn mongo_remote_tls_cannot_be_disabled() {
    assert!(validate_mongo_url("mongodb+srv://db.example.com/app").is_ok());
    assert!(validate_mongo_url("mongodb+srv://db.example.com/app?tls=false").is_err());
    assert!(validate_mongo_url("mongodb+srv://db.example.com/app?tlsAllowInvalidCertificates=true").is_err());
    assert!(validate_mongo_url("mongodb://localhost:27017/app").is_ok());
    assert!(validate_mongo_url("mongodb://localhost.evil.invalid:27017/app").is_err());
}

#[test]
fn mongo_forbidden_option_is_named() {
    assert_eq!(
        validate_mongo_url("mongodb://localhost/app?ssl=false"),
        Err(NativeDbError::Invalid("MongoDB insecure TLS option is forbidden: ssl=false".into()))
    );
    assert!(validate_mongo_url("mongodb://u:p@localhost:1, 127.0.0.1:2/app").is_ok());
}

#[test]
fn native_job_identifier_is_strict() {
    assert!(validate_native_job_id("pgjob_12345678").is_ok());
    assert!(validate_native_job_id("../bad").is_err());
}

#[test]
fn transaction_ttl_is_bounded() {
    assert_eq!(transaction_ttl(1), 10);
    assert_eq!(transaction_ttl(999), 60);
}

#[test]
fn lib_update_delete_require_filter() {
    assert!(validate_filter(&vec![]).is_err());
}

#[test]
fn postgres_read_only_gate() {
    assert!(validate_read_only_sql("SELECT 1;").is_ok());
    assert!(validate_read_only_sql("WITH x AS (SELECT 1) SELECT * FROM x").is_ok());
    assert_eq!(
        validate_read_only_sql("SELECT 1; SELECT 2;"),
        Err(NativeDbError::Invalid("only one SQL statement is allowed".into()))
    );
    assert_eq!(
        validate_read_only_sql("EXPLAIN ANALYZE SELECT 1"),
        Err(NativeDbError::Invalid("read-only SQL rejected token: EXPLAIN ANALYZE".into()))
    );
    assert_eq!(
        validate_read_only_sql("with x as ( delete from t returning *) select * from x"),
        Err(NativeDbError::Invalid("read-only SQL rejected token: DELETE".into()))
    );
}

#[test]
fn postgres_plaintext_is_loopback_only() {
    assert!(postgres_loopback_no_tls("host=localhost user=postgres"));
    assert!(!postgres_loopback_no_tls("host=db.example.com user=postgres"));
    assert!(!postgres_loopback_no_tls("host=localhost.evil.invalid user=postgres"));
    assert!(!postgres_loopback_no_tls("host=localhost,db.example.com user=postgres"));
    assert!(!postgres_loopback_no_tls("host=localhost port=0 user=postgres"));
}

#[test]
fn postgres_plaintext_remote_hostname_prefix_fails_closed_before_connect() {
    let err = postgres_plaintext_check("host=localhost.evil.invalid port=5432 user=vsn dbname=vsn connect_timeout=1")
        .expect_err("remote hostname with localhost prefix must be rejected before connect");
    assert!(matches!(err, NativeDbError::Invalid(_)), "expected fail-closed validation error, got: {err:?}");
}

#[test]
fn postgres_update_binds_json_records() {
    let sql = postgres_update_sql("public", "users", &vec!["name".into()], &vec!["id".into()]).unwrap();
    assert_eq!(
        sql,
        "WITH v AS (SELECT * FROM jsonb_populate_record(NULL::\"public\".\"users\", $1::jsonb)), f AS (SELECT * FROM jsonb_populate_record(NULL::\"public\".\"users\", $2::jsonb)) UPDATE \"public\".\"users\" AS t SET \"name\" = v.\"name\" FROM v,f WHERE t.\"id\" IS NOT DISTINCT FROM f.\"id\""
    );
}

#[test]
fn read_only_gate_blocks_mutation_and_with() {
    assert!(validate_read_query("DELETE FROM users").is_err());
    assert!(validate_read_query("WITH x AS (SELECT 1) SELECT * FROM x").is_err());
    assert!(validate_read_query("SELECT * FROM users").is_ok());
}

#[test]
fn sqlite_pragmas_and_explain() {
    assert!(validate_read_query("PRAGMA table_info(users)").is_ok());
    assert!(validate_read_query("PRAGMA journal_mode=WAL").is_err());
    assert!(validate_read_query("explain query plan select 1;;").is_ok());
    assert!(validate_read_query("SELECT 1; SELECT 2").is_err());
}

#[test]
fn sqlite_affinity_mapping() {
    assert_eq!(sqlite_type("INTEGER"), FieldType::Integer);
    assert_eq!(sqlite_type("TEXT"), FieldType::Text);
}

#[test]
fn sqlite_affinity_order() {
    assert_eq!(sqlite_type("varchar(10)"), FieldType::Text);
    assert_eq!(sqlite_type("DATETIME"), FieldType::DateTime);
    assert_eq!(sqlite_type("date"), FieldType::Date);
    assert_eq!(sqlite_type("blob"), FieldType::Binary);
    assert_eq!(sqlite_type(""), FieldType::Unknown);
}

#[test]
fn sqlite_identifiers_are_quoted_and_mutations_built() {
    assert_eq!(quote_identifier("a\"b"), "\"a\"\"b\"");
    assert_eq!(
        insert_sql(false, "users", &vec!["name".into(), "team_id".into()]).unwrap(),
        "INSERT INTO \"users\" (\"name\",\"team_id\") VALUES (?1,?2)"
    );
    assert!(insert_sql(true, "users", &vec!["name".into()]).is_err());
    assert_eq!(
        delete_sql(false, "users", &vec!["id".into()]).unwrap(),
        "DELETE FROM \"users\" WHERE \"id\"=?1"
    );
    assert!(delete_sql(false, "users", &vec![]).is_err());
}

#[test]
fn vector_model_has_similarity_search() {
    assert!(workspace_for_model(DataModel::Vector).contains(&"similarity_search"));
}

#[test]
fn conformance_rejects_query_without_connect() {
    let d = ProviderDescriptor {
        sdk_version: DATABASE_SDK_VERSION,
        id: "demo".into(),
        model: DataModel::Relational,
        capabilities: CapabilitySet { query: true, ..CapabilitySet::none() },
    };
    let r = validate_provider_descriptor(&d);
    assert!(!r.passed);
    assert!(r.issues.iter().any(|i| i.capability == "query"));
}

#[test]
fn complete_descriptor_passes() {
    let d = ProviderDescriptor {
        sdk_version: DATABASE_SDK_VERSION,
        id: "demo.sql".into(),
        model: DataModel::Relational,
        capabilities: CapabilitySet { connect: true, introspect: true, query: true, browse: true, ..CapabilitySet::none() },
    };
    assert!(validate_provider_descriptor(&d).passed);
}

#[test]
fn descriptor_version_and_mutation_warning() {
    let d = ProviderDescriptor {
        sdk_version: 2,
        id: "Demo".into(),
        model: DataModel::Relational,
        capabilities: CapabilitySet { connect: true, insert: true, ..CapabilitySet::none() },
    };
    let r = validate_provider_descriptor(&d);
    assert_eq!(r.issues[0].message, "provider SDK version 2 does not match 1");
    assert_eq!(r.issues[1].capability, "id");
    assert_eq!(r.issues[2].severity, "warning");
    assert_eq!(r.issues.len(), 3);
}

#[test]
fn studio_covers_every_model() {
    let r = database_studio_conformance();
    assert!(r.ok);
    assert_eq!(r.models.len(), 9);
    assert!(!r.models[0].analyzer);
    assert!(r.models[1].analyzer);
}

#[test]
fn external_native_beta_matrix_is_exact_and_truthful() {
    let report = validate_remote_database_capabilities();
    assert!(report.valid, "{:?}", report.issues);
    let engines = report.engines.iter().map(|engine| engine.engine.as_str()).collect::<Vec<_>>();
    assert_eq!(engines, ["postgresql", "mysql", "mariadb", "mongodb", "redis"]);
    assert!(report.engines.iter().all(|engine| engine.plaintext_loopback && engine.verified_tls_remote));
    assert!(!report.engines.iter().any(|engine| engine.engine == "sqlite"));
    let maria = report.engines.iter().find(|engine| engine.engine == "mariadb").unwrap();
    assert!(maria.query);
    assert!(!maria.write);
    let mongo = report.engines.iter().find(|engine| engine.engine == "mongodb").unwrap();
    assert!(mongo.browse && mongo.write && !mongo.query);
    let redis = report.engines.iter().find(|engine| engine.engine == "redis").unwrap();
    assert!(redis.write && !redis.query && !redis.browse);
    assert_eq!(remote_database_capabilities().len(), 5);
}

#[test]
fn duplicate_remote_engine_is_reported() {
    let mut engines = remote_database_capabilities();
    let again = engines[1].clone();
    engines.push(again);
    let r = check_remote_capabilities(engines);
    assert!(!r.valid);
    assert_eq!(r.issues, vec!["duplicate remote database engine: mysql"]);
}

#[test]
fn mysql_mutations_bind_positionally() {
    let cols = vec!["id".to_string(), "name".to_string()];
    assert_eq!(
        mysql_insert_sql("app", "users", &cols).unwrap(),
        "INSERT INTO `app`.`users` (`id`,`name`) VALUES (?,?)"
    );
    assert_eq!(
        mysql_update_sql("app", "users", &vec!["name".to_string()], &vec!["id".to_string()]).unwrap(),
        "UPDATE `app`.`users` SET `name`=? WHERE `id` <=> ?"
    );
    assert_eq!(
        mysql_delete_sql("app", "users", &cols).unwrap(),
        "DELETE FROM `app`.`users` WHERE `id` <=> ? AND `name` <=> ?"
    );
    assert_eq!(
        mysql_delete_sql("app", "users", &vec![]),
        Err(NativeDbError::Invalid("update/delete requires a non-empty equality filter".into()))
    );
    assert_eq!(
        mysql_browse_sql("app", "users", 0, 7).unwrap(),
        "SELECT * FROM `app`.`users` LIMIT 1 OFFSET 7"
    );
    assert!(mysql_insert_sql("app", "bad-name", &cols).is_err());
}

#[test]
fn redis_requests_are_checked_and_built() {
    let url = "redis://127.0.0.1:6379/0";
    assert!(redis_key_check(url, "k").is_ok());
    assert!(redis_key_check(url, "").is_err());
    assert_eq!(redis_set_command(url, "k", "v", Some(60)).unwrap(), vec!["SET", "k", "v", "EX", "60"]);
    assert_eq!(redis_set_command(url, "k", "v", None).unwrap(), vec!["SET", "k", "v"]);
    assert_eq!(
        redis_set_command(url, "k", "v", Some(0)),
        Err(NativeDbError::Invalid("Redis TTL must be between 1 second and 365 days".into()))
    );
    assert_eq!(redis_read_command("zset", "k"), vec!["ZRANGE", "k", "0", "199", "WITHSCORES"]);
    assert_eq!(redis_read_command("stream", "k"), vec!["DUMP", "k"]);
    assert!(check_ping("PONG").is_ok());
    assert_eq!(check_ping("NO"), Err(NativeDbError::Redis("unexpected PING response".into())));
}

#[test]
fn mongo_requests_and_grid_columns() {
    assert_eq!(mongo_browse_limit("db", "coll", 5000), Ok(1000));
    assert_eq!(
        mongo_browse_limit("$db", "coll", 5),
        Err(NativeDbError::Invalid("invalid MongoDB database/collection name".into()))
    );
    assert!(mongo_delete_check("db", "coll", &vec![]).is_err());
    assert!(mongo_update_check("db", "coll", &vec!["a".into()], &vec!["_id".into()]).is_ok());
    let cols = grid_columns(&vec![
        vec!["name".to_string(), "_id".to_string()],
        vec!["age".to_string(), "name".to_string()],
    ]);
    assert_eq!(cols, vec!["_id", "age", "name"]);
}

#[test]
fn tls_profiles_and_text_cells_are_bounded() {
    assert!(mysql_tls_url_check("MYSQL://db.example/app").is_ok());
    assert!(mysql_tls_url_check("postgres://db").is_err());
    assert!(mysql_tls_url_check("mysql://db/app?enable_cleartext_plugin=TRUE").is_err());
    assert_eq!(
        cert_size_check("MySQL root CA", 0),
        Err(NativeDbError::Invalid("MySQL root CA must be between 1 byte and 4 MiB".into()))
    );
    assert!(cert_size_check("MySQL root CA", 1024).is_ok());
    let rows: Vec<Vec<Option<String>>> = (0..1500).map(|k| vec![Some(k.to_string()), None]).collect();
    assert_eq!(pg_text_rows(rows).unwrap().len(), 1000);
    let big = vec![vec![Some("x".repeat(256 * 1024 + 1))]];
    assert_eq!(
        pg_text_rows(big),
        Err(NativeDbError::Invalid("native database text cell exceeded 256 KiB limit".into()))
    );
}

#[test]
fn mongo_inspection_output_must_be_a_json_array() {
    assert_eq!(mongo_inspect_check("  [{\"name\":\"users\"}]\n"), Ok(()));
    assert_eq!(mongo_inspect_check("[]"), Ok(()));
    match mongo_inspect_check("{\"name\":1}") {
        Err(CliDatabaseError::Client(m)) => assert!(m.starts_with("mongosh JSON parse failed: "), "{m}"),
        other => panic!("expected a client error, got {other:?}"),
    }
    match mongo_inspect_check("not json") {
        Err(CliDatabaseError::Client(m)) => assert!(m.starts_with("mongosh JSON parse failed: "), "{m}"),
        other => panic!("expected a client error, got {other:?}"),
    }
}

#[test]
fn completed_job_records_size_digest_and_preview() {
    let out = b"id\tname\n1\talice\n";
    let mut h = Sha256Stream::new();
    h.update(&out[..5]);
    h.update(&out[5..]);
    match completed_job(out, out.len() as u64, h) {
        JobOutcome::Completed { preview, artifact } => {
            assert_eq!(artifact.bytes, out.len() as u64);
            assert_eq!(artifact.sha256, sha256_hex(out));
            assert!(!artifact.preview_truncated);
            let g = preview.unwrap();
            assert_eq!(g.columns, vec!["id".to_string(), "name".to_string()]);
            assert_eq!(g.rows, vec![vec!["1".to_string(), "alice".to_string()]]);
            assert!(!g.truncated);
        }
        other => panic!("expected a completed job, got {other:?}"),
    }
    match completed_job(&out[..3], 1000, Sha256Stream::new()) {
        JobOutcome::Completed { preview, artifact } => {
            assert!(artifact.preview_truncated);
            assert_eq!(artifact.sha256, sha256_hex(b""));
            assert!(preview.unwrap().truncated);
        }
        other => panic!("expected a completed job, got {other:?}"),
    }
    assert_eq!(
        completed_job(b"", 64 * 1024 * 1024 + 1, Sha256Stream::new()),
        JobOutcome::Failed("database job output exceeded 64 MiB artifact limit".into())
    );
}
