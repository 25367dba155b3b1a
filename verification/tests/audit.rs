use std::collections::BTreeMap;
use vsn::audit::{
    canonical_event_from, canonical_of, event_hash, last_hash, new_canonical_event, now_ms, previous_hash_for,
    sealed_event, select_events_after, unix_timestamp, verify_chain, verify_event, AuditError,
    AuditEventInput, ChainLine,
};

fn entry(previous: &str, canonical: &[u8], signature_valid: bool) -> ChainLine {
    ChainLine::Entry {
        event_id: String::from_utf8_lossy(canonical).into_owned(),
        previous_hash: previous.into(),
        event_hash: event_hash(canonical),
        canonical: canonical.to_vec(),
        signature_valid,
    }
}

#[test]
fn timestamp_is_nonzero() {
    assert!(unix_timestamp() > 0);
}

#[test]
fn event_hash_is_sha256_hex() {
    assert_eq!(
        event_hash(b"abc"),
        "ba7816bf8f01cfea414140de5dae2223b00361a396177a9cb410ff61f20015ad"
    );
}

#[test]
fn first_event_chains_to_genesis() {
    assert_eq!(previous_hash_for(None), "GENESIS");
    assert_eq!(previous_hash_for(Some("abcd".into())), "abcd");
}

#[test]
fn unbroken_chain_counts_events_and_skips_blank_lines() {
    let first = entry("GENESIS", b"{\"n\":1}", true);
    let h1 = event_hash(b"{\"n\":1}");
    let second = entry(&h1, b"{\"n\":2}", true);
    let lines = vec![first, ChainLine::Blank, second];
    assert_eq!(verify_chain(&lines), Ok(2));
    assert_eq!(verify_chain(&vec![]), Ok(0));
}

#[test]
fn appending_a_chained_event_keeps_the_log_unbroken() {
    let mut lines = vec![entry("GENESIS", b"one", true)];
    assert_eq!(verify_chain(&lines), Ok(1));
    let last = event_hash(b"one");
    lines.push(entry(&previous_hash_for(Some(last)), b"two", true));
    assert_eq!(verify_chain(&lines), Ok(2));
}

#[test]
fn broken_links_name_their_line() {
    let first = entry("GENESIS", b"one", true);
    let wrong = entry("not-the-previous-hash", b"two", true);
    assert_eq!(
        verify_chain(&vec![first.clone(), ChainLine::Blank, wrong]),
        Err(AuditError::InvalidChain(3))
    );
    let unsigned = entry(&event_hash(b"one"), b"two", false);
    assert_eq!(
        verify_chain(&vec![first.clone(), unsigned]),
        Err(AuditError::InvalidChain(2))
    );
    let tampered = ChainLine::Entry {
        event_id: "t".into(),
        previous_hash: "GENESIS".into(),
        event_hash: event_hash(b"original"),
        canonical: b"changed".to_vec(),
        signature_valid: true,
    };
    assert_eq!(verify_chain(&vec![tampered]), Err(AuditError::InvalidChain(1)));
    assert_eq!(
        verify_chain(&vec![entry("x", b"one", true)]),
        Err(AuditError::InvalidChain(1))
    );
}

#[test]
fn malformed_lines_are_json_errors() {
    let first = entry("GENESIS", b"one", true);
    assert_eq!(
        verify_chain(&vec![first, ChainLine::Malformed("expected value".into())]),
        Err(AuditError::Json("expected value".into()))
    );
}

#[test]
fn last_hash_is_what_a_new_event_chains_to() {
    assert_eq!(last_hash(&vec![]), Ok(None));
    let lines = vec![
        entry("GENESIS", b"one", true),
        ChainLine::Blank,
        entry(&event_hash(b"one"), b"two", true),
    ];
    assert_eq!(last_hash(&lines), Ok(Some(event_hash(b"two"))));
    assert_eq!(
        last_hash(&vec![ChainLine::Malformed("eof".into())]),
        Err(AuditError::Json("eof".into()))
    );
}

#[test]
fn events_after_a_named_event_are_selected() {
    let lines = vec![
        entry("GENESIS", b"one", true),
        entry(&event_hash(b"one"), b"two", true),
        ChainLine::Blank,
        entry(&event_hash(b"two"), b"three", true),
    ];
    assert_eq!(select_events_after(&lines, None, 10), Ok(vec![0, 1, 3]));
    assert_eq!(select_events_after(&lines, Some("one"), 10), Ok(vec![1, 3]));
    assert_eq!(select_events_after(&lines, Some("one"), 1), Ok(vec![1]));
    assert_eq!(select_events_after(&lines, Some("three"), 10), Ok(vec![]));
    assert_eq!(select_events_after(&lines, None, 0), Ok(vec![]));
    assert_eq!(
        select_events_after(&lines, Some("missing"), 10),
        Err(AuditError::InvalidChain(0))
    );
    let bad = vec![entry("GENESIS", b"one", true), entry("x", b"two", false)];
    assert_eq!(select_events_after(&bad, Some("one"), 10), Err(AuditError::InvalidChain(1)));
}

#[test]
fn sealed_events_verify_on_their_own() {
    let input = AuditEventInput {
        actor_type: "user".into(),
        actor_id: "alice".into(),
        action: "config.update".into(),
        target: "config".into(),
        result: "ok".into(),
        metadata: BTreeMap::new(),
    };
    let c = new_canonical_event(input, "dev-1".into(), "pk".into(), "GENESIS".into()).unwrap();
    assert_eq!(c.version, 1);
    assert_eq!(c.event_id.len(), 36);
    assert_eq!(c.event_id.as_bytes()[14], b'4');
    assert!(c.timestamp_unix_ms > 0);
    let e = sealed_event(c.clone(), b"canonical-bytes", "sig".into());
    assert_eq!(e.event_hash, event_hash(b"canonical-bytes"));
    assert_eq!(e.previous_hash, "GENESIS");
    assert_eq!(canonical_of(&e), c);
    assert_eq!(verify_event(&e, b"canonical-bytes", true), Ok(()));
    assert_eq!(verify_event(&e, b"other-bytes", true), Err(AuditError::InvalidChain(1)));
    assert_eq!(verify_event(&e, b"canonical-bytes", false), Err(AuditError::InvalidChain(1)));
    assert!(now_ms() > 1_600_000_000_000);
}

#[test]
fn event_id_is_the_uuid_of_the_random_bytes() {
    let input = AuditEventInput {
        actor_type: "user".into(),
        actor_id: "u1".into(),
        action: "login".into(),
        target: "vsn".into(),
        result: "ok".into(),
        metadata: BTreeMap::new(),
    };
    let c = canonical_event_from(input, "dev".into(), "pk".into(), "prev".into(), &[0u8; 16], 42);
    assert_eq!(c.event_id, "00000000-0000-4000-8000-000000000000");
    assert_eq!(c.timestamp_unix_ms, 42);
    assert_eq!(c.version, 1);
    assert_eq!(c.previous_hash, "prev");
    let bytes: Vec<u8> = (0u8..16).collect();
    let input2 = AuditEventInput {
        actor_type: "user".into(),
        actor_id: "u1".into(),
        action: "login".into(),
        target: "vsn".into(),
        result: "ok".into(),
        metadata: BTreeMap::new(),
    };
    let d = canonical_event_from(input2, "dev".into(), "pk".into(), "prev".into(), &bytes, 42);
    assert_eq!(d.event_id, "00010203-0405-4607-8809-0a0b0c0d0e0f");
}
