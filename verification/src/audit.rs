//! The local audit log: a hash chain of signed events, one JSON object per
//! line. The library decides how an event is chained and whether a log read
//! back is an unbroken chain; reading and writing the file, encoding the
//! events and checking signatures happen around it.
use crate::digest::{sha256_hex, sha256_hex_of};
use crate::text::str_eq;
use std::collections::BTreeMap;
use vstd::prelude::*;

verus! {

#[derive(Debug, Clone, PartialEq, Eq)]
pub struct AuditEventInput {
    pub actor_type: String,
    pub actor_id: String,
    pub action: String,
    pub target: String,
    pub result: String,
    pub metadata: BTreeMap<String, String>,
}

#[derive(Debug, Clone, PartialEq, Eq)]
pub struct AuditEvent {
    pub version: u32,
    pub event_id: String,
    pub timestamp_unix_ms: u128,
    pub device_id: String,
    pub signer_public_key: String,
    pub actor_type: String,
    pub actor_id: String,
    pub action: String,
    pub target: String,
    pub result: String,
    pub metadata: BTreeMap<String, String>,
    pub previous_hash: String,
    pub event_hash: String,
    pub signature: String,
}

#[derive(Debug, Clone, PartialEq, Eq)]
pub enum AuditError {
    Io(String),
    Json(String),
    Security(String),
    InvalidChain(usize),
}

/// The `previous_hash` of the first event of a log.
pub open spec fn genesis() -> Seq<char> {
    "GENESIS"@
}

/// The `previous_hash` of a new event: the hash of the last event of the
/// log, or `GENESIS` for the first.
pub fn previous_hash_for(last: Option<String>) -> (r: String)
    ensures
        r@ == match last {
            Some(h) => h@,
            None => genesis(),
        },
{
    match last {
        Some(h) => h,
        None => "GENESIS".to_owned(),
    }
}

/// The hash of an event: SHA-256 of its canonical encoding, in hexadecimal.
pub fn event_hash(canonical: &[u8]) -> (r: String)
    ensures
        r@ == sha256_hex_of(canonical@),
{
    sha256_hex(canonical)
}

/// One line of a log as read back: blank, not an event (with the decoder's
/// message), or an event with its id, its chaining hashes, its canonical
/// encoding and whether its signature checks out.
#[derive(Debug, Clone, PartialEq, Eq)]
pub enum ChainLine {
    Blank,
    Malformed(String),
    Entry {
        event_id: String,
        previous_hash: String,
        event_hash: String,
        canonical: Vec<u8>,
        signature_valid: bool,
    },
}

/// What walking a log finds: a fault, or the hash the next event must chain
/// to and the number of events.
pub enum ChainFault {
    Json(Seq<char>),
    Broken(nat),
}

/// Walking `lines[i..]` expecting the next event to chain to `expected`,
/// `count` events already counted.
pub open spec fn walk(lines: Seq<ChainLine>, i: int, expected: Seq<char>, count: nat) -> Result<
    (Seq<char>, nat),
    ChainFault,
>
    decreases lines.len() - i,
{
    if i < 0 || i >= lines.len() {
        Ok((expected, count))
    } else {
        match lines[i] {
            ChainLine::Blank => walk(lines, i + 1, expected, count),
            ChainLine::Malformed(m) => Err(ChainFault::Json(m@)),
            ChainLine::Entry { previous_hash, event_hash, canonical, signature_valid, .. } => {
                if previous_hash@ != expected || sha256_hex_of(canonical@) != event_hash@
                    || !signature_valid {
                    Err(ChainFault::Broken((i + 1) as nat))
                } else {
                    walk(lines, i + 1, event_hash@, count + 1)
                }
            },
        }
    }
}

/// Whether `r` is what verifying a log gives, `w` being its walk.
pub open spec fn verified_as(r: Result<usize, AuditError>, w: Result<(Seq<char>, nat), ChainFault>) -> bool {
    match w {
        Ok((_, n)) => r == Ok::<usize, AuditError>(n as usize),
        Err(ChainFault::Json(m)) => r matches Err(AuditError::Json(e)) && e@ == m,
        Err(ChainFault::Broken(k)) => r == Err::<usize, AuditError>(AuditError::InvalidChain(k as usize)),
    }
}

/// Verifies a log read back: every event chains to the one before (the
/// first to `GENESIS`), its hash is the SHA-256 of its canonical encoding
/// and its signature checks out. The result is the number of events, or the
/// first line (counting from 1, blank lines included) where the chain
/// breaks.
pub fn verify_chain(lines: &Vec<ChainLine>) -> (r: Result<usize, AuditError>)
    requires
        lines@.len() < usize::MAX,
    ensures
        verified_as(r, walk(lines@, 0, genesis(), 0)),
{
    let mut expected = "GENESIS".to_owned();
    let mut count: usize = 0;
    let mut i: usize = 0;
    while i < lines.len()
        invariant
            lines@.len() < usize::MAX,
            0 <= i <= lines@.len(),
            count <= i,
            walk(lines@, 0, genesis(), 0) == walk(lines@, i as int, expected@, count as nat),
        decreases lines@.len() - i,
    {
        match &lines[i] {
            ChainLine::Blank => {},
            ChainLine::Malformed(m) => {
                return Err(AuditError::Json(m.clone()));
            },
            ChainLine::Entry { previous_hash, event_hash: h, canonical, signature_valid, .. } => {
                let computed = sha256_hex(canonical.as_slice());
                if !str_eq(previous_hash.as_str(), expected.as_str()) || !str_eq(
                    computed.as_str(),
                    h.as_str(),
                ) || !*signature_valid {
                    return Err(AuditError::InvalidChain(i + 1));
                }
                expected = h.clone();
                count += 1;
            },
        }
        i += 1;
    }
    Ok(count)
}

/// A walk of lines that stand `offset` lines further down the log.
pub open spec fn shifted(w: Result<(Seq<char>, nat), ChainFault>, offset: nat) -> Result<
    (Seq<char>, nat),
    ChainFault,
> {
    match w {
        Ok(v) => Ok(v),
        Err(ChainFault::Broken(k)) => Err(ChainFault::Broken(k + offset)),
        Err(ChainFault::Json(m)) => Err(ChainFault::Json(m)),
    }
}

/// Walking a log with one more line at its end is walking the log and then
/// that line.
pub proof fn lemma_walk_push(
    lines: Seq<ChainLine>,
    x: ChainLine,
    i: int,
    expected: Seq<char>,
    count: nat,
)
    requires
        0 <= i <= lines.len(),
    ensures
        walk(lines.push(x), i, expected, count) == match walk(lines, i, expected, count) {
            Ok((h, n)) => shifted(walk(seq![x], 0, h, n), lines.len()),
            Err(f) => Err(f),
        },
    decreases lines.len() - i,
{
    let l2 = lines.push(x);
    if i < lines.len() {
        assert(l2[i] == lines[i]);
        match lines[i] {
            ChainLine::Entry { event_hash, .. } => {
                lemma_walk_push(lines, x, i + 1, event_hash@, count + 1);
            },
            _ => {
                lemma_walk_push(lines, x, i + 1, expected, count);
            },
        }
    } else {
        assert(l2[i] == x);
        assert(l2.len() == i + 1);
        let one = seq![x];
        assert(one[0] == x);
        match x {
            ChainLine::Entry { event_hash, .. } => {
                assert(walk(l2, i + 1, event_hash@, count + 1) == Ok::<(Seq<char>, nat), ChainFault>(
                    (event_hash@, count + 1),
                ));
                assert(walk(one, 1, event_hash@, count + 1) == Ok::<(Seq<char>, nat), ChainFault>(
                    (event_hash@, count + 1),
                ));
            },
            _ => {
                assert(walk(l2, i + 1, expected, count) == Ok::<(Seq<char>, nat), ChainFault>(
                    (expected, count),
                ));
                assert(walk(one, 1, expected, count) == Ok::<(Seq<char>, nat), ChainFault>(
                    (expected, count),
                ));
            },
        }
    }
}

/// Appending to an unbroken log an event that chains to its last hash, is
/// hashed from its canonical encoding and is validly signed, keeps the log
/// unbroken and counts one more event.
pub proof fn lemma_append_keeps_chain(
    lines: Seq<ChainLine>,
    last: Seq<char>,
    n: nat,
    event_id: String,
    previous_hash: String,
    event_hash: String,
    canonical: Vec<u8>,
)
    requires
        walk(lines, 0, genesis(), 0) == Ok::<(Seq<char>, nat), ChainFault>((last, n)),
        previous_hash@ == last,
        event_hash@ == sha256_hex_of(canonical@),
    ensures
        ({
            let e = ChainLine::Entry {
                event_id,
                previous_hash,
                event_hash,
                canonical,
                signature_valid: true,
            };
            walk(lines.push(e), 0, genesis(), 0) == Ok::<(Seq<char>, nat), ChainFault>(
                (event_hash@, n + 1),
            )
        }),
{
    let e = ChainLine::Entry {
        event_id,
        previous_hash,
        event_hash,
        canonical,
        signature_valid: true,
    };
    lemma_walk_push(lines, e, 0, genesis(), 0);
    let one = seq![e];
    assert(one[0] == e);
    assert(walk(one, 1, event_hash@, n + 1) == Ok::<(Seq<char>, nat), ChainFault>(
        (event_hash@, n + 1),
    ));
    assert(walk(one, 0, last, n) == Ok::<(Seq<char>, nat), ChainFault>((event_hash@, n + 1)));
}

/// The hash of the last event of a log read back (`None` for a log with no
/// events): the hash a new event chains to.
pub open spec fn last_hash_of(lines: Seq<ChainLine>, i: int, last: Option<Seq<char>>) -> Result<
    Option<Seq<char>>,
    ChainFault,
>
    decreases lines.len() - i,
{
    if i < 0 || i >= lines.len() {
        Ok(last)
    } else {
        match lines[i] {
            ChainLine::Blank => last_hash_of(lines, i + 1, last),
            ChainLine::Malformed(m) => Err(ChainFault::Json(m@)),
            ChainLine::Entry { event_hash, .. } => last_hash_of(lines, i + 1, Some(event_hash@)),
        }
    }
}

/// Whether `r` is the result that `f` describes, with `Ok` values compared
/// by their text.
pub open spec fn last_hash_as(r: Result<Option<String>, AuditError>, f: Result<Option<Seq<char>>, ChainFault>) -> bool {
    match f {
        Ok(None) => r == Ok::<Option<String>, AuditError>(None),
        Ok(Some(h)) => r matches Ok(Some(x)) && x@ == h,
        Err(ChainFault::Json(m)) => r matches Err(AuditError::Json(e)) && e@ == m,
        Err(ChainFault::Broken(k)) => r == Err::<Option<String>, AuditError>(AuditError::InvalidChain(k as usize)),
    }
}

/// The hash of the last event of a log read back; a line that is not an
/// event is an error.
pub fn last_hash(lines: &Vec<ChainLine>) -> (r: Result<Option<String>, AuditError>)
    ensures
        last_hash_as(r, last_hash_of(lines@, 0, None)),
{
    let mut last: Option<String> = None;
    let mut i: usize = 0;
    while i < lines.len()
        invariant
            0 <= i <= lines@.len(),
            last_hash_of(lines@, 0, None) == last_hash_of(
                lines@,
                i as int,
                match last {
                    Some(h) => Some(h@),
                    None => None,
                },
            ),
        decreases lines@.len() - i,
    {
        match &lines[i] {
            ChainLine::Blank => {},
            ChainLine::Malformed(m) => {
                return Err(AuditError::Json(m.clone()));
            },
            ChainLine::Entry { event_hash, .. } => {
                last = Some(event_hash.clone());
            },
        }
        i += 1;
    }
    Ok(last)
}

proof fn lemma_last_hash_walk(
    lines: Seq<ChainLine>,
    i: int,
    expected: Seq<char>,
    count: nat,
    last: Option<Seq<char>>,
    h: Seq<char>,
    n: nat,
)
    requires
        0 <= i <= lines.len(),
        walk(lines, i, expected, count) == Ok::<(Seq<char>, nat), ChainFault>((h, n)),
    ensures
        last_hash_of(lines, i, last) == Ok::<Option<Seq<char>>, ChainFault>(
            if n == count {
                last
            } else {
                Some(h)
            },
        ),
        n == count ==> h == expected,
        n >= count,
    decreases lines.len() - i,
{
    if i < lines.len() {
        match lines[i] {
            ChainLine::Blank => {
                lemma_last_hash_walk(lines, i + 1, expected, count, last, h, n);
            },
            ChainLine::Malformed(_) => {},
            ChainLine::Entry { event_hash, .. } => {
                lemma_last_hash_walk(lines, i + 1, event_hash@, count + 1, Some(event_hash@), h, n);
            },
        }
    }
}

/// A new event chains to the end of an unbroken log: the hash it records as
/// previous (the last event's hash, or `GENESIS` for an empty log) is the
/// hash that verifying the log ends on.
pub proof fn lemma_new_event_chains_to_end(lines: Seq<ChainLine>, h: Seq<char>, n: nat)
    requires
        walk(lines, 0, genesis(), 0) == Ok::<(Seq<char>, nat), ChainFault>((h, n)),
    ensures
        last_hash_of(lines, 0, None) matches Ok(last) && match last {
            Some(x) => x == h,
            None => genesis() == h,
        },
{
    lemma_last_hash_walk(lines, 0, genesis(), 0, None, h, n);
}

/// Whether an event checks out on its own: its hash is the SHA-256 of its
/// canonical encoding and its signature is valid.
pub open spec fn event_sound(canonical: Seq<u8>, event_hash: Seq<char>, signature_valid: bool) -> bool {
    sha256_hex_of(canonical) == event_hash && signature_valid
}

/// Checks one event on its own (`signature_valid` says whether its signature
/// over its hash checks out): a mismatch fails as line 1 of a chain.
pub fn verify_event(event: &AuditEvent, canonical: &[u8], signature_valid: bool) -> (r: Result<
    (),
    AuditError,
>)
    ensures
        event_sound(canonical@, event.event_hash@, signature_valid) ==> r is Ok,
        !event_sound(canonical@, event.event_hash@, signature_valid) ==> r == Err::<(), AuditError>(
            AuditError::InvalidChain(1),
        ),
{
    let computed = sha256_hex(canonical);
    if !str_eq(computed.as_str(), event.event_hash.as_str()) {
        return Err(AuditError::InvalidChain(1));
    }
    if !signature_valid {
        return Err(AuditError::InvalidChain(1));
    }
    Ok(())
}

/// The most events one read returns.
pub const READ_BATCH_MAX: usize = 512;

/// Reading `lines[i..]` for the events after the one named `after`: until
/// that event is passed (`found`), events are skipped; after it, each event
/// must check out on its own and its line is taken, up to `cap` lines. A
/// named event that never appears is an error (`InvalidChain(0)`).
pub open spec fn select(
    lines: Seq<ChainLine>,
    i: int,
    after: Option<Seq<char>>,
    found: bool,
    cap: nat,
    acc: Seq<int>,
) -> Result<Seq<int>, ChainFault>
    decreases lines.len() - i,
{
    if i < 0 || i >= lines.len() {
        if after is Some && !found {
            Err(ChainFault::Broken(0))
        } else {
            Ok(acc)
        }
    } else {
        match lines[i] {
            ChainLine::Blank => select(lines, i + 1, after, found, cap, acc),
            ChainLine::Malformed(m) => Err(ChainFault::Json(m@)),
            ChainLine::Entry { event_id, event_hash, canonical, signature_valid, .. } => {
                if !found {
                    select(lines, i + 1, after, after == Some(event_id@), cap, acc)
                } else if !event_sound(canonical@, event_hash@, signature_valid) {
                    Err(ChainFault::Broken(1))
                } else if acc.len() + 1 >= cap {
                    Ok(acc.push(i))
                } else {
                    select(lines, i + 1, after, found, cap, acc.push(i))
                }
            },
        }
    }
}

/// Whether `r` is the result that `f` describes.
pub open spec fn selected_as(r: Result<Vec<usize>, AuditError>, f: Result<Seq<int>, ChainFault>) -> bool {
    match f {
        Ok(ix) => r matches Ok(v) && v@.len() == ix.len() && forall|k: int|
            0 <= k < ix.len() ==> v@[k] == #[trigger] ix[k],
        Err(ChainFault::Json(m)) => r matches Err(AuditError::Json(e)) && e@ == m,
        Err(ChainFault::Broken(k)) => r == Err::<Vec<usize>, AuditError>(AuditError::InvalidChain(k as usize)),
    }
}

/// The lines (by index) that hold the events after the one named `after`
/// (from the first event when `after` is `None`), at most `limit` and at
/// most 512 of them. Each returned event checks out on its own.
pub fn select_events_after(lines: &Vec<ChainLine>, after: Option<&str>, limit: usize) -> (r: Result<
    Vec<usize>,
    AuditError,
>)
    ensures
        limit == 0 ==> (r matches Ok(v) && v@.len() == 0),
        limit > 0 ==> selected_as(
            r,
            select(
                lines@,
                0,
                match after {
                    Some(a) => Some(a@),
                    None => None,
                },
                after is None,
                if limit < READ_BATCH_MAX {
                    limit as nat
                } else {
                    READ_BATCH_MAX as nat
                },
                seq![],
            ),
        ),
{
    if limit == 0 {
        return Ok(Vec::new());
    }
    let cap: usize = if limit < READ_BATCH_MAX {
        limit
    } else {
        READ_BATCH_MAX
    };
    let ghost want: Option<Seq<char>> = match after {
        Some(a) => Some(a@),
        None => None,
    };
    let mut found = after.is_none();
    let mut out: Vec<usize> = Vec::new();
    let mut i: usize = 0;
    assert(out@.map_values(|x: usize| x as int) =~= Seq::<int>::empty());
    while i < lines.len()
        invariant
            0 <= i <= lines@.len(),
            limit > 0,
            cap == (if limit < READ_BATCH_MAX {
                limit
            } else {
                READ_BATCH_MAX
            }),
            cap >= 1,
            out@.len() < cap,
            want == match after {
                Some(a) => Some(a@),
                None => None,
            },
            forall|k: int| 0 <= k < out@.len() ==> 0 <= #[trigger] out@[k] < i,
            select(lines@, 0, want, after is None, cap as nat, seq![]) == select(
                lines@,
                i as int,
                want,
                found,
                cap as nat,
                out@.map_values(|x: usize| x as int),
            ),
        decreases lines@.len() - i,
    {
        let ghost acc = out@.map_values(|x: usize| x as int);
        match &lines[i] {
            ChainLine::Blank => {},
            ChainLine::Malformed(m) => {
                return Err(AuditError::Json(m.clone()));
            },
            ChainLine::Entry { event_id, event_hash, canonical, signature_valid, .. } => {
                if !found {
                    let hit = match after {
                        Some(a) => str_eq(event_id.as_str(), a),
                        None => false,
                    };
                    if hit {
                        found = true;
                    }
                    assert(hit == (want == Some(event_id@)));
                } else {
                    let computed = sha256_hex(canonical.as_slice());
                    if !str_eq(computed.as_str(), event_hash.as_str()) || !*signature_valid {
                        return Err(AuditError::InvalidChain(1));
                    }
                    out.push(i);
                    assert(out@.map_values(|x: usize| x as int) =~= acc.push(i as int));
                    if out.len() >= cap {
                        proof {
                            let ix = acc.push(i as int);
                            assert forall|k: int| 0 <= k < ix.len() implies out@[k] == #[trigger] ix[k] by {
                                assert(out@.map_values(|x: usize| x as int)[k] == out@[k] as int);
                            }
                        }
                        return Ok(out);
                    }
                }
            },
        }
        i += 1;
    }
    if after.is_some() && !found {
        return Err(AuditError::InvalidChain(0));
    }
    proof {
        let ix = out@.map_values(|x: usize| x as int);
        assert forall|k: int| 0 <= k < ix.len() implies out@[k] == #[trigger] ix[k] by {}
    }
    Ok(out)
}

/// The fields of an event that its hash covers, in the order they are
/// encoded.
#[derive(Debug, Clone, PartialEq, Eq)]
pub struct CanonicalEvent {
    pub version: u32,
    pub event_id: String,
    pub timestamp_unix_ms: u128,
    pub device_id: String,
    pub signer_public_key: String,
    pub actor_type: String,
    pub actor_id: String,
    pub action: String,
    pub target: String,
    pub result: String,
    pub metadata: BTreeMap<String, String>,
    pub previous_hash: String,
}

/// Whether `s` reads as a hyphenated UUID: 36 characters, lowercase hex
/// digits with hyphens at 8, 13, 18 and 23.
pub open spec fn is_uuid_text(s: Seq<char>) -> bool {
    s.len() == 36 && forall|i: int|
        0 <= i < 36 ==> (if i == 8 || i == 13 || i == 18 || i == 23 {
            #[trigger] s[i] == '-'
        } else {
            (48 <= (s[i] as u32) <= 57) || (97 <= (s[i] as u32) <= 102)
        })
}

/// 16 random bytes with the bits of a version-4, RFC 4122 UUID set: the
/// high nibble of byte 6 is 4, the two high bits of byte 8 are `10`.
pub open spec fn uuid_v4_bytes(b: Seq<u8>) -> Seq<u8> {
    b.update(6, ((b[6] & 0x0fu8) | 0x40u8) as u8).update(8, ((b[8] & 0x3fu8) | 0x80u8) as u8)
}

/// The text of the version-4 UUID built from 16 random bytes: those bytes
/// with the version and variant bits set, in lower-case hexadecimal, in
/// groups of 8, 4, 4, 4 and 12 digits joined by `-`.
pub open spec fn uuid_v4_of(bytes: Seq<u8>) -> Seq<char> {
    let h = crate::digest::hex_lower(uuid_v4_bytes(bytes));
    h.subrange(0, 8) + "-"@ + h.subrange(8, 12) + "-"@ + h.subrange(12, 16) + "-"@ + h.subrange(16, 20)
        + "-"@ + h.subrange(20, 32)
}

/// `uuid::Builder::from_random_bytes(bytes).into_uuid().to_string()`: the
/// bytes with the version and variant bits set (`with_variant(RFC4122)`,
/// `with_version(Random)`), printed by `Uuid`'s `Display` as a hyphenated
/// lowercase UUID. Trusted: the text is `uuid_v4_of(bytes)`, of that shape.
#[verifier::external_body]
fn uuid_v4_text(bytes: &[u8]) -> (r: String)
    requires
        bytes@.len() == 16,
    ensures
        r@ == uuid_v4_of(bytes@),
        is_uuid_text(r@),
{
    let mut b = [0u8; 16];
    b.copy_from_slice(bytes);
    uuid::Builder::from_random_bytes(b).into_uuid().to_string()
}

/// `std::time::UNIX_EPOCH.elapsed()` in milliseconds. Trusted: it reads the
/// clock; nothing is promised of the value (`None` when the clock is before
/// 1970).
#[verifier::external_body]
fn millis_since_epoch() -> (r: Option<u128>) {
    std::time::UNIX_EPOCH.elapsed().ok().map(|d| d.as_millis())
}

/// The current Unix time in milliseconds (0 if the clock is before 1970).
pub fn now_ms() -> (r: u128) {
    match millis_since_epoch() {
        Some(t) => t,
        None => 0,
    }
}

/// The event before it is hashed that 16 random bytes and the time
/// `timestamp_unix_ms` make: version 1, the UUID of those bytes as its id,
/// the signing device, the caller's input and the hash the log ends with.
pub fn canonical_event_from(
    input: AuditEventInput,
    device_id: String,
    signer_public_key: String,
    previous_hash: String,
    random: &[u8],
    timestamp_unix_ms: u128,
) -> (c: CanonicalEvent)
    requires
        random@.len() == 16,
    ensures
        c.version == 1,
        c.event_id@ == uuid_v4_of(random@),
        is_uuid_text(c.event_id@),
        c.timestamp_unix_ms == timestamp_unix_ms,
        c.device_id == device_id,
        c.signer_public_key == signer_public_key,
        c.actor_type == input.actor_type,
        c.actor_id == input.actor_id,
        c.action == input.action,
        c.target == input.target,
        c.result == input.result,
        c.metadata == input.metadata,
        c.previous_hash == previous_hash,
{
    let event_id = uuid_v4_text(random);
    CanonicalEvent {
        version: 1,
        event_id,
        timestamp_unix_ms,
        device_id,
        signer_public_key,
        actor_type: input.actor_type,
        actor_id: input.actor_id,
        action: input.action,
        target: input.target,
        result: input.result,
        metadata: input.metadata,
        previous_hash,
    }
}

/// A new event before it is hashed: version 1, the UUID of 16 fresh random
/// bytes as its id, the current time, the signing device, the caller's input
/// and the hash the log ends with. `None` when the system's random source
/// fails; that is the only way it fails.
pub fn new_canonical_event(
    input: AuditEventInput,
    device_id: String,
    signer_public_key: String,
    previous_hash: String,
) -> (r: Option<CanonicalEvent>)
    ensures
        r matches Some(c) ==> {
            &&& c.version == 1
            &&& (exists|b: Seq<u8>| b.len() == 16 && c.event_id@ == #[trigger] uuid_v4_of(b))
            &&& is_uuid_text(c.event_id@)
            &&& c.device_id == device_id
            &&& c.signer_public_key == signer_public_key
            &&& c.actor_type == input.actor_type
            &&& c.actor_id == input.actor_id
            &&& c.action == input.action
            &&& c.target == input.target
            &&& c.result == input.result
            &&& c.metadata == input.metadata
            &&& c.previous_hash == previous_hash
        },
{
    let random = match crate::digest::os_random(16) {
        Some(b) => b,
        None => {
            return None;
        },
    };
    let timestamp_unix_ms = now_ms();
    let c = canonical_event_from(
        input,
        device_id,
        signer_public_key,
        previous_hash,
        random.as_slice(),
        timestamp_unix_ms,
    );
    assert(random@.len() == 16 && c.event_id@ == uuid_v4_of(random@));
    Some(c)
}

/// The event that the canonical fields, their encoding `canonical` and the
/// signature over its hash make: the hash is the SHA-256 of the encoding.
pub fn sealed_event(c: CanonicalEvent, canonical: &[u8], signature: String) -> (r: AuditEvent)
    ensures
        r.version == c.version,
        r.event_id == c.event_id,
        r.timestamp_unix_ms == c.timestamp_unix_ms,
        r.device_id == c.device_id,
        r.signer_public_key == c.signer_public_key,
        r.actor_type == c.actor_type,
        r.actor_id == c.actor_id,
        r.action == c.action,
        r.target == c.target,
        r.result == c.result,
        r.metadata == c.metadata,
        r.previous_hash == c.previous_hash,
        r.event_hash@ == sha256_hex_of(canonical@),
        r.signature == signature,
{
    let event_hash = sha256_hex(canonical);
    AuditEvent {
        version: c.version,
        event_id: c.event_id,
        timestamp_unix_ms: c.timestamp_unix_ms,
        device_id: c.device_id,
        signer_public_key: c.signer_public_key,
        actor_type: c.actor_type,
        actor_id: c.actor_id,
        action: c.action,
        target: c.target,
        result: c.result,
        metadata: c.metadata,
        previous_hash: c.previous_hash,
        event_hash,
        signature,
    }
}

/// The canonical fields of a stored event, the ones its hash covers.
pub fn canonical_of(e: &AuditEvent) -> (r: CanonicalEvent)
    ensures
        r.version == e.version,
        r.event_id == e.event_id,
        r.timestamp_unix_ms == e.timestamp_unix_ms,
        r.device_id == e.device_id,
        r.signer_public_key == e.signer_public_key,
        r.actor_type == e.actor_type,
        r.actor_id == e.actor_id,
        r.action == e.action,
        r.target == e.target,
        r.result == e.result,
        r.metadata@ == e.metadata@,
        r.previous_hash == e.previous_hash,
{
    CanonicalEvent {
        version: e.version,
        event_id: e.event_id.clone(),
        timestamp_unix_ms: e.timestamp_unix_ms,
        device_id: e.device_id.clone(),
        signer_public_key: e.signer_public_key.clone(),
        actor_type: e.actor_type.clone(),
        actor_id: e.actor_id.clone(),
        action: e.action.clone(),
        target: e.target.clone(),
        result: e.result.clone(),
        metadata: e.metadata.clone(),
        previous_hash: e.previous_hash.clone(),
    }
}

} // verus!

verus! {

/// `std::time::UNIX_EPOCH.elapsed()` in whole seconds. Trusted: it reads the
/// clock; nothing is promised of the value (`None` when the clock is before
/// 1970).
#[verifier::external_body]
fn seconds_since_epoch() -> (r: Option<u64>) {
    std::time::UNIX_EPOCH.elapsed().ok().map(|d| d.as_secs())
}

/// The current Unix time in seconds (0 if the clock is before 1970).
pub fn unix_timestamp() -> (r: u64) {
    match seconds_since_epoch() {
        Some(s) => s,
        None => 0,
    }
}

} // verus!
