//! Remote commands and their approvals, and the per-device audit chain.
use crate::store::{
    binds, clamp, clamp_u32, clock_i64, cutoff_before, cutoff_from_retention, expiry_after,
    expiry_from_ttl, fails_with, fits, invalid, is_name, is_route_key, len_le, ms_fits, now_i64,
    string_len_le, text, text_of, validate_name, validate_route_key, PgParam, PgValue,
    StoreError, KIB_512, MIB_2, pg_ms,
};
use crate::store_records::{SharedAuditAppendResult, SharedAuditInput, SharedCommandRecord};
use crate::store_snapshot::PostgresSnapshotStore;
use crate::text::{blen, str_eq};
use vstd::prelude::*;
use vstd::string::StringExecFns;

verus! {

/// What happens to an approval when it is granted.
#[derive(Debug, Clone, Copy, PartialEq, Eq, Structural)]
pub enum ApprovalStep {
    /// No such approval: nothing changes.
    NotFound,
    /// Already decided: nothing changes.
    Closed,
    /// Still pending but past its expiry: it is marked expired.
    ExpireNow,
    /// Pending and live: the command is queued and the approval marked approved.
    Enqueue,
}

/// A checked request to approve an approval and queue its command.
#[derive(Debug, Clone, PartialEq, Eq)]
pub struct ApprovalGrant {
    pub approval_id: String,
    pub approver_id: String,
    pub command_id: String,
    pub device_id: String,
    pub command_payload: String,
    pub command_expires_at: i64,
    pub now: i64,
}

/// The decision on an approval row `(state, expires_at)` at time `now`.
pub open spec fn approval_step(row: Option<(Seq<char>, i64)>, now: i64) -> ApprovalStep {
    match row {
        None => ApprovalStep::NotFound,
        Some((state, expires)) => if state != "pending"@ || expires < now {
            if state == "pending"@ {
                ApprovalStep::ExpireNow
            } else {
                ApprovalStep::Closed
            }
        } else {
            ApprovalStep::Enqueue
        },
    }
}

impl ApprovalGrant {
    /// Decides on the approval row read under lock.
    pub fn decide(&self, row: Option<(String, i64)>) -> (r: ApprovalStep)
        ensures
            r == approval_step(
                match row {
                    Some((s, e)) => Some((s@, e)),
                    None => None,
                },
                self.now,
            ),
    {
        match row {
            None => ApprovalStep::NotFound,
            Some((state, expires)) => {
                let pending = str_eq(state.as_str(), "pending");
                if !pending || expires < self.now {
                    if pending {
                        ApprovalStep::ExpireNow
                    } else {
                        ApprovalStep::Closed
                    }
                } else {
                    ApprovalStep::Enqueue
                }
            },
        }
    }

    /// The command queued by a grant: id, device, payload, expiry and creation time.
    pub fn command_params(&self) -> (r: Vec<PgValue>)
        ensures
            binds(
                Ok(r),
                seq![
                    PgParam::Text(self.command_id@),
                    PgParam::Text(self.device_id@),
                    PgParam::Text(self.command_payload@),
                    PgParam::Int(self.command_expires_at),
                    PgParam::Int(self.now),
                ],
            ),
    {
        vec![
            text_of(&self.command_id),
            text_of(&self.device_id),
            text_of(&self.command_payload),
            PgValue::Int(self.command_expires_at),
            PgValue::Int(self.now),
        ]
    }

    /// The approval update of a grant: id, approver, decision time and command id.
    pub fn approval_params(&self) -> (r: Vec<PgValue>)
        ensures
            binds(
                Ok(r),
                seq![
                    PgParam::Text(self.approval_id@),
                    PgParam::Text(self.approver_id@),
                    PgParam::Int(self.now),
                    PgParam::Text(self.command_id@),
                ],
            ),
    {
        vec![
            text_of(&self.approval_id),
            text_of(&self.approver_id),
            PgValue::Int(self.now),
            text_of(&self.command_id),
        ]
    }
}

/// A checked lease request.
#[derive(Debug, Clone, PartialEq, Eq)]
pub struct LeasePlan {
    pub device_id: String,
    pub instance_id: String,
    pub now: i64,
    pub lease_until: i64,
    pub max_attempts: i64,
}

impl LeasePlan {
    /// The command a lease hands out, from the selected row
    /// `(command_id, payload, attempts, expires, created)`: in flight, one
    /// more attempt, leased by this instance until the lease ends.
    pub fn lease(
        &self,
        command_id: String,
        payload: String,
        attempts: i64,
        expires: i64,
        created: i64,
    ) -> (r: SharedCommandRecord)
        ensures
            r.command_id == command_id,
            r.device_id@ == self.device_id@,
            r.payload == payload,
            r.state@ == "inflight"@,
            r.attempts == (if attempts == i64::MAX {
                u32::MAX
            } else if 0 <= attempts + 1 <= u32::MAX {
                (attempts + 1) as u32
            } else {
                u32::MAX
            }),
            r.leased_by matches Some(l) && l@ == self.instance_id@,
            r.lease_until_unix_ms == (if self.lease_until >= 0 {
                Some(self.lease_until as u128)
            } else {
                None
            }),
            r.expires_at_unix_ms == pg_ms(expires),
            r.created_at_unix_ms == pg_ms(created),
            r.completed_at_unix_ms is None,
            r.last_error is None,
            r.result_payload is None,
    {
        let next: i64 = if attempts == i64::MAX {
            i64::MAX
        } else {
            attempts + 1
        };
        let attempts_u32 = if 0 <= next && next <= 4294967295i64 {
            next as u32
        } else {
            u32::MAX
        };
        SharedCommandRecord {
            command_id,
            device_id: self.device_id.clone(),
            payload,
            state: "inflight".to_owned(),
            attempts: attempts_u32,
            leased_by: Some(self.instance_id.clone()),
            lease_until_unix_ms: if self.lease_until >= 0 {
                Some(self.lease_until as u128)
            } else {
                None
            },
            expires_at_unix_ms: crate::store::ms_from_pg(expires),
            created_at_unix_ms: crate::store::ms_from_pg(created),
            completed_at_unix_ms: None,
            last_error: None,
            result_payload: None,
        }
    }
}

/// The state of an audit batch being appended for one device: the hash the
/// chain ends in and the counts so far.
#[derive(Debug, Clone, PartialEq, Eq)]
pub struct AuditChain {
    pub device_id: String,
    pub last_hash: String,
    pub accepted: u32,
    pub duplicates: u32,
}

/// What to do with one event of an audit batch.
#[derive(Debug, Clone, PartialEq, Eq)]
pub enum AuditAction {
    /// The event is already stored with the same hash: skip it.
    Duplicate,
    /// Insert the event with these parameters: device, event id, previous
    /// hash, event hash, timestamp, payload.
    Insert(Vec<PgValue>),
}

/// The size limits of one audit event.
pub open spec fn audit_event_fits(e: SharedAuditInput) -> bool {
    blen(e.event_hash@) == 64 && blen(e.previous_hash@) <= 128 && fits(e.payload@, KIB_512 as int)
}

impl AuditChain {
    /// Takes the next event, given the hash already stored under its id (if any).
    ///
    /// An event stored with the same hash is a duplicate and leaves the chain
    /// as it was. A new event must name the chain's current hash as its
    /// previous hash; it then becomes the chain's end.
    pub fn step(&mut self, event: &SharedAuditInput, existing: Option<String>) -> (r: Result<
        AuditAction,
        StoreError,
    >)
        ensures
            r is Ok <==> is_route_key(event.event_id@) && audit_event_fits(*event) && match existing {
                Some(h) => h@ == event.event_hash@,
                None => event.previous_hash@ == old(self).last_hash@ && ms_fits(
                    event.timestamp_unix_ms,
                ),
            },
            is_route_key(event.event_id@) && !audit_event_fits(*event) ==> fails_with(
                r,
                "audit event exceeds shared-store limits"@,
            ),
            is_route_key(event.event_id@) && audit_event_fits(*event) && (existing matches Some(h)
                && h@ != event.event_hash@) ==> fails_with(
                r,
                "audit event id already exists with a different hash"@,
            ),
            is_route_key(event.event_id@) && audit_event_fits(*event) && existing is None
                && event.previous_hash@ != old(self).last_hash@ ==> fails_with(
                r,
                "audit chain continuity mismatch: expected "@ + old(self).last_hash@ + ", got "@
                    + event.previous_hash@,
            ),
            r matches Ok(AuditAction::Duplicate) ==> existing is Some && final(self).last_hash
                == old(self).last_hash && final(self).accepted == old(self).accepted
                && final(self).duplicates == (if old(self).duplicates == u32::MAX {
                u32::MAX as int
            } else {
                old(self).duplicates + 1
            }),
            r matches Ok(AuditAction::Insert(p)) ==> {
                &&& existing is None
                &&& final(self).last_hash@ == event.event_hash@
                &&& final(self).duplicates == old(self).duplicates
                &&& final(self).accepted == (if old(self).accepted == u32::MAX {
                    u32::MAX as int
                } else {
                    old(self).accepted + 1
                })
                &&& binds(
                    Ok(p),
                    seq![
                        PgParam::Text(old(self).device_id@),
                        PgParam::Text(event.event_id@),
                        PgParam::Text(event.previous_hash@),
                        PgParam::Text(event.event_hash@),
                        PgParam::Int(event.timestamp_unix_ms as i64),
                        PgParam::Text(event.payload@),
                    ],
                )
            },
            final(self).device_id == old(self).device_id,
            r is Err ==> *final(self) == *old(self),
    {
        if let Err(e) = validate_route_key(event.event_id.as_str()) {
            return Err(e);
        }
        if event.event_hash.as_str().as_bytes().len() != 64 || !string_len_le(
            &event.previous_hash,
            128,
        ) || !string_len_le(&event.payload, KIB_512) {
            return Err(invalid("audit event exceeds shared-store limits"));
        }
        match existing {
            Some(stored) => {
                if !str_eq(stored.as_str(), event.event_hash.as_str()) {
                    return Err(invalid("audit event id already exists with a different hash"));
                }
                self.duplicates = self.duplicates.saturating_add(1);
                Ok(AuditAction::Duplicate)
            },
            None => {
                if !str_eq(event.previous_hash.as_str(), self.last_hash.as_str()) {
                    let mut msg = "audit chain continuity mismatch: expected ".to_owned();
                    msg.append(self.last_hash.as_str());
                    msg.append(", got ");
                    msg.append(event.previous_hash.as_str());
                    return Err(StoreError::Invalid(msg));
                }
                if event.timestamp_unix_ms > 9223372036854775807u128 {
                    return Err(invalid("invalid audit timestamp"));
                }
                let params = vec![
                    text_of(&self.device_id),
                    text_of(&event.event_id),
                    text_of(&event.previous_hash),
                    text_of(&event.event_hash),
                    PgValue::Int(event.timestamp_unix_ms as i64),
                    text_of(&event.payload),
                ];
                self.last_hash = event.event_hash.clone();
                self.accepted = self.accepted.saturating_add(1);
                Ok(AuditAction::Insert(params))
            },
        }
    }

    /// The outcome of the batch.
    pub fn finish(self) -> (r: SharedAuditAppendResult)
        ensures
            r.accepted == self.accepted,
            r.duplicates == self.duplicates,
            r.last_hash == self.last_hash,
    {
        SharedAuditAppendResult {
            accepted: self.accepted,
            duplicates: self.duplicates,
            last_hash: self.last_hash,
        }
    }
}

impl PostgresSnapshotStore {
    /// Checks a new approval: payload at most 512 KiB and an expiry after its
    /// creation, both timestamps within PostgreSQL's integer range. Binds id,
    /// payload, creation and expiry.
    pub fn create_approval(
        &self,
        approval_id: &str,
        payload: &str,
        created_at_unix_ms: u128,
        expires_at_unix_ms: u128,
    ) -> (r: Result<Vec<PgValue>, StoreError>)
        ensures
            r is Ok <==> is_route_key(approval_id@) && fits(payload@, KIB_512 as int)
                && expires_at_unix_ms > created_at_unix_ms && ms_fits(created_at_unix_ms)
                && ms_fits(expires_at_unix_ms),
            is_route_key(approval_id@) && !(fits(payload@, KIB_512 as int) && expires_at_unix_ms
                > created_at_unix_ms) ==> fails_with(r, "invalid shared approval"@),
            r is Ok ==> binds(
                r,
                seq![
                    PgParam::Text(approval_id@),
                    PgParam::Text(payload@),
                    PgParam::Int(created_at_unix_ms as i64),
                    PgParam::Int(expires_at_unix_ms as i64),
                ],
            ),
    {
        if let Err(e) = validate_route_key(approval_id) {
            return Err(e);
        }
        if !len_le(payload, KIB_512) || expires_at_unix_ms <= created_at_unix_ms {
            return Err(invalid("invalid shared approval"));
        }
        if created_at_unix_ms > 9223372036854775807u128 {
            return Err(invalid("invalid approval created timestamp"));
        }
        if expires_at_unix_ms > 9223372036854775807u128 {
            return Err(invalid("invalid approval expiry timestamp"));
        }
        Ok(
            vec![
                text(approval_id),
                text(payload),
                PgValue::Int(created_at_unix_ms as i64),
                PgValue::Int(expires_at_unix_ms as i64),
            ],
        )
    }

    /// Checks an approval lookup; binds the id and now (a pending approval past
    /// its expiry is marked expired first).
    pub fn approval(&self, approval_id: &str, now_ms: u128) -> (r: Result<
        Vec<PgValue>,
        StoreError,
    >)
        ensures
            r is Ok <==> is_route_key(approval_id@),
            r is Ok ==> binds(
                r,
                seq![PgParam::Text(approval_id@), PgParam::Int(clock_i64(now_ms))],
            ),
    {
        if let Err(e) = validate_route_key(approval_id) {
            return Err(e);
        }
        Ok(vec![text(approval_id), PgValue::Int(now_i64(now_ms))])
    }

    /// The recent approvals: binds now (to expire stale ones) and the page size
    /// clamped to 1..1000.
    pub fn recent_approvals(&self, limit: u32, now_ms: u128) -> (r: Vec<PgValue>)
        ensures
            binds(
                Ok(r),
                seq![
                    PgParam::Int(clock_i64(now_ms)),
                    PgParam::Int(clamp(limit as int, 1, 1000) as i64),
                ],
            ),
    {
        vec![PgValue::Int(now_i64(now_ms)), PgValue::Int(clamp_u32(limit, 1, 1000) as i64)]
    }

    /// Checks a grant: four identifiers, a payload of at most 2 MiB and an
    /// expiry within PostgreSQL's integer range.
    pub fn approve_and_enqueue(
        &self,
        approval_id: &str,
        approver_id: &str,
        command_id: &str,
        device_id: &str,
        command_payload: &str,
        command_expires_at_unix_ms: u128,
        now_ms: u128,
    ) -> (r: Result<ApprovalGrant, StoreError>)
        ensures
            r is Ok <==> is_route_key(approval_id@) && is_route_key(approver_id@) && is_route_key(
                command_id@,
            ) && is_route_key(device_id@) && fits(command_payload@, MIB_2 as int) && ms_fits(
                command_expires_at_unix_ms,
            ),
            is_route_key(approval_id@) && is_route_key(approver_id@) && is_route_key(command_id@)
                && is_route_key(device_id@) && !fits(command_payload@, MIB_2 as int)
                ==> fails_with(r, "shared command payload exceeds 2 MiB"@),
            r matches Ok(g) ==> {
                &&& g.approval_id@ == approval_id@
                &&& g.approver_id@ == approver_id@
                &&& g.command_id@ == command_id@
                &&& g.device_id@ == device_id@
                &&& g.command_payload@ == command_payload@
                &&& g.command_expires_at == command_expires_at_unix_ms
                &&& g.now == clock_i64(now_ms)
            },
    {
        if let Err(e) = validate_route_key(approval_id) {
            return Err(e);
        }
        if let Err(e) = validate_route_key(approver_id) {
            return Err(e);
        }
        if let Err(e) = validate_route_key(command_id) {
            return Err(e);
        }
        if let Err(e) = validate_route_key(device_id) {
            return Err(e);
        }
        if !len_le(command_payload, MIB_2) {
            return Err(invalid("shared command payload exceeds 2 MiB"));
        }
        let now = now_i64(now_ms);
        if command_expires_at_unix_ms > 9223372036854775807u128 {
            return Err(invalid("invalid command expiry"));
        }
        Ok(
            ApprovalGrant {
                approval_id: approval_id.to_owned(),
                approver_id: approver_id.to_owned(),
                command_id: command_id.to_owned(),
                device_id: device_id.to_owned(),
                command_payload: command_payload.to_owned(),
                command_expires_at: command_expires_at_unix_ms as i64,
                now,
            },
        )
    }

    /// Checks a rejection; binds id, approver and now (a pending approval past
    /// its expiry becomes expired rather than rejected).
    pub fn reject_approval(&self, approval_id: &str, approver_id: &str, now_ms: u128) -> (r:
        Result<Vec<PgValue>, StoreError>)
        ensures
            r is Ok <==> is_route_key(approval_id@) && is_route_key(approver_id@),
            r is Ok ==> binds(
                r,
                seq![
                    PgParam::Text(approval_id@),
                    PgParam::Text(approver_id@),
                    PgParam::Int(clock_i64(now_ms)),
                ],
            ),
    {
        if let Err(e) = validate_route_key(approval_id) {
            return Err(e);
        }
        if let Err(e) = validate_route_key(approver_id) {
            return Err(e);
        }
        Ok(vec![text(approval_id), text(approver_id), PgValue::Int(now_i64(now_ms))])
    }

    /// Checks an audit batch of 1..256 events for `device_id` and starts its
    /// chain at the stored head (`"GENESIS"` for a device with no events yet).
    pub fn append_audit_batch(
        &self,
        device_id: &str,
        events: &[SharedAuditInput],
        head: Option<String>,
    ) -> (r: Result<AuditChain, StoreError>)
        ensures
            r is Ok <==> is_route_key(device_id@) && 1 <= events@.len() <= 256,
            is_route_key(device_id@) && !(1 <= events@.len() <= 256) ==> fails_with(
                r,
                "audit batch must contain 1..256 events"@,
            ),
            r matches Ok(c) ==> {
                &&& c.device_id@ == device_id@
                &&& c.last_hash@ == (match head {
                    Some(h) => h@,
                    None => "GENESIS"@,
                })
                &&& c.accepted == 0
                &&& c.duplicates == 0
            },
    {
        if let Err(e) = validate_route_key(device_id) {
            return Err(e);
        }
        if events.len() == 0 || events.len() > 256 {
            return Err(invalid("audit batch must contain 1..256 events"));
        }
        let last_hash = match head {
            Some(h) => h,
            None => "GENESIS".to_owned(),
        };
        Ok(AuditChain { device_id: device_id.to_owned(), last_hash, accepted: 0, duplicates: 0 })
    }

    /// The recent audit records; binds the page size clamped to 1..5000.
    pub fn recent_audit(&self, limit: u32) -> (r: Vec<PgValue>)
        ensures
            binds(Ok(r), seq![PgParam::Int(clamp(limit as int, 1, 5000) as i64)]),
    {
        vec![PgValue::Int(clamp_u32(limit, 1, 5000) as i64)]
    }

    /// Checks a command for a device: payload at most 2 MiB, an expiry within
    /// PostgreSQL's integer range and after now. Binds id, device, payload,
    /// expiry and now.
    pub fn enqueue_command(
        &self,
        command_id: &str,
        device_id: &str,
        payload: &str,
        expires_at_unix_ms: u128,
        now_ms: u128,
    ) -> (r: Result<Vec<PgValue>, StoreError>)
        ensures
            r is Ok <==> is_route_key(command_id@) && is_route_key(device_id@) && fits(
                payload@,
                MIB_2 as int,
            ) && ms_fits(expires_at_unix_ms) && expires_at_unix_ms > clock_i64(now_ms),
            is_route_key(command_id@) && is_route_key(device_id@) && fits(payload@, MIB_2 as int)
                && ms_fits(expires_at_unix_ms) && expires_at_unix_ms <= clock_i64(now_ms)
                ==> fails_with(r, "cannot enqueue an already expired command"@),
            r is Ok ==> binds(
                r,
                seq![
                    PgParam::Text(command_id@),
                    PgParam::Text(device_id@),
                    PgParam::Text(payload@),
                    PgParam::Int(expires_at_unix_ms as i64),
                    PgParam::Int(clock_i64(now_ms)),
                ],
            ),
    {
        if let Err(e) = validate_route_key(command_id) {
            return Err(e);
        }
        if let Err(e) = validate_route_key(device_id) {
            return Err(e);
        }
        if !len_le(payload, MIB_2) {
            return Err(invalid("shared command payload exceeds 2 MiB"));
        }
        if expires_at_unix_ms > 9223372036854775807u128 {
            return Err(invalid("command expiry exceeds PostgreSQL integer range"));
        }
        let expires = expires_at_unix_ms as i64;
        let now = now_i64(now_ms);
        if expires <= now {
            return Err(invalid("cannot enqueue an already expired command"));
        }
        Ok(
            vec![
                text(command_id),
                text(device_id),
                text(payload),
                PgValue::Int(expires),
                PgValue::Int(now),
            ],
        )
    }

    /// Checks a lease request: the lease lasts 1 s..300 s from now, and a
    /// command is given up after 1..100 delivery attempts.
    pub fn lease_command(
        &self,
        device_id: &str,
        instance_id: &str,
        lease_ms: u64,
        max_attempts: u32,
        now_ms: u128,
    ) -> (r: Result<LeasePlan, StoreError>)
        ensures
            r is Ok <==> is_route_key(device_id@) && is_name(instance_id@),
            r matches Ok(p) ==> {
                &&& p.device_id@ == device_id@
                &&& p.instance_id@ == instance_id@
                &&& p.now == clock_i64(now_ms)
                &&& p.lease_until == expiry_after(clock_i64(now_ms), lease_ms, 1000, 300000)
                &&& p.max_attempts == clamp(max_attempts as int, 1, 100)
            },
    {
        if let Err(e) = validate_route_key(device_id) {
            return Err(e);
        }
        if let Err(e) = validate_name(instance_id) {
            return Err(e);
        }
        let now = now_i64(now_ms);
        let lease_until = expiry_from_ttl(now, lease_ms, 1000, 300000);
        let max_attempts = clamp_u32(max_attempts, 1, 100) as i64;
        Ok(
            LeasePlan {
                device_id: device_id.to_owned(),
                instance_id: instance_id.to_owned(),
                now,
                lease_until,
                max_attempts,
            },
        )
    }

    /// Checks a command lookup; binds the id.
    pub fn command(&self, command_id: &str) -> (r: Result<Vec<PgValue>, StoreError>)
        ensures
            r is Ok <==> is_route_key(command_id@),
            r is Ok ==> binds(r, seq![PgParam::Text(command_id@)]),
    {
        if let Err(e) = validate_route_key(command_id) {
            return Err(e);
        }
        Ok(vec![text(command_id)])
    }

    /// Checks a completion (result at most 2 MiB); binds id, device, now and result.
    pub fn complete_command(
        &self,
        command_id: &str,
        device_id: &str,
        result_payload: &str,
        now_ms: u128,
    ) -> (r: Result<Vec<PgValue>, StoreError>)
        ensures
            r is Ok <==> is_route_key(command_id@) && is_route_key(device_id@) && fits(
                result_payload@,
                MIB_2 as int,
            ),
            is_route_key(command_id@) && is_route_key(device_id@) && !fits(
                result_payload@,
                MIB_2 as int,
            ) ==> fails_with(r, "shared command result exceeds 2 MiB"@),
            r is Ok ==> binds(
                r,
                seq![
                    PgParam::Text(command_id@),
                    PgParam::Text(device_id@),
                    PgParam::Int(clock_i64(now_ms)),
                    PgParam::Text(result_payload@),
                ],
            ),
    {
        if let Err(e) = validate_route_key(command_id) {
            return Err(e);
        }
        if let Err(e) = validate_route_key(device_id) {
            return Err(e);
        }
        if !len_le(result_payload, MIB_2) {
            return Err(invalid("shared command result exceeds 2 MiB"));
        }
        Ok(vec![text(command_id), text(device_id), PgValue::Int(now_i64(now_ms)), text(result_payload)])
    }

    /// The recent commands; binds the page size clamped to 1..1000.
    pub fn recent_commands(&self, limit: u32) -> (r: Vec<PgValue>)
        ensures
            binds(Ok(r), seq![PgParam::Int(clamp(limit as int, 1, 1000) as i64)]),
    {
        vec![PgValue::Int(clamp_u32(limit, 1, 1000) as i64)]
    }

    /// Finished commands older than the retention (clamped to one minute..30
    /// days) are deleted; binds the cutoff.
    pub fn cleanup_commands(&self, retention_ms: u64, now_ms: u128) -> (r: Vec<PgValue>)
        ensures
            binds(
                Ok(r),
                seq![PgParam::Int(cutoff_before(clock_i64(now_ms), retention_ms, 60000, 2592000000))],
            ),
    {
        let now = now_i64(now_ms);
        vec![PgValue::Int(cutoff_from_retention(now, retention_ms, 60000, 2592000000))]
    }
}

} // verus!
