//! Identity records in the shared store: sessions, roles, accounts, auth
//! transactions, the auth policy, SCIM groups and API tokens.
use crate::store::{
    binds, count_from_pg, cutoff_before, cutoff_from_retention, clock_i64, fails_with, fits,
    invalid, is_route_key, is_sha256_hex, ms_fits, now_i64, pg_ms, string_len_le, text,
    text_of, to_i64_ms, validate_route_key, validate_sha256_hex, PgParam, PgValue, StoreError,
    KIB_512, MIB_2, len_le, sat_add, sat_add_i64,
};
use crate::store_records::{
    SharedAccountRecord, SharedApiTokenRecord, SharedAuthPolicyRecord, SharedAuthTransaction,
    SharedRoleRecord, SharedScimGroupRecord, SharedSessionRecord,
};
use crate::store_snapshot::PostgresSnapshotStore;
use crate::text::{any_control, blank, blen, has_control, is_blank};
use vstd::prelude::*;

verus! {

/// An account email: 1..320 bytes, no control characters.
pub open spec fn is_email(s: Seq<char>) -> bool {
    1 <= blen(s) <= 320 && !has_control(s)
}

/// A SCIM display name: not blank, at most 256 bytes, no control characters.
pub open spec fn is_display_name(s: Seq<char>) -> bool {
    !is_blank(s) && blen(s) <= 256 && !has_control(s)
}

fn email_ok(s: &str) -> (r: bool)
    ensures
        r == is_email(s@),
{
    let n = s.as_bytes().len();
    n >= 1 && n <= 320 && !any_control(s)
}

pub open spec fn session_ok(r: SharedSessionRecord) -> bool {
    is_route_key(r.session_id@) && is_route_key(r.account_id@) && is_sha256_hex(r.token_hash@)
        && fits(r.payload@, KIB_512 as int) && ms_fits(r.created_at_unix_ms) && ms_fits(
        r.expires_at_unix_ms,
    ) && ms_fits(r.last_activity_unix_ms)
}

pub open spec fn session_params(r: SharedSessionRecord) -> Seq<PgParam> {
    seq![
        PgParam::Text(r.session_id@),
        PgParam::Text(r.account_id@),
        PgParam::Text(r.token_hash@),
        PgParam::Text(r.payload@),
        PgParam::Int(r.created_at_unix_ms as i64),
        PgParam::Int(r.expires_at_unix_ms as i64),
        PgParam::Int(r.last_activity_unix_ms as i64),
        PgParam::Bool(r.revoked),
    ]
}

/// The role a `(role_id, payload, updated)` row reads back as.
pub open spec fn role_row(row: (String, String, i64)) -> SharedRoleRecord {
    SharedRoleRecord { role_id: row.0, payload: row.1, updated_at_unix_ms: pg_ms(row.2) }
}

/// The account an `(id, email, role, payload, disabled, updated)` row reads back as.
pub open spec fn account_row(row: (String, String, String, String, bool, i64)) -> SharedAccountRecord {
    SharedAccountRecord {
        account_id: row.0,
        email: row.1,
        role_id: row.2,
        payload: row.3,
        disabled: row.4,
        updated_at_unix_ms: pg_ms(row.5),
    }
}

/// The group a `(id, display_name, payload, updated)` row reads back as.
pub open spec fn scim_row(row: (String, String, String, i64)) -> SharedScimGroupRecord {
    SharedScimGroupRecord {
        group_id: row.0,
        display_name: row.1,
        payload: row.2,
        updated_at_unix_ms: pg_ms(row.3),
    }
}

/// The token a `(id, principal, role, hash, created, revoked, updated)` row reads back as.
pub open spec fn token_row(row: (String, String, String, String, i64, bool, i64)) -> SharedApiTokenRecord {
    SharedApiTokenRecord {
        token_id: row.0,
        principal_id: row.1,
        role_id: row.2,
        token_hash: row.3,
        created_at_unix_ms: pg_ms(row.4),
        revoked: row.5,
        updated_at_unix_ms: pg_ms(row.6),
    }
}

/// A checked request to consume a one-time auth transaction.
#[derive(Debug, Clone, PartialEq, Eq)]
pub struct AuthConsume {
    pub transaction_id: String,
    pub kind: String,
    pub now_unix_ms: u128,
    pub now: i64,
}

impl AuthConsume {
    /// The binds of the lookup: id and kind.
    pub fn lookup_params(&self) -> (r: Vec<PgValue>)
        ensures
            binds(Ok(r), seq![PgParam::Text(self.transaction_id@), PgParam::Text(self.kind@)]),
    {
        vec![text_of(&self.transaction_id), text_of(&self.kind)]
    }

    /// Decides on the row read under lock: a transaction is consumed only if it
    /// exists, was never consumed and has not expired. The result is the
    /// transaction as it reads after consumption, with its consumption time set.
    pub fn decide(&self, row: Option<SharedAuthTransaction>) -> (r: Option<SharedAuthTransaction>)
        ensures
            r == consumption(row, self.now_unix_ms),
    {
        match row {
            None => None,
            Some(t) => {
                if t.consumed_at_unix_ms.is_some() || t.expires_at_unix_ms < self.now_unix_ms {
                    None
                } else {
                    Some(
                        SharedAuthTransaction {
                            transaction_id: t.transaction_id,
                            kind: t.kind,
                            payload: t.payload,
                            created_at_unix_ms: t.created_at_unix_ms,
                            expires_at_unix_ms: t.expires_at_unix_ms,
                            consumed_at_unix_ms: Some(self.now_unix_ms),
                        },
                    )
                }
            },
        }
    }

    /// The binds of the consuming update: id and consumption time.
    pub fn consume_params(&self) -> (r: Vec<PgValue>)
        ensures
            binds(Ok(r), seq![PgParam::Text(self.transaction_id@), PgParam::Int(self.now)]),
    {
        vec![text_of(&self.transaction_id), PgValue::Int(self.now)]
    }
}

/// What consuming the transaction `row` at `now` yields: nothing if there is
/// none, if it was consumed before or if it expired before `now`; otherwise the
/// transaction with its consumption time set to `now`.
pub open spec fn consumption(row: Option<SharedAuthTransaction>, now: u128) -> Option<
    SharedAuthTransaction,
> {
    match row {
        None => None,
        Some(t) => if t.consumed_at_unix_ms is Some || t.expires_at_unix_ms < now {
            None
        } else {
            Some(SharedAuthTransaction { consumed_at_unix_ms: Some(now), ..t })
        },
    }
}

/// A one-time transaction is consumed at most once: what a consumption leaves
/// behind cannot be consumed again, at any later time.
pub proof fn lemma_consume_once(row: Option<SharedAuthTransaction>, now: u128, later: u128)
    ensures
        consumption(row, now) matches Some(t) ==> consumption(Some(t), later) is None,
{
}

impl PostgresSnapshotStore {
    /// Checks a session and binds its eight columns.
    pub fn upsert_session(&self, record: &SharedSessionRecord) -> (r: Result<
        Vec<PgValue>,
        StoreError,
    >)
        ensures
            r is Ok <==> session_ok(*record),
            is_route_key(record.session_id@) && is_route_key(record.account_id@) && is_sha256_hex(
                record.token_hash@,
            ) && !fits(record.payload@, KIB_512 as int) ==> fails_with(
                r,
                "shared session payload exceeds 512 KiB"@,
            ),
            r is Ok ==> binds(r, session_params(*record)),
    {
        if let Err(e) = validate_route_key(record.session_id.as_str()) {
            return Err(e);
        }
        if let Err(e) = validate_route_key(record.account_id.as_str()) {
            return Err(e);
        }
        if let Err(e) = validate_sha256_hex(record.token_hash.as_str()) {
            return Err(e);
        }
        if !string_len_le(&record.payload, KIB_512) {
            return Err(invalid("shared session payload exceeds 512 KiB"));
        }
        let created = match to_i64_ms(record.created_at_unix_ms, "session created timestamp") {
            Ok(v) => v,
            Err(e) => return Err(e),
        };
        let expires = match to_i64_ms(record.expires_at_unix_ms, "session expiry timestamp") {
            Ok(v) => v,
            Err(e) => return Err(e),
        };
        let last = match to_i64_ms(record.last_activity_unix_ms, "session activity timestamp") {
            Ok(v) => v,
            Err(e) => return Err(e),
        };
        Ok(
            vec![
                text_of(&record.session_id),
                text_of(&record.account_id),
                text_of(&record.token_hash),
                text_of(&record.payload),
                PgValue::Int(created),
                PgValue::Int(expires),
                PgValue::Int(last),
                PgValue::Bool(record.revoked),
            ],
        )
    }

    /// Checks a session lookup by token hash; binds the hash and now (revoked
    /// or expired sessions are not found).
    pub fn session_by_token_hash(&self, token_hash: &str, now_ms: u128) -> (r: Result<
        Vec<PgValue>,
        StoreError,
    >)
        ensures
            r is Ok <==> is_sha256_hex(token_hash@),
            r is Ok ==> binds(r, seq![PgParam::Text(token_hash@), PgParam::Int(clock_i64(now_ms))]),
    {
        if let Err(e) = validate_sha256_hex(token_hash) {
            return Err(e);
        }
        Ok(vec![text(token_hash), PgValue::Int(now_i64(now_ms))])
    }

    /// The number of sessions, from the counted rows.
    pub fn session_count(&self, count: i64) -> (r: Result<u64, StoreError>)
        ensures
            r is Ok <==> count >= 0,
            r matches Ok(n) ==> n == count,
            r is Err ==> fails_with(r, "negative shared session count"@),
    {
        count_from_pg(count, "negative shared session count")
    }

    /// Checks a session touch (payload at most 512 KiB); binds id, activity
    /// time, payload and now.
    pub fn touch_session(
        &self,
        session_id: &str,
        last_activity_unix_ms: u128,
        payload: &str,
        now_ms: u128,
    ) -> (r: Result<Vec<PgValue>, StoreError>)
        ensures
            r is Ok <==> is_route_key(session_id@) && fits(payload@, KIB_512 as int) && ms_fits(
                last_activity_unix_ms,
            ),
            r is Ok ==> binds(
                r,
                seq![
                    PgParam::Text(session_id@),
                    PgParam::Int(last_activity_unix_ms as i64),
                    PgParam::Text(payload@),
                    PgParam::Int(clock_i64(now_ms)),
                ],
            ),
    {
        if let Err(e) = validate_route_key(session_id) {
            return Err(e);
        }
        if !len_le(payload, KIB_512) {
            return Err(invalid("shared session payload exceeds 512 KiB"));
        }
        let now = now_i64(now_ms);
        let last = match to_i64_ms(last_activity_unix_ms, "session activity timestamp") {
            Ok(v) => v,
            Err(e) => return Err(e),
        };
        Ok(vec![text(session_id), PgValue::Int(last), text(payload), PgValue::Int(now)])
    }

    /// Checks a session revocation; binds the id.
    pub fn revoke_session(&self, session_id: &str) -> (r: Result<Vec<PgValue>, StoreError>)
        ensures
            r is Ok <==> is_route_key(session_id@),
            r is Ok ==> binds(r, seq![PgParam::Text(session_id@)]),
    {
        if let Err(e) = validate_route_key(session_id) {
            return Err(e);
        }
        Ok(vec![text(session_id)])
    }

    /// Checks the revocation of all of an account's sessions; binds the account id.
    pub fn revoke_account_sessions(&self, account_id: &str) -> (r: Result<
        Vec<PgValue>,
        StoreError,
    >)
        ensures
            r is Ok <==> is_route_key(account_id@),
            r is Ok ==> binds(r, seq![PgParam::Text(account_id@)]),
    {
        if let Err(e) = validate_route_key(account_id) {
            return Err(e);
        }
        Ok(vec![text(account_id)])
    }

    /// Expired sessions, and revoked ones idle past the retention (clamped to
    /// one minute..30 days), are deleted; binds now and the cutoff.
    pub fn cleanup_sessions(&self, retention_ms: u64, now_ms: u128) -> (r: Vec<PgValue>)
        ensures
            binds(
                Ok(r),
                seq![
                    PgParam::Int(clock_i64(now_ms)),
                    PgParam::Int(cutoff_before(clock_i64(now_ms), retention_ms, 60000, 2592000000)),
                ],
            ),
    {
        let now = now_i64(now_ms);
        vec![PgValue::Int(now), PgValue::Int(cutoff_from_retention(now, retention_ms, 60000, 2592000000))]
    }

    /// The number of roles, from the counted rows.
    pub fn role_count(&self, count: i64) -> (r: Result<u64, StoreError>)
        ensures
            r is Ok <==> count >= 0,
            r matches Ok(n) ==> n == count,
            r is Err ==> fails_with(r, "negative shared role count"@),
    {
        count_from_pg(count, "negative shared role count")
    }

    /// Checks a role (payload at most 512 KiB); binds id, payload and update time.
    pub fn upsert_role(&self, record: &SharedRoleRecord) -> (r: Result<Vec<PgValue>, StoreError>)
        ensures
            r is Ok <==> is_route_key(record.role_id@) && fits(record.payload@, KIB_512 as int)
                && ms_fits(record.updated_at_unix_ms),
            is_route_key(record.role_id@) && !fits(record.payload@, KIB_512 as int) ==> fails_with(
                r,
                "shared role payload exceeds 512 KiB"@,
            ),
            r is Ok ==> binds(
                r,
                seq![
                    PgParam::Text(record.role_id@),
                    PgParam::Text(record.payload@),
                    PgParam::Int(record.updated_at_unix_ms as i64),
                ],
            ),
    {
        if let Err(e) = validate_route_key(record.role_id.as_str()) {
            return Err(e);
        }
        if !string_len_le(&record.payload, KIB_512) {
            return Err(invalid("shared role payload exceeds 512 KiB"));
        }
        let updated = match to_i64_ms(record.updated_at_unix_ms, "role update timestamp") {
            Ok(v) => v,
            Err(e) => return Err(e),
        };
        Ok(vec![text_of(&record.role_id), text_of(&record.payload), PgValue::Int(updated)])
    }

    /// Checks a role lookup; binds the id.
    pub fn role(&self, role_id: &str) -> (r: Result<Vec<PgValue>, StoreError>)
        ensures
            r is Ok <==> is_route_key(role_id@),
            r is Ok ==> binds(r, seq![PgParam::Text(role_id@)]),
    {
        if let Err(e) = validate_route_key(role_id) {
            return Err(e);
        }
        Ok(vec![text(role_id)])
    }

    /// The roles the listed rows describe, in row order.
    pub fn list_roles_shared(&self, rows: &Vec<(String, String, i64)>) -> (r: Vec<
        SharedRoleRecord,
    >)
        ensures
            r@.len() == rows@.len(),
            forall|i: int| 0 <= i < rows@.len() ==> r@[i] == role_row(#[trigger] rows@[i]),
    {
        let mut out: Vec<SharedRoleRecord> = Vec::new();
        let mut i: usize = 0;
        while i < rows.len()
            invariant
                0 <= i <= rows@.len(),
                out@.len() == i,
                forall|j: int| 0 <= j < i ==> out@[j] == role_row(#[trigger] rows@[j]),
            decreases rows@.len() - i,
        {
            let row = &rows[i];
            out.push(SharedRoleRecord::from_pg(row.0.clone(), row.1.clone(), row.2));
            i += 1;
        }
        out
    }

    /// The number of accounts, from the counted rows.
    pub fn account_count(&self, count: i64) -> (r: Result<u64, StoreError>)
        ensures
            r is Ok <==> count >= 0,
            r matches Ok(n) ==> n == count,
            r is Err ==> fails_with(r, "negative shared account count"@),
    {
        count_from_pg(count, "negative shared account count")
    }

    /// Checks an account: ids, email (1..320 bytes, no control characters),
    /// payload at most 2 MiB. Binds its six columns.
    pub fn upsert_account(&self, record: &SharedAccountRecord) -> (r: Result<
        Vec<PgValue>,
        StoreError,
    >)
        ensures
            r is Ok <==> is_route_key(record.account_id@) && is_route_key(record.role_id@)
                && is_email(record.email@) && fits(record.payload@, MIB_2 as int) && ms_fits(
                record.updated_at_unix_ms,
            ),
            is_route_key(record.account_id@) && is_route_key(record.role_id@) && !is_email(
                record.email@,
            ) ==> fails_with(r, "shared account email is invalid"@),
            r is Ok ==> binds(
                r,
                seq![
                    PgParam::Text(record.account_id@),
                    PgParam::Text(record.email@),
                    PgParam::Text(record.role_id@),
                    PgParam::Text(record.payload@),
                    PgParam::Bool(record.disabled),
                    PgParam::Int(record.updated_at_unix_ms as i64),
                ],
            ),
    {
        if let Err(e) = validate_route_key(record.account_id.as_str()) {
            return Err(e);
        }
        if let Err(e) = validate_route_key(record.role_id.as_str()) {
            return Err(e);
        }
        if !email_ok(record.email.as_str()) {
            return Err(invalid("shared account email is invalid"));
        }
        if !string_len_le(&record.payload, MIB_2) {
            return Err(invalid("shared account payload exceeds 2 MiB"));
        }
        let updated = match to_i64_ms(record.updated_at_unix_ms, "account update timestamp") {
            Ok(v) => v,
            Err(e) => return Err(e),
        };
        Ok(
            vec![
                text_of(&record.account_id),
                text_of(&record.email),
                text_of(&record.role_id),
                text_of(&record.payload),
                PgValue::Bool(record.disabled),
                PgValue::Int(updated),
            ],
        )
    }

    /// Checks an account lookup; binds the id.
    pub fn account(&self, account_id: &str) -> (r: Result<Vec<PgValue>, StoreError>)
        ensures
            r is Ok <==> is_route_key(account_id@),
            r is Ok ==> binds(r, seq![PgParam::Text(account_id@)]),
    {
        if let Err(e) = validate_route_key(account_id) {
            return Err(e);
        }
        Ok(vec![text(account_id)])
    }

    /// Checks an account lookup by email; binds the email.
    pub fn account_by_email(&self, email: &str) -> (r: Result<Vec<PgValue>, StoreError>)
        ensures
            r is Ok <==> is_email(email@),
            r is Err ==> fails_with(r, "shared account email is invalid"@),
            r is Ok ==> binds(r, seq![PgParam::Text(email@)]),
    {
        if !email_ok(email) {
            return Err(invalid("shared account email is invalid"));
        }
        Ok(vec![text(email)])
    }

    /// The accounts the listed rows describe, in row order.
    pub fn list_accounts_shared(&self, rows: &Vec<(String, String, String, String, bool, i64)>) -> (r:
        Vec<SharedAccountRecord>)
        ensures
            r@.len() == rows@.len(),
            forall|i: int| 0 <= i < rows@.len() ==> r@[i] == account_row(#[trigger] rows@[i]),
    {
        let mut out: Vec<SharedAccountRecord> = Vec::new();
        let mut i: usize = 0;
        while i < rows.len()
            invariant
                0 <= i <= rows@.len(),
                out@.len() == i,
                forall|j: int| 0 <= j < i ==> out@[j] == account_row(#[trigger] rows@[j]),
            decreases rows@.len() - i,
        {
            let row = &rows[i];
            out.push(
                SharedAccountRecord::from_pg(
                    row.0.clone(),
                    row.1.clone(),
                    row.2.clone(),
                    row.3.clone(),
                    row.4,
                    row.5,
                ),
            );
            i += 1;
        }
        out
    }

    /// Checks an account deletion; binds the id.
    pub fn delete_account(&self, account_id: &str) -> (r: Result<Vec<PgValue>, StoreError>)
        ensures
            r is Ok <==> is_route_key(account_id@),
            r is Ok ==> binds(r, seq![PgParam::Text(account_id@)]),
    {
        if let Err(e) = validate_route_key(account_id) {
            return Err(e);
        }
        Ok(vec![text(account_id)])
    }

    /// Checks an auth transaction (payload at most 2 MiB, timestamps within
    /// PostgreSQL's range); binds its six columns.
    pub fn put_auth_transaction(&self, record: &SharedAuthTransaction) -> (r: Result<
        Vec<PgValue>,
        StoreError,
    >)
        ensures
            r is Ok <==> is_route_key(record.transaction_id@) && is_route_key(record.kind@) && fits(
                record.payload@,
                MIB_2 as int,
            ) && ms_fits(record.created_at_unix_ms) && ms_fits(record.expires_at_unix_ms) && (
            match record.consumed_at_unix_ms {
                Some(c) => ms_fits(c),
                None => true,
            }),
            r is Ok ==> binds(
                r,
                seq![
                    PgParam::Text(record.transaction_id@),
                    PgParam::Text(record.kind@),
                    PgParam::Text(record.payload@),
                    PgParam::Int(record.created_at_unix_ms as i64),
                    PgParam::Int(record.expires_at_unix_ms as i64),
                    PgParam::OptInt(
                        match record.consumed_at_unix_ms {
                            Some(c) => Some(c as i64),
                            None => None,
                        },
                    ),
                ],
            ),
    {
        if let Err(e) = validate_route_key(record.transaction_id.as_str()) {
            return Err(e);
        }
        if let Err(e) = validate_route_key(record.kind.as_str()) {
            return Err(e);
        }
        if !string_len_le(&record.payload, MIB_2) {
            return Err(invalid("auth transaction payload exceeds 2 MiB"));
        }
        let created = match to_i64_ms(
            record.created_at_unix_ms,
            "auth transaction created timestamp",
        ) {
            Ok(v) => v,
            Err(e) => return Err(e),
        };
        let expires = match to_i64_ms(
            record.expires_at_unix_ms,
            "auth transaction expiry timestamp",
        ) {
            Ok(v) => v,
            Err(e) => return Err(e),
        };
        let consumed: Option<i64> = match record.consumed_at_unix_ms {
            Some(c) => match to_i64_ms(c, "auth transaction consumed timestamp") {
                Ok(v) => Some(v),
                Err(e) => return Err(e),
            },
            None => None,
        };
        Ok(
            vec![
                text_of(&record.transaction_id),
                text_of(&record.kind),
                text_of(&record.payload),
                PgValue::Int(created),
                PgValue::Int(expires),
                PgValue::OptInt(consumed),
            ],
        )
    }

    /// Checks a consumption request; [`AuthConsume::decide`] then decides it
    /// on the row read under lock.
    pub fn consume_auth_transaction(&self, transaction_id: &str, kind: &str, now_unix_ms: u128) -> (r:
        Result<AuthConsume, StoreError>)
        ensures
            r is Ok <==> is_route_key(transaction_id@) && is_route_key(kind@) && ms_fits(
                now_unix_ms,
            ),
            is_route_key(transaction_id@) && is_route_key(kind@) && !ms_fits(now_unix_ms)
                ==> fails_with(
                r,
                "auth transaction consume timestamp"@ + " exceeds PostgreSQL integer range"@,
            ),
            r matches Ok(c) ==> c.transaction_id@ == transaction_id@ && c.kind@ == kind@
                && c.now_unix_ms == now_unix_ms && c.now == now_unix_ms,
    {
        if let Err(e) = validate_route_key(transaction_id) {
            return Err(e);
        }
        if let Err(e) = validate_route_key(kind) {
            return Err(e);
        }
        let now = match to_i64_ms(now_unix_ms, "auth transaction consume timestamp") {
            Ok(v) => v,
            Err(e) => return Err(e),
        };
        Ok(
            AuthConsume {
                transaction_id: transaction_id.to_owned(),
                kind: kind.to_owned(),
                now_unix_ms,
                now,
            },
        )
    }

    /// Checks a transaction lookup; binds id, kind and now (consumed or expired
    /// transactions are not found).
    pub fn auth_transaction(&self, transaction_id: &str, kind: &str, now_ms: u128) -> (r: Result<
        Vec<PgValue>,
        StoreError,
    >)
        ensures
            r is Ok <==> is_route_key(transaction_id@) && is_route_key(kind@),
            r is Ok ==> binds(
                r,
                seq![
                    PgParam::Text(transaction_id@),
                    PgParam::Text(kind@),
                    PgParam::Int(clock_i64(now_ms)),
                ],
            ),
    {
        if let Err(e) = validate_route_key(transaction_id) {
            return Err(e);
        }
        if let Err(e) = validate_route_key(kind) {
            return Err(e);
        }
        Ok(vec![text(transaction_id), text(kind), PgValue::Int(now_i64(now_ms))])
    }

    /// Expired transactions, and consumed ones older than a day, are deleted;
    /// binds now and the one-day cutoff.
    pub fn cleanup_auth_transactions(&self, now_ms: u128) -> (r: Vec<PgValue>)
        ensures
            binds(
                Ok(r),
                seq![
                    PgParam::Int(clock_i64(now_ms)),
                    PgParam::Int(sat_add(clock_i64(now_ms) as int, -86400000) as i64),
                ],
            ),
    {
        let now = now_i64(now_ms);
        vec![PgValue::Int(now), PgValue::Int(sat_add_i64(now, -86400000))]
    }

    /// Checks the auth policy (payload at most 2 MiB); binds id, payload and update time.
    pub fn upsert_auth_policy(&self, record: &SharedAuthPolicyRecord) -> (r: Result<
        Vec<PgValue>,
        StoreError,
    >)
        ensures
            r is Ok <==> is_route_key(record.policy_id@) && fits(record.payload@, MIB_2 as int)
                && ms_fits(record.updated_at_unix_ms),
            is_route_key(record.policy_id@) && !fits(record.payload@, MIB_2 as int) ==> fails_with(
                r,
                "auth policy payload exceeds 2 MiB"@,
            ),
            r is Ok ==> binds(
                r,
                seq![
                    PgParam::Text(record.policy_id@),
                    PgParam::Text(record.payload@),
                    PgParam::Int(record.updated_at_unix_ms as i64),
                ],
            ),
    {
        if let Err(e) = validate_route_key(record.policy_id.as_str()) {
            return Err(e);
        }
        if !string_len_le(&record.payload, MIB_2) {
            return Err(invalid("auth policy payload exceeds 2 MiB"));
        }
        let updated = match to_i64_ms(record.updated_at_unix_ms, "auth policy update timestamp") {
            Ok(v) => v,
            Err(e) => return Err(e),
        };
        Ok(vec![text_of(&record.policy_id), text_of(&record.payload), PgValue::Int(updated)])
    }

    /// Checks a policy lookup; binds the id.
    pub fn auth_policy(&self, policy_id: &str) -> (r: Result<Vec<PgValue>, StoreError>)
        ensures
            r is Ok <==> is_route_key(policy_id@),
            r is Ok ==> binds(r, seq![PgParam::Text(policy_id@)]),
    {
        if let Err(e) = validate_route_key(policy_id) {
            return Err(e);
        }
        Ok(vec![text(policy_id)])
    }

    /// The number of SCIM groups, from the counted rows.
    pub fn scim_group_count(&self, count: i64) -> (r: Result<u64, StoreError>)
        ensures
            r is Ok <==> count >= 0,
            r matches Ok(n) ==> n == count,
            r is Err ==> fails_with(r, "negative SCIM group count"@),
    {
        count_from_pg(count, "negative SCIM group count")
    }

    /// Checks a SCIM group: display name not blank, at most 256 bytes, no
    /// control characters; payload at most 2 MiB. Binds its four columns.
    pub fn upsert_scim_group(&self, record: &SharedScimGroupRecord) -> (r: Result<
        Vec<PgValue>,
        StoreError,
    >)
        ensures
            r is Ok <==> is_route_key(record.group_id@) && is_display_name(record.display_name@)
                && fits(record.payload@, MIB_2 as int) && ms_fits(record.updated_at_unix_ms),
            is_route_key(record.group_id@) && !is_display_name(record.display_name@) ==> fails_with(
                r,
                "SCIM group displayName is invalid"@,
            ),
            r is Ok ==> binds(
                r,
                seq![
                    PgParam::Text(record.group_id@),
                    PgParam::Text(record.display_name@),
                    PgParam::Text(record.payload@),
                    PgParam::Int(record.updated_at_unix_ms as i64),
                ],
            ),
    {
        if let Err(e) = validate_route_key(record.group_id.as_str()) {
            return Err(e);
        }
        let name = record.display_name.as_str();
        if blank(name) || !len_le(name, 256) || any_control(name) {
            return Err(invalid("SCIM group displayName is invalid"));
        }
        if !string_len_le(&record.payload, MIB_2) {
            return Err(invalid("SCIM group payload exceeds 2 MiB"));
        }
        let updated = match to_i64_ms(record.updated_at_unix_ms, "SCIM group update timestamp") {
            Ok(v) => v,
            Err(e) => return Err(e),
        };
        Ok(
            vec![
                text_of(&record.group_id),
                text_of(&record.display_name),
                text_of(&record.payload),
                PgValue::Int(updated),
            ],
        )
    }

    /// The SCIM groups the listed rows describe, in row order.
    pub fn list_scim_groups(&self, rows: &Vec<(String, String, String, i64)>) -> (r: Vec<
        SharedScimGroupRecord,
    >)
        ensures
            r@.len() == rows@.len(),
            forall|i: int| 0 <= i < rows@.len() ==> r@[i] == scim_row(#[trigger] rows@[i]),
    {
        let mut out: Vec<SharedScimGroupRecord> = Vec::new();
        let mut i: usize = 0;
        while i < rows.len()
            invariant
                0 <= i <= rows@.len(),
                out@.len() == i,
                forall|j: int| 0 <= j < i ==> out@[j] == scim_row(#[trigger] rows@[j]),
            decreases rows@.len() - i,
        {
            let row = &rows[i];
            out.push(
                SharedScimGroupRecord::from_pg(row.0.clone(), row.1.clone(), row.2.clone(), row.3),
            );
            i += 1;
        }
        out
    }

    /// Checks a SCIM group lookup; binds the id.
    pub fn scim_group(&self, group_id: &str) -> (r: Result<Vec<PgValue>, StoreError>)
        ensures
            r is Ok <==> is_route_key(group_id@),
            r is Ok ==> binds(r, seq![PgParam::Text(group_id@)]),
    {
        if let Err(e) = validate_route_key(group_id) {
            return Err(e);
        }
        Ok(vec![text(group_id)])
    }

    /// Checks a SCIM group deletion; binds the id.
    pub fn delete_scim_group(&self, group_id: &str) -> (r: Result<Vec<PgValue>, StoreError>)
        ensures
            r is Ok <==> is_route_key(group_id@),
            r is Ok ==> binds(r, seq![PgParam::Text(group_id@)]),
    {
        if let Err(e) = validate_route_key(group_id) {
            return Err(e);
        }
        Ok(vec![text(group_id)])
    }

    /// The number of API tokens, from the counted rows.
    pub fn api_token_count(&self, count: i64) -> (r: Result<u64, StoreError>)
        ensures
            r is Ok <==> count >= 0,
            r matches Ok(n) ==> n == count,
            r is Err ==> fails_with(r, "negative API token count"@),
    {
        count_from_pg(count, "negative API token count")
    }

    /// Checks an API token (ids, SHA-256 hex hash, timestamps); binds its seven columns.
    pub fn upsert_api_token(&self, record: &SharedApiTokenRecord) -> (r: Result<
        Vec<PgValue>,
        StoreError,
    >)
        ensures
            r is Ok <==> is_route_key(record.token_id@) && is_route_key(record.principal_id@)
                && is_route_key(record.role_id@) && is_sha256_hex(record.token_hash@) && ms_fits(
                record.created_at_unix_ms,
            ) && ms_fits(record.updated_at_unix_ms),
            r is Ok ==> binds(
                r,
                seq![
                    PgParam::Text(record.token_id@),
                    PgParam::Text(record.principal_id@),
                    PgParam::Text(record.role_id@),
                    PgParam::Text(record.token_hash@),
                    PgParam::Int(record.created_at_unix_ms as i64),
                    PgParam::Bool(record.revoked),
                    PgParam::Int(record.updated_at_unix_ms as i64),
                ],
            ),
    {
        if let Err(e) = validate_route_key(record.token_id.as_str()) {
            return Err(e);
        }
        if let Err(e) = validate_route_key(record.principal_id.as_str()) {
            return Err(e);
        }
        if let Err(e) = validate_route_key(record.role_id.as_str()) {
            return Err(e);
        }
        if let Err(e) = validate_sha256_hex(record.token_hash.as_str()) {
            return Err(e);
        }
        let created = match to_i64_ms(record.created_at_unix_ms, "API token created timestamp") {
            Ok(v) => v,
            Err(e) => return Err(e),
        };
        let updated = match to_i64_ms(record.updated_at_unix_ms, "API token updated timestamp") {
            Ok(v) => v,
            Err(e) => return Err(e),
        };
        Ok(
            vec![
                text_of(&record.token_id),
                text_of(&record.principal_id),
                text_of(&record.role_id),
                text_of(&record.token_hash),
                PgValue::Int(created),
                PgValue::Bool(record.revoked),
                PgValue::Int(updated),
            ],
        )
    }

    /// Checks a token lookup by hash; binds the hash.
    pub fn api_token_by_hash(&self, token_hash: &str) -> (r: Result<Vec<PgValue>, StoreError>)
        ensures
            r is Ok <==> is_sha256_hex(token_hash@),
            r is Ok ==> binds(r, seq![PgParam::Text(token_hash@)]),
    {
        if let Err(e) = validate_sha256_hex(token_hash) {
            return Err(e);
        }
        Ok(vec![text(token_hash)])
    }

    /// The tokens the listed rows describe, in row order.
    pub fn list_api_tokens(&self, rows: &Vec<(String, String, String, String, i64, bool, i64)>) -> (r:
        Vec<SharedApiTokenRecord>)
        ensures
            r@.len() == rows@.len(),
            forall|i: int| 0 <= i < rows@.len() ==> r@[i] == token_row(#[trigger] rows@[i]),
    {
        let mut out: Vec<SharedApiTokenRecord> = Vec::new();
        let mut i: usize = 0;
        while i < rows.len()
            invariant
                0 <= i <= rows@.len(),
                out@.len() == i,
                forall|j: int| 0 <= j < i ==> out@[j] == token_row(#[trigger] rows@[j]),
            decreases rows@.len() - i,
        {
            let row = &rows[i];
            out.push(
                SharedApiTokenRecord::from_pg(
                    row.0.clone(),
                    row.1.clone(),
                    row.2.clone(),
                    row.3.clone(),
                    row.4,
                    row.5,
                    row.6,
                ),
            );
            i += 1;
        }
        out
    }

    /// Checks a token revocation; binds the id and the update time.
    pub fn revoke_api_token(&self, token_id: &str, updated_at_unix_ms: u128) -> (r: Result<
        Vec<PgValue>,
        StoreError,
    >)
        ensures
            r is Ok <==> is_route_key(token_id@) && ms_fits(updated_at_unix_ms),
            r is Ok ==> binds(
                r,
                seq![PgParam::Text(token_id@), PgParam::Int(updated_at_unix_ms as i64)],
            ),
    {
        if let Err(e) = validate_route_key(token_id) {
            return Err(e);
        }
        let updated = match to_i64_ms(updated_at_unix_ms, "API token update timestamp") {
            Ok(v) => v,
            Err(e) => return Err(e),
        };
        Ok(vec![text(token_id), PgValue::Int(updated)])
    }
}

/// A stored session reads back as the session that was written.
pub proof fn lemma_session_roundtrip(s: SharedSessionRecord)
    requires
        session_ok(s),
    ensures
        pg_ms(s.created_at_unix_ms as i64) == s.created_at_unix_ms,
        pg_ms(s.expires_at_unix_ms as i64) == s.expires_at_unix_ms,
        pg_ms(s.last_activity_unix_ms as i64) == s.last_activity_unix_ms,
{
}

} // verus!
