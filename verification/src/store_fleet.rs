//! Fleet records in the shared store: fleet groups, environments, per-device
//! fleet entries and the team vault's encrypted secrets.
use crate::store::{
    binds, clock_i64, count_from_pg, fails_with, fits, invalid, is_route_key, is_secret_name,
    is_vault_key_id, ms_fits, now_i64, pg_ms, string_len_le, text, text_of, to_i64_ms,
    validate_route_key, validate_team_secret_name, validate_vault_key_id, PgParam, PgValue,
    StoreError, MIB_1, MIB_2, params_of,
};
use crate::store_records::{
    SharedDeviceFleetRecord, SharedEnvironmentRecord, SharedFleetGroupRecord,
    SharedTeamSecretRecord,
};
use crate::store_snapshot::PostgresSnapshotStore;
use vstd::prelude::*;

verus! {

/// The record an `(id, payload, updated)` row of a fleet table reads back as.
pub open spec fn fleet_group_row(row: (String, String, i64)) -> SharedFleetGroupRecord {
    SharedFleetGroupRecord { group_id: row.0, payload: row.1, updated_at_unix_ms: pg_ms(row.2) }
}

pub open spec fn environment_row(row: (String, String, i64)) -> SharedEnvironmentRecord {
    SharedEnvironmentRecord {
        environment_id: row.0,
        payload: row.1,
        updated_at_unix_ms: pg_ms(row.2),
    }
}

pub open spec fn device_fleet_row(row: (String, String, i64)) -> SharedDeviceFleetRecord {
    SharedDeviceFleetRecord { device_id: row.0, payload: row.1, updated_at_unix_ms: pg_ms(row.2) }
}

/// The secret a `(name, key_id, nonce, ciphertext, created_by, updated)` row reads back as.
pub open spec fn secret_row(row: (String, String, String, String, String, i64)) -> SharedTeamSecretRecord {
    SharedTeamSecretRecord {
        name: row.0,
        key_id: row.1,
        nonce_b64: row.2,
        ciphertext_b64: row.3,
        created_by: row.4,
        updated_at_unix_ms: pg_ms(row.5),
    }
}

/// A team secret that may be stored.
pub open spec fn secret_ok(r: SharedTeamSecretRecord) -> bool {
    is_secret_name(r.name@) && is_route_key(r.created_by@) && is_vault_key_id(r.key_id@) && fits(
        r.nonce_b64@,
        256,
    ) && fits(r.ciphertext_b64@, MIB_2 as int) && ms_fits(r.updated_at_unix_ms)
}

pub open spec fn secret_params(r: SharedTeamSecretRecord) -> Seq<PgParam> {
    seq![
        PgParam::Text(r.name@),
        PgParam::Text(r.key_id@),
        PgParam::Text(r.nonce_b64@),
        PgParam::Text(r.ciphertext_b64@),
        PgParam::Text(r.created_by@),
        PgParam::Int(r.updated_at_unix_ms as i64),
    ]
}

/// A secret re-encrypted under a new key may be stored (sizes are not re-checked).
pub open spec fn rotated_secret_ok(r: SharedTeamSecretRecord) -> bool {
    is_secret_name(r.name@) && is_route_key(r.created_by@) && is_vault_key_id(r.key_id@)
        && ms_fits(r.updated_at_unix_ms)
}

/// A checked key rotation: one update per re-encrypted secret, then the new
/// active key.
#[derive(Debug, Clone, PartialEq, Eq)]
pub struct RotationPlan {
    pub updates: Vec<Vec<PgValue>>,
    pub active_key: Vec<PgValue>,
    pub rotated: u64,
}

/// Binds `(id, payload, updated)` for the three payload tables.
fn payload_row(
    id: &String,
    payload: &String,
    updated_at_unix_ms: u128,
    max: usize,
    too_big: &str,
    label: &str,
) -> (r: Result<Vec<PgValue>, StoreError>)
    ensures
        r is Ok <==> is_route_key(id@) && fits(payload@, max as int) && ms_fits(updated_at_unix_ms),
        is_route_key(id@) && !fits(payload@, max as int) ==> fails_with(r, too_big@),
        is_route_key(id@) && fits(payload@, max as int) && !ms_fits(updated_at_unix_ms)
            ==> fails_with(r, label@ + " exceeds PostgreSQL integer range"@),
        r is Ok ==> binds(
            r,
            seq![
                PgParam::Text(id@),
                PgParam::Text(payload@),
                PgParam::Int(updated_at_unix_ms as i64),
            ],
        ),
{
    if let Err(e) = validate_route_key(id.as_str()) {
        return Err(e);
    }
    if !string_len_le(payload, max) {
        return Err(invalid(too_big));
    }
    let updated = match to_i64_ms(updated_at_unix_ms, label) {
        Ok(v) => v,
        Err(e) => return Err(e),
    };
    Ok(vec![text_of(id), text_of(payload), PgValue::Int(updated)])
}

impl PostgresSnapshotStore {
    /// The number of fleet groups, from the counted rows.
    pub fn fleet_group_count(&self, count: i64) -> (r: Result<u64, StoreError>)
        ensures
            r is Ok <==> count >= 0,
            r matches Ok(n) ==> n == count,
            r is Err ==> fails_with(r, "negative fleet group count"@),
    {
        count_from_pg(count, "negative fleet group count")
    }

    /// Checks a fleet group (payload at most 2 MiB); binds id, payload, update time.
    pub fn upsert_fleet_group(&self, record: &SharedFleetGroupRecord) -> (r: Result<
        Vec<PgValue>,
        StoreError,
    >)
        ensures
            r is Ok <==> is_route_key(record.group_id@) && fits(record.payload@, MIB_2 as int)
                && ms_fits(record.updated_at_unix_ms),
            is_route_key(record.group_id@) && !fits(record.payload@, MIB_2 as int) ==> fails_with(
                r,
                "fleet group payload exceeds 2 MiB"@,
            ),
            r is Ok ==> binds(
                r,
                seq![
                    PgParam::Text(record.group_id@),
                    PgParam::Text(record.payload@),
                    PgParam::Int(record.updated_at_unix_ms as i64),
                ],
            ),
    {
        payload_row(
            &record.group_id,
            &record.payload,
            record.updated_at_unix_ms,
            MIB_2,
            "fleet group payload exceeds 2 MiB",
            "fleet group update timestamp",
        )
    }

    /// The fleet groups the listed rows describe, in row order.
    pub fn list_fleet_groups(&self, rows: &Vec<(String, String, i64)>) -> (r: Vec<
        SharedFleetGroupRecord,
    >)
        ensures
            r@.len() == rows@.len(),
            forall|i: int| 0 <= i < rows@.len() ==> r@[i] == fleet_group_row(#[trigger] rows@[i]),
    {
        let mut out: Vec<SharedFleetGroupRecord> = Vec::new();
        let mut i: usize = 0;
        while i < rows.len()
            invariant
                0 <= i <= rows@.len(),
                out@.len() == i,
                forall|j: int| 0 <= j < i ==> out@[j] == fleet_group_row(#[trigger] rows@[j]),
            decreases rows@.len() - i,
        {
            let row = &rows[i];
            out.push(SharedFleetGroupRecord::from_pg(row.0.clone(), row.1.clone(), row.2));
            i += 1;
        }
        out
    }

    /// Checks a fleet group deletion; binds the id.
    pub fn delete_fleet_group(&self, group_id: &str) -> (r: Result<Vec<PgValue>, StoreError>)
        ensures
            r is Ok <==> is_route_key(group_id@),
            r is Ok ==> binds(r, seq![PgParam::Text(group_id@)]),
    {
        if let Err(e) = validate_route_key(group_id) {
            return Err(e);
        }
        Ok(vec![text(group_id)])
    }

    /// The number of environments, from the counted rows.
    pub fn environment_count(&self, count: i64) -> (r: Result<u64, StoreError>)
        ensures
            r is Ok <==> count >= 0,
            r matches Ok(n) ==> n == count,
            r is Err ==> fails_with(r, "negative environment count"@),
    {
        count_from_pg(count, "negative environment count")
    }

    /// Checks an environment (payload at most 2 MiB); binds id, payload, update time.
    pub fn upsert_environment(&self, record: &SharedEnvironmentRecord) -> (r: Result<
        Vec<PgValue>,
        StoreError,
    >)
        ensures
            r is Ok <==> is_route_key(record.environment_id@) && fits(
                record.payload@,
                MIB_2 as int,
            ) && ms_fits(record.updated_at_unix_ms),
            is_route_key(record.environment_id@) && !fits(record.payload@, MIB_2 as int)
                ==> fails_with(r, "environment payload exceeds 2 MiB"@),
            r is Ok ==> binds(
                r,
                seq![
                    PgParam::Text(record.environment_id@),
                    PgParam::Text(record.payload@),
                    PgParam::Int(record.updated_at_unix_ms as i64),
                ],
            ),
    {
        payload_row(
            &record.environment_id,
            &record.payload,
            record.updated_at_unix_ms,
            MIB_2,
            "environment payload exceeds 2 MiB",
            "environment update timestamp",
        )
    }

    /// The environments the listed rows describe, in row order.
    pub fn list_environments_shared(&self, rows: &Vec<(String, String, i64)>) -> (r: Vec<
        SharedEnvironmentRecord,
    >)
        ensures
            r@.len() == rows@.len(),
            forall|i: int| 0 <= i < rows@.len() ==> r@[i] == environment_row(#[trigger] rows@[i]),
    {
        let mut out: Vec<SharedEnvironmentRecord> = Vec::new();
        let mut i: usize = 0;
        while i < rows.len()
            invariant
                0 <= i <= rows@.len(),
                out@.len() == i,
                forall|j: int| 0 <= j < i ==> out@[j] == environment_row(#[trigger] rows@[j]),
            decreases rows@.len() - i,
        {
            let row = &rows[i];
            out.push(SharedEnvironmentRecord::from_pg(row.0.clone(), row.1.clone(), row.2));
            i += 1;
        }
        out
    }

    /// Checks an environment deletion; binds the id.
    pub fn delete_environment(&self, environment_id: &str) -> (r: Result<
        Vec<PgValue>,
        StoreError,
    >)
        ensures
            r is Ok <==> is_route_key(environment_id@),
            r is Ok ==> binds(r, seq![PgParam::Text(environment_id@)]),
    {
        if let Err(e) = validate_route_key(environment_id) {
            return Err(e);
        }
        Ok(vec![text(environment_id)])
    }

    /// Checks a device fleet entry (payload at most 1 MiB); binds id, payload, update time.
    pub fn upsert_device_fleet(&self, record: &SharedDeviceFleetRecord) -> (r: Result<
        Vec<PgValue>,
        StoreError,
    >)
        ensures
            r is Ok <==> is_route_key(record.device_id@) && fits(record.payload@, MIB_1 as int)
                && ms_fits(record.updated_at_unix_ms),
            is_route_key(record.device_id@) && !fits(record.payload@, MIB_1 as int) ==> fails_with(
                r,
                "device fleet payload exceeds 1 MiB"@,
            ),
            r is Ok ==> binds(
                r,
                seq![
                    PgParam::Text(record.device_id@),
                    PgParam::Text(record.payload@),
                    PgParam::Int(record.updated_at_unix_ms as i64),
                ],
            ),
    {
        payload_row(
            &record.device_id,
            &record.payload,
            record.updated_at_unix_ms,
            MIB_1,
            "device fleet payload exceeds 1 MiB",
            "device fleet update timestamp",
        )
    }

    /// Checks a device fleet lookup; binds the device id.
    pub fn device_fleet(&self, device_id: &str) -> (r: Result<Vec<PgValue>, StoreError>)
        ensures
            r is Ok <==> is_route_key(device_id@),
            r is Ok ==> binds(r, seq![PgParam::Text(device_id@)]),
    {
        if let Err(e) = validate_route_key(device_id) {
            return Err(e);
        }
        Ok(vec![text(device_id)])
    }

    /// The device fleet entries the listed rows describe, in row order.
    pub fn list_device_fleet(&self, rows: &Vec<(String, String, i64)>) -> (r: Vec<
        SharedDeviceFleetRecord,
    >)
        ensures
            r@.len() == rows@.len(),
            forall|i: int| 0 <= i < rows@.len() ==> r@[i] == device_fleet_row(#[trigger] rows@[i]),
    {
        let mut out: Vec<SharedDeviceFleetRecord> = Vec::new();
        let mut i: usize = 0;
        while i < rows.len()
            invariant
                0 <= i <= rows@.len(),
                out@.len() == i,
                forall|j: int| 0 <= j < i ==> out@[j] == device_fleet_row(#[trigger] rows@[j]),
            decreases rows@.len() - i,
        {
            let row = &rows[i];
            out.push(SharedDeviceFleetRecord::from_pg(row.0.clone(), row.1.clone(), row.2));
            i += 1;
        }
        out
    }

    /// Checks a team secret: a safe name, creator and key id; nonce at most 256
    /// bytes and ciphertext at most 2 MiB. Binds its six columns.
    pub fn upsert_team_secret(&self, record: &SharedTeamSecretRecord) -> (r: Result<
        Vec<PgValue>,
        StoreError,
    >)
        ensures
            r is Ok <==> secret_ok(*record),
            is_secret_name(record.name@) && is_route_key(record.created_by@) && is_vault_key_id(
                record.key_id@,
            ) && !(fits(record.nonce_b64@, 256) && fits(record.ciphertext_b64@, MIB_2 as int))
                ==> fails_with(r, "team secret encrypted payload exceeds limits"@),
            r is Ok ==> binds(r, secret_params(*record)),
    {
        if let Err(e) = validate_team_secret_name(record.name.as_str()) {
            return Err(e);
        }
        if let Err(e) = validate_route_key(record.created_by.as_str()) {
            return Err(e);
        }
        if let Err(e) = validate_vault_key_id(record.key_id.as_str()) {
            return Err(e);
        }
        if !string_len_le(&record.nonce_b64, 256) || !string_len_le(&record.ciphertext_b64, MIB_2) {
            return Err(invalid("team secret encrypted payload exceeds limits"));
        }
        let updated = match to_i64_ms(record.updated_at_unix_ms, "team secret update timestamp") {
            Ok(v) => v,
            Err(e) => return Err(e),
        };
        Ok(
            vec![
                text_of(&record.name),
                text_of(&record.key_id),
                text_of(&record.nonce_b64),
                text_of(&record.ciphertext_b64),
                text_of(&record.created_by),
                PgValue::Int(updated),
            ],
        )
    }

    /// Checks a secret lookup; binds the name.
    pub fn team_secret(&self, name: &str) -> (r: Result<Vec<PgValue>, StoreError>)
        ensures
            r is Ok <==> is_secret_name(name@),
            r is Ok ==> binds(r, seq![PgParam::Text(name@)]),
    {
        if let Err(e) = validate_team_secret_name(name) {
            return Err(e);
        }
        Ok(vec![text(name)])
    }

    /// The secrets the listed rows describe, in row order.
    pub fn list_team_secrets(&self, rows: &Vec<(String, String, String, String, String, i64)>) -> (r:
        Vec<SharedTeamSecretRecord>)
        ensures
            r@.len() == rows@.len(),
            forall|i: int| 0 <= i < rows@.len() ==> r@[i] == secret_row(#[trigger] rows@[i]),
    {
        let mut out: Vec<SharedTeamSecretRecord> = Vec::new();
        let mut i: usize = 0;
        while i < rows.len()
            invariant
                0 <= i <= rows@.len(),
                out@.len() == i,
                forall|j: int| 0 <= j < i ==> out@[j] == secret_row(#[trigger] rows@[j]),
            decreases rows@.len() - i,
        {
            let row = &rows[i];
            out.push(
                SharedTeamSecretRecord::from_pg(
                    row.0.clone(),
                    row.1.clone(),
                    row.2.clone(),
                    row.3.clone(),
                    row.4.clone(),
                    row.5,
                ),
            );
            i += 1;
        }
        out
    }

    /// Checks a secret deletion; binds the name.
    pub fn delete_team_secret(&self, name: &str) -> (r: Result<Vec<PgValue>, StoreError>)
        ensures
            r is Ok <==> is_secret_name(name@),
            r is Ok ==> binds(r, seq![PgParam::Text(name@)]),
    {
        if let Err(e) = validate_team_secret_name(name) {
            return Err(e);
        }
        Ok(vec![text(name)])
    }

    /// Checks the new active vault key; binds the key id and now.
    pub fn set_team_vault_active_key(&self, key_id: &str, now_ms: u128) -> (r: Result<
        Vec<PgValue>,
        StoreError,
    >)
        ensures
            r is Ok <==> is_vault_key_id(key_id@),
            r is Ok ==> binds(r, seq![PgParam::Text(key_id@), PgParam::Int(clock_i64(now_ms))]),
    {
        if let Err(e) = validate_vault_key_id(key_id) {
            return Err(e);
        }
        Ok(vec![text(key_id), PgValue::Int(now_i64(now_ms))])
    }

    /// Checks a key rotation: the new key id and every re-encrypted secret.
    /// The plan updates each secret in order and then makes the new key active;
    /// it reports how many secrets were rotated.
    pub fn rotate_team_secrets(
        &self,
        records: &Vec<SharedTeamSecretRecord>,
        new_key_id: &str,
        now_ms: u128,
    ) -> (r: Result<RotationPlan, StoreError>)
        ensures
            r is Ok <==> is_vault_key_id(new_key_id@) && forall|i: int|
                0 <= i < records@.len() ==> rotated_secret_ok(#[trigger] records@[i]),
            r matches Ok(p) ==> {
                &&& p.rotated == records@.len()
                &&& p.updates@.len() == records@.len()
                &&& forall|i: int|
                    0 <= i < records@.len() ==> params_of(#[trigger] p.updates@[i]@)
                        =~= secret_params(records@[i])
                &&& binds(
                    Ok(p.active_key),
                    seq![PgParam::Text(new_key_id@), PgParam::Int(clock_i64(now_ms))],
                )
            },
    {
        if let Err(e) = validate_vault_key_id(new_key_id) {
            return Err(e);
        }
        let now = now_i64(now_ms);
        let mut updates: Vec<Vec<PgValue>> = Vec::new();
        let mut i: usize = 0;
        while i < records.len()
            invariant
                0 <= i <= records@.len(),
                updates@.len() == i,
                forall|j: int| 0 <= j < i ==> rotated_secret_ok(#[trigger] records@[j]),
                forall|j: int|
                    0 <= j < i ==> params_of(#[trigger] updates@[j]@) =~= secret_params(
                        records@[j],
                    ),
            decreases records@.len() - i,
        {
            let record = &records[i];
            if let Err(e) = validate_team_secret_name(record.name.as_str()) {
                return Err(e);
            }
            if let Err(e) = validate_route_key(record.created_by.as_str()) {
                return Err(e);
            }
            if let Err(e) = validate_vault_key_id(record.key_id.as_str()) {
                return Err(e);
            }
            let updated = match to_i64_ms(
                record.updated_at_unix_ms,
                "team secret rotation timestamp",
            ) {
                Ok(v) => v,
                Err(e) => return Err(e),
            };
            let row = vec![
                text_of(&record.name),
                text_of(&record.key_id),
                text_of(&record.nonce_b64),
                text_of(&record.ciphertext_b64),
                text_of(&record.created_by),
                PgValue::Int(updated),
            ];
            assert(params_of(row@) =~= secret_params(records@[i as int]));
            updates.push(row);
            i += 1;
        }
        let rotated = records.len() as u64;
        Ok(RotationPlan { updates, active_key: vec![text(new_key_id), PgValue::Int(now)], rotated })
    }
}

/// A stored secret reads back as the secret that was written.
pub proof fn lemma_secret_roundtrip(s: SharedTeamSecretRecord)
    requires
        secret_ok(s),
    ensures
        secret_row((s.name, s.key_id, s.nonce_b64, s.ciphertext_b64, s.created_by, s.updated_at_unix_ms as i64)) == s,
{
}

} // verus!
