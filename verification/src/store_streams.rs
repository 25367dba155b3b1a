//! Stream relay checkpoints and their replay frames.
use crate::store::{
    binds, clamp, clamp_u32, clock_i64, fails_with, fits, invalid, is_name, is_route_key,
    is_sha256_hex, ms_fits, now_i64, opt_text_of, pg_ms, pg_opt_ms, pg_u64, string_len_le,
    text, text_of, to_i64_ms, validate_name, validate_route_key, PgParam, PgValue, StoreError,
    KIB_512, len_le,
};
use crate::store_records::{pg_opt_u64, SharedStreamCheckpoint};
use crate::store_snapshot::PostgresSnapshotStore;
use crate::text::{bytes_in_class, ByteClass};
use vstd::prelude::*;

verus! {

/// `Option<u64>` as a BIGINT parameter, when it fits.
pub open spec fn opt_u64_fits(v: Option<u64>) -> bool {
    match v {
        Some(x) => x <= i64::MAX,
        None => true,
    }
}

pub open spec fn opt_u64_param(v: Option<u64>) -> Option<i64> {
    match v {
        Some(x) => Some(x as i64),
        None => None,
    }
}

pub open spec fn opt_ms_fits(v: Option<u128>) -> bool {
    match v {
        Some(x) => ms_fits(x),
        None => true,
    }
}

pub open spec fn opt_ms_param(v: Option<u128>) -> Option<i64> {
    match v {
        Some(x) => Some(x as i64),
        None => None,
    }
}

/// Everything a checkpoint must satisfy to be stored.
pub open spec fn checkpoint_ok(c: SharedStreamCheckpoint) -> bool {
    &&& is_route_key(c.relay_id@)
    &&& is_route_key(c.device_id@)
    &&& is_route_key(c.principal_id@)
    &&& is_name(c.permission@)
    &&& is_name(c.agent_instance_id@)
    &&& fits(c.request_json@, KIB_512 as int)
    &&& is_sha256_hex(c.resume_token_hash@)
    &&& c.next_input_seq <= i64::MAX
    &&& c.acked_input_seq <= i64::MAX
    &&& opt_u64_fits(c.committed_bytes)
    &&& c.resource_progress_bytes <= i64::MAX
    &&& ms_fits(c.created_at_unix_ms)
    &&& ms_fits(c.last_activity_unix_ms)
    &&& opt_ms_fits(c.detached_until_unix_ms)
    &&& ms_fits(c.expires_at_unix_ms)
}

/// The sixteen columns a checkpoint is stored as.
pub open spec fn checkpoint_params(c: SharedStreamCheckpoint) -> Seq<PgParam> {
    seq![
        PgParam::Text(c.relay_id@),
        PgParam::Text(c.device_id@),
        PgParam::Text(c.principal_id@),
        PgParam::Text(c.permission@),
        PgParam::Text(c.request_json@),
        PgParam::Text(c.agent_instance_id@),
        PgParam::Text(c.resume_token_hash@),
        PgParam::OptText(crate::store::opt_view(c.resource_id)),
        PgParam::Int(c.next_input_seq as i64),
        PgParam::Int(c.acked_input_seq as i64),
        PgParam::OptInt(opt_u64_param(c.committed_bytes)),
        PgParam::Int(c.resource_progress_bytes as i64),
        PgParam::Int(c.created_at_unix_ms as i64),
        PgParam::Int(c.last_activity_unix_ms as i64),
        PgParam::OptInt(opt_ms_param(c.detached_until_unix_ms)),
        PgParam::Int(c.expires_at_unix_ms as i64),
    ]
}

fn u64_param(v: u64, message: &str) -> (r: Result<i64, StoreError>)
    ensures
        r is Ok <==> v <= i64::MAX,
        r matches Ok(x) ==> x == v,
        r is Err ==> fails_with(r, message@),
{
    if v > 9223372036854775807u64 {
        Err(invalid(message))
    } else {
        Ok(v as i64)
    }
}

impl PostgresSnapshotStore {
    /// Checks a relay checkpoint and binds its sixteen columns.
    pub fn upsert_stream_checkpoint(&self, record: &SharedStreamCheckpoint) -> (r: Result<
        Vec<PgValue>,
        StoreError,
    >)
        ensures
            r is Ok <==> checkpoint_ok(*record),
            r is Ok ==> binds(r, checkpoint_params(*record)),
    {
        if let Err(e) = validate_route_key(record.relay_id.as_str()) {
            return Err(e);
        }
        if let Err(e) = validate_route_key(record.device_id.as_str()) {
            return Err(e);
        }
        if let Err(e) = validate_route_key(record.principal_id.as_str()) {
            return Err(e);
        }
        if let Err(e) = validate_name(record.permission.as_str()) {
            return Err(e);
        }
        if let Err(e) = validate_name(record.agent_instance_id.as_str()) {
            return Err(e);
        }
        if !string_len_le(&record.request_json, KIB_512) {
            return Err(invalid("stream checkpoint request exceeds 512 KiB"));
        }
        let hash = record.resume_token_hash.as_str();
        if hash.as_bytes().len() != 64 || !bytes_in_class(hash, ByteClass::Hex) {
            return Err(invalid("stream resume token hash must be SHA-256 hex"));
        }
        let next = match u64_param(
            record.next_input_seq,
            "stream input sequence exceeds PostgreSQL integer range",
        ) {
            Ok(v) => v,
            Err(e) => return Err(e),
        };
        let acked = match u64_param(
            record.acked_input_seq,
            "stream ack sequence exceeds PostgreSQL integer range",
        ) {
            Ok(v) => v,
            Err(e) => return Err(e),
        };
        let committed: Option<i64> = match record.committed_bytes {
            Some(v) => match u64_param(
                v,
                "stream committed byte count exceeds PostgreSQL integer range",
            ) {
                Ok(x) => Some(x),
                Err(e) => return Err(e),
            },
            None => None,
        };
        let progress = match u64_param(
            record.resource_progress_bytes,
            "stream progress exceeds PostgreSQL integer range",
        ) {
            Ok(v) => v,
            Err(e) => return Err(e),
        };
        let created = match to_i64_ms(record.created_at_unix_ms, "stream created timestamp") {
            Ok(v) => v,
            Err(e) => return Err(e),
        };
        let activity = match to_i64_ms(record.last_activity_unix_ms, "stream activity timestamp") {
            Ok(v) => v,
            Err(e) => return Err(e),
        };
        let detached: Option<i64> = match record.detached_until_unix_ms {
            Some(v) => match to_i64_ms(v, "stream detached timestamp") {
                Ok(x) => Some(x),
                Err(e) => return Err(e),
            },
            None => None,
        };
        let expires = match to_i64_ms(record.expires_at_unix_ms, "stream expiry timestamp") {
            Ok(v) => v,
            Err(e) => return Err(e),
        };
        Ok(
            vec![
                text_of(&record.relay_id),
                text_of(&record.device_id),
                text_of(&record.principal_id),
                text_of(&record.permission),
                text_of(&record.request_json),
                text_of(&record.agent_instance_id),
                text_of(&record.resume_token_hash),
                opt_text_of(&record.resource_id),
                PgValue::Int(next),
                PgValue::Int(acked),
                PgValue::OptInt(committed),
                PgValue::Int(progress),
                PgValue::Int(created),
                PgValue::Int(activity),
                PgValue::OptInt(detached),
                PgValue::Int(expires),
            ],
        )
    }

    /// Checks a checkpoint lookup; binds the relay id and now (expired
    /// checkpoints are not found).
    pub fn stream_checkpoint(&self, relay_id: &str, now_ms: u128) -> (r: Result<
        Vec<PgValue>,
        StoreError,
    >)
        ensures
            r is Ok <==> is_route_key(relay_id@),
            r is Ok ==> binds(r, seq![PgParam::Text(relay_id@), PgParam::Int(clock_i64(now_ms))]),
    {
        if let Err(e) = validate_route_key(relay_id) {
            return Err(e);
        }
        Ok(vec![text(relay_id), PgValue::Int(now_i64(now_ms))])
    }

    /// Checks a device's checkpoint listing; binds device, now and the page
    /// size clamped to 1..4096.
    pub fn stream_checkpoints_for_device(&self, device_id: &str, limit: u32, now_ms: u128) -> (r:
        Result<Vec<PgValue>, StoreError>)
        ensures
            r is Ok <==> is_route_key(device_id@),
            r is Ok ==> binds(
                r,
                seq![
                    PgParam::Text(device_id@),
                    PgParam::Int(clock_i64(now_ms)),
                    PgParam::Int(clamp(limit as int, 1, 4096) as i64),
                ],
            ),
    {
        if let Err(e) = validate_route_key(device_id) {
            return Err(e);
        }
        Ok(
            vec![
                text(device_id),
                PgValue::Int(now_i64(now_ms)),
                PgValue::Int(clamp_u32(limit, 1, 4096) as i64),
            ],
        )
    }

    /// Checks a replay frame (at most 512 KiB); binds relay, sequence, frame,
    /// creation time and how many frames to keep (clamped to 1..1024).
    pub fn append_stream_frame(
        &self,
        relay_id: &str,
        seq: u64,
        frame_json: &str,
        created_at_unix_ms: u128,
        max_frames: u32,
    ) -> (r: Result<Vec<PgValue>, StoreError>)
        ensures
            r is Ok <==> is_route_key(relay_id@) && fits(frame_json@, KIB_512 as int) && seq
                <= i64::MAX && ms_fits(created_at_unix_ms),
            is_route_key(relay_id@) && !fits(frame_json@, KIB_512 as int) ==> fails_with(
                r,
                "stream replay frame exceeds 512 KiB"@,
            ),
            r is Ok ==> binds(
                r,
                seq![
                    PgParam::Text(relay_id@),
                    PgParam::Int(seq as i64),
                    PgParam::Text(frame_json@),
                    PgParam::Int(created_at_unix_ms as i64),
                    PgParam::Int(clamp(max_frames as int, 1, 1024) as i64),
                ],
            ),
    {
        if let Err(e) = validate_route_key(relay_id) {
            return Err(e);
        }
        if !len_le(frame_json, KIB_512) {
            return Err(invalid("stream replay frame exceeds 512 KiB"));
        }
        let seq = match u64_param(seq, "stream frame sequence exceeds PostgreSQL integer range") {
            Ok(v) => v,
            Err(e) => return Err(e),
        };
        let created = match to_i64_ms(created_at_unix_ms, "stream frame timestamp") {
            Ok(v) => v,
            Err(e) => return Err(e),
        };
        let keep = clamp_u32(max_frames, 1, 1024) as i64;
        Ok(vec![text(relay_id), PgValue::Int(seq), text(frame_json), PgValue::Int(created), PgValue::Int(keep)])
    }

    /// Checks a replay request; binds relay, the sequence to start after (-1
    /// for the beginning) and the page size clamped to 1..1024.
    pub fn stream_frames_after(&self, relay_id: &str, after_seq: Option<u64>, limit: u32) -> (r:
        Result<Vec<PgValue>, StoreError>)
        ensures
            r is Ok <==> is_route_key(relay_id@) && opt_u64_fits(after_seq),
            r is Ok ==> binds(
                r,
                seq![
                    PgParam::Text(relay_id@),
                    PgParam::Int(
                        match after_seq {
                            Some(s) => s as i64,
                            None => -1i64,
                        },
                    ),
                    PgParam::Int(clamp(limit as int, 1, 1024) as i64),
                ],
            ),
    {
        if let Err(e) = validate_route_key(relay_id) {
            return Err(e);
        }
        let after: i64 = match after_seq {
            Some(s) => match u64_param(
                s,
                "stream replay sequence exceeds PostgreSQL integer range",
            ) {
                Ok(v) => v,
                Err(e) => return Err(e),
            },
            None => -1,
        };
        Ok(vec![text(relay_id), PgValue::Int(after), PgValue::Int(clamp_u32(limit, 1, 1024) as i64)])
    }

    /// Checks a checkpoint deletion; binds the relay id.
    pub fn delete_stream_checkpoint(&self, relay_id: &str) -> (r: Result<
        Vec<PgValue>,
        StoreError,
    >)
        ensures
            r is Ok <==> is_route_key(relay_id@),
            r is Ok ==> binds(r, seq![PgParam::Text(relay_id@)]),
    {
        if let Err(e) = validate_route_key(relay_id) {
            return Err(e);
        }
        Ok(vec![text(relay_id)])
    }

    /// Expired checkpoints are deleted; binds now.
    pub fn cleanup_stream_checkpoints(&self, now_ms: u128) -> (r: Vec<PgValue>)
        ensures
            binds(Ok(r), seq![PgParam::Int(clock_i64(now_ms))]),
    {
        vec![PgValue::Int(now_i64(now_ms))]
    }
}

/// A stored checkpoint reads back as the checkpoint that was written: every
/// numeric column a write binds is read back to the same field.
pub proof fn lemma_checkpoint_roundtrip(c: SharedStreamCheckpoint)
    requires
        checkpoint_ok(c),
    ensures
        pg_u64(c.next_input_seq as i64) == c.next_input_seq,
        pg_u64(c.acked_input_seq as i64) == c.acked_input_seq,
        pg_opt_u64(opt_u64_param(c.committed_bytes)) == c.committed_bytes,
        pg_u64(c.resource_progress_bytes as i64) == c.resource_progress_bytes,
        pg_ms(c.created_at_unix_ms as i64) == c.created_at_unix_ms,
        pg_ms(c.last_activity_unix_ms as i64) == c.last_activity_unix_ms,
        pg_opt_ms(opt_ms_param(c.detached_until_unix_ms)) == c.detached_until_unix_ms,
        pg_ms(c.expires_at_unix_ms as i64) == c.expires_at_unix_ms,
{
}

} // verus!
