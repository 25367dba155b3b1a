//! Cluster coordination through the shared store: instance heartbeats, route
//! ownership, the instance-to-instance message bus, device pairing and
//! enrolment, and windowed rate limits.
use crate::store::{
    binds, clamp, clamp_u32, clock_i64, expiry_after, expiry_from_ttl, fails_with, fits,
    invalid, is_name, is_route_key, len_le, ms_fits, now_i64, string_len_le, text, text_of,
    validate_name, validate_route_key, PgParam, PgValue, StoreError, MIB_2,
};
use crate::store_records::SharedDeviceRecord;
use crate::store_snapshot::PostgresSnapshotStore;
use crate::text::{any_control, blen, has_control};
use vstd::prelude::*;

verus! {

/// An instance endpoint: at most 512 bytes, no control characters.
pub open spec fn is_endpoint(s: Seq<char>) -> bool {
    blen(s) <= 512 && !has_control(s)
}

/// A rate-limit key: 1..256 bytes, no control characters.
pub open spec fn is_rate_key(s: Seq<char>) -> bool {
    1 <= blen(s) <= 256 && !has_control(s)
}

/// The fixed window of a rate limit that `now` falls in, and when its counter expires.
#[derive(Debug, Clone, PartialEq, Eq)]
pub struct RateWindow {
    pub key: String,
    pub limit: u32,
    pub now: i64,
    pub window_start: i64,
    pub expires_at: i64,
}

/// The start of the window of length `window` that holds `now`.
pub open spec fn window_start(now: int, window: int) -> int {
    (now / window) * window
}

impl RateWindow {
    /// The bind parameters of the counter upsert: key, window start, expiry.
    pub fn params(&self) -> (r: Vec<PgValue>)
        ensures
            binds(
                Ok(r),
                seq![
                    PgParam::Text(self.key@),
                    PgParam::Int(self.window_start),
                    PgParam::Int(self.expires_at),
                ],
            ),
    {
        vec![text_of(&self.key), PgValue::Int(self.window_start), PgValue::Int(self.expires_at)]
    }

    /// Whether the request that brought the window's counter to `count` is allowed.
    pub fn allows(&self, count: i64) -> (r: bool)
        ensures
            r == (count <= self.limit),
    {
        count <= self.limit as i64
    }
}

impl PostgresSnapshotStore {
    /// Checks a heartbeat; binds instance id, endpoint, now and the expiry
    /// (`now` plus the TTL clamped to 5 s..300 s).
    pub fn heartbeat_instance(&self, instance_id: &str, endpoint: &str, ttl_ms: u64, now_ms: u128) -> (r:
        Result<Vec<PgValue>, StoreError>)
        ensures
            r is Ok <==> is_name(instance_id@) && is_endpoint(endpoint@),
            !is_name(instance_id@) ==> fails_with(r, "snapshot name must be a safe identifier"@),
            is_name(instance_id@) && !is_endpoint(endpoint@) ==> fails_with(
                r,
                "invalid instance endpoint"@,
            ),
            r is Ok ==> binds(
                r,
                seq![
                    PgParam::Text(instance_id@),
                    PgParam::Text(endpoint@),
                    PgParam::Int(clock_i64(now_ms)),
                    PgParam::Int(expiry_after(clock_i64(now_ms), ttl_ms, 5000, 300000)),
                ],
            ),
    {
        if let Err(e) = validate_name(instance_id) {
            return Err(e);
        }
        if !len_le(endpoint, 512) || any_control(endpoint) {
            return Err(invalid("invalid instance endpoint"));
        }
        let now = now_i64(now_ms);
        let expires = expiry_from_ttl(now, ttl_ms, 5000, 300000);
        Ok(vec![text(instance_id), text(endpoint), PgValue::Int(now), PgValue::Int(expires)])
    }

    /// Live instances are those whose expiry is not before now; binds now.
    pub fn live_instances(&self, now_ms: u128) -> (r: Vec<PgValue>)
        ensures
            binds(Ok(r), seq![PgParam::Int(clock_i64(now_ms))]),
    {
        vec![PgValue::Int(now_i64(now_ms))]
    }

    /// Checks a route claim; binds type, key, owner and the expiry (TTL
    /// clamped to 5 s..300 s).
    pub fn upsert_route(
        &self,
        route_type: &str,
        route_key: &str,
        instance_id: &str,
        ttl_ms: u64,
        now_ms: u128,
    ) -> (r: Result<Vec<PgValue>, StoreError>)
        ensures
            r is Ok <==> is_name(route_type@) && is_route_key(route_key@) && is_name(
                instance_id@,
            ),
            r is Ok ==> binds(
                r,
                seq![
                    PgParam::Text(route_type@),
                    PgParam::Text(route_key@),
                    PgParam::Text(instance_id@),
                    PgParam::Int(expiry_after(clock_i64(now_ms), ttl_ms, 5000, 300000)),
                ],
            ),
    {
        if let Err(e) = validate_name(route_type) {
            return Err(e);
        }
        if let Err(e) = validate_route_key(route_key) {
            return Err(e);
        }
        if let Err(e) = validate_name(instance_id) {
            return Err(e);
        }
        let now = now_i64(now_ms);
        let expires = expiry_from_ttl(now, ttl_ms, 5000, 300000);
        Ok(vec![text(route_type), text(route_key), text(instance_id), PgValue::Int(expires)])
    }

    /// Checks a route lookup; binds type, key and now (expired routes have no owner).
    pub fn route_owner(&self, route_type: &str, route_key: &str, now_ms: u128) -> (r: Result<
        Vec<PgValue>,
        StoreError,
    >)
        ensures
            r is Ok <==> is_name(route_type@) && is_route_key(route_key@),
            r is Ok ==> binds(
                r,
                seq![
                    PgParam::Text(route_type@),
                    PgParam::Text(route_key@),
                    PgParam::Int(clock_i64(now_ms)),
                ],
            ),
    {
        if let Err(e) = validate_name(route_type) {
            return Err(e);
        }
        if let Err(e) = validate_route_key(route_key) {
            return Err(e);
        }
        Ok(vec![text(route_type), text(route_key), PgValue::Int(now_i64(now_ms))])
    }

    /// Checks a release of a route by its owner; binds type, key and owner.
    pub fn remove_route_if_owner(&self, route_type: &str, route_key: &str, instance_id: &str) -> (r:
        Result<Vec<PgValue>, StoreError>)
        ensures
            r is Ok <==> is_name(route_type@) && is_route_key(route_key@) && is_name(
                instance_id@,
            ),
            r is Ok ==> binds(
                r,
                seq![
                    PgParam::Text(route_type@),
                    PgParam::Text(route_key@),
                    PgParam::Text(instance_id@),
                ],
            ),
    {
        if let Err(e) = validate_name(route_type) {
            return Err(e);
        }
        if let Err(e) = validate_route_key(route_key) {
            return Err(e);
        }
        if let Err(e) = validate_name(instance_id) {
            return Err(e);
        }
        Ok(vec![text(route_type), text(route_key), text(instance_id)])
    }

    /// Checks a bus message (payload at most 2 MiB); binds source, target,
    /// topic, payload, now and the expiry (TTL clamped to 1 s..120 s).
    pub fn publish_bus(
        &self,
        source_instance_id: &str,
        target_instance_id: &str,
        topic: &str,
        payload: &str,
        ttl_ms: u64,
        now_ms: u128,
    ) -> (r: Result<Vec<PgValue>, StoreError>)
        ensures
            r is Ok <==> is_name(source_instance_id@) && is_name(target_instance_id@) && is_name(
                topic@,
            ) && fits(payload@, MIB_2 as int),
            is_name(source_instance_id@) && is_name(target_instance_id@) && is_name(topic@)
                && !fits(payload@, MIB_2 as int) ==> fails_with(
                r,
                "cluster bus payload exceeds 2 MiB"@,
            ),
            r is Ok ==> binds(
                r,
                seq![
                    PgParam::Text(source_instance_id@),
                    PgParam::Text(target_instance_id@),
                    PgParam::Text(topic@),
                    PgParam::Text(payload@),
                    PgParam::Int(clock_i64(now_ms)),
                    PgParam::Int(expiry_after(clock_i64(now_ms), ttl_ms, 1000, 120000)),
                ],
            ),
    {
        if let Err(e) = validate_name(source_instance_id) {
            return Err(e);
        }
        if let Err(e) = validate_name(target_instance_id) {
            return Err(e);
        }
        if let Err(e) = validate_name(topic) {
            return Err(e);
        }
        if !len_le(payload, MIB_2) {
            return Err(invalid("cluster bus payload exceeds 2 MiB"));
        }
        let now = now_i64(now_ms);
        let expires = expiry_from_ttl(now, ttl_ms, 1000, 120000);
        Ok(
            vec![
                text(source_instance_id),
                text(target_instance_id),
                text(topic),
                text(payload),
                PgValue::Int(now),
                PgValue::Int(expires),
            ],
        )
    }

    /// Checks a bus poll; binds target, the last id seen, now and the page size
    /// (clamped to 1..256).
    pub fn poll_bus(&self, target_instance_id: &str, after_id: i64, limit: u32, now_ms: u128) -> (r:
        Result<Vec<PgValue>, StoreError>)
        ensures
            r is Ok <==> is_name(target_instance_id@),
            r is Ok ==> binds(
                r,
                seq![
                    PgParam::Text(target_instance_id@),
                    PgParam::Int(after_id),
                    PgParam::Int(clock_i64(now_ms)),
                    PgParam::Int(clamp(limit as int, 1, 256) as i64),
                ],
            ),
    {
        if let Err(e) = validate_name(target_instance_id) {
            return Err(e);
        }
        let limit = clamp_u32(limit, 1, 256);
        Ok(
            vec![
                text(target_instance_id),
                PgValue::Int(after_id),
                PgValue::Int(now_i64(now_ms)),
                PgValue::Int(limit as i64),
            ],
        )
    }

    /// Checks an acknowledgement; binds target and message id.
    pub fn ack_bus(&self, target_instance_id: &str, id: i64) -> (r: Result<
        Vec<PgValue>,
        StoreError,
    >)
        ensures
            r is Ok <==> is_name(target_instance_id@),
            r is Ok ==> binds(r, seq![PgParam::Text(target_instance_id@), PgParam::Int(id)]),
    {
        if let Err(e) = validate_name(target_instance_id) {
            return Err(e);
        }
        Ok(vec![text(target_instance_id), PgValue::Int(id)])
    }

    /// Checks a depth query; binds target and now.
    pub fn bus_depth(&self, target_instance_id: &str, now_ms: u128) -> (r: Result<
        Vec<PgValue>,
        StoreError,
    >)
        ensures
            r is Ok <==> is_name(target_instance_id@),
            r is Ok ==> binds(
                r,
                seq![PgParam::Text(target_instance_id@), PgParam::Int(clock_i64(now_ms))],
            ),
    {
        if let Err(e) = validate_name(target_instance_id) {
            return Err(e);
        }
        Ok(vec![text(target_instance_id), PgValue::Int(now_i64(now_ms))])
    }

    /// Checks a pairing offer: its expiry must fit PostgreSQL's integer and lie
    /// after now. Binds the nonce and the expiry.
    pub fn create_pairing(&self, nonce: &str, expires_at_unix_ms: u128, now_ms: u128) -> (r:
        Result<Vec<PgValue>, StoreError>)
        ensures
            r is Ok <==> is_route_key(nonce@) && ms_fits(expires_at_unix_ms) && expires_at_unix_ms
                > clock_i64(now_ms),
            is_route_key(nonce@) && !ms_fits(expires_at_unix_ms) ==> fails_with(
                r,
                "pairing expiry exceeds integer range"@,
            ),
            is_route_key(nonce@) && ms_fits(expires_at_unix_ms) && expires_at_unix_ms
                <= clock_i64(now_ms) ==> fails_with(r, "pairing expiry must be in the future"@),
            r is Ok ==> binds(
                r,
                seq![PgParam::Text(nonce@), PgParam::Int(expires_at_unix_ms as i64)],
            ),
    {
        if let Err(e) = validate_route_key(nonce) {
            return Err(e);
        }
        if expires_at_unix_ms > 9223372036854775807u128 {
            return Err(invalid("pairing expiry exceeds integer range"));
        }
        let expires = expires_at_unix_ms as i64;
        let now = now_i64(now_ms);
        if expires <= now {
            return Err(invalid("pairing expiry must be in the future"));
        }
        Ok(vec![text(nonce), PgValue::Int(expires)])
    }

    /// Checks a pairing redemption; binds the nonce and now (an expired or
    /// already used nonce is not consumed).
    pub fn consume_pairing(&self, nonce: &str, now_ms: u128) -> (r: Result<
        Vec<PgValue>,
        StoreError,
    >)
        ensures
            r is Ok <==> is_route_key(nonce@),
            r is Ok ==> binds(r, seq![PgParam::Text(nonce@), PgParam::Int(clock_i64(now_ms))]),
    {
        if let Err(e) = validate_route_key(nonce) {
            return Err(e);
        }
        Ok(vec![text(nonce), PgValue::Int(now_i64(now_ms))])
    }

    /// Checks an enrolled device: its id, field sizes (key 4096, name 256, os
    /// 128 bytes) and timestamps. Binds all six columns.
    pub fn upsert_device(&self, device: &SharedDeviceRecord) -> (r: Result<
        Vec<PgValue>,
        StoreError,
    >)
        ensures
            r is Ok <==> is_route_key(device.device_id@) && fits(device.public_key@, 4096) && fits(
                device.display_name@,
                256,
            ) && fits(device.os@, 128) && ms_fits(device.enrolled_at_unix_ms) && ms_fits(
                device.last_seen_unix_ms,
            ),
            is_route_key(device.device_id@) && !(fits(device.public_key@, 4096) && fits(
                device.display_name@,
                256,
            ) && fits(device.os@, 128)) ==> fails_with(r, "shared device fields exceed limits"@),
            r is Ok ==> binds(
                r,
                seq![
                    PgParam::Text(device.device_id@),
                    PgParam::Text(device.public_key@),
                    PgParam::Text(device.display_name@),
                    PgParam::Text(device.os@),
                    PgParam::Int(device.enrolled_at_unix_ms as i64),
                    PgParam::Int(device.last_seen_unix_ms as i64),
                ],
            ),
    {
        if let Err(e) = validate_route_key(device.device_id.as_str()) {
            return Err(e);
        }
        if !string_len_le(&device.public_key, 4096) || !string_len_le(&device.display_name, 256)
            || !string_len_le(&device.os, 128) {
            return Err(invalid("shared device fields exceed limits"));
        }
        if device.enrolled_at_unix_ms > 9223372036854775807u128 {
            return Err(invalid("invalid enrolled timestamp"));
        }
        if device.last_seen_unix_ms > 9223372036854775807u128 {
            return Err(invalid("invalid last-seen timestamp"));
        }
        Ok(
            vec![
                text_of(&device.device_id),
                text_of(&device.public_key),
                text_of(&device.display_name),
                text_of(&device.os),
                PgValue::Int(device.enrolled_at_unix_ms as i64),
                PgValue::Int(device.last_seen_unix_ms as i64),
            ],
        )
    }

    /// Checks a device lookup; binds the device id.
    pub fn shared_device(&self, device_id: &str) -> (r: Result<Vec<PgValue>, StoreError>)
        ensures
            r is Ok <==> is_route_key(device_id@),
            r is Ok ==> binds(r, seq![PgParam::Text(device_id@)]),
    {
        if let Err(e) = validate_route_key(device_id) {
            return Err(e);
        }
        Ok(vec![text(device_id)])
    }

    /// The most recently seen devices; binds the page size clamped to 1..5000.
    pub fn shared_devices(&self, limit: u32) -> (r: Vec<PgValue>)
        ensures
            binds(Ok(r), seq![PgParam::Int(clamp(limit as int, 1, 5000) as i64)]),
    {
        vec![PgValue::Int(clamp_u32(limit, 1, 5000) as i64)]
    }

    /// Checks a device's last-seen time; binds the id and the time (the store
    /// keeps the later of the stored and the given time).
    pub fn touch_device(&self, device_id: &str, last_seen_unix_ms: u128) -> (r: Result<
        Vec<PgValue>,
        StoreError,
    >)
        ensures
            r is Ok <==> is_route_key(device_id@) && ms_fits(last_seen_unix_ms),
            is_route_key(device_id@) && !ms_fits(last_seen_unix_ms) ==> fails_with(
                r,
                "invalid last-seen timestamp"@,
            ),
            r is Ok ==> binds(
                r,
                seq![PgParam::Text(device_id@), PgParam::Int(last_seen_unix_ms as i64)],
            ),
    {
        if let Err(e) = validate_route_key(device_id) {
            return Err(e);
        }
        if last_seen_unix_ms > 9223372036854775807u128 {
            return Err(invalid("invalid last-seen timestamp"));
        }
        Ok(vec![text(device_id), PgValue::Int(last_seen_unix_ms as i64)])
    }

    /// Checks a rate-limited request and places `now_unix_ms` in its fixed
    /// window: the window starts at the last multiple of `window_ms` not after
    /// now, and its counter expires two windows after it starts (saturating).
    pub fn consume_rate_limit(&self, key: &str, limit: u32, window_ms: u64, now_unix_ms: u128) -> (r:
        Result<RateWindow, StoreError>)
        ensures
            r is Ok <==> is_rate_key(key@) && limit > 0 && window_ms >= 1000 && ms_fits(
                now_unix_ms,
            ) && window_ms <= i64::MAX,
            !(is_rate_key(key@) && limit > 0 && window_ms >= 1000) ==> fails_with(
                r,
                "invalid shared rate-limit request"@,
            ),
            is_rate_key(key@) && limit > 0 && window_ms >= 1000 && !ms_fits(now_unix_ms)
                ==> fails_with(r, "invalid rate-limit timestamp"@),
            r matches Ok(w) ==> {
                &&& w.key@ == key@
                &&& w.limit == limit
                &&& w.now == now_unix_ms
                &&& w.window_start == window_start(now_unix_ms as int, window_ms as int)
                &&& w.window_start <= w.now < w.window_start + window_ms
                &&& (w.window_start as int) % (window_ms as int) == 0
                &&& w.expires_at == (if w.window_start + 2 * window_ms > i64::MAX {
                    i64::MAX as int
                } else {
                    w.window_start + 2 * window_ms
                })
            },
    {
        let n = key.as_bytes().len();
        if n == 0 || n > 256 || any_control(key) || limit == 0 || window_ms < 1000 {
            return Err(invalid("invalid shared rate-limit request"));
        }
        if now_unix_ms > 9223372036854775807u128 {
            return Err(invalid("invalid rate-limit timestamp"));
        }
        if window_ms > 9223372036854775807u64 {
            return Err(invalid("invalid rate-limit window"));
        }
        let now = now_unix_ms as i64;
        let window = window_ms as i64;
        let q = now / window;
        assert(q * window <= now < q * window + window) by (nonlinear_arith)
            requires
                q == now / window,
                now >= 0,
                window > 0,
        ;
        assert((q * window) % (window as int) == 0) by (nonlinear_arith)
            requires
                window > 0,
                q >= 0,
        ;
        let start = q * window;
        let twice: i64 = if window > i64::MAX / 2 {
            i64::MAX
        } else {
            window * 2
        };
        let expiry = crate::store::sat_add_i64(start, twice);
        Ok(
            RateWindow {
                key: key.to_owned(),
                limit,
                now,
                window_start: start,
                expires_at: expiry,
            },
        )
    }
}

/// Every request of a window is placed in the same window: two clock readings
/// in one window of length `window` give the same window start.
pub proof fn lemma_same_window(a: int, b: int, window: int)
    requires
        window > 0,
        0 <= a <= b,
        b < window_start(a, window) + window,
    ensures
        window_start(a, window) == window_start(b, window),
{
    let qa = a / window;
    let qb = b / window;
    assert(qa * window <= a) by (nonlinear_arith)
        requires
            qa == a / window,
            window > 0,
    ;
    assert(b < (qb + 1) * window && qb * window <= b) by (nonlinear_arith)
        requires
            qb == b / window,
            window > 0,
    ;
    assert(qa <= qb) by (nonlinear_arith)
        requires
            qa * window <= b,
            b < (qb + 1) * window,
            window > 0,
    ;
    assert(qb <= qa) by (nonlinear_arith)
        requires
            qb * window <= b,
            b < qa * window + window,
            window > 0,
    ;
}

} // verus!
