//! The records of the shared control store, and how each is read back from a
//! database row (timestamps stored as BIGINT come back as `u128`, with a
//! negative value read as zero).
use crate::store::{
    ms_from_pg, opt_ms_from_pg, pg_ms, pg_opt_ms, pg_u64, u64_from_pg,
};
use vstd::prelude::*;

verus! {

#[derive(Debug, Clone, PartialEq, Eq)]
pub struct ClusterInstance {
    pub instance_id: String,
    pub endpoint: String,
    pub updated_at_unix_ms: u128,
    pub expires_at_unix_ms: u128,
}

#[derive(Debug, Clone, PartialEq, Eq)]
pub struct ClusterBusMessage {
    pub id: i64,
    pub source_instance_id: String,
    pub target_instance_id: String,
    pub topic: String,
    pub payload: String,
    pub created_at_unix_ms: u128,
    pub expires_at_unix_ms: u128,
}

#[derive(Debug, Clone, PartialEq, Eq)]
pub struct SharedStreamCheckpoint {
    pub relay_id: String,
    pub device_id: String,
    pub principal_id: String,
    pub permission: String,
    pub request_json: String,
    pub agent_instance_id: String,
    pub resume_token_hash: String,
    pub resource_id: Option<String>,
    pub next_input_seq: u64,
    pub acked_input_seq: u64,
    pub committed_bytes: Option<u64>,
    pub resource_progress_bytes: u64,
    pub created_at_unix_ms: u128,
    pub last_activity_unix_ms: u128,
    pub detached_until_unix_ms: Option<u128>,
    pub expires_at_unix_ms: u128,
}

#[derive(Debug, Clone, PartialEq, Eq)]
pub struct SharedStreamFrame {
    pub relay_id: String,
    pub seq: u64,
    pub frame_json: String,
    pub created_at_unix_ms: u128,
}

#[derive(Debug, Clone, PartialEq, Eq)]
pub struct SharedSessionRecord {
    pub session_id: String,
    pub account_id: String,
    pub token_hash: String,
    pub payload: String,
    pub created_at_unix_ms: u128,
    pub expires_at_unix_ms: u128,
    pub last_activity_unix_ms: u128,
    pub revoked: bool,
}

#[derive(Debug, Clone, PartialEq, Eq)]
pub struct SharedRoleRecord {
    pub role_id: String,
    pub payload: String,
    pub updated_at_unix_ms: u128,
}

#[derive(Debug, Clone, PartialEq, Eq)]
pub struct SharedAccountRecord {
    pub account_id: String,
    pub email: String,
    pub role_id: String,
    pub payload: String,
    pub disabled: bool,
    pub updated_at_unix_ms: u128,
}

#[derive(Debug, Clone, PartialEq, Eq)]
pub struct SharedAuthTransaction {
    pub transaction_id: String,
    pub kind: String,
    pub payload: String,
    pub created_at_unix_ms: u128,
    pub expires_at_unix_ms: u128,
    pub consumed_at_unix_ms: Option<u128>,
}

#[derive(Debug, Clone, PartialEq, Eq)]
pub struct SharedAuthPolicyRecord {
    pub policy_id: String,
    pub payload: String,
    pub updated_at_unix_ms: u128,
}

#[derive(Debug, Clone, PartialEq, Eq)]
pub struct SharedScimGroupRecord {
    pub group_id: String,
    pub display_name: String,
    pub payload: String,
    pub updated_at_unix_ms: u128,
}

#[derive(Debug, Clone, PartialEq, Eq)]
pub struct SharedApiTokenRecord {
    pub token_id: String,
    pub principal_id: String,
    pub role_id: String,
    pub token_hash: String,
    pub created_at_unix_ms: u128,
    pub revoked: bool,
    pub updated_at_unix_ms: u128,
}

#[derive(Debug, Clone, PartialEq, Eq)]
pub struct SharedFleetGroupRecord {
    pub group_id: String,
    pub payload: String,
    pub updated_at_unix_ms: u128,
}

#[derive(Debug, Clone, PartialEq, Eq)]
pub struct SharedEnvironmentRecord {
    pub environment_id: String,
    pub payload: String,
    pub updated_at_unix_ms: u128,
}

#[derive(Debug, Clone, PartialEq, Eq)]
pub struct SharedDeviceFleetRecord {
    pub device_id: String,
    pub payload: String,
    pub updated_at_unix_ms: u128,
}

#[derive(Debug, Clone, PartialEq, Eq)]
pub struct SharedTeamSecretRecord {
    pub name: String,
    pub key_id: String,
    pub nonce_b64: String,
    pub ciphertext_b64: String,
    pub created_by: String,
    pub updated_at_unix_ms: u128,
}

#[derive(Debug, Clone, PartialEq, Eq)]
pub struct SharedDeviceRecord {
    pub device_id: String,
    pub public_key: String,
    pub display_name: String,
    pub os: String,
    pub enrolled_at_unix_ms: u128,
    pub last_seen_unix_ms: u128,
}

#[derive(Debug, Clone, PartialEq, Eq)]
pub struct SharedCommandRecord {
    pub command_id: String,
    pub device_id: String,
    pub payload: String,
    pub state: String,
    pub attempts: u32,
    pub leased_by: Option<String>,
    pub lease_until_unix_ms: Option<u128>,
    pub expires_at_unix_ms: u128,
    pub created_at_unix_ms: u128,
    pub completed_at_unix_ms: Option<u128>,
    pub last_error: Option<String>,
    pub result_payload: Option<String>,
}

#[derive(Debug, Clone, PartialEq, Eq)]
pub struct SharedApprovalRecord {
    pub approval_id: String,
    pub payload: String,
    pub state: String,
    pub created_at_unix_ms: u128,
    pub expires_at_unix_ms: u128,
    pub approver_id: Option<String>,
    pub decided_at_unix_ms: Option<u128>,
    pub command_id: Option<String>,
}

#[derive(Debug, Clone, PartialEq, Eq)]
pub struct SharedAuditInput {
    pub event_id: String,
    pub previous_hash: String,
    pub event_hash: String,
    pub timestamp_unix_ms: u128,
    pub payload: String,
}

#[derive(Debug, Clone, PartialEq, Eq)]
pub struct SharedAuditRecord {
    pub seq: i64,
    pub device_id: String,
    pub event_id: String,
    pub previous_hash: String,
    pub event_hash: String,
    pub timestamp_unix_ms: u128,
    pub payload: String,
}

#[derive(Debug, Clone, PartialEq, Eq)]
pub struct SharedAuditAppendResult {
    pub accepted: u32,
    pub duplicates: u32,
    pub last_hash: String,
}

/// `u32::try_from(v).unwrap_or(u32::MAX)`.
pub open spec fn pg_u32_or_max(v: i64) -> u32 {
    if 0 <= v <= u32::MAX {
        v as u32
    } else {
        u32::MAX
    }
}

/// `v.and_then(|v| u64::try_from(v).ok())`.
pub open spec fn pg_opt_u64(v: Option<i64>) -> Option<u64> {
    match v {
        Some(x) => if x >= 0 {
            Some(x as u64)
        } else {
            None
        },
        None => None,
    }
}

impl ClusterInstance {
    /// The instance a row of the instances table describes.
    pub fn from_pg(instance_id: String, endpoint: String, updated: i64, expires: i64) -> (r: Self)
        ensures
            r.instance_id == instance_id,
            r.endpoint == endpoint,
            r.updated_at_unix_ms == pg_ms(updated),
            r.expires_at_unix_ms == pg_ms(expires),
    {
        ClusterInstance {
            instance_id,
            endpoint,
            updated_at_unix_ms: ms_from_pg(updated),
            expires_at_unix_ms: ms_from_pg(expires),
        }
    }
}

impl ClusterBusMessage {
    /// The message a row of the bus table describes.
    pub fn from_pg(
        id: i64,
        source_instance_id: String,
        target_instance_id: String,
        topic: String,
        payload: String,
        created: i64,
        expires: i64,
    ) -> (r: Self)
        ensures
            r.id == id,
            r.source_instance_id == source_instance_id,
            r.target_instance_id == target_instance_id,
            r.topic == topic,
            r.payload == payload,
            r.created_at_unix_ms == pg_ms(created),
            r.expires_at_unix_ms == pg_ms(expires),
    {
        ClusterBusMessage {
            id,
            source_instance_id,
            target_instance_id,
            topic,
            payload,
            created_at_unix_ms: ms_from_pg(created),
            expires_at_unix_ms: ms_from_pg(expires),
        }
    }
}

impl SharedStreamFrame {
    /// The frame a row of the frames table describes.
    pub fn from_pg(relay_id: String, seq: i64, frame_json: String, created: i64) -> (r: Self)
        ensures
            r.relay_id == relay_id,
            r.seq == pg_u64(seq),
            r.frame_json == frame_json,
            r.created_at_unix_ms == pg_ms(created),
    {
        SharedStreamFrame {
            relay_id,
            seq: u64_from_pg(seq),
            frame_json,
            created_at_unix_ms: ms_from_pg(created),
        }
    }
}

impl SharedSessionRecord {
    /// The session a row of the sessions table describes.
    pub fn from_pg(
        session_id: String,
        account_id: String,
        token_hash: String,
        payload: String,
        created: i64,
        expires: i64,
        last: i64,
        revoked: bool,
    ) -> (r: Self)
        ensures
            r.session_id == session_id,
            r.account_id == account_id,
            r.token_hash == token_hash,
            r.payload == payload,
            r.created_at_unix_ms == pg_ms(created),
            r.expires_at_unix_ms == pg_ms(expires),
            r.last_activity_unix_ms == pg_ms(last),
            r.revoked == revoked,
    {
        SharedSessionRecord {
            session_id,
            account_id,
            token_hash,
            payload,
            created_at_unix_ms: ms_from_pg(created),
            expires_at_unix_ms: ms_from_pg(expires),
            last_activity_unix_ms: ms_from_pg(last),
            revoked,
        }
    }
}

impl SharedRoleRecord {
    /// The role a row of the roles table describes.
    pub fn from_pg(role_id: String, payload: String, updated: i64) -> (r: Self)
        ensures
            r.role_id == role_id,
            r.payload == payload,
            r.updated_at_unix_ms == pg_ms(updated),
    {
        SharedRoleRecord { role_id, payload, updated_at_unix_ms: ms_from_pg(updated) }
    }
}

impl SharedAccountRecord {
    /// The account a row of the accounts table describes.
    pub fn from_pg(
        account_id: String,
        email: String,
        role_id: String,
        payload: String,
        disabled: bool,
        updated: i64,
    ) -> (r: Self)
        ensures
            r.account_id == account_id,
            r.email == email,
            r.role_id == role_id,
            r.payload == payload,
            r.disabled == disabled,
            r.updated_at_unix_ms == pg_ms(updated),
    {
        SharedAccountRecord {
            account_id,
            email,
            role_id,
            payload,
            disabled,
            updated_at_unix_ms: ms_from_pg(updated),
        }
    }
}

impl SharedAuthTransaction {
    /// The transaction a row of the auth transactions table describes.
    pub fn from_pg(
        transaction_id: String,
        kind: String,
        payload: String,
        created: i64,
        expires: i64,
        consumed: Option<i64>,
    ) -> (r: Self)
        ensures
            r.transaction_id == transaction_id,
            r.kind == kind,
            r.payload == payload,
            r.created_at_unix_ms == pg_ms(created),
            r.expires_at_unix_ms == pg_ms(expires),
            r.consumed_at_unix_ms == pg_opt_ms(consumed),
    {
        SharedAuthTransaction {
            transaction_id,
            kind,
            payload,
            created_at_unix_ms: ms_from_pg(created),
            expires_at_unix_ms: ms_from_pg(expires),
            consumed_at_unix_ms: opt_ms_from_pg(consumed),
        }
    }
}

impl SharedAuthPolicyRecord {
    /// The policy a row of the auth policy table describes.
    pub fn from_pg(policy_id: String, payload: String, updated: i64) -> (r: Self)
        ensures
            r.policy_id == policy_id,
            r.payload == payload,
            r.updated_at_unix_ms == pg_ms(updated),
    {
        SharedAuthPolicyRecord { policy_id, payload, updated_at_unix_ms: ms_from_pg(updated) }
    }
}

impl SharedScimGroupRecord {
    /// The group a row of the SCIM groups table describes.
    pub fn from_pg(group_id: String, display_name: String, payload: String, updated: i64) -> (r:
        Self)
        ensures
            r.group_id == group_id,
            r.display_name == display_name,
            r.payload == payload,
            r.updated_at_unix_ms == pg_ms(updated),
    {
        SharedScimGroupRecord {
            group_id,
            display_name,
            payload,
            updated_at_unix_ms: ms_from_pg(updated),
        }
    }
}

impl SharedApiTokenRecord {
    /// The token a row of the API tokens table describes.
    pub fn from_pg(
        token_id: String,
        principal_id: String,
        role_id: String,
        token_hash: String,
        created: i64,
        revoked: bool,
        updated: i64,
    ) -> (r: Self)
        ensures
            r.token_id == token_id,
            r.principal_id == principal_id,
            r.role_id == role_id,
            r.token_hash == token_hash,
            r.created_at_unix_ms == pg_ms(created),
            r.revoked == revoked,
            r.updated_at_unix_ms == pg_ms(updated),
    {
        SharedApiTokenRecord {
            token_id,
            principal_id,
            role_id,
            token_hash,
            created_at_unix_ms: ms_from_pg(created),
            revoked,
            updated_at_unix_ms: ms_from_pg(updated),
        }
    }
}

impl SharedFleetGroupRecord {
    /// The group a row of the fleet groups table describes.
    pub fn from_pg(group_id: String, payload: String, updated: i64) -> (r: Self)
        ensures
            r.group_id == group_id,
            r.payload == payload,
            r.updated_at_unix_ms == pg_ms(updated),
    {
        SharedFleetGroupRecord { group_id, payload, updated_at_unix_ms: ms_from_pg(updated) }
    }
}

impl SharedEnvironmentRecord {
    /// The environment a row of the environments table describes.
    pub fn from_pg(environment_id: String, payload: String, updated: i64) -> (r: Self)
        ensures
            r.environment_id == environment_id,
            r.payload == payload,
            r.updated_at_unix_ms == pg_ms(updated),
    {
        SharedEnvironmentRecord { environment_id, payload, updated_at_unix_ms: ms_from_pg(updated) }
    }
}

impl SharedDeviceFleetRecord {
    /// The device fleet entry a row of the device fleet table describes.
    pub fn from_pg(device_id: String, payload: String, updated: i64) -> (r: Self)
        ensures
            r.device_id == device_id,
            r.payload == payload,
            r.updated_at_unix_ms == pg_ms(updated),
    {
        SharedDeviceFleetRecord { device_id, payload, updated_at_unix_ms: ms_from_pg(updated) }
    }
}

impl SharedTeamSecretRecord {
    /// The secret a row of the team secrets table describes.
    pub fn from_pg(
        name: String,
        key_id: String,
        nonce_b64: String,
        ciphertext_b64: String,
        created_by: String,
        updated: i64,
    ) -> (r: Self)
        ensures
            r.name == name,
            r.key_id == key_id,
            r.nonce_b64 == nonce_b64,
            r.ciphertext_b64 == ciphertext_b64,
            r.created_by == created_by,
            r.updated_at_unix_ms == pg_ms(updated),
    {
        SharedTeamSecretRecord {
            name,
            key_id,
            nonce_b64,
            ciphertext_b64,
            created_by,
            updated_at_unix_ms: ms_from_pg(updated),
        }
    }
}

impl SharedDeviceRecord {
    /// The device a row of the devices table describes.
    pub fn from_pg(
        device_id: String,
        public_key: String,
        display_name: String,
        os: String,
        enrolled: i64,
        seen: i64,
    ) -> (r: Self)
        ensures
            r.device_id == device_id,
            r.public_key == public_key,
            r.display_name == display_name,
            r.os == os,
            r.enrolled_at_unix_ms == pg_ms(enrolled),
            r.last_seen_unix_ms == pg_ms(seen),
    {
        SharedDeviceRecord {
            device_id,
            public_key,
            display_name,
            os,
            enrolled_at_unix_ms: ms_from_pg(enrolled),
            last_seen_unix_ms: ms_from_pg(seen),
        }
    }
}

impl SharedApprovalRecord {
    /// The approval a row of the approvals table describes.
    pub fn from_pg(
        approval_id: String,
        payload: String,
        state: String,
        created: i64,
        expires: i64,
        approver_id: Option<String>,
        decided: Option<i64>,
        command_id: Option<String>,
    ) -> (r: Self)
        ensures
            r.approval_id == approval_id,
            r.payload == payload,
            r.state == state,
            r.created_at_unix_ms == pg_ms(created),
            r.expires_at_unix_ms == pg_ms(expires),
            r.approver_id == approver_id,
            r.decided_at_unix_ms == pg_opt_ms(decided),
            r.command_id == command_id,
    {
        SharedApprovalRecord {
            approval_id,
            payload,
            state,
            created_at_unix_ms: ms_from_pg(created),
            expires_at_unix_ms: ms_from_pg(expires),
            approver_id,
            decided_at_unix_ms: opt_ms_from_pg(decided),
            command_id,
        }
    }
}

impl SharedCommandRecord {
    /// The command a row of the commands table describes.
    pub fn from_pg(
        command_id: String,
        device_id: String,
        payload: String,
        state: String,
        attempts: i64,
        leased_by: Option<String>,
        lease_until: Option<i64>,
        expires: i64,
        created: i64,
        completed: Option<i64>,
        last_error: Option<String>,
        result_payload: Option<String>,
    ) -> (r: Self)
        ensures
            r.command_id == command_id,
            r.device_id == device_id,
            r.payload == payload,
            r.state == state,
            r.attempts == pg_u32_or_max(attempts),
            r.leased_by == leased_by,
            r.lease_until_unix_ms == pg_opt_ms(lease_until),
            r.expires_at_unix_ms == pg_ms(expires),
            r.created_at_unix_ms == pg_ms(created),
            r.completed_at_unix_ms == pg_opt_ms(completed),
            r.last_error == last_error,
            r.result_payload == result_payload,
    {
        let attempts = if 0 <= attempts && attempts <= 4294967295i64 {
            attempts as u32
        } else {
            u32::MAX
        };
        SharedCommandRecord {
            command_id,
            device_id,
            payload,
            state,
            attempts,
            leased_by,
            lease_until_unix_ms: opt_ms_from_pg(lease_until),
            expires_at_unix_ms: ms_from_pg(expires),
            created_at_unix_ms: ms_from_pg(created),
            completed_at_unix_ms: opt_ms_from_pg(completed),
            last_error,
            result_payload,
        }
    }
}

impl SharedAuditRecord {
    /// The audit record a row of the audit table describes.
    pub fn from_pg(
        seq: i64,
        device_id: String,
        event_id: String,
        previous_hash: String,
        event_hash: String,
        timestamp: i64,
        payload: String,
    ) -> (r: Self)
        ensures
            r.seq == seq,
            r.device_id == device_id,
            r.event_id == event_id,
            r.previous_hash == previous_hash,
            r.event_hash == event_hash,
            r.timestamp_unix_ms == pg_ms(timestamp),
            r.payload == payload,
    {
        SharedAuditRecord {
            seq,
            device_id,
            event_id,
            previous_hash,
            event_hash,
            timestamp_unix_ms: ms_from_pg(timestamp),
            payload,
        }
    }
}

impl SharedStreamCheckpoint {
    /// The checkpoint a row of the stream relays table describes.
    pub fn from_pg(
        relay_id: String,
        device_id: String,
        principal_id: String,
        permission: String,
        request_json: String,
        agent_instance_id: String,
        resume_token_hash: String,
        resource_id: Option<String>,
        next: i64,
        acked: i64,
        committed: Option<i64>,
        progress: i64,
        created: i64,
        activity: i64,
        detached: Option<i64>,
        expires: i64,
    ) -> (r: Self)
        ensures
            r.relay_id == relay_id,
            r.device_id == device_id,
            r.principal_id == principal_id,
            r.permission == permission,
            r.request_json == request_json,
            r.agent_instance_id == agent_instance_id,
            r.resume_token_hash == resume_token_hash,
            r.resource_id == resource_id,
            r.next_input_seq == pg_u64(next),
            r.acked_input_seq == pg_u64(acked),
            r.committed_bytes == pg_opt_u64(committed),
            r.resource_progress_bytes == pg_u64(progress),
            r.created_at_unix_ms == pg_ms(created),
            r.last_activity_unix_ms == pg_ms(activity),
            r.detached_until_unix_ms == pg_opt_ms(detached),
            r.expires_at_unix_ms == pg_ms(expires),
    {
        let committed_bytes = match committed {
            Some(v) => if v >= 0 {
                Some(v as u64)
            } else {
                None
            },
            None => None,
        };
        SharedStreamCheckpoint {
            relay_id,
            device_id,
            principal_id,
            permission,
            request_json,
            agent_instance_id,
            resume_token_hash,
            resource_id,
            next_input_seq: u64_from_pg(next),
            acked_input_seq: u64_from_pg(acked),
            committed_bytes,
            resource_progress_bytes: u64_from_pg(progress),
            created_at_unix_ms: ms_from_pg(created),
            last_activity_unix_ms: ms_from_pg(activity),
            detached_until_unix_ms: opt_ms_from_pg(detached),
            expires_at_unix_ms: ms_from_pg(expires),
        }
    }
}

} // verus!
