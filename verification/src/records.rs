//! Durable rows as plain values.
//!
//! A stored structured column is represented by what decoding it yields;
//! `None` stands for a value that does not decode.

use crate::digest::Uuid;
use crate::principal::PrincipalReference;
use crate::text::clone_text_option;
use vstd::prelude::*;

verus! {

/// One conversation session.
#[derive(Debug, PartialEq, Eq)]
pub struct AiSessionRecord {
    pub id: Uuid,
    pub owner_principal_kind: String,
    pub owner_subject: String,
    pub tenant_id: Option<String>,
    pub scope_kind: String,
    pub scope_id: String,
    pub state: String,
    pub stream_head: i64,
    pub message_head: i64,
    pub deleted_at: Option<i64>,
    pub row_version: i64,
}

impl Clone for AiSessionRecord {
    fn clone(&self) -> (result: Self)
        ensures
            result == *self,
    {
        AiSessionRecord {
            id: self.id,
            owner_principal_kind: self.owner_principal_kind.clone(),
            owner_subject: self.owner_subject.clone(),
            tenant_id: clone_text_option(&self.tenant_id),
            scope_kind: self.scope_kind.clone(),
            scope_id: self.scope_id.clone(),
            state: self.state.clone(),
            stream_head: self.stream_head,
            message_head: self.message_head,
            deleted_at: self.deleted_at,
            row_version: self.row_version,
        }
    }
}

/// One queued, running, or settled run.
#[derive(Debug, PartialEq, Eq)]
pub struct AiRunRecord {
    pub id: Uuid,
    pub session_id: Uuid,
    pub principal_reference: Option<PrincipalReference>,
    pub state: String,
    pub attempt_id: Option<Uuid>,
    pub lease_owner: Option<String>,
    pub lease_generation: i64,
    pub lease_expires_at: Option<i64>,
    pub lease_heartbeat_at: Option<i64>,
    pub retry_count: i64,
    pub next_attempt_at: Option<i64>,
    pub error_code: Option<String>,
    pub latest_checkpoint_id: Option<Uuid>,
    pub input_message_id: Uuid,
    pub row_version: i64,
}

/// One persisted message, apart from its protected content.
#[derive(Debug, PartialEq, Eq)]
pub struct AiMessageRecord {
    pub id: Uuid,
    pub session_id: Uuid,
    pub sequence: i64,
    pub message_role: String,
    pub run_id: Option<Uuid>,
    pub provider_kind: Option<String>,
    pub provider_model: Option<String>,
    pub completion_state: String,
    pub finalized_at: Option<i64>,
    pub content_purged_at: Option<i64>,
    pub has_protected_preview: bool,
    pub block_count: i64,
}

/// One persisted content block, apart from its protected content.
#[derive(Debug, PartialEq, Eq)]
pub struct AiMessageBlockRecord {
    pub id: Uuid,
    pub message_id: Uuid,
    pub block_index: i64,
    pub block_kind: String,
    pub byte_count: i64,
    pub line_count: i64,
}

/// Retention configuration of one scope.
#[derive(Debug, PartialEq, Eq)]
pub struct AiRetentionPolicyRecord {
    pub id: Uuid,
    pub scope_key: Option<String>,
    pub scope_kind: String,
    pub scope_id: String,
    pub tenant_id: Option<String>,
    pub message_retention_seconds: Option<i64>,
    pub delta_retention_seconds: i64,
    pub raw_payload_retention_seconds: i64,
    pub audit_retention_seconds: i64,
    pub deleted_content_purge_seconds: i64,
    pub provider_file_delete_required: bool,
    pub inbox_event_retention_seconds: Option<i64>,
    pub inbox_minimum_events: Option<i64>,
    pub row_version: i64,
    pub updated_at: i64,
}

/// One audit event, apart from its random correlation identity.
#[derive(Debug, PartialEq, Eq)]
pub struct AuditFact {
    pub actor_principal_kind: String,
    pub actor_subject: String,
    pub action: String,
    pub resource_kind: String,
    pub resource_reference: String,
    pub outcome: String,
    pub reason_code: String,
    pub policy_version: Option<String>,
}

} // verus!
