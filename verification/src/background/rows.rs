//! Rows of background submissions, their attempts, and webhook receipts.

use crate::access::AiRunState;
use crate::background::state::{BackgroundReason, BackgroundSubmissionState};
use crate::digest::Uuid;
use crate::text::clone_text_option;
use vstd::prelude::*;

verus! {

/// One background submission.
#[derive(Debug, PartialEq, Eq)]
pub struct AiProviderBackgroundSubmissionRecord {
    pub id: Uuid,
    pub submission_key: String,
    pub session_id: Uuid,
    pub run_id: Uuid,
    pub attempt_id: Uuid,
    pub lease_generation: i64,
    pub provider_kind: String,
    pub provider_profile_id: String,
    pub provider_model: String,
    pub maximum_output_tokens: i64,
    pub provider_store: Option<bool>,
    pub request_hash: String,
    pub budget_reservation_id: Uuid,
    pub egress_decision_id: Uuid,
    pub egress_manifest_hash: String,
    pub provider_response_id: Option<String>,
    pub provider_status: Option<String>,
    pub state: String,
    pub safe_error_code: Option<String>,
    pub provider_created_at: Option<i64>,
    pub submitted_at: Option<i64>,
    pub reconciliation_owner: Option<String>,
    pub reconciliation_generation: i64,
    pub reconciliation_lease_expires_at: Option<i64>,
    pub reconciliation_next_attempt_at: Option<i64>,
    pub reconciliation_retry_count: i64,
    pub reconciliation_deadline: Option<i64>,
    pub reconciled_at: Option<i64>,
    pub retrieval_egress_decision_id: Option<Uuid>,
    pub terminal_message_id: Option<Uuid>,
    pub created_at: i64,
    pub row_version: i64,
}

impl Clone for AiProviderBackgroundSubmissionRecord {
    fn clone(&self) -> (result: Self)
        ensures
            result == *self,
    {
        AiProviderBackgroundSubmissionRecord {
            id: self.id,
            submission_key: self.submission_key.clone(),
            session_id: self.session_id,
            run_id: self.run_id,
            attempt_id: self.attempt_id,
            lease_generation: self.lease_generation,
            provider_kind: self.provider_kind.clone(),
            provider_profile_id: self.provider_profile_id.clone(),
            provider_model: self.provider_model.clone(),
            maximum_output_tokens: self.maximum_output_tokens,
            provider_store: self.provider_store,
            request_hash: self.request_hash.clone(),
            budget_reservation_id: self.budget_reservation_id,
            egress_decision_id: self.egress_decision_id,
            egress_manifest_hash: self.egress_manifest_hash.clone(),
            provider_response_id: clone_text_option(&self.provider_response_id),
            provider_status: clone_text_option(&self.provider_status),
            state: self.state.clone(),
            safe_error_code: clone_text_option(&self.safe_error_code),
            provider_created_at: self.provider_created_at,
            submitted_at: self.submitted_at,
            reconciliation_owner: clone_text_option(&self.reconciliation_owner),
            reconciliation_generation: self.reconciliation_generation,
            reconciliation_lease_expires_at: self.reconciliation_lease_expires_at,
            reconciliation_next_attempt_at: self.reconciliation_next_attempt_at,
            reconciliation_retry_count: self.reconciliation_retry_count,
            reconciliation_deadline: self.reconciliation_deadline,
            reconciled_at: self.reconciled_at,
            retrieval_egress_decision_id: self.retrieval_egress_decision_id,
            terminal_message_id: self.terminal_message_id,
            created_at: self.created_at,
            row_version: self.row_version,
        }
    }
}

/// A replacement of a submission row, fenced by the version and the state that
/// were read. The store increments the version.
#[derive(Debug, PartialEq, Eq)]
pub struct SubmissionWrite {
    pub expected_row_version: i64,
    pub expected_state: BackgroundSubmissionState,
    pub next: AiProviderBackgroundSubmissionRecord,
}

/// End of a run: its lease columns are cleared with the state change. The
/// write is fenced by the run's version and state.
#[derive(Debug, PartialEq, Eq)]
pub struct RunSettlement {
    pub run_id: Uuid,
    pub expected_row_version: i64,
    pub expected_state: AiRunState,
    pub state: AiRunState,
    pub error_code: Option<BackgroundReason>,
    /// The checkpoint that becomes the run's latest; `None` leaves it alone.
    pub latest_checkpoint_id: Option<Uuid>,
}

/// One attempt to execute a run.
#[derive(Debug, PartialEq, Eq)]
pub struct AiRunAttemptRecord {
    pub id: Uuid,
    pub run_id: Uuid,
    pub lease_generation: i64,
    pub worker_id: String,
    pub claimed_at: i64,
    pub finished_at: Option<i64>,
    pub provider_response_id: Option<String>,
    pub outcome_code: Option<String>,
}

/// The immutable outcome of one attempt.
#[derive(Debug, PartialEq, Eq)]
pub struct AiRunAttemptOutcomeRecord {
    pub attempt_id: Uuid,
    pub run_id: Uuid,
    pub lease_generation: i64,
    pub worker_id: String,
    pub final_state: String,
    pub outcome_code: String,
    pub provider_response_id: Option<String>,
    pub finished_at: i64,
}

/// One verified provider webhook.
#[derive(Debug, PartialEq, Eq)]
pub struct AiProviderWebhookReceiptRecord {
    pub id: Uuid,
    pub receipt_key: String,
    pub provider_kind: String,
    pub provider_profile_id: String,
    pub provider_event_id: String,
    pub provider_event_kind: String,
    pub provider_created_at: i64,
    pub provider_response_id: Option<String>,
    pub run_id: Option<Uuid>,
    pub attempt_id: Option<Uuid>,
    pub signature_verified: bool,
    pub state: String,
    pub safe_error_code: Option<String>,
    pub received_at: i64,
    pub processed_at: Option<i64>,
    pub row_version: i64,
}

/// One settled usage entry.
#[derive(Debug, PartialEq, Eq)]
pub struct AiUsageEntryRecord {
    pub run_id: Option<Uuid>,
    pub provider_kind: String,
    pub provider_model: String,
    pub input_tokens: i64,
    pub cached_input_tokens: i64,
    pub output_tokens: i64,
    pub tool_units: i64,
    pub image_units: i64,
    pub cost_microunits: Option<i64>,
}

/// One event of a session's stream, apart from its protected payload.
#[derive(Debug, PartialEq, Eq)]
pub struct AiSessionEventRecord {
    pub id: Uuid,
    pub session_id: Uuid,
    pub sequence: i64,
    pub event_type: String,
    pub run_id: Option<Uuid>,
    pub causation_id: Option<String>,
    pub correlation_id: String,
}

} // verus!
