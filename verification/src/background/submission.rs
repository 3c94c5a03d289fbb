//! Exact submission: what may be submitted, and the transactions that bind a
//! submission to its attempt, its acknowledgement, or its ambiguity.

use crate::access::{AiRunLease, AiRunState};
use crate::background::graph::{
    acknowledged_and_open, claimable, expired, row_identified, row_parts,
};
use crate::background::identity::{
    BackgroundAudit, BackgroundChange, audited, background_audit, lease_parts, submission_id_value,
    submission_identity, submission_key_text,
};
use crate::background::limits::AiOpenAiBackgroundReconciliationWindows;
use crate::background::rows::{AiProviderBackgroundSubmissionRecord, RunSettlement, SubmissionWrite};
use crate::background::state::{
    BackgroundReason, BackgroundSubmissionState, names_status, reason_text, response_id_text,
    sha256_text, submission_state_round_trip, valid_provider_status, valid_response_id,
};
use crate::budget::reservation::AiBudgetReservationRequest;
use crate::budget::rows::AiBudgetReservationRecord;
use crate::checkpoints::continuation::ModelInputBlock;
use crate::clock::{Duration, UtcTime};
use crate::digest::Uuid;
use crate::egress::{
    AiEgressCapability, AiEgressEventRecord, AiEgressManifest, column_holds, same_id_option,
};
use crate::error::{AiError, ErrorModel, OrmErrorCode, accepted_or, outcome, refusal};
use crate::principal::{AiScope, session_scope_model};
use crate::provider::ProviderKind;
use crate::provider_result::ModelContinuationMode;
use crate::records::{AiRunRecord, AiSessionRecord};
use crate::text::{
    bounded_text, is_bounded_text, option_is_text, same_text, same_text_option, text_option,
};
use vstd::prelude::*;

verus! {

/// The parts of a model request that decide whether it may run in the
/// background.
#[derive(Debug, PartialEq, Eq)]
pub struct BackgroundModelRequest {
    pub model: String,
    pub continuation_mode: ModelContinuationMode,
    pub continues: bool,
    pub tool_count: usize,
    pub builtin_tool_count: usize,
    pub maximum_output_tokens: Option<u64>,
    pub input: Vec<ModelInputBlock>,
    /// Encoding of the complete request.
    pub encoding: Vec<u8>,
}

/// One planned provider call with its budget and its transfers.
#[derive(Debug, PartialEq, Eq)]
pub struct BackgroundCallPlan {
    pub provider_kind: ProviderKind,
    pub request: BackgroundModelRequest,
    pub budget: AiBudgetReservationRequest,
    pub transfers: Vec<AiEgressManifest>,
}

/// Whether the transfer is the inference of this model, retained only as the
/// provider's response, through a usable profile.
pub open spec fn transfer_submittable(
    manifest: AiEgressManifest,
    model: Seq<char>,
    retention: Seq<char>,
) -> bool {
    &&& manifest.provider_kind@ == "openai"@
    &&& manifest.model@ == model
    &&& manifest.capability is ModelInference
    &&& manifest.retention@ == retention
    &&& bounded_text(manifest.provider_profile_id@, 200)
}

/// Whether the plan is an initial, provider-retained turn of the running
/// lease's own attempt, without tools or attachments and with exactly one
/// submittable transfer.
pub open spec fn plan_submittable(
    lease: AiRunLease,
    plan: BackgroundCallPlan,
    retention: Seq<char>,
) -> bool {
    &&& lease.state is Running
    &&& plan.provider_kind is OpenAi
    &&& plan.budget.session_id == lease.session_id
    &&& plan.budget.run_id == lease.run_id
    &&& plan.budget.attempt_id == lease.attempt_id
    &&& plan.budget.lease_generation == lease.lease_generation
    &&& plan.request.continuation_mode is ProviderRetained
    &&& !plan.request.continues
    &&& plan.request.tool_count == 0
    &&& plan.request.builtin_tool_count == 0
    &&& plan.request.maximum_output_tokens is Some
    &&& forall|i: int|
        0 <= i < plan.request.input@.len() ==> !((#[trigger] plan.request.input@[i]) is Attachment)
    &&& plan.transfers@.len() == 1
    &&& transfer_submittable(plan.transfers@[0], plan.request.model@, retention)
}

fn has_attachment(input: &Vec<ModelInputBlock>) -> (result: bool)
    ensures
        result == exists|i: int| 0 <= i < input@.len() && (#[trigger] input@[i]) is Attachment,
{
    let mut i: usize = 0;
    while i < input.len()
        invariant
            i <= input@.len(),
            forall|k: int| 0 <= k < i ==> !((#[trigger] input@[k]) is Attachment),
        decreases input@.len() - i,
    {
        match &input[i] {
            ModelInputBlock::Attachment { .. } => {
                assert(input@[i as int] is Attachment);
                return true;
            },
            _ => {},
        }
        i += 1;
    }
    false
}

/// Accepts exactly the submittable plans. `retention` is the retention class
/// under which a transfer authorizes a stored provider response.
pub fn validate_plan(lease: &AiRunLease, plan: &BackgroundCallPlan, retention: &str) -> (result:
    Result<(), AiError>)
    ensures
        outcome(result) == accepted_or(
            plan_submittable(*lease, *plan, retention@),
            ErrorModel::Conflict,
        ),
{
    let request = &plan.request;
    let budget = &plan.budget;
    if lease.state != AiRunState::Running || plan.provider_kind != ProviderKind::OpenAi
        || budget.session_id != lease.session_id || budget.run_id != lease.run_id
        || budget.attempt_id != lease.attempt_id || budget.lease_generation
        != lease.lease_generation || request.continuation_mode
        != ModelContinuationMode::ProviderRetained || request.continues || request.tool_count != 0
        || request.builtin_tool_count != 0 || request.maximum_output_tokens.is_none()
        || has_attachment(&request.input) || plan.transfers.len() != 1 {
        return Err(AiError::Conflict);
    }
    let manifest = &plan.transfers[0];
    if !same_text(manifest.provider_kind.as_str(), "openai") || !same_text(
        manifest.model.as_str(),
        request.model.as_str(),
    ) || manifest.capability != AiEgressCapability::ModelInference || !same_text(
        manifest.retention.as_str(),
        retention,
    ) || !is_bounded_text(manifest.provider_profile_id.as_str(), 200) {
        return Err(AiError::Conflict);
    }
    Ok(())
}

/// Everything that identifies one submission before the provider is called.
#[derive(Debug, PartialEq, Eq)]
pub struct PreparedBackgroundSubmission {
    pub submission_id: Uuid,
    pub submission_key: String,
    pub provider_profile_id: String,
    pub provider_model: String,
    pub maximum_output_tokens: u64,
    pub request_hash: String,
    pub budget_reservation_id: Uuid,
    pub egress_decision_id: Uuid,
    pub egress_manifest_hash: String,
    pub scope: AiScope,
}

/// Whether the submission is the one that the lease makes of the plan, under
/// this reservation and this egress decision.
pub open spec fn prepared_from(
    prepared: PreparedBackgroundSubmission,
    lease: AiRunLease,
    plan: BackgroundCallPlan,
    request_hash: Seq<char>,
    budget_reservation_id: Uuid,
    egress_decision_id: Uuid,
    egress_manifest_hash: Seq<char>,
) -> bool {
    let parts = lease_parts(
        lease,
        plan.transfers@[0].provider_profile_id@,
        plan.request.model@,
        request_hash,
        budget_reservation_id,
        egress_manifest_hash,
    );
    &&& prepared.submission_id == submission_id_value(parts)
    &&& prepared.submission_key@ == submission_key_text(parts)
    &&& prepared.provider_profile_id == plan.transfers@[0].provider_profile_id
    &&& prepared.provider_model == plan.request.model
    &&& Some(prepared.maximum_output_tokens) == plan.request.maximum_output_tokens
    &&& prepared.request_hash@ == request_hash
    &&& prepared.budget_reservation_id == budget_reservation_id
    &&& prepared.egress_decision_id == egress_decision_id
    &&& prepared.egress_manifest_hash@ == egress_manifest_hash
    &&& prepared.scope == plan.budget.scope
}

/// The submission that the lease makes of the plan. A plan without an output
/// ceiling or without a transfer is a conflict.
pub fn prepare_submission(
    lease: &AiRunLease,
    plan: &BackgroundCallPlan,
    request_hash: String,
    budget_reservation_id: Uuid,
    egress_decision_id: Uuid,
    egress_manifest_hash: String,
) -> (result: Result<PreparedBackgroundSubmission, AiError>)
    ensures
        refusal(result) == if plan.request.maximum_output_tokens is Some && plan.transfers@.len()
            > 0 {
            None
        } else {
            Some(ErrorModel::Conflict)
        },
        result matches Ok(prepared) ==> prepared_from(
            prepared,
            *lease,
            *plan,
            request_hash@,
            budget_reservation_id,
            egress_decision_id,
            egress_manifest_hash@,
        ),
{
    let maximum_output_tokens: u64 = match plan.request.maximum_output_tokens {
        Some(maximum) => maximum,
        None => return Err(AiError::Conflict),
    };
    if plan.transfers.len() == 0 {
        return Err(AiError::Conflict);
    }
    let manifest = &plan.transfers[0];
    let (submission_key, submission_id) = submission_identity(
        lease,
        manifest.provider_profile_id.as_str(),
        plan.request.model.as_str(),
        request_hash.as_str(),
        budget_reservation_id,
        egress_manifest_hash.as_str(),
    );
    Ok(
        PreparedBackgroundSubmission {
            submission_id,
            submission_key,
            provider_profile_id: manifest.provider_profile_id.clone(),
            provider_model: plan.request.model.clone(),
            maximum_output_tokens,
            request_hash,
            budget_reservation_id,
            egress_decision_id,
            egress_manifest_hash,
            scope: plan.budget.scope.clone(),
        },
    )
}

/// The instant at which a lease renewed now expires.
pub fn renewed_expiry(now: UtcTime, lease_ttl: Duration) -> (result: Result<UtcTime, AiError>)
    requires
        now.wf(),
        lease_ttl.wf(),
    ensures
        match result {
            Ok(expiry) => expiry.wf() && expiry.nanos == now.nanos + lease_ttl.nanos,
            Err(error) => !(UtcTime { nanos: (now.nanos + lease_ttl.nanos) as i128 }).wf() && error@
                == ErrorModel::PersistenceFailed,
        },
{
    match now.checked_add(lease_ttl) {
        Some(expiry) => Ok(expiry),
        None => Err(AiError::PersistenceFailed),
    }
}

/// Whether the session is active and lies in exactly the submission's scope.
pub open spec fn session_open_in(session: AiSessionRecord, scope: AiScope) -> bool {
    &&& session.state@ == "active"@
    &&& session.deleted_at is None
    &&& session_scope_model(session) == scope@
}

fn is_session_open_in(session: &AiSessionRecord, scope: &AiScope) -> (result: bool)
    ensures
        result == session_open_in(*session, *scope),
{
    same_text(session.state.as_str(), "active") && session.deleted_at.is_none() && same_text(
        session.scope_kind.as_str(),
        scope.kind.as_str(),
    ) && same_text(session.scope_id.as_str(), scope.id.as_str()) && same_text_option(
        &session.tenant_id,
        &scope.tenant_id,
    )
}

/// Whether the reservation is the lease's own, unsettled, and for this model.
pub open spec fn budget_open_for(
    budget: AiBudgetReservationRecord,
    lease: AiRunLease,
    provider_model: Seq<char>,
) -> bool {
    &&& budget.session_id == lease.session_id
    &&& budget.run_id == lease.run_id
    &&& budget.attempt_id == lease.attempt_id
    &&& budget.lease_generation == lease.lease_generation
    &&& budget.provider_kind@ == "openai"@
    &&& budget.provider_model@ == provider_model
    &&& budget.state@ == "reserved"@
    &&& budget.reconciled_at is None
}

fn is_budget_open_for(
    budget: &AiBudgetReservationRecord,
    lease: &AiRunLease,
    provider_model: &str,
) -> (result: bool)
    ensures
        result == budget_open_for(*budget, *lease, provider_model@),
{
    budget.session_id == lease.session_id && budget.run_id == lease.run_id && budget.attempt_id
        == lease.attempt_id && budget.lease_generation == lease.lease_generation && same_text(
        budget.provider_kind.as_str(),
        "openai",
    ) && same_text(budget.provider_model.as_str(), provider_model) && same_text(
        budget.state.as_str(),
        "reserved",
    ) && budget.reconciled_at.is_none()
}

/// Whether the event allows exactly the submission's transfer for the run.
pub open spec fn egress_allows(
    egress: AiEgressEventRecord,
    run_id: Uuid,
    manifest_hash: Seq<char>,
) -> bool {
    &&& egress.run_id == Some(run_id)
    &&& egress.manifest_hash@ == manifest_hash
    &&& egress.capability@ == "model_inference"@
    &&& egress.outcome@ == "allow"@
}

fn is_egress_allowing(egress: &AiEgressEventRecord, run_id: Uuid, manifest_hash: &str) -> (result:
    bool)
    ensures
        result == egress_allows(*egress, run_id, manifest_hash@),
{
    same_id_option(egress.run_id, Some(run_id)) && same_text(
        egress.manifest_hash.as_str(),
        manifest_hash,
    ) && same_text(egress.capability.as_str(), "model_inference") && same_text(
        egress.outcome.as_str(),
        "allow",
    )
}

/// Rows that the prepare transaction reads. `run` was loaded under the lease's
/// active fence.
#[derive(Debug, PartialEq, Eq)]
pub struct PrepareSnapshot {
    pub run: AiRunRecord,
    pub session: Option<AiSessionRecord>,
    pub budget: Option<AiBudgetReservationRecord>,
    pub egress: Option<AiEgressEventRecord>,
}

/// Why a submission cannot be prepared, in the order of checks.
pub open spec fn prepare_fault(
    snapshot: PrepareSnapshot,
    lease: AiRunLease,
    prepared: PreparedBackgroundSubmission,
) -> Option<OrmErrorCode> {
    if snapshot.run.state@ != "running"@ {
        Some(OrmErrorCode::Conflict)
    } else if snapshot.session is None {
        Some(OrmErrorCode::NotFound)
    } else if !session_open_in(snapshot.session->0, prepared.scope) {
        Some(OrmErrorCode::Conflict)
    } else if snapshot.budget is None {
        Some(OrmErrorCode::NotFound)
    } else if !budget_open_for(snapshot.budget->0, lease, prepared.provider_model@) {
        Some(OrmErrorCode::Conflict)
    } else if snapshot.egress is None {
        Some(OrmErrorCode::NotFound)
    } else if !egress_allows(
        snapshot.egress->0,
        lease.run_id,
        prepared.egress_manifest_hash@,
    ) {
        Some(OrmErrorCode::Conflict)
    } else if prepared.maximum_output_tokens > i64::MAX {
        Some(OrmErrorCode::InvalidInput)
    } else {
        None
    }
}

/// Renewal of a running lease, fenced by the run's version and state.
#[derive(Debug, PartialEq, Eq)]
pub struct LeaseRenewal {
    pub run_id: Uuid,
    pub expected_row_version: i64,
    pub expected_state: AiRunState,
    pub lease_expires_at: i64,
    pub lease_heartbeat_at: i64,
}

/// Every write of the prepare transaction.
#[derive(Debug, PartialEq, Eq)]
pub struct PreparePlan {
    /// The row to insert. The store assigns its creation instant.
    pub submission: AiProviderBackgroundSubmissionRecord,
    pub renewal: LeaseRenewal,
    pub audit: BackgroundAudit,
}

/// Whether the row binds exactly this lease's prepared submission.
pub open spec fn submission_binds(
    submission: AiProviderBackgroundSubmissionRecord,
    lease: AiRunLease,
    prepared: PreparedBackgroundSubmission,
) -> bool {
    &&& submission.id == prepared.submission_id
    &&& submission.submission_key@ == prepared.submission_key@
    &&& submission.session_id == lease.session_id
    &&& submission.run_id == lease.run_id
    &&& submission.attempt_id == lease.attempt_id
    &&& submission.lease_generation == lease.lease_generation
    &&& submission.provider_kind@ == "openai"@
    &&& submission.provider_profile_id@ == prepared.provider_profile_id@
    &&& submission.provider_model@ == prepared.provider_model@
    &&& submission.maximum_output_tokens == prepared.maximum_output_tokens
    &&& submission.request_hash@ == prepared.request_hash@
    &&& submission.budget_reservation_id == prepared.budget_reservation_id
    &&& submission.egress_decision_id == prepared.egress_decision_id
    &&& submission.egress_manifest_hash@ == prepared.egress_manifest_hash@
}

/// Whether the row binds exactly this lease's prepared submission.
pub fn submission_matches(
    submission: &AiProviderBackgroundSubmissionRecord,
    lease: &AiRunLease,
    prepared: &PreparedBackgroundSubmission,
) -> (result: bool)
    ensures
        result == submission_binds(*submission, *lease, *prepared),
{
    submission.id == prepared.submission_id && same_text(
        submission.submission_key.as_str(),
        prepared.submission_key.as_str(),
    ) && submission.session_id == lease.session_id && submission.run_id == lease.run_id
        && submission.attempt_id == lease.attempt_id && submission.lease_generation
        == lease.lease_generation && same_text(submission.provider_kind.as_str(), "openai")
        && same_text(
        submission.provider_profile_id.as_str(),
        prepared.provider_profile_id.as_str(),
    ) && same_text(submission.provider_model.as_str(), prepared.provider_model.as_str())
        && column_holds(submission.maximum_output_tokens, prepared.maximum_output_tokens)
        && same_text(submission.request_hash.as_str(), prepared.request_hash.as_str())
        && submission.budget_reservation_id == prepared.budget_reservation_id
        && submission.egress_decision_id == prepared.egress_decision_id && same_text(
        submission.egress_manifest_hash.as_str(),
        prepared.egress_manifest_hash.as_str(),
    )
}

/// Whether no reconciliation has touched the row.
pub open spec fn reconciliation_empty(submission: AiProviderBackgroundSubmissionRecord) -> bool {
    &&& submission.reconciliation_owner is None
    &&& submission.reconciliation_generation == 0
    &&& submission.reconciliation_lease_expires_at is None
    &&& submission.reconciliation_next_attempt_at is None
    &&& submission.reconciliation_retry_count == 0
    &&& submission.reconciliation_deadline is None
    &&& submission.reconciled_at is None
    &&& submission.retrieval_egress_decision_id is None
    &&& submission.terminal_message_id is None
}

/// Whether no reconciliation has touched the row.
pub fn reconciliation_fields_are_empty(submission: &AiProviderBackgroundSubmissionRecord) -> (result:
    bool)
    ensures
        result == reconciliation_empty(*submission),
{
    submission.reconciliation_owner.is_none() && submission.reconciliation_generation == 0
        && submission.reconciliation_lease_expires_at.is_none()
        && submission.reconciliation_next_attempt_at.is_none()
        && submission.reconciliation_retry_count == 0 && submission.reconciliation_deadline.is_none()
        && submission.reconciled_at.is_none() && submission.retrieval_egress_decision_id.is_none()
        && submission.terminal_message_id.is_none()
}

/// Whether the row is prepared, never updated, and not yet acknowledged.
pub open spec fn unacknowledged(submission: AiProviderBackgroundSubmissionRecord) -> bool {
    &&& submission.state@ == "prepared"@
    &&& submission.provider_response_id is None
    &&& submission.provider_status is None
    &&& submission.provider_store is None
    &&& submission.provider_created_at is None
    &&& submission.submitted_at is None
    &&& reconciliation_empty(submission)
    &&& submission.row_version == 0
}

fn is_unacknowledged(submission: &AiProviderBackgroundSubmissionRecord) -> (result: bool)
    ensures
        result == unacknowledged(*submission),
{
    same_text(submission.state.as_str(), "prepared") && submission.provider_response_id.is_none()
        && submission.provider_status.is_none() && submission.provider_store.is_none()
        && submission.provider_created_at.is_none() && submission.submitted_at.is_none()
        && reconciliation_fields_are_empty(submission) && submission.row_version == 0
}

/// Plans the transaction that inserts the prepared binding and renews the
/// lease.
pub fn prepare_once(
    snapshot: &PrepareSnapshot,
    lease: &AiRunLease,
    prepared: &PreparedBackgroundSubmission,
    now: UtcTime,
    expiry: UtcTime,
) -> (result: Result<PreparePlan, OrmErrorCode>)
    requires
        now.wf(),
        expiry.wf(),
    ensures
        match result {
            Err(code) => prepare_fault(*snapshot, *lease, *prepared) == Some(code),
            Ok(plan) => {
                &&& prepare_fault(*snapshot, *lease, *prepared) is None
                &&& submission_binds(plan.submission, *lease, *prepared)
                &&& unacknowledged(plan.submission)
                &&& plan.submission.safe_error_code is None
                &&& plan.submission.created_at == now.second()
                &&& plan.renewal.run_id == snapshot.run.id
                &&& plan.renewal.expected_row_version == snapshot.run.row_version
                &&& plan.renewal.expected_state is Running
                &&& plan.renewal.lease_expires_at == expiry.second()
                &&& plan.renewal.lease_heartbeat_at == now.second()
                &&& audited(
                    plan.audit,
                    BackgroundChange::Prepare,
                    "provider-background"@,
                    prepared.submission_id,
                    prepared.submission_id,
                    lease.run_id,
                    "provider-background-v1"@,
                )
            },
        },
{
    if !same_text(snapshot.run.state.as_str(), "running") {
        return Err(OrmErrorCode::Conflict);
    }
    match &snapshot.session {
        Some(session) => {
            if !is_session_open_in(session, &prepared.scope) {
                return Err(OrmErrorCode::Conflict);
            }
        },
        None => return Err(OrmErrorCode::NotFound),
    }
    match &snapshot.budget {
        Some(budget) => {
            if !is_budget_open_for(budget, lease, prepared.provider_model.as_str()) {
                return Err(OrmErrorCode::Conflict);
            }
        },
        None => return Err(OrmErrorCode::NotFound),
    }
    match &snapshot.egress {
        Some(egress) => {
            if !is_egress_allowing(egress, lease.run_id, prepared.egress_manifest_hash.as_str()) {
                return Err(OrmErrorCode::Conflict);
            }
        },
        None => return Err(OrmErrorCode::NotFound),
    }
    if prepared.maximum_output_tokens > i64::MAX as u64 {
        return Err(OrmErrorCode::InvalidInput);
    }
    let second: i64 = now.unix_timestamp();
    let submission = AiProviderBackgroundSubmissionRecord {
        id: prepared.submission_id,
        submission_key: prepared.submission_key.clone(),
        session_id: lease.session_id,
        run_id: lease.run_id,
        attempt_id: lease.attempt_id,
        lease_generation: lease.lease_generation,
        provider_kind: "openai".to_owned(),
        provider_profile_id: prepared.provider_profile_id.clone(),
        provider_model: prepared.provider_model.clone(),
        maximum_output_tokens: prepared.maximum_output_tokens as i64,
        provider_store: None,
        request_hash: prepared.request_hash.clone(),
        budget_reservation_id: prepared.budget_reservation_id,
        egress_decision_id: prepared.egress_decision_id,
        egress_manifest_hash: prepared.egress_manifest_hash.clone(),
        provider_response_id: None,
        provider_status: None,
        state: BackgroundSubmissionState::Prepared.as_str().to_owned(),
        safe_error_code: None,
        provider_created_at: None,
        submitted_at: None,
        reconciliation_owner: None,
        reconciliation_generation: 0,
        reconciliation_lease_expires_at: None,
        reconciliation_next_attempt_at: None,
        reconciliation_retry_count: 0,
        reconciliation_deadline: None,
        reconciled_at: None,
        retrieval_egress_decision_id: None,
        terminal_message_id: None,
        created_at: second,
        row_version: 0,
    };
    let renewal = LeaseRenewal {
        run_id: snapshot.run.id,
        expected_row_version: snapshot.run.row_version,
        expected_state: AiRunState::Running,
        lease_expires_at: expiry.unix_timestamp(),
        lease_heartbeat_at: second,
    };
    let audit = background_audit(
        BackgroundChange::Prepare,
        "provider-background",
        prepared.submission_id,
        prepared.submission_id,
        lease.run_id,
        "provider-background-v1",
    );
    Ok(PreparePlan { submission, renewal, audit })
}

/// What the provider acknowledged.
#[derive(Debug, PartialEq, Eq)]
pub struct ProviderBackgroundSubmission {
    pub response_id: String,
    pub status: String,
    pub created_at: i64,
    pub provider_model: String,
    pub maximum_output_tokens: u64,
    pub provider_store: bool,
}

/// Whether the acknowledgement is well formed and about the prepared request.
pub open spec fn acknowledges(
    acknowledgement: ProviderBackgroundSubmission,
    prepared: PreparedBackgroundSubmission,
) -> bool {
    &&& response_id_text(acknowledgement.response_id@)
    &&& names_status(acknowledgement.status@)
    &&& acknowledgement.created_at > 0
    &&& acknowledgement.provider_model@ == prepared.provider_model@
    &&& acknowledgement.maximum_output_tokens == prepared.maximum_output_tokens
}

/// Last second at which the response is expected to be available: one window
/// after its creation, or after its acceptance where that is earlier.
pub open spec fn response_deadline(created_at: i64, now: UtcTime, window: Duration) -> int {
    let start = if created_at < now.second() {
        created_at as int
    } else {
        now.second()
    };
    start + Duration::seconds_of(window.nanos as int)
}

/// Whether the response can still become available.
pub open spec fn response_reachable(created_at: i64, now: UtcTime, window: Duration) -> bool {
    &&& created_at + Duration::seconds_of(window.nanos as int) <= i64::MAX
    &&& response_deadline(created_at, now, window) > now.second()
}

/// The deadline of an acknowledged submission.
pub fn admit_acknowledgement(
    acknowledgement: &ProviderBackgroundSubmission,
    prepared: &PreparedBackgroundSubmission,
    now: UtcTime,
    windows: AiOpenAiBackgroundReconciliationWindows,
) -> (result: Result<i64, AiError>)
    requires
        now.wf(),
        windows.wf(),
    ensures
        ({
            let window = windows.window(acknowledgement.provider_store);
            refusal(result) == if acknowledges(*acknowledgement, *prepared) && response_reachable(
                acknowledgement.created_at,
                now,
                window,
            ) {
                None
            } else {
                Some(ErrorModel::ProviderFailed)
            }
        }),
        result matches Ok(deadline) ==> deadline == response_deadline(
            acknowledgement.created_at,
            now,
            windows.window(acknowledgement.provider_store),
        ),
{
    if !valid_response_id(acknowledgement.response_id.as_str()) || !valid_provider_status(
        acknowledgement.status.as_str(),
    ) || acknowledgement.created_at <= 0 || !same_text(
        acknowledgement.provider_model.as_str(),
        prepared.provider_model.as_str(),
    ) || acknowledgement.maximum_output_tokens != prepared.maximum_output_tokens {
        return Err(AiError::ProviderFailed);
    }
    let window: i64 = windows.for_storage(acknowledgement.provider_store).whole_seconds();
    let second: i64 = now.unix_timestamp();
    let provider_deadline: i64 = match acknowledgement.created_at.checked_add(window) {
        Some(deadline) => deadline,
        None => return Err(AiError::ProviderFailed),
    };
    let local_deadline: i64 = match second.checked_add(window) {
        Some(deadline) => deadline,
        None => return Err(AiError::ProviderFailed),
    };
    let deadline: i64 = if provider_deadline < local_deadline {
        provider_deadline
    } else {
        local_deadline
    };
    if deadline <= second {
        return Err(AiError::ProviderFailed);
    }
    Ok(deadline)
}

/// Whether the row waits for its first reconciliation.
pub open spec fn waiting(submission: AiProviderBackgroundSubmissionRecord) -> bool {
    &&& submission.submitted_at is Some
    &&& submission.reconciliation_next_attempt_at is Some
    &&& submission.reconciliation_deadline is Some
    &&& submission.state@ == "waiting_provider"@
    &&& submission.provider_store is Some
    &&& submission.provider_response_id is Some
    &&& submission.provider_status is Some
    &&& submission.provider_created_at is Some
    &&& submission.safe_error_code is None
    &&& submission.reconciliation_owner is None
    &&& submission.reconciliation_generation == 0
    &&& submission.reconciliation_lease_expires_at is None
    &&& submission.reconciliation_retry_count == 0
    &&& submission.submitted_at->0 <= submission.reconciliation_next_attempt_at->0
    &&& submission.reconciliation_next_attempt_at->0 < submission.reconciliation_deadline->0
    &&& submission.reconciled_at is None
    &&& submission.retrieval_egress_decision_id is None
    &&& submission.terminal_message_id is None
}

/// Whether the row waits for its first reconciliation.
pub fn valid_waiting_submission(submission: &AiProviderBackgroundSubmissionRecord) -> (result: bool)
    ensures
        result == waiting(*submission),
{
    match (
        submission.submitted_at,
        submission.reconciliation_next_attempt_at,
        submission.reconciliation_deadline,
    ) {
        (Some(submitted_at), Some(next_attempt_at), Some(deadline)) => same_text(
            submission.state.as_str(),
            "waiting_provider",
        ) && submission.provider_store.is_some() && submission.provider_response_id.is_some()
            && submission.provider_status.is_some() && submission.provider_created_at.is_some()
            && submission.safe_error_code.is_none() && submission.reconciliation_owner.is_none()
            && submission.reconciliation_generation == 0
            && submission.reconciliation_lease_expires_at.is_none()
            && submission.reconciliation_retry_count == 0 && submitted_at <= next_attempt_at
            && next_attempt_at < deadline && submission.reconciled_at.is_none()
            && submission.retrieval_egress_decision_id.is_none()
            && submission.terminal_message_id.is_none(),
        _ => false,
    }
}

/// Why an acknowledgement cannot be bound, in the order of checks.
pub open spec fn accept_fault(
    run: AiRunRecord,
    submission: Option<AiProviderBackgroundSubmissionRecord>,
    lease: AiRunLease,
    prepared: PreparedBackgroundSubmission,
) -> Option<OrmErrorCode> {
    if run.state@ != "running"@ {
        Some(OrmErrorCode::Conflict)
    } else if submission is None {
        Some(OrmErrorCode::NotFound)
    } else if !submission_binds(submission->0, lease, prepared) || !unacknowledged(submission->0) {
        Some(OrmErrorCode::Conflict)
    } else if submission->0.safe_error_code is Some {
        Some(OrmErrorCode::InternalError)
    } else {
        None
    }
}

/// Every write of a transaction that ends the lease of the submission's run.
#[derive(Debug, PartialEq, Eq)]
pub struct LeaseEndPlan {
    pub submission: SubmissionWrite,
    pub run: RunSettlement,
    pub audit: BackgroundAudit,
}

/// Whether the row is `before` with the acknowledgement bound to it.
pub open spec fn acknowledged_row(
    before: AiProviderBackgroundSubmissionRecord,
    after: AiProviderBackgroundSubmissionRecord,
    acknowledgement: ProviderBackgroundSubmission,
    second: int,
    deadline: int,
) -> bool {
    &&& text_option(after.provider_response_id) == Some(acknowledgement.response_id@)
    &&& text_option(after.provider_status) == Some(acknowledgement.status@)
    &&& after.provider_store == Some(acknowledgement.provider_store)
    &&& after.state@ == "waiting_provider"@
    &&& after.provider_created_at == Some(acknowledgement.created_at)
    &&& after.submitted_at is Some && after.submitted_at->0 == second
    &&& after.reconciliation_next_attempt_at is Some && after.reconciliation_next_attempt_at->0
        == second
    &&& after.reconciliation_deadline is Some && after.reconciliation_deadline->0 == deadline
    &&& before == (AiProviderBackgroundSubmissionRecord {
        provider_response_id: before.provider_response_id,
        provider_status: before.provider_status,
        provider_store: before.provider_store,
        state: before.state,
        provider_created_at: before.provider_created_at,
        submitted_at: before.submitted_at,
        reconciliation_next_attempt_at: before.reconciliation_next_attempt_at,
        reconciliation_deadline: before.reconciliation_deadline,
        ..after
    })
}

/// Plans the transaction that binds an acknowledgement and parks the run
/// without a lease.
pub fn accept_once(
    run: &AiRunRecord,
    submission: &Option<AiProviderBackgroundSubmissionRecord>,
    lease: &AiRunLease,
    prepared: &PreparedBackgroundSubmission,
    acknowledgement: &ProviderBackgroundSubmission,
    deadline: i64,
    now: UtcTime,
) -> (result: Result<LeaseEndPlan, OrmErrorCode>)
    requires
        now.wf(),
        deadline > now.second(),
    ensures
        match result {
            Err(code) => accept_fault(*run, *submission, *lease, *prepared) == Some(code),
            Ok(plan) => {
                &&& accept_fault(*run, *submission, *lease, *prepared) is None
                &&& plan.submission.expected_row_version == submission->0.row_version
                &&& plan.submission.expected_state is Prepared
                &&& acknowledged_row(
                    submission->0,
                    plan.submission.next,
                    *acknowledgement,
                    now.second(),
                    deadline as int,
                )
                &&& waiting(plan.submission.next)
                &&& plan.run == (RunSettlement {
                    run_id: run.id,
                    expected_row_version: run.row_version,
                    expected_state: AiRunState::Running,
                    state: AiRunState::WaitingProvider,
                    error_code: None,
                    latest_checkpoint_id: None,
                })
                &&& audited(
                    plan.audit,
                    BackgroundChange::Accept,
                    "provider-background"@,
                    prepared.submission_id,
                    prepared.submission_id,
                    lease.run_id,
                    "provider-background-v1"@,
                )
            },
        },
{
    if !same_text(run.state.as_str(), "running") {
        return Err(OrmErrorCode::Conflict);
    }
    let current: &AiProviderBackgroundSubmissionRecord = match submission {
        Some(current) => current,
        None => return Err(OrmErrorCode::NotFound),
    };
    if !submission_matches(current, lease, prepared) || !is_unacknowledged(current) {
        return Err(OrmErrorCode::Conflict);
    }
    let second: i64 = now.unix_timestamp();
    let mut next = current.clone();
    next.provider_response_id = Some(acknowledgement.response_id.clone());
    next.provider_status = Some(acknowledgement.status.clone());
    next.provider_store = Some(acknowledgement.provider_store);
    next.state = BackgroundSubmissionState::WaitingProvider.as_str().to_owned();
    next.provider_created_at = Some(acknowledgement.created_at);
    next.submitted_at = Some(second);
    next.reconciliation_next_attempt_at = Some(second);
    next.reconciliation_deadline = Some(deadline);
    if !valid_waiting_submission(&next) {
        return Err(OrmErrorCode::InternalError);
    }
    Ok(
        LeaseEndPlan {
            submission: SubmissionWrite {
                expected_row_version: current.row_version,
                expected_state: BackgroundSubmissionState::Prepared,
                next,
            },
            run: RunSettlement {
                run_id: run.id,
                expected_row_version: run.row_version,
                expected_state: AiRunState::Running,
                state: AiRunState::WaitingProvider,
                error_code: None,
                latest_checkpoint_id: None,
            },
            audit: background_audit(
                BackgroundChange::Accept,
                "provider-background",
                prepared.submission_id,
                prepared.submission_id,
                lease.run_id,
                "provider-background-v1",
            ),
        },
    )
}

/// Why an ambiguity cannot be closed, in the order of checks.
pub open spec fn ambiguity_fault(
    run: AiRunRecord,
    submission: Option<AiProviderBackgroundSubmissionRecord>,
    lease: AiRunLease,
    prepared: PreparedBackgroundSubmission,
) -> Option<OrmErrorCode> {
    if run.state@ != "running"@ {
        Some(OrmErrorCode::Conflict)
    } else if submission is None {
        Some(OrmErrorCode::NotFound)
    } else if !submission_binds(submission->0, lease, prepared) || !unacknowledged(submission->0)
        || submission->0.safe_error_code is Some {
        Some(OrmErrorCode::Conflict)
    } else {
        None
    }
}

/// Whether the row is closed for recovery with this reason, untouched by
/// reconciliation.
pub open spec fn ambiguity_closed(
    submission: AiProviderBackgroundSubmissionRecord,
    reason: BackgroundReason,
) -> bool {
    &&& submission.state@ == "recovery_required"@
    &&& text_option(submission.safe_error_code) == Some(reason_text(reason))
    &&& reconciliation_empty(submission)
}

/// Accepts exactly the rows that are closed for recovery with this reason.
pub fn confirm_ambiguity_closed(
    submission: &AiProviderBackgroundSubmissionRecord,
    reason: BackgroundReason,
) -> (result: Result<(), OrmErrorCode>)
    ensures
        result == if ambiguity_closed(*submission, reason) {
            Ok::<(), OrmErrorCode>(())
        } else {
            Err(OrmErrorCode::InternalError)
        },
{
    if same_text(submission.state.as_str(), "recovery_required") && option_is_text(
        &submission.safe_error_code,
        reason.as_str(),
    ) && reconciliation_fields_are_empty(submission) {
        Ok(())
    } else {
        Err(OrmErrorCode::InternalError)
    }
}

/// Plans the transaction that closes a submission whose outcome is unknown.
/// The attempt ends with the same reason and without a provider response.
pub fn close_ambiguity_once(
    run: &AiRunRecord,
    submission: &Option<AiProviderBackgroundSubmissionRecord>,
    lease: &AiRunLease,
    prepared: &PreparedBackgroundSubmission,
    reason: BackgroundReason,
) -> (result: Result<LeaseEndPlan, OrmErrorCode>)
    ensures
        match result {
            Err(code) => ambiguity_fault(*run, *submission, *lease, *prepared) == Some(code),
            Ok(plan) => {
                let before = submission->0;
                let after = plan.submission.next;
                &&& ambiguity_fault(*run, *submission, *lease, *prepared) is None
                &&& plan.submission.expected_row_version == before.row_version
                &&& plan.submission.expected_state is Prepared
                &&& ambiguity_closed(after, reason)
                &&& before == (AiProviderBackgroundSubmissionRecord {
                    state: before.state,
                    safe_error_code: before.safe_error_code,
                    ..after
                })
                &&& plan.run == (RunSettlement {
                    run_id: run.id,
                    expected_row_version: run.row_version,
                    expected_state: AiRunState::Running,
                    state: AiRunState::RecoveryRequired,
                    error_code: Some(reason),
                    latest_checkpoint_id: None,
                })
                &&& audited(
                    plan.audit,
                    BackgroundChange::CloseAmbiguity(reason),
                    "provider-background"@,
                    prepared.submission_id,
                    prepared.submission_id,
                    lease.run_id,
                    "provider-background-v1"@,
                )
            },
        },
{
    if !same_text(run.state.as_str(), "running") {
        return Err(OrmErrorCode::Conflict);
    }
    let current: &AiProviderBackgroundSubmissionRecord = match submission {
        Some(current) => current,
        None => return Err(OrmErrorCode::NotFound),
    };
    if !submission_matches(current, lease, prepared) || !is_unacknowledged(current)
        || current.safe_error_code.is_some() {
        return Err(OrmErrorCode::Conflict);
    }
    let mut next = current.clone();
    next.state = BackgroundSubmissionState::RecoveryRequired.as_str().to_owned();
    next.safe_error_code = Some(reason.as_str().to_owned());
    Ok(
        LeaseEndPlan {
            submission: SubmissionWrite {
                expected_row_version: current.row_version,
                expected_state: BackgroundSubmissionState::Prepared,
                next,
            },
            run: RunSettlement {
                run_id: run.id,
                expected_row_version: run.row_version,
                expected_state: AiRunState::Running,
                state: AiRunState::RecoveryRequired,
                error_code: Some(reason),
                latest_checkpoint_id: None,
            },
            audit: background_audit(
                BackgroundChange::CloseAmbiguity(reason),
                "provider-background",
                prepared.submission_id,
                prepared.submission_id,
                lease.run_id,
                "provider-background-v1",
            ),
        },
    )
}

/// A prepared binding can be resolved: as long as the run is running, the row
/// that preparation inserts can be acknowledged and can be closed as
/// ambiguous. After either, it can no longer be resolved again.
pub proof fn prepared_binding_resolves_once(
    run: AiRunRecord,
    inserted: AiProviderBackgroundSubmissionRecord,
    resolved: AiProviderBackgroundSubmissionRecord,
    lease: AiRunLease,
    prepared: PreparedBackgroundSubmission,
    acknowledgement: ProviderBackgroundSubmission,
    reason: BackgroundReason,
    second: int,
    deadline: int,
)
    requires
        run.state@ == "running"@,
        submission_binds(inserted, lease, prepared),
        unacknowledged(inserted),
        inserted.safe_error_code is None,
        acknowledged_row(inserted, resolved, acknowledgement, second, deadline)
            || ambiguity_closed(resolved, reason),
    ensures
        accept_fault(run, Some(inserted), lease, prepared) is None,
        ambiguity_fault(run, Some(inserted), lease, prepared) is None,
        accept_fault(run, Some(resolved), lease, prepared) is Some,
        ambiguity_fault(run, Some(resolved), lease, prepared) is Some,
{
    submission_state_round_trip(BackgroundSubmissionState::Prepared, resolved.state@);
    submission_state_round_trip(BackgroundSubmissionState::WaitingProvider, resolved.state@);
    submission_state_round_trip(BackgroundSubmissionState::RecoveryRequired, resolved.state@);
}

/// The row that binds a prepared submission carries the identity of its own
/// columns.
pub proof fn prepared_row_is_identified(
    row: AiProviderBackgroundSubmissionRecord,
    lease: AiRunLease,
    plan: BackgroundCallPlan,
    prepared: PreparedBackgroundSubmission,
    request_hash: Seq<char>,
    budget_reservation_id: Uuid,
    egress_decision_id: Uuid,
    egress_manifest_hash: Seq<char>,
)
    requires
        prepared_from(
            prepared,
            lease,
            plan,
            request_hash,
            budget_reservation_id,
            egress_decision_id,
            egress_manifest_hash,
        ),
        submission_binds(row, lease, prepared),
    ensures
        row_identified(row),
{
    let parts = lease_parts(
        lease,
        plan.transfers@[0].provider_profile_id@,
        plan.request.model@,
        request_hash,
        budget_reservation_id,
        egress_manifest_hash,
    );
    assert(row_parts(row) == parts);
}

/// Every accepted submission enters the reconciliation queue: the row that
/// binds its acknowledgement can be claimed from that second until its
/// deadline, and closed as expired afterwards.
///
/// This holds of rows whose identity is that of their own columns and whose
/// model, hashes, and output ceiling are well formed.
pub proof fn accepted_submission_is_claimable(
    before: AiProviderBackgroundSubmissionRecord,
    after: AiProviderBackgroundSubmissionRecord,
    row_version: i64,
    lease: AiRunLease,
    prepared: PreparedBackgroundSubmission,
    acknowledgement: ProviderBackgroundSubmission,
    windows: AiOpenAiBackgroundReconciliationWindows,
    now: UtcTime,
    later: int,
    maximum_retries: nat,
    owner_valid: bool,
)
    requires
        now.wf(),
        windows.wf(),
        submission_binds(before, lease, prepared),
        unacknowledged(before),
        before.safe_error_code is None,
        row_identified(before),
        0 < before.created_at <= now.second(),
        bounded_text(before.provider_profile_id@, 200),
        bounded_text(before.provider_model@, 1_024),
        before.maximum_output_tokens > 0,
        sha256_text(before.request_hash@),
        sha256_text(before.egress_manifest_hash@),
        acknowledges(acknowledgement, prepared),
        response_reachable(
            acknowledgement.created_at,
            now,
            windows.window(acknowledgement.provider_store),
        ),
        acknowledged_row(
            before,
            after,
            acknowledgement,
            now.second(),
            response_deadline(
                acknowledgement.created_at,
                now,
                windows.window(acknowledgement.provider_store),
            ),
        ),
        row_version >= 1,
        now.second() <= later,
    ensures
        ({
            let row = AiProviderBackgroundSubmissionRecord { row_version, ..after };
            &&& later < row.reconciliation_deadline->0 ==> claimable(
                row,
                later,
                maximum_retries,
                owner_valid,
            )
            &&& row.reconciliation_deadline->0 <= later ==> expired(
                row,
                later,
                maximum_retries,
                owner_valid,
            )
        }),
{
    let row = AiProviderBackgroundSubmissionRecord { row_version, ..after };
    submission_state_round_trip(BackgroundSubmissionState::WaitingProvider, row.state@);
    assert(row_identified(row)) by {
        assert(row_parts(row) == row_parts(before));
    }
    assert(acknowledged_and_open(row, maximum_retries));
}

/// Durable content-free result of one accepted background submission.
///
/// The result proves an exact original run/attempt/fence/profile/response
/// binding. It does not grant provider retrieval, receipt processing, budget
/// settlement, output persistence, or run-completion authority. Identifiers
/// are not part of [`AiOpenAiBackgroundSubmission::redacted`].
#[derive(PartialEq, Eq)]
pub struct AiOpenAiBackgroundSubmission {
    submission_id: Uuid,
    run_id: Uuid,
    attempt_id: Uuid,
    lease_generation: i64,
    provider_profile_id: String,
    provider_model: String,
    maximum_output_tokens: u64,
    provider_store: bool,
    provider_response_id: String,
    provider_status: String,
    budget_reservation_id: Uuid,
}

/// Values of [`AiOpenAiBackgroundSubmission`].
pub struct AcceptedModel {
    pub submission_id: Uuid,
    pub run_id: Uuid,
    pub attempt_id: Uuid,
    pub lease_generation: i64,
    pub provider_profile_id: Seq<char>,
    pub provider_model: Seq<char>,
    pub maximum_output_tokens: u64,
    pub provider_store: bool,
    pub provider_response_id: Seq<char>,
    pub provider_status: Seq<char>,
    pub budget_reservation_id: Uuid,
}

impl View for AiOpenAiBackgroundSubmission {
    type V = AcceptedModel;

    closed spec fn view(&self) -> AcceptedModel {
        AcceptedModel {
            submission_id: self.submission_id,
            run_id: self.run_id,
            attempt_id: self.attempt_id,
            lease_generation: self.lease_generation,
            provider_profile_id: self.provider_profile_id@,
            provider_model: self.provider_model@,
            maximum_output_tokens: self.maximum_output_tokens,
            provider_store: self.provider_store,
            provider_response_id: self.provider_response_id@,
            provider_status: self.provider_status@,
            budget_reservation_id: self.budget_reservation_id,
        }
    }
}

/// What may be shown of an accepted submission.
#[derive(Debug, PartialEq, Eq)]
pub struct RedactedBackgroundSubmission {
    pub lease_generation: i64,
    pub provider_model: String,
    pub maximum_output_tokens: u64,
    pub provider_store: bool,
    pub provider_status: String,
}

impl AiOpenAiBackgroundSubmission {
    /// The result of binding the acknowledgement under the lease.
    pub fn accepted(
        lease: &AiRunLease,
        prepared: PreparedBackgroundSubmission,
        acknowledgement: ProviderBackgroundSubmission,
    ) -> (submission: Self)
        ensures
            submission@ == (AcceptedModel {
                submission_id: prepared.submission_id,
                run_id: lease.run_id,
                attempt_id: lease.attempt_id,
                lease_generation: lease.lease_generation,
                provider_profile_id: prepared.provider_profile_id@,
                provider_model: prepared.provider_model@,
                maximum_output_tokens: prepared.maximum_output_tokens,
                provider_store: acknowledgement.provider_store,
                provider_response_id: acknowledgement.response_id@,
                provider_status: acknowledgement.status@,
                budget_reservation_id: prepared.budget_reservation_id,
            }),
    {
        AiOpenAiBackgroundSubmission {
            submission_id: prepared.submission_id,
            run_id: lease.run_id,
            attempt_id: lease.attempt_id,
            lease_generation: lease.lease_generation,
            provider_profile_id: prepared.provider_profile_id,
            provider_model: prepared.provider_model,
            maximum_output_tokens: prepared.maximum_output_tokens,
            provider_store: acknowledgement.provider_store,
            provider_response_id: acknowledgement.response_id,
            provider_status: acknowledgement.status,
            budget_reservation_id: prepared.budget_reservation_id,
        }
    }

    /// Opaque durable submission identifier echoed in provider metadata.
    pub fn submission_id(&self) -> (id: Uuid)
        ensures
            id == self@.submission_id,
    {
        self.submission_id
    }

    /// Owning run.
    pub fn run_id(&self) -> (id: Uuid)
        ensures
            id == self@.run_id,
    {
        self.run_id
    }

    /// Original attempt that crossed the provider boundary.
    pub fn attempt_id(&self) -> (id: Uuid)
        ensures
            id == self@.attempt_id,
    {
        self.attempt_id
    }

    /// Original monotonically increasing fencing generation.
    pub fn lease_generation(&self) -> (generation: i64)
        ensures
            generation == self@.lease_generation,
    {
        self.lease_generation
    }

    /// Exact logical provider profile.
    pub fn provider_profile_id(&self) -> (profile: &str)
        ensures
            profile@ == self@.provider_profile_id,
    {
        self.provider_profile_id.as_str()
    }

    /// Exact requested model/routing key.
    pub fn provider_model(&self) -> (model: &str)
        ensures
            model@ == self@.provider_model,
    {
        self.provider_model.as_str()
    }

    /// Exact provider-enforced output-token ceiling.
    pub fn maximum_output_tokens(&self) -> (tokens: u64)
        ensures
            tokens == self@.maximum_output_tokens,
    {
        self.maximum_output_tokens
    }

    /// Whether the provider reports durable response storage.
    pub fn provider_store(&self) -> (stored: bool)
        ensures
            stored == self@.provider_store,
    {
        self.provider_store
    }

    /// Provider response identifier returned by the create acknowledgement.
    pub fn provider_response_id(&self) -> (id: &str)
        ensures
            id@ == self@.provider_response_id,
    {
        self.provider_response_id.as_str()
    }

    /// Provider status returned by the create acknowledgement.
    pub fn provider_status(&self) -> (status: &str)
        ensures
            status@ == self@.provider_status,
    {
        self.provider_status.as_str()
    }

    /// Atomic reservation held uncertain until terminal reconciliation.
    pub fn budget_reservation_id(&self) -> (id: Uuid)
        ensures
            id == self@.budget_reservation_id,
    {
        self.budget_reservation_id
    }

    /// What may be shown of the submission.
    pub fn redacted(&self) -> (view: RedactedBackgroundSubmission)
        ensures
            view.lease_generation == self@.lease_generation,
            view.provider_model@ == self@.provider_model,
            view.maximum_output_tokens == self@.maximum_output_tokens,
            view.provider_store == self@.provider_store,
            view.provider_status@ == self@.provider_status,
    {
        RedactedBackgroundSubmission {
            lease_generation: self.lease_generation,
            provider_model: self.provider_model.clone(),
            maximum_output_tokens: self.maximum_output_tokens,
            provider_store: self.provider_store,
            provider_status: self.provider_status.clone(),
        }
    }
}

/// A plan is submitted in the background exactly where it is an initial turn of
/// the running lease's own attempt, for the provider to keep, with an output
/// ceiling, without tools and attachments, and with one transfer: the inference
/// of its own model, kept as a provider response.
pub proof fn submittable_plans_are_plain_initial_turns(
    lease: AiRunLease,
    plan: BackgroundCallPlan,
    retention: Seq<char>,
)
    ensures
        plan_submittable(lease, plan, retention) <==> {
            &&& lease.state is Running
            &&& plan.provider_kind is OpenAi
            &&& plan.budget.session_id == lease.session_id && plan.budget.run_id == lease.run_id
            &&& plan.budget.attempt_id == lease.attempt_id && plan.budget.lease_generation
                == lease.lease_generation
            &&& plan.request.continuation_mode is ProviderRetained && !plan.request.continues
            &&& plan.request.tool_count == 0 && plan.request.builtin_tool_count == 0
            &&& plan.request.maximum_output_tokens is Some
            &&& forall|i: int|
                0 <= i < plan.request.input@.len() ==> !((
                #[trigger] plan.request.input@[i]) is Attachment)
            &&& plan.transfers@.len() == 1
            &&& plan.transfers@[0].provider_kind@ == "openai"@
            &&& plan.transfers@[0].model@ == plan.request.model@
            &&& plan.transfers@[0].capability is ModelInference
            &&& plan.transfers@[0].retention@ == retention
            &&& bounded_text(plan.transfers@[0].provider_profile_id@, 200)
        },
{
}

/// A prepared submission is of its plan: the model and the output ceiling that
/// the plan asks for, through the profile of its transfer, in its scope, under
/// the reservation and the decision that were made for it.
pub proof fn prepared_submissions_are_of_their_plan(
    prepared: PreparedBackgroundSubmission,
    lease: AiRunLease,
    plan: BackgroundCallPlan,
    request_hash: Seq<char>,
    budget_reservation_id: Uuid,
    egress_decision_id: Uuid,
    egress_manifest_hash: Seq<char>,
)
    requires
        prepared_from(
            prepared,
            lease,
            plan,
            request_hash,
            budget_reservation_id,
            egress_decision_id,
            egress_manifest_hash,
        ),
    ensures
        prepared.provider_profile_id@ == plan.transfers@[0].provider_profile_id@,
        prepared.provider_model@ == plan.request.model@,
        plan.request.maximum_output_tokens is Some && plan.request.maximum_output_tokens->0
            == prepared.maximum_output_tokens,
        prepared.request_hash@ == request_hash,
        prepared.budget_reservation_id == budget_reservation_id,
        prepared.egress_decision_id == egress_decision_id,
        prepared.egress_manifest_hash@ == egress_manifest_hash,
        prepared.scope@ == plan.budget.scope@,
{
}

/// A submission is prepared exactly where its run is running, its session is
/// open in its scope, its reservation is the lease's own for its model and
/// still unsettled, and its very transfer was allowed as an inference.
pub proof fn submissions_are_prepared_on_open_rows(
    snapshot: PrepareSnapshot,
    lease: AiRunLease,
    prepared: PreparedBackgroundSubmission,
)
    ensures
        prepare_fault(snapshot, lease, prepared) is None <==> {
            let session = snapshot.session->0;
            let budget = snapshot.budget->0;
            let egress = snapshot.egress->0;
            &&& snapshot.run.state@ == "running"@
            &&& snapshot.session is Some && snapshot.budget is Some && snapshot.egress is Some
            &&& session.state@ == "active"@ && session.deleted_at is None
            &&& session.scope_kind@ == prepared.scope.kind@
            &&& session.scope_id@ == prepared.scope.id@
            &&& text_option(session.tenant_id) == text_option(prepared.scope.tenant_id)
            &&& budget.session_id == lease.session_id && budget.run_id == lease.run_id
            &&& budget.attempt_id == lease.attempt_id && budget.lease_generation
                == lease.lease_generation
            &&& budget.provider_kind@ == "openai"@
            &&& budget.provider_model@ == prepared.provider_model@
            &&& budget.state@ == "reserved"@ && budget.reconciled_at is None
            &&& egress.run_id is Some && egress.run_id->0 == lease.run_id
            &&& egress.manifest_hash@ == prepared.egress_manifest_hash@
            &&& egress.capability@ == "model_inference"@ && egress.outcome@ == "allow"@
            &&& prepared.maximum_output_tokens <= i64::MAX
        },
{
}

/// A row binds a prepared submission exactly where every column of it is the
/// lease's or the submission's own.
pub proof fn rows_bind_their_submission(
    submission: AiProviderBackgroundSubmissionRecord,
    lease: AiRunLease,
    prepared: PreparedBackgroundSubmission,
)
    ensures
        submission_binds(submission, lease, prepared) <==> {
            &&& submission.id == prepared.submission_id
            &&& submission.submission_key@ == prepared.submission_key@
            &&& submission.session_id == lease.session_id && submission.run_id == lease.run_id
            &&& submission.attempt_id == lease.attempt_id && submission.lease_generation
                == lease.lease_generation
            &&& submission.provider_kind@ == "openai"@
            &&& submission.provider_profile_id@ == prepared.provider_profile_id@
            &&& submission.provider_model@ == prepared.provider_model@
            &&& submission.maximum_output_tokens == prepared.maximum_output_tokens
            &&& submission.request_hash@ == prepared.request_hash@
            &&& submission.budget_reservation_id == prepared.budget_reservation_id
            &&& submission.egress_decision_id == prepared.egress_decision_id
            &&& submission.egress_manifest_hash@ == prepared.egress_manifest_hash@
        },
        unacknowledged(submission) <==> {
            &&& submission.state@ == "prepared"@ && submission.row_version == 0
            &&& submission.provider_response_id is None && submission.provider_status is None
            &&& submission.provider_store is None && submission.provider_created_at is None
            &&& submission.submitted_at is None
            &&& reconciliation_empty(submission)
        },
        reconciliation_empty(submission) <==> {
            &&& submission.reconciliation_owner is None && submission.reconciliation_generation == 0
            &&& submission.reconciliation_lease_expires_at is None
                && submission.reconciliation_next_attempt_at is None
            &&& submission.reconciliation_retry_count == 0 && submission.reconciliation_deadline
                is None
            &&& submission.reconciled_at is None && submission.retrieval_egress_decision_id is None
                && submission.terminal_message_id is None
        },
{
}

/// An acknowledgement is of a prepared submission exactly where it names a
/// response, a status, and an instant, and repeats the model and the ceiling.
pub proof fn acknowledgements_repeat_what_was_asked(
    acknowledgement: ProviderBackgroundSubmission,
    prepared: PreparedBackgroundSubmission,
)
    ensures
        acknowledges(acknowledgement, prepared) <==> {
            &&& response_id_text(acknowledgement.response_id@)
            &&& names_status(acknowledgement.status@)
            &&& acknowledgement.created_at >= 1
            &&& acknowledgement.provider_model@ == prepared.provider_model@
            &&& acknowledgement.maximum_output_tokens == prepared.maximum_output_tokens
        },
{
}

/// A response is awaited for one window from the earlier of its creation and
/// its acceptance, and only while that lies ahead.
pub proof fn responses_are_awaited_for_one_window(created_at: i64, now: UtcTime, window: Duration)
    ensures
        ({
            let seconds = Duration::seconds_of(window.nanos as int);
            let deadline = response_deadline(created_at, now, window);
            &&& deadline <= created_at + seconds && deadline <= now.second() + seconds
            &&& deadline == created_at + seconds || deadline == now.second() + seconds
            &&& response_reachable(created_at, now, window) <==> created_at + seconds <= i64::MAX
                && now.second() < deadline
        }),
{
}

/// A row waits for its first reconciliation exactly where it is acknowledged,
/// held by nobody, unsettled, and due before its deadline.
pub proof fn waiting_rows_are_acknowledged_and_untouched(
    submission: AiProviderBackgroundSubmissionRecord,
)
    ensures
        waiting(submission) <==> {
            let due = submission.reconciliation_next_attempt_at;
            &&& submission.state@ == "waiting_provider"@
            &&& submission.provider_response_id is Some && submission.provider_status is Some
            &&& submission.provider_store is Some && submission.provider_created_at is Some
            &&& submission.safe_error_code is None
            &&& submission.submitted_at is Some && due is Some && submission.reconciliation_deadline
                is Some
            &&& submission.submitted_at->0 <= due->0 < submission.reconciliation_deadline->0
            &&& submission.reconciliation_owner is None && submission.reconciliation_generation == 0
            &&& submission.reconciliation_lease_expires_at is None
            &&& submission.reconciliation_retry_count == 0
            &&& submission.reconciled_at is None && submission.retrieval_egress_decision_id is None
            &&& submission.terminal_message_id is None
        },
{
}

/// A submission is acknowledged, or closed as ambiguous, exactly where its run
/// is running and its own row is prepared and was never touched.
pub proof fn submissions_are_resolved_while_prepared(
    run: AiRunRecord,
    submission: Option<AiProviderBackgroundSubmissionRecord>,
    lease: AiRunLease,
    prepared: PreparedBackgroundSubmission,
)
    ensures
        accept_fault(run, submission, lease, prepared) is None <==> {
            &&& run.state@ == "running"@
            &&& submission is Some
            &&& submission_binds(submission->0, lease, prepared)
            &&& unacknowledged(submission->0)
            &&& submission->0.safe_error_code is None
        },
        ambiguity_fault(run, submission, lease, prepared) is None <==> accept_fault(
            run,
            submission,
            lease,
            prepared,
        ) is None,
{
}

/// Acknowledging a row writes what the provider answered, makes the row due at
/// once, and leaves every other column as it was.
pub proof fn acknowledged_rows_keep_their_binding(
    before: AiProviderBackgroundSubmissionRecord,
    after: AiProviderBackgroundSubmissionRecord,
    acknowledgement: ProviderBackgroundSubmission,
    second: int,
    deadline: int,
)
    requires
        acknowledged_row(before, after, acknowledgement, second, deadline),
    ensures
        after.state@ == "waiting_provider"@,
        after.provider_response_id is Some && after.provider_response_id->0@
            == acknowledgement.response_id@,
        after.provider_status is Some && after.provider_status->0@ == acknowledgement.status@,
        after.provider_store is Some && after.provider_store->0 == acknowledgement.provider_store,
        after.provider_created_at is Some && after.provider_created_at->0
            == acknowledgement.created_at,
        after.submitted_at is Some && after.submitted_at->0 == second,
        after.reconciliation_next_attempt_at is Some && after.reconciliation_next_attempt_at->0
            == second,
        after.reconciliation_deadline is Some && after.reconciliation_deadline->0 == deadline,
        after.id == before.id,
        after.submission_key == before.submission_key,
        after.session_id == before.session_id,
        after.run_id == before.run_id,
        after.attempt_id == before.attempt_id,
        after.lease_generation == before.lease_generation,
        after.provider_model == before.provider_model,
        after.request_hash == before.request_hash,
        after.budget_reservation_id == before.budget_reservation_id,
        after.egress_decision_id == before.egress_decision_id,
        after.reconciliation_owner == before.reconciliation_owner,
        after.reconciled_at == before.reconciled_at,
        after.terminal_message_id == before.terminal_message_id,
{
}

/// A row counts as closed for an unknown outcome exactly where it awaits
/// recovery for this reason, and no reconciliation touched it.
pub proof fn ambiguous_rows_await_recovery(
    submission: AiProviderBackgroundSubmissionRecord,
    reason: BackgroundReason,
)
    ensures
        ambiguity_closed(submission, reason) <==> {
            &&& submission.state@ == "recovery_required"@
            &&& submission.safe_error_code is Some && submission.safe_error_code->0@ == reason_text(
                reason,
            )
            &&& reconciliation_empty(submission)
        },
{
}

/// Preparing and resolving fail as not found where a row is missing, and as a
/// conflict where a row is not what it must be.
pub proof fn submission_faults_say_what_is_wrong(
    snapshot: PrepareSnapshot,
    run: AiRunRecord,
    submission: Option<AiProviderBackgroundSubmissionRecord>,
    lease: AiRunLease,
    prepared: PreparedBackgroundSubmission,
)
    ensures
        ({
            let fault = prepare_fault(snapshot, lease, prepared);
            let running = snapshot.run.state@ == "running"@;
            let open = snapshot.session is Some && session_open_in(
                snapshot.session->0,
                prepared.scope,
            );
            let paid = snapshot.budget is Some && budget_open_for(
                snapshot.budget->0,
                lease,
                prepared.provider_model@,
            );
            let allowed = snapshot.egress is Some && egress_allows(
                snapshot.egress->0,
                lease.run_id,
                prepared.egress_manifest_hash@,
            );
            &&& fault == Some(OrmErrorCode::NotFound) <==> running && (snapshot.session is None || (
            open && snapshot.budget is None) || (open && paid && snapshot.egress is None))
            &&& fault == Some(OrmErrorCode::InvalidInput) <==> running && open && paid && allowed
                && prepared.maximum_output_tokens > i64::MAX
            &&& fault is Some && fault->0 != OrmErrorCode::NotFound && fault->0
                != OrmErrorCode::InvalidInput ==> fault == Some(OrmErrorCode::Conflict)
        }),
        run.state@ == "running"@ && submission is None ==> accept_fault(
            run,
            submission,
            lease,
            prepared,
        ) == Some(OrmErrorCode::NotFound) && ambiguity_fault(run, submission, lease, prepared)
            == Some(OrmErrorCode::NotFound),
        run.state@ != "running"@ ==> accept_fault(run, submission, lease, prepared) == Some(
            OrmErrorCode::Conflict,
        ) && ambiguity_fault(run, submission, lease, prepared) == Some(OrmErrorCode::Conflict),
        run.state@ == "running"@ && submission is Some && !(submission_binds(
            submission->0,
            lease,
            prepared,
        ) && unacknowledged(submission->0)) ==> accept_fault(run, submission, lease, prepared)
            == Some(OrmErrorCode::Conflict) && ambiguity_fault(run, submission, lease, prepared)
            == Some(OrmErrorCode::Conflict),
        run.state@ == "running"@ && submission is Some && submission_binds(
            submission->0,
            lease,
            prepared,
        ) && unacknowledged(submission->0) && submission->0.safe_error_code is Some ==> accept_fault(
            run,
            submission,
            lease,
            prepared,
        ) == Some(OrmErrorCode::InternalError) && ambiguity_fault(run, submission, lease, prepared)
            == Some(OrmErrorCode::Conflict),
{
}

} // verus!
