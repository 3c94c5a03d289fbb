//! The durable graph around a parked run, and when its submission may be
//! claimed or must be closed.

use crate::background::identity::{
    SubmissionParts, submission_id_value, submission_identity_from_parts, submission_key_text,
};
use crate::background::rows::{
    AiProviderBackgroundSubmissionRecord, AiRunAttemptOutcomeRecord, AiRunAttemptRecord,
};
use crate::background::state::{
    BackgroundSubmissionState, names_status, response_id_text, sha256_text, submission_state_of,
    submission_states_are_spelled_so, valid_provider_status, valid_response_id, valid_sha256_hex,
};
use crate::budget::rows::{AiBudgetReservationRecord, actual_absent};
use crate::clock::UtcTime;
use crate::egress::{AiEgressEventRecord, same_id_option};
use crate::error::OrmErrorCode;
use crate::principal::{
    PrincipalReference, ScopeModel, is_session_owned, session_owned, session_scope_model,
    tenant_agrees, tenant_matches,
};
use crate::provider::{DataClassification, classification_of, persisted_classification};
use crate::records::{AiRunRecord, AiSessionRecord};
use crate::text::{
    blank, bounded_text, byte_len, clone_text_option, is_blank, is_bounded_text, same_text,
    same_text_option, text_len, text_option,
};
use vstd::prelude::*;

verus! {

/// Whether the run is parked for exactly this submission, without a lease and
/// without an error.
pub open spec fn run_parked(
    run: AiRunRecord,
    submission: AiProviderBackgroundSubmissionRecord,
) -> bool {
    &&& run.state@ == "waiting_provider"@
    &&& run.attempt_id == Some(submission.attempt_id)
    &&& run.lease_generation == submission.lease_generation
    &&& run.lease_owner is None
    &&& run.lease_expires_at is None
    &&& run.lease_heartbeat_at is None
    &&& run.next_attempt_at is None
    &&& run.error_code is None
}

/// Whether the run is parked for exactly this submission.
pub fn is_run_parked(run: &AiRunRecord, submission: &AiProviderBackgroundSubmissionRecord) -> (result:
    bool)
    ensures
        result == run_parked(*run, *submission),
{
    same_text(run.state.as_str(), "waiting_provider") && same_id_option(
        run.attempt_id,
        Some(submission.attempt_id),
    ) && run.lease_generation == submission.lease_generation && run.lease_owner.is_none()
        && run.lease_expires_at.is_none() && run.lease_heartbeat_at.is_none()
        && run.next_attempt_at.is_none() && run.error_code.is_none()
}

/// The scope that a reservation was made in.
pub open spec fn budget_scope_model(budget: AiBudgetReservationRecord) -> ScopeModel {
    ScopeModel {
        kind: budget.scope_kind@,
        id: budget.scope_id@,
        tenant_id: text_option(budget.tenant_id),
    }
}

/// Whether the attempt is the submission's own and still open. `worker_valid`
/// tells whether its worker identity is well formed.
pub open spec fn attempt_open(
    attempt: AiRunAttemptRecord,
    submission: AiProviderBackgroundSubmissionRecord,
    worker_valid: bool,
) -> bool {
    &&& attempt.id == submission.attempt_id
    &&& attempt.run_id == submission.run_id
    &&& attempt.lease_generation == submission.lease_generation
    &&& worker_valid
    &&& attempt.claimed_at > 0
    &&& attempt.finished_at is None
    &&& attempt.provider_response_id is None
    &&& attempt.outcome_code is None
}

fn is_attempt_open(
    attempt: &AiRunAttemptRecord,
    submission: &AiProviderBackgroundSubmissionRecord,
    worker_valid: bool,
) -> (result: bool)
    ensures
        result == attempt_open(*attempt, *submission, worker_valid),
{
    attempt.id == submission.attempt_id && attempt.run_id == submission.run_id
        && attempt.lease_generation == submission.lease_generation && worker_valid
        && attempt.claimed_at > 0 && attempt.finished_at.is_none()
        && attempt.provider_response_id.is_none() && attempt.outcome_code.is_none()
}

/// Whether the reservation is the submission's own, held as uncertain, and
/// covers exactly one tool-free call of its model.
pub open spec fn budget_held_uncertain(
    budget: AiBudgetReservationRecord,
    submission: AiProviderBackgroundSubmissionRecord,
    session: AiSessionRecord,
) -> bool {
    &&& budget.id == submission.budget_reservation_id
    &&& budget.session_id == submission.session_id
    &&& budget.run_id == submission.run_id
    &&& budget.attempt_id == submission.attempt_id
    &&& budget.lease_generation == submission.lease_generation
    &&& budget_scope_model(budget) == session_scope_model(session)
    &&& budget.principal_kind@ == session.owner_principal_kind@
    &&& budget.principal_subject@ == session.owner_subject@
    &&& budget.provider_kind@ == "openai"@
    &&& budget.provider_model@ == submission.provider_model@
    &&& budget.reserved.input_tokens >= 0
    &&& budget.reserved.output_tokens >= submission.maximum_output_tokens
    &&& budget.reserved.tool_units == 0
    &&& budget.reserved.image_units == 0
    &&& budget.reserved.cost_microunits >= 0
    &&& budget.reserved.runs == 1
    &&& budget.state@ == "uncertain"@
    &&& budget.reconciled_at is Some
    &&& actual_absent(budget.actual)
    &&& budget.actual_cached_input_tokens is None
}

fn is_budget_held_uncertain(
    budget: &AiBudgetReservationRecord,
    submission: &AiProviderBackgroundSubmissionRecord,
    session: &AiSessionRecord,
) -> (result: bool)
    ensures
        result == budget_held_uncertain(*budget, *submission, *session),
{
    let actual = &budget.actual;
    budget.id == submission.budget_reservation_id && budget.session_id == submission.session_id
        && budget.run_id == submission.run_id && budget.attempt_id == submission.attempt_id
        && budget.lease_generation == submission.lease_generation && same_text(
        budget.scope_kind.as_str(),
        session.scope_kind.as_str(),
    ) && same_text(budget.scope_id.as_str(), session.scope_id.as_str()) && same_text_option(
        &budget.tenant_id,
        &session.tenant_id,
    ) && same_text(budget.principal_kind.as_str(), session.owner_principal_kind.as_str())
        && same_text(budget.principal_subject.as_str(), session.owner_subject.as_str())
        && same_text(budget.provider_kind.as_str(), "openai") && same_text(
        budget.provider_model.as_str(),
        submission.provider_model.as_str(),
    ) && budget.reserved.input_tokens >= 0 && budget.reserved.output_tokens
        >= submission.maximum_output_tokens && budget.reserved.tool_units == 0
        && budget.reserved.image_units == 0 && budget.reserved.cost_microunits >= 0
        && budget.reserved.runs == 1 && same_text(budget.state.as_str(), "uncertain")
        && budget.reconciled_at.is_some() && actual.input_tokens.is_none()
        && actual.output_tokens.is_none() && actual.tool_units.is_none()
        && actual.image_units.is_none() && actual.cost_microunits.is_none()
        && actual.runs.is_none() && budget.actual_cached_input_tokens.is_none()
}

/// Whether the event is the submission's original allow, for this principal
/// and session.
pub open spec fn original_egress_bound(
    egress: AiEgressEventRecord,
    submission: AiProviderBackgroundSubmissionRecord,
    subject: Seq<char>,
    session: AiSessionRecord,
) -> bool {
    &&& egress.id == submission.egress_decision_id
    &&& egress.run_id == Some(submission.run_id)
    &&& egress.principal_subject@ == subject
    &&& egress.scope_kind@ == session.scope_kind@
    &&& egress.scope_id@ == session.scope_id@
    &&& egress.manifest_hash@ == submission.egress_manifest_hash@
    &&& !blank(egress.destination@)
    &&& egress.capability@ == "model_inference"@
    &&& egress.outcome@ == "allow"@
    &&& !blank(egress.policy_version@)
    &&& egress.estimated_bytes >= 0
    &&& egress.estimated_tokens >= 0
}

fn is_original_egress_bound(
    egress: &AiEgressEventRecord,
    submission: &AiProviderBackgroundSubmissionRecord,
    subject: &str,
    session: &AiSessionRecord,
) -> (result: bool)
    ensures
        result == original_egress_bound(*egress, *submission, subject@, *session),
{
    egress.id == submission.egress_decision_id && same_id_option(
        egress.run_id,
        Some(submission.run_id),
    ) && same_text(egress.principal_subject.as_str(), subject) && same_text(
        egress.scope_kind.as_str(),
        session.scope_kind.as_str(),
    ) && same_text(egress.scope_id.as_str(), session.scope_id.as_str()) && same_text(
        egress.manifest_hash.as_str(),
        submission.egress_manifest_hash.as_str(),
    ) && !is_blank(egress.destination.as_str()) && same_text(
        egress.capability.as_str(),
        "model_inference",
    ) && same_text(egress.outcome.as_str(), "allow") && !is_blank(egress.policy_version.as_str())
        && egress.estimated_bytes >= 0 && egress.estimated_tokens >= 0
}

/// Whether the event is the retrieval's allow: the same destination and
/// classification as the original, for exactly this response identifier.
pub open spec fn retrieval_egress_bound(
    retrieval: AiEgressEventRecord,
    egress: AiEgressEventRecord,
    submission: AiProviderBackgroundSubmissionRecord,
    subject: Seq<char>,
    session: AiSessionRecord,
) -> bool {
    &&& Some(retrieval.id) == submission.retrieval_egress_decision_id
    &&& retrieval.run_id == Some(submission.run_id)
    &&& retrieval.principal_subject@ == subject
    &&& retrieval.scope_kind@ == session.scope_kind@
    &&& retrieval.scope_id@ == session.scope_id@
    &&& retrieval.destination@ == egress.destination@
    &&& retrieval.capability@ == "model_inference"@
    &&& retrieval.classification@ == egress.classification@
    &&& retrieval.outcome@ == "allow"@
    &&& retrieval.reason_code@ == "allowed"@
    &&& sha256_text(retrieval.manifest_hash@)
    &&& !blank(retrieval.policy_version@)
    &&& submission.provider_response_id matches Some(response_id) && retrieval.estimated_bytes
        == byte_len(response_id@)
    &&& retrieval.estimated_tokens == 0
}

fn is_retrieval_egress_bound(
    retrieval: &AiEgressEventRecord,
    egress: &AiEgressEventRecord,
    submission: &AiProviderBackgroundSubmissionRecord,
    subject: &str,
    session: &AiSessionRecord,
) -> (result: bool)
    ensures
        result == retrieval_egress_bound(*retrieval, *egress, *submission, subject@, *session),
{
    let bytes_match: bool = match &submission.provider_response_id {
        Some(response_id) => {
            let length: usize = text_len(response_id.as_str());
            retrieval.estimated_bytes >= 0 && retrieval.estimated_bytes as u64 == length as u64
        },
        None => false,
    };
    same_id_option(Some(retrieval.id), submission.retrieval_egress_decision_id) && same_id_option(
        retrieval.run_id,
        Some(submission.run_id),
    ) && same_text(retrieval.principal_subject.as_str(), subject) && same_text(
        retrieval.scope_kind.as_str(),
        session.scope_kind.as_str(),
    ) && same_text(retrieval.scope_id.as_str(), session.scope_id.as_str()) && same_text(
        retrieval.destination.as_str(),
        egress.destination.as_str(),
    ) && same_text(retrieval.capability.as_str(), "model_inference") && same_text(
        retrieval.classification.as_str(),
        egress.classification.as_str(),
    ) && same_text(retrieval.outcome.as_str(), "allow") && same_text(
        retrieval.reason_code.as_str(),
        "allowed",
    ) && valid_sha256_hex(retrieval.manifest_hash.as_str()) && !is_blank(
        retrieval.policy_version.as_str(),
    ) && bytes_match && retrieval.estimated_tokens == 0
}

/// Every row around a submission, looked up by the submission's own columns.
///
/// The lists hold at most two rows each: one more than may exist.
#[derive(Debug, PartialEq, Eq)]
pub struct ClaimGraphSnapshot {
    pub run: Option<AiRunRecord>,
    pub session: Option<AiSessionRecord>,
    pub attempts: Vec<AiRunAttemptRecord>,
    /// Whether the attempt's worker identity is well formed.
    pub attempt_worker_valid: bool,
    pub budget: Option<AiBudgetReservationRecord>,
    pub egress_events: Vec<AiEgressEventRecord>,
    /// Events with the identity of the retrieval decision, where one is bound.
    pub retrieval_events: Vec<AiEgressEventRecord>,
    /// Outcomes of the submission's attempt.
    pub outcomes: Vec<AiRunAttemptOutcomeRecord>,
}

/// What later steps need of the rows around a submission.
#[derive(Debug, PartialEq, Eq)]
pub struct BackgroundClaimGraph {
    pub principal_reference: PrincipalReference,
    pub attempt_worker_id: String,
    pub scope_kind: String,
    pub scope_id: String,
    pub tenant_id: Option<String>,
    pub original_egress_destination: String,
    pub original_maximum_classification: DataClassification,
}

/// Whether all rows exist exactly once and belong together.
pub open spec fn graph_bound(
    snapshot: ClaimGraphSnapshot,
    submission: AiProviderBackgroundSubmissionRecord,
) -> bool {
    let run = snapshot.run->0;
    let reference = run.principal_reference->0;
    let session = snapshot.session->0;
    let attempt = snapshot.attempts@[0];
    let budget = snapshot.budget->0;
    let egress = snapshot.egress_events@[0];
    &&& run.id == submission.run_id
    &&& run.session_id == submission.session_id
    &&& run_parked(run, submission)
    &&& run.latest_checkpoint_id is None
    &&& run.row_version >= 0
    &&& session.id == submission.session_id
    &&& session_owned(session, reference@)
    &&& tenant_agrees(reference@.tenant_id, text_option(session.tenant_id))
    &&& attempt_open(attempt, submission, snapshot.attempt_worker_valid)
    &&& snapshot.outcomes@.len() == 0
    &&& budget_held_uncertain(budget, submission, session)
    &&& original_egress_bound(egress, submission, reference.subject@, session)
    &&& submission.retrieval_egress_decision_id is Some ==> retrieval_egress_bound(
        snapshot.retrieval_events@[0],
        egress,
        submission,
        reference.subject@,
        session,
    )
}

/// Why the rows around a submission cannot be used, in the order of checks.
pub open spec fn graph_fault(
    snapshot: ClaimGraphSnapshot,
    submission: AiProviderBackgroundSubmissionRecord,
) -> Option<OrmErrorCode> {
    if snapshot.run is None {
        Some(OrmErrorCode::NotFound)
    } else if snapshot.run->0.principal_reference is None {
        Some(OrmErrorCode::InternalError)
    } else if snapshot.session is None {
        Some(OrmErrorCode::NotFound)
    } else if snapshot.attempts@.len() != 1 {
        Some(OrmErrorCode::InternalError)
    } else if snapshot.budget is None {
        Some(OrmErrorCode::NotFound)
    } else if snapshot.egress_events@.len() != 1 || submission.provider_response_id is None || (
    submission.retrieval_egress_decision_id is Some && snapshot.retrieval_events@.len() != 1) {
        Some(OrmErrorCode::InternalError)
    } else if !graph_bound(snapshot, submission) {
        Some(OrmErrorCode::InternalError)
    } else if classification_of(snapshot.egress_events@[0].classification@) is None {
        Some(OrmErrorCode::InternalError)
    } else {
        None
    }
}

/// Whether the graph holds what the rows say.
pub open spec fn graph_read(
    graph: BackgroundClaimGraph,
    snapshot: ClaimGraphSnapshot,
) -> bool {
    let session = snapshot.session->0;
    let egress = snapshot.egress_events@[0];
    &&& graph.principal_reference@ == snapshot.run->0.principal_reference->0@
    &&& graph.attempt_worker_id == snapshot.attempts@[0].worker_id
    &&& graph.scope_kind == session.scope_kind
    &&& graph.scope_id == session.scope_id
    &&& graph.tenant_id == session.tenant_id
    &&& graph.original_egress_destination == egress.destination
    &&& classification_of(egress.classification@) == Some(graph.original_maximum_classification)
}

/// Checks every row around a submission and reads what later steps need.
#[verifier::rlimit(30)]
pub fn load_background_claim_graph(
    snapshot: &ClaimGraphSnapshot,
    submission: &AiProviderBackgroundSubmissionRecord,
) -> (result: Result<BackgroundClaimGraph, OrmErrorCode>)
    ensures
        match result {
            Ok(graph) => graph_fault(*snapshot, *submission) is None && graph_read(
                graph,
                *snapshot,
            ),
            Err(code) => graph_fault(*snapshot, *submission) == Some(code),
        },
{
    let run: &AiRunRecord = match &snapshot.run {
        Some(run) => run,
        None => return Err(OrmErrorCode::NotFound),
    };
    let reference: &PrincipalReference = match &run.principal_reference {
        Some(reference) => reference,
        None => return Err(OrmErrorCode::InternalError),
    };
    let session: &AiSessionRecord = match &snapshot.session {
        Some(session) => session,
        None => return Err(OrmErrorCode::NotFound),
    };
    if snapshot.attempts.len() != 1 {
        return Err(OrmErrorCode::InternalError);
    }
    let attempt = &snapshot.attempts[0];
    let budget: &AiBudgetReservationRecord = match &snapshot.budget {
        Some(budget) => budget,
        None => return Err(OrmErrorCode::NotFound),
    };
    if snapshot.egress_events.len() != 1 || submission.provider_response_id.is_none() || (
    submission.retrieval_egress_decision_id.is_some() && snapshot.retrieval_events.len() != 1) {
        return Err(OrmErrorCode::InternalError);
    }
    let egress = &snapshot.egress_events[0];
    let subject: &str = reference.subject.as_str();
    let retrieval_valid: bool = if submission.retrieval_egress_decision_id.is_some() {
        is_retrieval_egress_bound(
            &snapshot.retrieval_events[0],
            egress,
            submission,
            subject,
            session,
        )
    } else {
        true
    };
    if run.id != submission.run_id || run.session_id != submission.session_id || !is_run_parked(
        run,
        submission,
    ) || run.latest_checkpoint_id.is_some() || run.row_version < 0 || session.id
        != submission.session_id || !is_session_owned(session, reference) || !tenant_matches(
        &reference.tenant_id,
        &session.tenant_id,
    ) || !is_attempt_open(attempt, submission, snapshot.attempt_worker_valid)
        || snapshot.outcomes.len() != 0 || !is_budget_held_uncertain(budget, submission, session)
        || !is_original_egress_bound(egress, submission, subject, session) || !retrieval_valid {
        return Err(OrmErrorCode::InternalError);
    }
    let original_maximum_classification: DataClassification = match persisted_classification(
        egress.classification.as_str(),
    ) {
        Some(classification) => classification,
        None => return Err(OrmErrorCode::InternalError),
    };
    Ok(
        BackgroundClaimGraph {
            principal_reference: reference.clone(),
            attempt_worker_id: attempt.worker_id.clone(),
            scope_kind: session.scope_kind.clone(),
            scope_id: session.scope_id.clone(),
            tenant_id: clone_text_option(&session.tenant_id),
            original_egress_destination: egress.destination.clone(),
            original_maximum_classification,
        },
    )
}

/// What the row's identity is derived from.
pub open spec fn row_parts(submission: AiProviderBackgroundSubmissionRecord) -> SubmissionParts {
    SubmissionParts {
        run_id: submission.run_id,
        attempt_id: submission.attempt_id,
        lease_generation: submission.lease_generation,
        provider_profile_id: submission.provider_profile_id@,
        provider_model: submission.provider_model@,
        request_hash: submission.request_hash@,
        budget_reservation_id: submission.budget_reservation_id,
        egress_manifest_hash: submission.egress_manifest_hash@,
    }
}

/// Whether key and identity are those of the row's own columns.
pub open spec fn row_identified(submission: AiProviderBackgroundSubmissionRecord) -> bool {
    &&& submission.id == submission_id_value(row_parts(submission))
    &&& submission.submission_key@ == submission_key_text(row_parts(submission))
}

fn is_row_identified(submission: &AiProviderBackgroundSubmissionRecord) -> (result: bool)
    ensures
        result == row_identified(*submission),
{
    let (submission_key, submission_id) = submission_identity_from_parts(
        submission.run_id,
        submission.attempt_id,
        submission.lease_generation,
        submission.provider_profile_id.as_str(),
        submission.provider_model.as_str(),
        submission.request_hash.as_str(),
        submission.budget_reservation_id,
        submission.egress_manifest_hash.as_str(),
    );
    submission.id == submission_id && same_text(
        submission.submission_key.as_str(),
        submission_key.as_str(),
    )
}

/// Longest response window, in seconds: thirty days where the provider stores
/// the response, else ten minutes.
pub open spec fn maximum_window_seconds(stored: bool) -> int {
    if stored {
        2_592_000
    } else {
        600
    }
}

/// Latest deadline that the row may carry.
pub open spec fn latest_deadline(submission: AiProviderBackgroundSubmissionRecord) -> int {
    let created = submission.provider_created_at->0;
    let submitted = submission.submitted_at->0;
    (if created < submitted {
        created as int
    } else {
        submitted as int
    }) + maximum_window_seconds(submission.provider_store->0)
}

/// Whether the row is an acknowledged, unsettled submission whose every
/// immutable column is well formed and whose retries are within bounds.
pub open spec fn acknowledged_and_open(
    submission: AiProviderBackgroundSubmissionRecord,
    maximum_retries: nat,
) -> bool {
    &&& submission.reconciliation_next_attempt_at is Some
    &&& submission.reconciliation_deadline is Some
    &&& submission.submitted_at is Some
    &&& submission.provider_response_id is Some
    &&& submission.provider_status is Some
    &&& submission.provider_store is Some
    &&& submission.provider_created_at is Some
    &&& latest_deadline(submission) <= i64::MAX
    &&& row_identified(submission)
    &&& submission.provider_kind@ == "openai"@
    &&& bounded_text(submission.provider_profile_id@, 200)
    &&& bounded_text(submission.provider_model@, 1_024)
    &&& submission.maximum_output_tokens > 0
    &&& sha256_text(submission.request_hash@)
    &&& sha256_text(submission.egress_manifest_hash@)
    &&& response_id_text(submission.provider_response_id->0@)
    &&& names_status(submission.provider_status->0@)
    &&& submission.created_at > 0
    &&& submission.provider_created_at->0 > 0
    &&& submission.submitted_at->0 >= submission.created_at
    &&& submission.reconciliation_next_attempt_at->0 >= submission.submitted_at->0
    &&& submission.submitted_at->0 < submission.reconciliation_deadline->0 <= latest_deadline(
        submission,
    )
    &&& submission.safe_error_code is None
    &&& 0 <= submission.reconciliation_retry_count <= submission.reconciliation_generation
    &&& submission.reconciliation_retry_count <= maximum_retries
    &&& submission.reconciled_at is None
    &&& submission.terminal_message_id is None
    &&& submission.row_version >= 1
}

#[verifier::rlimit(30)]
fn is_acknowledged_and_open(
    submission: &AiProviderBackgroundSubmissionRecord,
    maximum_retries: u32,
) -> (result: bool)
    ensures
        result == acknowledged_and_open(*submission, maximum_retries as nat),
{
    let (next_attempt_at, deadline, submitted_at): (i64, i64, i64) = match (
        submission.reconciliation_next_attempt_at,
        submission.reconciliation_deadline,
        submission.submitted_at,
    ) {
        (Some(next), Some(deadline), Some(submitted)) => (next, deadline, submitted),
        _ => return false,
    };
    let response_id: &str = match &submission.provider_response_id {
        Some(value) => value.as_str(),
        None => return false,
    };
    let status: &str = match &submission.provider_status {
        Some(value) => value.as_str(),
        None => return false,
    };
    let (stored, created): (bool, i64) = match (
        submission.provider_store,
        submission.provider_created_at,
    ) {
        (Some(stored), Some(created)) => (stored, created),
        _ => return false,
    };
    let window: i64 = if stored {
        2_592_000
    } else {
        600
    };
    let start: i64 = if created < submitted_at {
        created
    } else {
        submitted_at
    };
    let latest: i64 = match start.checked_add(window) {
        Some(latest) => latest,
        None => return false,
    };
    let retries: i64 = submission.reconciliation_retry_count;
    is_row_identified(submission) && same_text(submission.provider_kind.as_str(), "openai")
        && is_bounded_text(submission.provider_profile_id.as_str(), 200) && is_bounded_text(
        submission.provider_model.as_str(),
        1_024,
    ) && submission.maximum_output_tokens > 0 && valid_sha256_hex(submission.request_hash.as_str())
        && valid_sha256_hex(submission.egress_manifest_hash.as_str()) && valid_response_id(
        response_id,
    ) && valid_provider_status(status) && submission.created_at > 0 && created > 0 && submitted_at
        >= submission.created_at && next_attempt_at >= submitted_at && deadline > submitted_at
        && deadline <= latest && submission.safe_error_code.is_none() && retries >= 0 && retries
        <= submission.reconciliation_generation && retries <= maximum_retries as i64
        && submission.reconciled_at.is_none() && submission.terminal_message_id.is_none()
        && submission.row_version >= 1
}

/// Whether an owner with a well-formed identity holds the row until its next
/// attempt.
pub open spec fn held_until_next_attempt(
    submission: AiProviderBackgroundSubmissionRecord,
    owner_valid: bool,
) -> bool {
    &&& submission.reconciliation_generation > 0
    &&& submission.reconciliation_owner is Some && owner_valid
    &&& submission.reconciliation_lease_expires_at == submission.reconciliation_next_attempt_at
}

/// Whether nobody holds the row.
pub open spec fn held_by_nobody(submission: AiProviderBackgroundSubmissionRecord) -> bool {
    &&& submission.reconciliation_owner is None
    &&& submission.reconciliation_lease_expires_at is None
    &&& submission.retrieval_egress_decision_id is None
}

/// Whether the row may be claimed at this second: it is due, its deadline lies
/// ahead, and either nobody holds it or its holder's lease has run out.
///
/// `owner_valid` tells whether the holder's identity is well formed.
pub open spec fn claimable(
    submission: AiProviderBackgroundSubmissionRecord,
    second: int,
    maximum_retries: nat,
    owner_valid: bool,
) -> bool {
    &&& acknowledged_and_open(submission, maximum_retries)
    &&& submission.reconciliation_next_attempt_at->0 <= second
        < submission.reconciliation_deadline->0
    &&& match submission_state_of(submission.state@) {
        Some(BackgroundSubmissionState::WaitingProvider) => held_by_nobody(submission) && (
        submission.reconciliation_generation > 0 <==> submission.reconciliation_retry_count > 0),
        Some(BackgroundSubmissionState::Reconciling) => held_until_next_attempt(
            submission,
            owner_valid,
        ),
        _ => false,
    }
}

fn is_held_until_next_attempt(
    submission: &AiProviderBackgroundSubmissionRecord,
    owner_valid: bool,
) -> (result: bool)
    ensures
        result == held_until_next_attempt(*submission, owner_valid),
{
    let lease_matches: bool = match (
        submission.reconciliation_lease_expires_at,
        submission.reconciliation_next_attempt_at,
    ) {
        (Some(expiry), Some(next)) => expiry == next,
        (None, None) => true,
        _ => false,
    };
    submission.reconciliation_generation > 0 && submission.reconciliation_owner.is_some()
        && owner_valid && lease_matches
}

fn is_held_by_nobody(submission: &AiProviderBackgroundSubmissionRecord) -> (result: bool)
    ensures
        result == held_by_nobody(*submission),
{
    submission.reconciliation_owner.is_none()
        && submission.reconciliation_lease_expires_at.is_none()
        && submission.retrieval_egress_decision_id.is_none()
}

/// Accepts exactly the rows that may be claimed now.
pub fn validate_claimable_submission(
    submission: &AiProviderBackgroundSubmissionRecord,
    now: UtcTime,
    maximum_retries: u32,
    owner_valid: bool,
) -> (result: Result<(), OrmErrorCode>)
    requires
        now.wf(),
    ensures
        result == if claimable(*submission, now.second(), maximum_retries as nat, owner_valid) {
            Ok::<(), OrmErrorCode>(())
        } else {
            Err(OrmErrorCode::InternalError)
        },
{
    if !is_acknowledged_and_open(submission, maximum_retries) {
        return Err(OrmErrorCode::InternalError);
    }
    let second: i64 = now.unix_timestamp();
    let due: bool = match (
        submission.reconciliation_next_attempt_at,
        submission.reconciliation_deadline,
    ) {
        (Some(next), Some(deadline)) => next <= second && second < deadline,
        _ => false,
    };
    if !due {
        return Err(OrmErrorCode::InternalError);
    }
    let held_correctly: bool = match BackgroundSubmissionState::from_persisted(
        submission.state.as_str(),
    ) {
        Some(BackgroundSubmissionState::WaitingProvider) => is_held_by_nobody(submission) && (
        submission.reconciliation_generation > 0) == (submission.reconciliation_retry_count > 0),
        Some(BackgroundSubmissionState::Reconciling) => is_held_until_next_attempt(
            submission,
            owner_valid,
        ),
        _ => false,
    };
    if held_correctly {
        Ok(())
    } else {
        Err(OrmErrorCode::InternalError)
    }
}

/// Whether the row's deadline has passed at this second.
///
/// `owner_valid` tells whether the holder's identity is well formed.
pub open spec fn expired(
    submission: AiProviderBackgroundSubmissionRecord,
    second: int,
    maximum_retries: nat,
    owner_valid: bool,
) -> bool {
    &&& acknowledged_and_open(submission, maximum_retries)
    &&& submission.reconciliation_deadline->0 <= second
    &&& match submission_state_of(submission.state@) {
        Some(BackgroundSubmissionState::WaitingProvider) => held_by_nobody(submission),
        Some(BackgroundSubmissionState::Reconciling) => held_until_next_attempt(
            submission,
            owner_valid,
        ) && submission.reconciliation_next_attempt_at->0 <= submission.reconciliation_deadline->0,
        _ => false,
    }
}

/// Accepts exactly the rows whose deadline has passed.
pub fn validate_expired_submission(
    submission: &AiProviderBackgroundSubmissionRecord,
    now: UtcTime,
    maximum_retries: u32,
    owner_valid: bool,
) -> (result: Result<(), OrmErrorCode>)
    requires
        now.wf(),
    ensures
        result == if expired(*submission, now.second(), maximum_retries as nat, owner_valid) {
            Ok::<(), OrmErrorCode>(())
        } else {
            Err(OrmErrorCode::InternalError)
        },
{
    if !is_acknowledged_and_open(submission, maximum_retries) {
        return Err(OrmErrorCode::InternalError);
    }
    let second: i64 = now.unix_timestamp();
    let (next, deadline): (i64, i64) = match (
        submission.reconciliation_next_attempt_at,
        submission.reconciliation_deadline,
    ) {
        (Some(next), Some(deadline)) => (next, deadline),
        _ => return Err(OrmErrorCode::InternalError),
    };
    let held_correctly: bool = match BackgroundSubmissionState::from_persisted(
        submission.state.as_str(),
    ) {
        Some(BackgroundSubmissionState::WaitingProvider) => is_held_by_nobody(submission),
        Some(BackgroundSubmissionState::Reconciling) => is_held_until_next_attempt(
            submission,
            owner_valid,
        ) && next <= deadline,
        _ => false,
    };
    if deadline <= second && held_correctly {
        Ok(())
    } else {
        Err(OrmErrorCode::InternalError)
    }
}

/// No row can be claimed and closed as expired at the same second.
pub proof fn claimable_is_not_expired(
    submission: AiProviderBackgroundSubmissionRecord,
    second: int,
    maximum_retries: nat,
    owner_valid: bool,
)
    requires
        claimable(submission, second, maximum_retries, owner_valid),
    ensures
        !expired(submission, second, maximum_retries, owner_valid),
{
}

/// The rows around a submission can be used exactly where each exists once and
/// all belong together: the run is parked for the very attempt, the session is
/// its principal's and active, the attempt is open and has no outcome, the
/// budget of the one call is held as uncertain, and the submission's transfer
/// was allowed. Where a retrieval is bound, its transfer was allowed as well.
pub proof fn usable_graphs_belong_together(
    snapshot: ClaimGraphSnapshot,
    submission: AiProviderBackgroundSubmissionRecord,
)
    ensures
        graph_fault(snapshot, submission) is None <==> {
            let run = snapshot.run->0;
            let reference = run.principal_reference->0;
            let session = snapshot.session->0;
            let attempt = snapshot.attempts@[0];
            let egress = snapshot.egress_events@[0];
            &&& snapshot.run is Some && run.principal_reference is Some
            &&& snapshot.session is Some && snapshot.attempts@.len() == 1
            &&& snapshot.budget is Some && snapshot.egress_events@.len() == 1
            &&& snapshot.outcomes@.len() == 0
            &&& submission.provider_response_id is Some
            &&& run.id == submission.run_id && run.session_id == submission.session_id
            &&& run.state@ == "waiting_provider"@
            &&& run.attempt_id is Some && run.attempt_id->0 == submission.attempt_id
            &&& run.lease_generation == submission.lease_generation
            &&& run.lease_owner is None && run.lease_expires_at is None
            &&& run.lease_heartbeat_at is None && run.next_attempt_at is None
            &&& run.error_code is None && run.latest_checkpoint_id is None
            &&& run.row_version >= 0
            &&& session.id == submission.session_id
            &&& session.state@ == "active"@ && session.deleted_at is None
            &&& session.owner_principal_kind@ == reference@.kind
            &&& session.owner_subject@ == reference.subject@
            &&& reference.tenant_id is None || text_option(reference.tenant_id) == text_option(
                session.tenant_id,
            )
            &&& attempt.id == submission.attempt_id && attempt.run_id == submission.run_id
            &&& attempt.lease_generation == submission.lease_generation
            &&& snapshot.attempt_worker_valid && attempt.claimed_at > 0
            &&& attempt.finished_at is None && attempt.provider_response_id is None
            &&& attempt.outcome_code is None
            &&& budget_held_uncertain(snapshot.budget->0, submission, session)
            &&& original_egress_bound(egress, submission, reference.subject@, session)
            &&& classification_of(egress.classification@) is Some
            &&& submission.retrieval_egress_decision_id is None || snapshot.retrieval_events@.len()
                == 1 && retrieval_egress_bound(
                snapshot.retrieval_events@[0],
                egress,
                submission,
                reference.subject@,
                session,
            )
        },
{
}

/// The budget behind a submission is its own reservation for one tool-free call
/// of its model by the session's owner, still held because what was used is not
/// known, and large enough for the output it may ask for.
pub proof fn uncertain_budgets_hold_one_call(
    budget: AiBudgetReservationRecord,
    submission: AiProviderBackgroundSubmissionRecord,
    session: AiSessionRecord,
)
    ensures
        budget_held_uncertain(budget, submission, session) <==> {
            &&& budget.id == submission.budget_reservation_id
            &&& budget.session_id == submission.session_id
            &&& budget.run_id == submission.run_id
            &&& budget.attempt_id == submission.attempt_id
            &&& budget.lease_generation == submission.lease_generation
            &&& budget.scope_kind@ == session.scope_kind@
            &&& budget.scope_id@ == session.scope_id@
            &&& text_option(budget.tenant_id) == text_option(session.tenant_id)
            &&& budget.principal_kind@ == session.owner_principal_kind@
            &&& budget.principal_subject@ == session.owner_subject@
            &&& budget.provider_kind@ == "openai"@
            &&& budget.provider_model@ == submission.provider_model@
            &&& budget.reserved.input_tokens >= 0
            &&& submission.maximum_output_tokens <= budget.reserved.output_tokens
            &&& budget.reserved.tool_units == 0 && budget.reserved.image_units == 0
            &&& budget.reserved.cost_microunits >= 0 && budget.reserved.runs == 1
            &&& budget.state@ == "uncertain"@
            &&& budget.reconciled_at is Some
            &&& budget.actual.input_tokens is None && budget.actual.output_tokens is None
            &&& budget.actual.tool_units is None && budget.actual.image_units is None
            &&& budget.actual.cost_microunits is None && budget.actual.runs is None
            &&& budget.actual_cached_input_tokens is None
        },
{
}

/// The transfer behind a submission was allowed under its decision, for its
/// run, principal, scope, and manifest; that of a retrieval goes where the
/// first one went, under the same classification, and carries exactly the
/// identifier of the response.
pub proof fn transfers_behind_a_submission_were_allowed(
    egress: AiEgressEventRecord,
    retrieval: AiEgressEventRecord,
    submission: AiProviderBackgroundSubmissionRecord,
    subject: Seq<char>,
    session: AiSessionRecord,
)
    ensures
        original_egress_bound(egress, submission, subject, session) <==> {
            &&& egress.id == submission.egress_decision_id
            &&& egress.run_id is Some && egress.run_id->0 == submission.run_id
            &&& egress.principal_subject@ == subject
            &&& egress.scope_kind@ == session.scope_kind@
            &&& egress.scope_id@ == session.scope_id@
            &&& egress.manifest_hash@ == submission.egress_manifest_hash@
            &&& egress.capability@ == "model_inference"@
            &&& egress.outcome@ == "allow"@
            &&& !blank(egress.destination@) && !blank(egress.policy_version@)
            &&& egress.estimated_bytes >= 0 && egress.estimated_tokens >= 0
        },
        retrieval_egress_bound(retrieval, egress, submission, subject, session) <==> {
            &&& submission.retrieval_egress_decision_id is Some
                && submission.retrieval_egress_decision_id->0 == retrieval.id
            &&& retrieval.run_id is Some && retrieval.run_id->0 == submission.run_id
            &&& retrieval.principal_subject@ == subject
            &&& retrieval.scope_kind@ == session.scope_kind@
            &&& retrieval.scope_id@ == session.scope_id@
            &&& retrieval.destination@ == egress.destination@
            &&& retrieval.classification@ == egress.classification@
            &&& retrieval.capability@ == "model_inference"@
            &&& retrieval.outcome@ == "allow"@
            &&& retrieval.reason_code@ == "allowed"@
            &&& sha256_text(retrieval.manifest_hash@)
            &&& !blank(retrieval.policy_version@)
            &&& submission.provider_response_id is Some && byte_len(
                submission.provider_response_id->0@,
            ) == retrieval.estimated_bytes
            &&& retrieval.estimated_tokens == 0
        },
{
}

/// A submission that waits is claimed from its next attempt on and before its
/// deadline, and one that a worker holds as soon as that worker's lease ran
/// out; from its deadline on it can only be closed.
pub proof fn submissions_are_claimed_when_due(
    submission: AiProviderBackgroundSubmissionRecord,
    second: int,
    maximum_retries: nat,
    owner_valid: bool,
)
    requires
        acknowledged_and_open(submission, maximum_retries),
    ensures
        claimable(submission, second, maximum_retries, owner_valid) <==> {
            &&& submission.reconciliation_next_attempt_at->0 <= second
                < submission.reconciliation_deadline->0
            &&& {
                ||| {
                    &&& submission.state@ == "waiting_provider"@
                    &&& submission.reconciliation_owner is None
                    &&& submission.reconciliation_lease_expires_at is None
                    &&& submission.retrieval_egress_decision_id is None
                    &&& submission.reconciliation_generation > 0
                        <==> submission.reconciliation_retry_count > 0
                }
                ||| {
                    &&& submission.state@ == "reconciling"@
                    &&& submission.reconciliation_owner is Some && owner_valid
                    &&& submission.reconciliation_generation > 0
                    &&& submission.reconciliation_lease_expires_at
                        == submission.reconciliation_next_attempt_at
                }
            }
        },
        expired(submission, second, maximum_retries, owner_valid) <==> {
            &&& submission.reconciliation_deadline->0 <= second
            &&& {
                ||| {
                    &&& submission.state@ == "waiting_provider"@
                    &&& submission.reconciliation_owner is None
                    &&& submission.reconciliation_lease_expires_at is None
                    &&& submission.retrieval_egress_decision_id is None
                }
                ||| {
                    &&& submission.state@ == "reconciling"@
                    &&& submission.reconciliation_owner is Some && owner_valid
                    &&& submission.reconciliation_generation > 0
                    &&& submission.reconciliation_lease_expires_at
                        == submission.reconciliation_next_attempt_at
                    &&& submission.reconciliation_next_attempt_at->0
                        <= submission.reconciliation_deadline->0
                }
            }
        },
{
    submission_states_are_spelled_so(submission.state@);
}

/// A submission is open exactly while the provider has acknowledged it and
/// nothing has settled it, with the identity of its own columns, within its
/// retries, and with a deadline after its submission and at most thirty days,
/// or ten minutes where the provider keeps nothing, after the response or the
/// submission, whichever came first.
pub proof fn open_submissions_are_acknowledged_and_unsettled(
    submission: AiProviderBackgroundSubmissionRecord,
    maximum_retries: nat,
)
    ensures
        acknowledged_and_open(submission, maximum_retries) <==> {
            let created = submission.provider_created_at->0;
            let submitted = submission.submitted_at->0;
            let deadline = submission.reconciliation_deadline->0;
            let window: int = if submission.provider_store->0 {
                30int * 24 * 60 * 60
            } else {
                10int * 60
            };
            &&& submission.provider_response_id is Some && submission.provider_status is Some
            &&& submission.provider_store is Some && submission.provider_created_at is Some
            &&& submission.submitted_at is Some && submission.reconciliation_deadline is Some
            &&& submission.reconciliation_next_attempt_at is Some
            &&& row_identified(submission)
            &&& submission.provider_kind@ == "openai"@
            &&& !blank(submission.provider_profile_id@) && byte_len(
                submission.provider_profile_id@,
            ) <= 200
            &&& !blank(submission.provider_model@) && byte_len(submission.provider_model@) <= 1_024
            &&& submission.maximum_output_tokens > 0
            &&& sha256_text(submission.request_hash@)
            &&& sha256_text(submission.egress_manifest_hash@)
            &&& response_id_text(submission.provider_response_id->0@)
            &&& names_status(submission.provider_status->0@)
            &&& 0 < submission.created_at <= submitted
            &&& created > 0
            &&& submitted <= submission.reconciliation_next_attempt_at->0
            &&& submitted < deadline && deadline <= created + window && deadline <= submitted
                + window
            &&& created + window <= i64::MAX || submitted + window <= i64::MAX
            &&& 0 <= submission.reconciliation_retry_count <= maximum_retries
            &&& submission.reconciliation_retry_count <= submission.reconciliation_generation
            &&& submission.safe_error_code is None && submission.reconciled_at is None
            &&& submission.terminal_message_id is None
            &&& submission.row_version >= 1
        },
{
}

/// What a claim reads of the rows is what they say, each from its own row.
pub proof fn graphs_read_their_rows(graph: BackgroundClaimGraph, snapshot: ClaimGraphSnapshot)
    requires
        graph_read(graph, snapshot),
    ensures
        graph.principal_reference@ == snapshot.run->0.principal_reference->0@,
        graph.attempt_worker_id@ == snapshot.attempts@[0].worker_id@,
        graph.scope_kind@ == snapshot.session->0.scope_kind@,
        graph.scope_id@ == snapshot.session->0.scope_id@,
        text_option(graph.tenant_id) == text_option(snapshot.session->0.tenant_id),
        graph.original_egress_destination@ == snapshot.egress_events@[0].destination@,
        classification_of(snapshot.egress_events@[0].classification@) == Some(
            graph.original_maximum_classification,
        ),
{
}

/// A graph without its run, session, or budget row is not found; one whose rows
/// do not belong together is a fault of the store.
pub proof fn broken_graphs_say_what_is_missing(
    snapshot: ClaimGraphSnapshot,
    submission: AiProviderBackgroundSubmissionRecord,
)
    ensures
        graph_fault(snapshot, submission) is Some ==> graph_fault(snapshot, submission) == Some(
            if snapshot.run is None || (snapshot.run->0.principal_reference is Some && (
            snapshot.session is None || (snapshot.attempts@.len() == 1 && snapshot.budget is None)))
            {
                OrmErrorCode::NotFound
            } else {
                OrmErrorCode::InternalError
            },
        ),
{
}

} // verus!
